use fritz_logger::device::{parse_devices, DeviceError, Functions, ALL_FUNCTIONS, ENERGY_METER, TEMPERATURE_SENSOR};
use fritz_logger::xml::XmlError;

#[test]
fn device_list_reads() {
    let body = r#"<devicelist version="1"><device identifier="11657 0240192" id="16" functionbitmask="896" fwversion="03.33" manufacturer="AVM" productname="FRITZ!DECT 200"><present>1</present><name>Lamp</name><powermeter><voltage>230051</voltage><power>0</power><energy>707</energy></powermeter><temperature><celsius>285</celsius><offset>0</offset></temperature></device><group identifier="900" id="900" functionbitmask="4160" fwversion="1.0" manufacturer="AVM" productname=""><present>1</present><name>Group</name></group><other/></devicelist>"#;
    let devices = parse_devices(body).ok().unwrap();
    assert_eq!(devices.len(), 2);
    let d = &devices[0];
    assert_eq!(d.common.unique_id, "11657 0240192");
    assert_eq!(d.common.internal_id, 16);
    assert_eq!(d.common.functions.bits, 896);
    assert_eq!(d.common.fwversion, "03.33");
    assert_eq!(d.common.manufacturer, "AVM");
    assert_eq!(d.common.productname, "FRITZ!DECT 200");
    assert_eq!(d.common.name, "Lamp");
    assert!(d.common.present);
    let t = d.temperature.as_ref().unwrap();
    assert_eq!((t.temperature, t.offset), (285, 0));
    let p = d.powermeter.as_ref().unwrap();
    assert_eq!((p.voltage, p.power, p.energy), (230051, 0, 707));
    let g = &devices[1];
    assert_eq!(g.common.name, "Group");
    assert_eq!(g.common.functions.bits, 64);
    assert!(g.temperature.is_none());
    assert!(g.powermeter.is_none());
}

#[test]
fn present_must_be_zero_or_one() {
    let body = r#"<devicelist><device identifier="1" id="1" functionbitmask="0" fwversion="1" manufacturer="AVM" productname="x"><present>2</present><name>n</name></device></devicelist>"#;
    assert!(matches!(parse_devices(body), Err(DeviceError::Present)));
}

#[test]
fn announced_reading_must_be_there() {
    let body = r#"<devicelist><device identifier="1" id="1" functionbitmask="256" fwversion="1" manufacturer="AVM" productname="x"><present>1</present><name>n</name></device></devicelist>"#;
    assert!(matches!(
        parse_devices(body),
        Err(DeviceError::Xml(XmlError::MissingChild(ref n))) if n == "temperature"
    ));
}

#[test]
fn bad_number_is_reported() {
    let body = r#"<devicelist><device identifier="1" id="x" functionbitmask="0" fwversion="1" manufacturer="AVM" productname="x"><present>1</present><name>n</name></device></devicelist>"#;
    assert!(matches!(parse_devices(body), Err(DeviceError::Number(ref f)) if f == "id"));
}

#[test]
fn missing_list_is_reported() {
    assert!(matches!(
        parse_devices("<other/>"),
        Err(DeviceError::Xml(XmlError::MissingChild(ref n))) if n == "devicelist"
    ));
}

#[test]
fn unknown_function_bits_are_dropped() {
    assert_eq!(Functions::from_bits_truncate(0xFFFF).bits, ALL_FUNCTIONS);
    let f = Functions::from_bits_truncate(896);
    assert!(f.contains(ENERGY_METER));
    assert!(f.contains(TEMPERATURE_SENSOR | ENERGY_METER));
    assert!(!Functions::from_bits_truncate(128).contains(TEMPERATURE_SENSOR));
}
