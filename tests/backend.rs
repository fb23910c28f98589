use fritz_logger::backend::csv::Csv;
use fritz_logger::backend::{BackendKind, DispatchError, Dispatcher};
use fritz_logger::device::parse_devices;
use fritz_logger::settings::{add_defaults, load, ConfigError, ConfigStore, Entry, Section, Value};

fn store() -> ConfigStore {
    let mut store = ConfigStore::new();
    assert!(add_defaults(&mut store, Section::Base).is_ok());
    store
}

fn names(list: &[&str]) -> Vec<String> {
    list.iter().map(|s| s.to_string()).collect()
}

#[test]
fn unknown_backend_lists_the_known_ones() {
    let mut store = store();
    match Dispatcher::init(&mut store, &names(&["Console", "Syslog"])) {
        Err(DispatchError::UnknownBackend { name, known }) => {
            assert_eq!(name, "Syslog");
            assert_eq!(known, names(&["Console", "Csv"]));
        }
        _ => panic!("expected an unknown backend"),
    }
}

#[test]
fn backend_names_are_case_sensitive() {
    let mut store = store();
    assert!(matches!(
        Dispatcher::init(&mut store, &names(&["console"])),
        Err(DispatchError::UnknownBackend { .. })
    ));
}

#[test]
fn disabled_backend_settings_are_not_read() {
    let mut store = store();
    load(&mut store, vec![Entry { section: "Csv".to_string(), key: "out_dir".to_string(), value: Value::Int(3) }]);
    assert!(Dispatcher::register_backends(&mut store).is_err());
    let d = Dispatcher::new(&store, &names(&["Console"])).ok().unwrap();
    assert!(d.console.is_some());
    assert!(d.csv.is_none());
}

#[test]
fn enabled_backend_with_bad_settings_fails() {
    let mut store = store();
    assert!(Dispatcher::register_backends(&mut store).is_ok());
    load(&mut store, vec![Entry { section: "Csv".to_string(), key: "out_dir".to_string(), value: Value::Int(3) }]);
    assert!(matches!(
        Dispatcher::new(&store, &names(&["Csv"])),
        Err(DispatchError::Config(ConfigError::WrongType { .. }))
    ));
}

#[test]
fn both_backends_receive_each_snapshot() {
    let mut store = store();
    let d = Dispatcher::init(&mut store, &names(&["Csv", "Console"])).ok().unwrap();
    assert_eq!(d.csv.as_ref().unwrap().out_dir, ".");
    assert_eq!(d.dispatch(), vec![BackendKind::Console, BackendKind::Csv]);
}

#[test]
fn no_backend_enabled_dispatches_nothing() {
    let mut store = store();
    let d = Dispatcher::init(&mut store, &Vec::new()).ok().unwrap();
    assert!(d.dispatch().is_empty());
}

#[test]
fn register_backends_names_them() {
    let mut store = store();
    assert_eq!(Dispatcher::register_backends(&mut store).ok().unwrap(), names(&["Console", "Csv"]));
}

#[test]
fn failure_message_names_the_backend() {
    assert_eq!(BackendKind::Csv.failure_message(), "Backend Csv failed");
    assert_eq!(BackendKind::Console.failure_message(), "Backend Console failed");
}

const LIST: &str = r#"<devicelist version="1">
<device identifier="08761 0000434" id="17" functionbitmask="896" fwversion="03.33" manufacturer="AVM" productname="FRITZ!DECT 200">
<present>1</present><name>Socket</name>
<switch><state>1</state></switch>
<powermeter><voltage>230051</voltage><power>2500</power><energy>7000</energy></powermeter>
<temperature><celsius>215</celsius><offset>-5</offset></temperature>
</device>
<device identifier="0815" id="18" functionbitmask="320" fwversion="1" manufacturer="AVM" productname="Comet">
<present>0</present><name>Radiator</name>
<temperature><celsius>-15</celsius><offset>0</offset></temperature>
</device>
</devicelist>"#;

#[test]
fn csv_rows_for_each_reading() {
    let devices = parse_devices(LIST).ok().unwrap();
    let t = Csv::temperature_records(1000, &devices);
    assert_eq!(t.len(), 2);
    assert_eq!((t[0].timestamp, t[0].id.as_str(), t[0].temperature, t[0].offset), (1000, "08761 0000434", 215, -5));
    assert_eq!((t[1].timestamp, t[1].id.as_str(), t[1].temperature, t[1].offset), (1000, "0815", -15, 0));
    let e = Csv::energy_records(7, &devices);
    assert_eq!(e.len(), 1);
    assert_eq!((e[0].timestamp, e[0].id.as_str(), e[0].voltage, e[0].power), (7, "08761 0000434", 230051, 2500));
}
