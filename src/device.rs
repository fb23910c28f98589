//! The device list that the gateway reports, read out of its XML reply.
use vstd::prelude::*;

use crate::number::{parse_i16, parse_u16, parse_u32, signed_value, unsigned_value};
use crate::xml::{
    attribute, child, child_indices, child_text, children, get_attrib, get_child, get_child_text,
    parse_document, same_text, xml_nodes_of, XmlDoc, XmlError,
};

verus! {

pub const HANFUN_DEVICE: u16 = 0x1;

pub const ALARM_SENSOR: u16 = 0x10;

pub const RADIATOR_CONTROL: u16 = 0x40;

pub const ENERGY_METER: u16 = 0x80;

pub const TEMPERATURE_SENSOR: u16 = 0x100;

pub const SWITCH_SOCKET: u16 = 0x200;

pub const AVM_DECT_REPEATER: u16 = 0x400;

pub const MICROPHONE: u16 = 0x800;

pub const HANFUN_UNIT: u16 = 0x2000;

/// Every function bit that has a meaning.
pub const ALL_FUNCTIONS: u16 = 0x2FD1;

/// The functions of a device, as a bit set.
#[derive(Debug, Clone, Copy, PartialEq, Eq, Structural)]
pub struct Functions {
    pub bits: u16,
}

impl Functions {
    /// The set of the known functions among `bits`; unknown bits are dropped.
    pub fn from_bits_truncate(bits: u16) -> (r: Functions)
        ensures
            r.bits == bits & ALL_FUNCTIONS,
    {
        Functions { bits: bits & ALL_FUNCTIONS }
    }

    /// Whether every function of `flags` is in the set.
    pub fn contains(&self, flags: u16) -> (r: bool)
        ensures
            r == (self.bits & flags == flags),
    {
        self.bits & flags == flags
    }
}

#[derive(Debug)]
pub struct Common {
    pub unique_id: String,
    pub internal_id: u32,
    pub functions: Functions,
    pub fwversion: String,
    pub manufacturer: String,
    pub productname: String,
    pub name: String,
    pub present: bool,
}

/// Temperature in tenths of a degree Celsius, and the offset set for the sensor.
#[derive(Debug)]
pub struct Temperature {
    pub temperature: i16,
    pub offset: i16,
}

#[derive(Debug)]
pub struct Powermeter {
    pub voltage: u32,
    pub power: u32,
    pub energy: u32,
}

#[derive(Debug)]
pub struct Device {
    pub common: Common,
    pub temperature: Option<Temperature>,
    pub powermeter: Option<Powermeter>,
}

pub enum DeviceError {
    Xml(XmlError),
    /// A field holds no number of its type.
    Number(String),
    /// `present` is neither 0 nor 1.
    Present,
}

pub open spec fn u32_of(t: Option<Seq<char>>) -> Option<int> {
    match t {
        Some(s) => unsigned_value(s, u32::MAX as int),
        None => None,
    }
}

pub open spec fn u16_of(t: Option<Seq<char>>) -> Option<int> {
    match t {
        Some(s) => unsigned_value(s, u16::MAX as int),
        None => None,
    }
}

pub open spec fn i16_of(t: Option<Seq<char>>) -> Option<int> {
    match t {
        Some(s) => signed_value(s, i16::MAX as int),
        None => None,
    }
}

pub open spec fn present_of(t: Option<Seq<char>>) -> Option<bool> {
    match t {
        Some(s) => if s == "0"@ {
            Some(false)
        } else if s == "1"@ {
            Some(true)
        } else {
            None
        },
        None => None,
    }
}

/// Whether the common part of the device at node `n` reads.
pub open spec fn common_ok(doc: XmlDoc, n: usize) -> bool {
    &&& attribute(doc, n as int, "identifier"@) is Some
    &&& u32_of(attribute(doc, n as int, "id"@)) is Some
    &&& u16_of(attribute(doc, n as int, "functionbitmask"@)) is Some
    &&& attribute(doc, n as int, "fwversion"@) is Some
    &&& attribute(doc, n as int, "manufacturer"@) is Some
    &&& attribute(doc, n as int, "productname"@) is Some
    &&& child_text(doc, n, "name"@) is Some
    &&& present_of(child_text(doc, n, "present"@)) is Some
}

pub open spec fn common_matches(doc: XmlDoc, n: usize, c: Common) -> bool {
    &&& c.unique_id@ == attribute(doc, n as int, "identifier"@)->0
    &&& c.internal_id as int == u32_of(attribute(doc, n as int, "id"@))->0
    &&& c.functions.bits == (u16_of(attribute(doc, n as int, "functionbitmask"@))->0 as u16)
        & ALL_FUNCTIONS
    &&& c.fwversion@ == attribute(doc, n as int, "fwversion"@)->0
    &&& c.manufacturer@ == attribute(doc, n as int, "manufacturer"@)->0
    &&& c.productname@ == attribute(doc, n as int, "productname"@)->0
    &&& c.name@ == child_text(doc, n, "name"@)->0
    &&& c.present == present_of(child_text(doc, n, "present"@))->0
}

pub open spec fn temperature_ok(doc: XmlDoc, n: usize) -> bool {
    &&& child(doc, n, "temperature"@) is Some
    &&& i16_of(child_text(doc, child(doc, n, "temperature"@)->0 as usize, "celsius"@)) is Some
    &&& i16_of(child_text(doc, child(doc, n, "temperature"@)->0 as usize, "offset"@)) is Some
}

pub open spec fn temperature_matches(doc: XmlDoc, n: usize, t: Temperature) -> bool {
    let p = child(doc, n, "temperature"@)->0 as usize;
    &&& t.temperature as int == i16_of(child_text(doc, p, "celsius"@))->0
    &&& t.offset as int == i16_of(child_text(doc, p, "offset"@))->0
}

pub open spec fn powermeter_ok(doc: XmlDoc, n: usize) -> bool {
    let p = child(doc, n, "powermeter"@)->0 as usize;
    &&& child(doc, n, "powermeter"@) is Some
    &&& u32_of(child_text(doc, p, "voltage"@)) is Some
    &&& u32_of(child_text(doc, p, "power"@)) is Some
    &&& u32_of(child_text(doc, p, "energy"@)) is Some
}

pub open spec fn powermeter_matches(doc: XmlDoc, n: usize, m: Powermeter) -> bool {
    let p = child(doc, n, "powermeter"@)->0 as usize;
    &&& m.voltage as int == u32_of(child_text(doc, p, "voltage"@))->0
    &&& m.power as int == u32_of(child_text(doc, p, "power"@))->0
    &&& m.energy as int == u32_of(child_text(doc, p, "energy"@))->0
}

/// The function bits that the device at node `n` reports.
pub open spec fn functions_at(doc: XmlDoc, n: usize) -> u16 {
    (u16_of(attribute(doc, n as int, "functionbitmask"@))->0 as u16) & ALL_FUNCTIONS
}

pub open spec fn has_flag(bits: u16, flag: u16) -> bool {
    bits & flag == flag
}

/// Whether the device at node `n` reads: its common part, and the readings
/// that its function bits announce.
pub open spec fn device_ok(doc: XmlDoc, n: usize) -> bool {
    &&& common_ok(doc, n)
    &&& has_flag(functions_at(doc, n), TEMPERATURE_SENSOR) ==> temperature_ok(doc, n)
    &&& has_flag(functions_at(doc, n), ENERGY_METER) ==> powermeter_ok(doc, n)
}

pub open spec fn device_matches(doc: XmlDoc, n: usize, d: Device) -> bool {
    &&& common_matches(doc, n, d.common)
    &&& (d.temperature is Some <==> has_flag(functions_at(doc, n), TEMPERATURE_SENSOR))
    &&& (d.temperature matches Some(t) ==> temperature_matches(doc, n, t))
    &&& (d.powermeter is Some <==> has_flag(functions_at(doc, n), ENERGY_METER))
    &&& (d.powermeter matches Some(m) ==> powermeter_matches(doc, n, m))
}

pub open spec fn is_device_node(doc: XmlDoc, j: usize) -> bool {
    doc.nodes@[j as int].name@ == "device"@ || doc.nodes@[j as int].name@ == "group"@
}

/// The nodes among `kids` that are devices or groups, in order.
pub open spec fn device_nodes(doc: XmlDoc, kids: Seq<usize>) -> Seq<usize>
    decreases kids.len(),
{
    if kids.len() == 0 {
        seq![]
    } else {
        let rest = device_nodes(doc, kids.drop_last());
        if is_device_node(doc, kids.last()) {
            rest.push(kids.last())
        } else {
            rest
        }
    }
}

/// Index of the device list element under the document root.
pub open spec fn list_node(doc: XmlDoc) -> usize {
    child(doc, 0, "devicelist"@)->0 as usize
}

pub open spec fn listed_devices(doc: XmlDoc) -> Seq<usize> {
    device_nodes(doc, children(doc, list_node(doc)))
}

/// Whether the device list and every device or group in it read.
pub open spec fn devices_readable(doc: XmlDoc) -> bool {
    &&& child(doc, 0, "devicelist"@) is Some
    &&& forall|i: int|
        0 <= i < listed_devices(doc).len() ==> device_ok(doc, #[trigger] listed_devices(doc)[i])
}

/// Whether `ds` are the listed devices, in order.
pub open spec fn devices_match(doc: XmlDoc, ds: Seq<Device>) -> bool {
    &&& ds.len() == listed_devices(doc).len()
    &&& forall|i: int|
        0 <= i < ds.len() ==> device_matches(doc, #[trigger] listed_devices(doc)[i], ds[i])
}

fn xml_err<T>(r: Result<T, XmlError>) -> (o: Result<T, DeviceError>)
    ensures
        r is Ok <==> o is Ok,
        r is Ok ==> o == Ok::<T, DeviceError>(r->Ok_0),
{
    match r {
        Ok(v) => Ok(v),
        Err(e) => Err(DeviceError::Xml(e)),
    }
}

fn number_err<T>(r: Option<T>, field: &str) -> (o: Result<T, DeviceError>)
    ensures
        r is Some <==> o is Ok,
        r is Some ==> o == Ok::<T, DeviceError>(r->0),
{
    match r {
        Some(v) => Ok(v),
        None => Err(DeviceError::Number(String::from_str(field))),
    }
}

impl Common {
    pub fn parse(doc: &XmlDoc, node: usize) -> (r: Result<Common, DeviceError>)
        requires
            node < doc.nodes@.len(),
        ensures
            r is Ok <==> common_ok(*doc, node),
            r is Ok ==> common_matches(*doc, node, r->Ok_0),
    {
        let unique_id = xml_err(get_attrib(doc, node, "identifier"))?;
        let id_text = xml_err(get_attrib(doc, node, "id"))?;
        let internal_id = number_err(parse_u32(id_text.as_str()), "id")?;
        let bits_text = xml_err(get_attrib(doc, node, "functionbitmask"))?;
        let bits = number_err(parse_u16(bits_text.as_str()), "functionbitmask")?;
        let fwversion = xml_err(get_attrib(doc, node, "fwversion"))?;
        let manufacturer = xml_err(get_attrib(doc, node, "manufacturer"))?;
        let productname = xml_err(get_attrib(doc, node, "productname"))?;
        let name = xml_err(get_child_text(doc, node, "name"))?;
        let present_text = xml_err(get_child_text(doc, node, "present"))?;
        let present = if same_text(present_text.as_str(), "0") {
            false
        } else if same_text(present_text.as_str(), "1") {
            true
        } else {
            return Err(DeviceError::Present);
        };
        Ok(
            Common {
                unique_id,
                internal_id,
                functions: Functions::from_bits_truncate(bits),
                fwversion,
                manufacturer,
                productname,
                name,
                present,
            },
        )
    }
}

impl Temperature {
    pub fn parse(doc: &XmlDoc, node: usize) -> (r: Result<Temperature, DeviceError>)
        ensures
            r is Ok <==> temperature_ok(*doc, node),
            r is Ok ==> temperature_matches(*doc, node, r->Ok_0),
    {
        let t = xml_err(get_child(doc, node, "temperature"))?;
        let celsius = xml_err(get_child_text(doc, t, "celsius"))?;
        let temperature = number_err(parse_i16(celsius.as_str()), "celsius")?;
        let offset_text = xml_err(get_child_text(doc, t, "offset"))?;
        let offset = number_err(parse_i16(offset_text.as_str()), "offset")?;
        Ok(Temperature { temperature, offset })
    }
}

impl Powermeter {
    pub fn parse(doc: &XmlDoc, node: usize) -> (r: Result<Powermeter, DeviceError>)
        ensures
            r is Ok <==> powermeter_ok(*doc, node),
            r is Ok ==> powermeter_matches(*doc, node, r->Ok_0),
    {
        let p = xml_err(get_child(doc, node, "powermeter"))?;
        let v = xml_err(get_child_text(doc, p, "voltage"))?;
        let voltage = number_err(parse_u32(v.as_str()), "voltage")?;
        let w = xml_err(get_child_text(doc, p, "power"))?;
        let power = number_err(parse_u32(w.as_str()), "power")?;
        let e = xml_err(get_child_text(doc, p, "energy"))?;
        let energy = number_err(parse_u32(e.as_str()), "energy")?;
        Ok(Powermeter { voltage, power, energy })
    }
}

impl Device {
    pub fn parse(doc: &XmlDoc, node: usize) -> (r: Result<Device, DeviceError>)
        requires
            node < doc.nodes@.len(),
        ensures
            r is Ok <==> device_ok(*doc, node),
            r is Ok ==> device_matches(*doc, node, r->Ok_0),
    {
        let common = Common::parse(doc, node)?;
        let mut temperature = None;
        let mut powermeter = None;
        if common.functions.contains(TEMPERATURE_SENSOR) {
            temperature = Some(Temperature::parse(doc, node)?);
        }
        if common.functions.contains(ENERGY_METER) {
            powermeter = Some(Powermeter::parse(doc, node)?);
        }
        Ok(Device { common, temperature, powermeter })
    }
}


/// All devices and groups of a device list reply, in document order.
pub fn devices_from_xml(doc: &XmlDoc) -> (r: Result<Vec<Device>, DeviceError>)
    ensures
        r is Ok <==> devices_readable(*doc),
        r is Ok ==> devices_match(*doc, r->Ok_0@),
{
    let list = xml_err(get_child(doc, 0, "devicelist"))?;
    let kids = child_indices(doc, list);
    let ghost nodes = device_nodes(*doc, kids@);
    let mut out: Vec<Device> = Vec::new();
    let mut i: usize = 0;
    while i < kids.len()
        invariant
            i <= kids@.len(),
            kids@ == children(*doc, list),
            list == list_node(*doc),
            nodes == device_nodes(*doc, kids@),
            forall|k: int| 0 <= k < kids@.len() ==> (#[trigger] kids@[k]) < doc.nodes@.len(),
            out@.len() == device_nodes(*doc, kids@.take(i as int)).len(),
            forall|k: int| 0 <= k < device_nodes(*doc, kids@.take(i as int)).len() ==> device_ok(
                *doc,
                #[trigger] device_nodes(*doc, kids@.take(i as int))[k],
            ),
            forall|k: int| 0 <= k < out@.len() ==> device_matches(
                *doc,
                #[trigger] device_nodes(*doc, kids@.take(i as int))[k],
                out@[k],
            ),
        decreases kids@.len() - i,
    {
        let j = kids[i];
        let ghost before = device_nodes(*doc, kids@.take(i as int));
        assert(kids@.take(i + 1).drop_last() =~= kids@.take(i as int));
        assert(kids@.take(i + 1).last() == j);
        let nm = doc.nodes[j].name.as_str();
        if same_text(nm, "device") || same_text(nm, "group") {
            assert(device_nodes(*doc, kids@.take(i + 1)) == before.push(j));
            match Device::parse(doc, j) {
                Ok(d) => {
                    out.push(d);
                },
                Err(e) => {
                    proof {
                        lemma_device_nodes_prefix(*doc, kids@, i as int + 1);
                        assert(device_nodes(*doc, kids@.take(i + 1))[before.len() as int] == j);
                        assert(nodes[before.len() as int] == j);
                        assert(listed_devices(*doc) == nodes);
                        assert(!device_ok(*doc, listed_devices(*doc)[before.len() as int]));
                    }
                    return Err(e);
                },
            }
        } else {
            assert(device_nodes(*doc, kids@.take(i + 1)) == before);
        }
        i = i + 1;
    }
    assert(kids@.take(i as int) =~= kids@);
    Ok(out)
}

/// The devices listed up to a point come first among all listed devices.
proof fn lemma_device_nodes_prefix(doc: XmlDoc, kids: Seq<usize>, i: int)
    requires
        0 <= i <= kids.len(),
    ensures
        device_nodes(doc, kids.take(i)).len() <= device_nodes(doc, kids).len(),
        forall|k: int| 0 <= k < device_nodes(doc, kids.take(i)).len() ==> (#[trigger] device_nodes(doc, kids.take(i))[k]) == device_nodes(doc, kids)[k],
    decreases kids.len() - i,
{
    if i < kids.len() {
        lemma_device_nodes_prefix(doc, kids, i + 1);
        let t = kids.take(i + 1);
        assert(t.drop_last() =~= kids.take(i));
        assert(t.last() == kids[i]);
        let a = device_nodes(doc, kids.take(i));
        let b = device_nodes(doc, t);
        assert(b == (if is_device_node(doc, kids[i]) {
            a.push(kids[i])
        } else {
            a
        }));
        assert forall|k: int| 0 <= k < a.len() implies (#[trigger] a[k]) == device_nodes(doc, kids)[k] by {
            assert(a[k] == b[k]);
        }
    } else {
        assert(kids.take(i) =~= kids);
    }
}

/// Reads a device list reply body.
pub fn parse_devices(body: &str) -> (r: Result<Vec<Device>, DeviceError>)
    ensures
        xml_nodes_of(body@) is None ==> r matches Err(DeviceError::Xml(XmlError::Syntax)),
        xml_nodes_of(body@) is Some ==> exists|d: XmlDoc|
            d@ == xml_nodes_of(body@)->0 && (r is Ok <==> devices_readable(d)) && (r is Ok
                ==> devices_match(d, r->Ok_0@)),
{
    match parse_document(body) {
        Ok(doc) => devices_from_xml(&doc),
        Err(e) => Err(DeviceError::Xml(e)),
    }
}

} // verus!
