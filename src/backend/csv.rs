//! The backend that appends each snapshot to CSV files: which rows a
//! snapshot gives.
use vstd::prelude::*;

use crate::device::Device;
use crate::settings::{Named, CSV};

verus! {

/// The backend that appends each snapshot to CSV files in `out_dir`.
pub struct Csv {
    pub out_dir: String,
}

/// Settings of the CSV backend.
pub struct Settings {
    pub out_dir: String,
}


impl Named for Csv {
    open spec fn spec_name() -> Seq<char> {
        CSV@
    }

    fn name() -> (r: &'static str) {
        CSV
    }
}

/// One row of the temperature file.
pub struct TemperatureRecord {
    pub timestamp: u64,
    pub id: String,
    pub temperature: i16,
    pub offset: i16,
}

/// One row of the energy file.
pub struct EnergyRecord {
    pub timestamp: u64,
    pub id: String,
    pub voltage: u32,
    pub power: u32,
}

impl View for TemperatureRecord {
    type V = (u64, Seq<char>, i16, i16);

    open spec fn view(&self) -> (u64, Seq<char>, i16, i16) {
        (self.timestamp, self.id@, self.temperature, self.offset)
    }
}

impl View for EnergyRecord {
    type V = (u64, Seq<char>, u32, u32);

    open spec fn view(&self) -> (u64, Seq<char>, u32, u32) {
        (self.timestamp, self.id@, self.voltage, self.power)
    }
}

/// A temperature row for each device with a temperature reading, in order.
pub open spec fn temperature_rows(ts: u64, ds: Seq<Device>) -> Seq<(u64, Seq<char>, i16, i16)>
    decreases ds.len(),
{
    if ds.len() == 0 {
        seq![]
    } else {
        let rest = temperature_rows(ts, ds.drop_last());
        match ds.last().temperature {
            Some(t) => rest.push((ts, ds.last().common.unique_id@, t.temperature, t.offset)),
            None => rest,
        }
    }
}

/// An energy row for each device with a power meter, in order.
pub open spec fn energy_rows(ts: u64, ds: Seq<Device>) -> Seq<(u64, Seq<char>, u32, u32)>
    decreases ds.len(),
{
    if ds.len() == 0 {
        seq![]
    } else {
        let rest = energy_rows(ts, ds.drop_last());
        match ds.last().powermeter {
            Some(p) => rest.push((ts, ds.last().common.unique_id@, p.voltage, p.power)),
            None => rest,
        }
    }
}

impl Csv {
    /// The temperature rows of one snapshot taken at `timestamp` seconds.
    pub fn temperature_records(timestamp: u64, data: &Vec<Device>) -> (r: Vec<TemperatureRecord>)
        ensures
            r@.map_values(|x: TemperatureRecord| x@) == temperature_rows(timestamp, data@),
    {
        let mut out: Vec<TemperatureRecord> = Vec::new();
        let mut i: usize = 0;
        while i < data.len()
            invariant
                i <= data@.len(),
                out@.map_values(|x: TemperatureRecord| x@) == temperature_rows(
                    timestamp,
                    data@.take(i as int),
                ),
            decreases data@.len() - i,
        {
            let d = &data[i];
            assert(data@.take(i + 1).drop_last() =~= data@.take(i as int));
            assert(data@.take(i + 1).last() == *d);
            let ghost before = out@;
            match &d.temperature {
                Some(t) => {
                    let rec = TemperatureRecord {
                        timestamp,
                        id: d.common.unique_id.clone(),
                        temperature: t.temperature,
                        offset: t.offset,
                    };
                    out.push(rec);
                    assert(out@.map_values(|x: TemperatureRecord| x@) =~= before.map_values(
                        |x: TemperatureRecord| x@,
                    ).push(rec@));
                },
                None => {},
            }
            i = i + 1;
        }
        assert(data@.take(i as int) =~= data@);
        out
    }

    /// The energy rows of one snapshot taken at `timestamp` seconds.
    pub fn energy_records(timestamp: u64, data: &Vec<Device>) -> (r: Vec<EnergyRecord>)
        ensures
            r@.map_values(|x: EnergyRecord| x@) == energy_rows(timestamp, data@),
    {
        let mut out: Vec<EnergyRecord> = Vec::new();
        let mut i: usize = 0;
        while i < data.len()
            invariant
                i <= data@.len(),
                out@.map_values(|x: EnergyRecord| x@) == energy_rows(timestamp, data@.take(i as int)),
            decreases data@.len() - i,
        {
            let d = &data[i];
            assert(data@.take(i + 1).drop_last() =~= data@.take(i as int));
            assert(data@.take(i + 1).last() == *d);
            let ghost before = out@;
            match &d.powermeter {
                Some(p) => {
                    let rec = EnergyRecord {
                        timestamp,
                        id: d.common.unique_id.clone(),
                        voltage: p.voltage,
                        power: p.power,
                    };
                    out.push(rec);
                    assert(out@.map_values(|x: EnergyRecord| x@) =~= before.map_values(
                        |x: EnergyRecord| x@,
                    ).push(rec@));
                },
                None => {},
            }
            i = i + 1;
        }
        assert(data@.take(i as int) =~= data@);
        out
    }
}

} // verus!
