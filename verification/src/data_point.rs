//! Telemetry samples: one named physical quantity with its numeric payload,
//! timestamped when the diagnostic-interface collaborator produced it.

use vstd::prelude::*;

verus! {

/// One named physical quantity with its numeric payload. The gauge renders
/// only the rotational-speed variant; other variants are carried for the
/// display and the supervisor.
#[derive(Clone, Copy, PartialEq, Eq, Structural, Debug)]
pub enum Datum {
    /// Rotational speed in revolutions per minute.
    RPM(u32),
    /// Battery voltage in millivolts.
    BatteryVoltage(u32),
}

/// One telemetry sample: a datum plus the time it was captured, in
/// milliseconds since device start.
#[derive(Clone, Copy, PartialEq, Eq, Structural, Debug)]
pub struct DataPoint {
    pub data: Datum,
    pub time_ms: u64,
}

} // verus!
