//! The supervisor's side of fault reporting: the lifecycle/error events every
//! task may publish, and the mapping from an event to the diagnostic the
//! supervisor renders for it.

use vstd::prelude::*;
use crate::data_point::DataPoint;
use crate::errors::ToRustAGaugeErrorWithSeverity;

verus! {

/// An event published to the supervisor: one initialized/error pair per
/// subsystem (gauge, display, telemetry source), plus the telemetry samples
/// the source forwards for observation. Errors carry their severity; a raw
/// cause never crosses the channel un-annotated.
#[derive(Clone, Copy, PartialEq, Eq, Structural, Debug)]
pub enum ToMainEvents {
    GaugeInitComplete,
    GaugeError(ToRustAGaugeErrorWithSeverity),
    LcdInitComplete,
    LcdError(ToRustAGaugeErrorWithSeverity),
    ElmInitComplete,
    ElmError(ToRustAGaugeErrorWithSeverity),
    ElmDataPoint(DataPoint),
}

/// The level a diagnostic is rendered at: informational for lifecycle events,
/// warning for errors.
#[derive(Clone, Copy, PartialEq, Eq, Structural, Debug)]
pub enum DiagnosticLevel {
    Info,
    Warning,
}

/// Map a supervisor event to the diagnostic it is reported as: every error
/// event is a warning and every other event is informational, regardless of
/// the error's severity rank (the severity changes the rendered text, never
/// the routing).
pub fn describe_event(ev: &ToMainEvents) -> (r: (DiagnosticLevel, &'static str))
    ensures
        ev is GaugeInitComplete ==> r.0 == DiagnosticLevel::Info && r.1@ == "Gauge initialized"@,
        ev is GaugeError ==> r.0 == DiagnosticLevel::Warning && r.1@ == "Gauge error"@,
        ev is LcdInitComplete ==> r.0 == DiagnosticLevel::Info && r.1@ == "LCD initialized"@,
        ev is LcdError ==> r.0 == DiagnosticLevel::Warning && r.1@ == "LCD error"@,
        ev is ElmInitComplete ==> r.0 == DiagnosticLevel::Info && r.1@ == "Elm initialized"@,
        ev is ElmError ==> r.0 == DiagnosticLevel::Warning && r.1@ == "Elm error"@,
        ev is ElmDataPoint ==> r.0 == DiagnosticLevel::Info && r.1@ == "Elm data point"@,
        r.0 is Warning <==> (ev is GaugeError || ev is LcdError || ev is ElmError),
{
    match ev {
        ToMainEvents::GaugeInitComplete => (DiagnosticLevel::Info, "Gauge initialized"),
        ToMainEvents::GaugeError(_) => (DiagnosticLevel::Warning, "Gauge error"),
        ToMainEvents::LcdInitComplete => (DiagnosticLevel::Info, "LCD initialized"),
        ToMainEvents::LcdError(_) => (DiagnosticLevel::Warning, "LCD error"),
        ToMainEvents::ElmInitComplete => (DiagnosticLevel::Info, "Elm initialized"),
        ToMainEvents::ElmError(_) => (DiagnosticLevel::Warning, "Elm error"),
        ToMainEvents::ElmDataPoint(_) => (DiagnosticLevel::Info, "Elm data point"),
    }
}

} // verus!
