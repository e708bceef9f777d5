//! The gauge task's state machine: one-time actuator calibration, then a loop
//! that consumes inbound events, recomputes the actuator frame for each speed
//! sample, and tells the caller which actuator writes to issue.
//!
//! The functions here decide; the suspending work around them (channel waits,
//! the stepper's homing motion, the LED transmission) is the caller's.

use vstd::prelude::*;
use crate::data_point::{DataPoint, Datum};
use crate::render::{ActuatorFrame, render_frame, spec_render};
use crate::supervisor::ToMainEvents;

verus! {

/// Fixed actuation frequency handed to the stepper collaborator at start, in
/// steps per second.
pub const STEPPER_STEPS_PER_SECOND: u32 = 128;

/// An event consumed by the gauge task: a fresh telemetry sample, or a change
/// of the ambient backlight state.
#[derive(Clone, Copy, PartialEq, Eq, Structural, Debug)]
pub enum ToGaugeEvents {
    NewData(DataPoint),
    IsBackLightOn(bool),
}

/// The lifecycle phase of the gauge task: it starts uninitialized, calibrates
/// its stepper once, and then stays ready forever.
#[derive(Clone, Copy, PartialEq, Eq, Structural, Debug)]
pub enum GaugePhase {
    Uninitialized,
    Calibrating,
    Ready,
}

/// What the caller must do after a step: nothing, or write the freshly
/// rendered frame to the LED ring and then command the stepper (in that
/// order, each awaited in sequence).
#[derive(Clone, Copy, PartialEq, Eq, Structural, Debug)]
pub enum GaugeEffect {
    NoEffect,
    WriteActuators { stepper_value: u32 },
}

/// The state the gauge task owns exclusively: its phase, the last reported
/// backlight state, and its actuator frame.
pub struct GaugeMachine {
    pub phase: GaugePhase,
    pub backlight_on: bool,
    pub frame: ActuatorFrame,
}

impl GaugeMachine {
    /// The machine's frame always holds one color per LED cell.
    pub open spec fn wf(&self) -> bool {
        self.frame.wf()
    }

    /// A fresh machine: uninitialized, backlight assumed off, every cell off.
    pub fn new() -> (m: GaugeMachine)
        ensures
            m.wf(),
            m.phase == GaugePhase::Uninitialized,
            !m.backlight_on,
            m.frame.stepper_target == 0,
    {
        GaugeMachine {
            phase: GaugePhase::Uninitialized,
            backlight_on: false,
            frame: ActuatorFrame::new(),
        }
    }

    /// Begin calibrating: the task has acquired its actuator handles and now
    /// owes the stepper collaborator one homing run at the returned actuation
    /// frequency.
    pub fn start(&mut self) -> (frequency: u32)
        requires
            old(self).wf(),
            old(self).phase == GaugePhase::Uninitialized,
        ensures
            final(self).wf(),
            final(self).phase == GaugePhase::Calibrating,
            final(self).backlight_on == old(self).backlight_on,
            final(self).frame.cells@ == old(self).frame.cells@,
            final(self).frame.stepper_target == old(self).frame.stepper_target,
            frequency == STEPPER_STEPS_PER_SECOND,
    {
        self.phase = GaugePhase::Calibrating;
        STEPPER_STEPS_PER_SECOND
    }

    /// The stepper's homing run has completed: the task becomes ready and the
    /// returned lifecycle event must be published to the supervisor. The
    /// phase change makes this transition available exactly once.
    pub fn calibration_complete(&mut self) -> (ev: ToMainEvents)
        requires
            old(self).wf(),
            old(self).phase == GaugePhase::Calibrating,
        ensures
            final(self).wf(),
            final(self).phase == GaugePhase::Ready,
            final(self).backlight_on == old(self).backlight_on,
            final(self).frame.cells@ == old(self).frame.cells@,
            final(self).frame.stepper_target == old(self).frame.stepper_target,
            ev == ToMainEvents::GaugeInitComplete,
    {
        self.phase = GaugePhase::Ready;
        ToMainEvents::GaugeInitComplete
    }

    /// Whether two machine states drive the actuators and store the backlight
    /// identically: same cells, same stepper target, same backlight flag.
    pub open spec fn same_outputs(self, other: GaugeMachine) -> bool {
        &&& self.frame.cells@ == other.frame.cells@
        &&& self.frame.stepper_target == other.frame.stepper_target
        &&& self.backlight_on == other.backlight_on
    }

    /// Consume one inbound event. In the ready phase a speed sample rerenders
    /// the frame and demands the two actuator writes; any other sample leaves
    /// the frame untouched and demands nothing; a backlight change only
    /// updates the stored flag, with no actuator side effect until the next
    /// sample. Before the ready phase nothing happens at all, so no actuator
    /// is ever written before calibration has completed.
    pub fn handle_event(&mut self, event: ToGaugeEvents) -> (effect: GaugeEffect)
        requires
            old(self).wf(),
        ensures
            final(self).wf(),
            final(self).phase == old(self).phase,
            old(self).phase != GaugePhase::Ready ==> final(self).same_outputs(*old(self)) && effect == GaugeEffect::NoEffect,
            event matches ToGaugeEvents::NewData(dp) ==> (dp.data matches Datum::RPM(v) ==> (old(self).phase == GaugePhase::Ready ==> final(self).frame.cells@ == spec_render(v as int, old(self).backlight_on) && final(self).frame.stepper_target == v && final(self).backlight_on == old(self).backlight_on && effect == (GaugeEffect::WriteActuators { stepper_value: v }))),
            event matches ToGaugeEvents::NewData(dp) && !(dp.data is RPM) ==> (old(self).phase == GaugePhase::Ready ==> final(self).same_outputs(*old(self)) && effect == GaugeEffect::NoEffect),
            event matches ToGaugeEvents::IsBackLightOn(b) ==> (old(self).phase == GaugePhase::Ready ==> final(self).backlight_on == b && final(self).frame.cells@ == old(self).frame.cells@ && final(self).frame.stepper_target == old(self).frame.stepper_target && effect == GaugeEffect::NoEffect),
            effect is WriteActuators ==> old(self).phase == GaugePhase::Ready,
    {
        match self.phase {
            GaugePhase::Ready => match event {
                ToGaugeEvents::NewData(dp) => match dp.data {
                    Datum::RPM(v) => {
                        render_frame(&mut self.frame, v, self.backlight_on);
                        GaugeEffect::WriteActuators { stepper_value: v }
                    },
                    _ => GaugeEffect::NoEffect,
                },
                ToGaugeEvents::IsBackLightOn(b) => {
                    self.backlight_on = b;
                    GaugeEffect::NoEffect
                },
            },
            _ => GaugeEffect::NoEffect,
        }
    }
}

/// One scheduling step of the gauge task's life, as the spec-level transition
/// system: task start, completion of the homing run, or arrival of an inbound
/// event.
#[derive(Clone, Copy, PartialEq, Eq, Structural, Debug)]
pub enum GaugeStep {
    Start,
    CalibrationDone,
    Incoming(ToGaugeEvents),
}

/// The phase transition each step causes, mirroring `start`,
/// `calibration_complete` and `handle_event`: steps out of order change
/// nothing.
pub open spec fn spec_phase_after(p: GaugePhase, s: GaugeStep) -> GaugePhase {
    match s {
        GaugeStep::Start => if p == GaugePhase::Uninitialized {
            GaugePhase::Calibrating
        } else {
            p
        },
        GaugeStep::CalibrationDone => if p == GaugePhase::Calibrating {
            GaugePhase::Ready
        } else {
            p
        },
        GaugeStep::Incoming(_) => p,
    }
}

/// The phase just before step `i` of a trace that starts uninitialized.
pub open spec fn spec_phase_at(trace: Seq<GaugeStep>, i: int) -> GaugePhase
    decreases i,
{
    if i <= 0 {
        GaugePhase::Uninitialized
    } else {
        spec_phase_after(spec_phase_at(trace, i - 1), trace[i - 1])
    }
}

/// Whether step `i` of the trace issues actuator writes: only a speed sample
/// arriving in the ready phase does (this is what `handle_event` ensures).
pub open spec fn spec_writes_at(trace: Seq<GaugeStep>, i: int) -> bool {
    &&& spec_phase_at(trace, i) == GaugePhase::Ready
    &&& trace[i] matches GaugeStep::Incoming(ToGaugeEvents::NewData(dp)) && dp.data is RPM
}

/// The ready phase is only ever reached after a completed calibration: any
/// point of a trace that finds the machine ready has a calibration-done step
/// strictly before it.
pub proof fn lemma_ready_needs_calibration(trace: Seq<GaugeStep>, i: int)
    requires
        0 <= i <= trace.len(),
        spec_phase_at(trace, i) == GaugePhase::Ready,
    ensures
        exists|j: int| 0 <= j < i && trace[j] is CalibrationDone,
    decreases i,
{
    if i <= 0 {
        assert(spec_phase_at(trace, i) == GaugePhase::Uninitialized);
    } else {
        let p = spec_phase_at(trace, i - 1);
        if p == GaugePhase::Ready {
            lemma_ready_needs_calibration(trace, i - 1);
            let j = choose|j: int| 0 <= j < i - 1 && trace[j] is CalibrationDone;
            assert(0 <= j < i && trace[j] is CalibrationDone);
        } else {
            assert(p == GaugePhase::Calibrating && trace[i - 1] is CalibrationDone);
            assert(0 <= i - 1 < i && trace[i - 1] is CalibrationDone);
        }
    }
}

/// Calibration-before-render: no actuator write occurs at any step of any
/// trace before `calibrate` has completed once; a write at step `i` implies a
/// calibration-done step strictly earlier in the trace.
pub proof fn lemma_no_write_before_calibration(trace: Seq<GaugeStep>, i: int)
    requires
        0 <= i < trace.len(),
        spec_writes_at(trace, i),
    ensures
        exists|j: int| 0 <= j < i && trace[j] is CalibrationDone,
{
    lemma_ready_needs_calibration(trace, i);
}

} // verus!
