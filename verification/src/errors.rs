//! The structured error model: a tagged error cause, an ordered five-level
//! severity scale, and the pair of both that every fault must be wrapped in
//! before it crosses a task boundary.

use vstd::prelude::*;

verus! {

/// The cause of a fault, one variant per failure class of the device:
/// a nondescript failure, a transport (serial) I/O failure, a transport
/// timeout, a local receive-buffer overflow while scanning for a delimiter,
/// and a malformed-input parse failure.
#[derive(Clone, Copy, PartialEq, Eq, Structural, Debug)]
pub enum ToRustAGaugeError {
    NondescriptError,
    UartError,
    UartTimeoutError,
    UartBufferOverflowError,
    UartByteParseError,
}

/// How much operator attention a fault requires, from most to least:
/// `CompleteFailure` ranks above `LossOfSomeFunctionality`, which ranks above
/// `BadIfReoccurring`, then `EntirelyRecoverable`, then `MaybeRecoverable`.
#[derive(Clone, Copy, PartialEq, Eq, Structural, Debug)]
pub enum ToRustAGaugeErrorSeverity {
    CompleteFailure,
    LossOfSomeFunctionality,
    BadIfReoccurring,
    EntirelyRecoverable,
    MaybeRecoverable,
}

/// The rank of a severity on the ordered scale; a larger rank means more
/// operator attention is required.
pub open spec fn severity_rank(s: ToRustAGaugeErrorSeverity) -> int {
    match s {
        ToRustAGaugeErrorSeverity::CompleteFailure => 4,
        ToRustAGaugeErrorSeverity::LossOfSomeFunctionality => 3,
        ToRustAGaugeErrorSeverity::BadIfReoccurring => 2,
        ToRustAGaugeErrorSeverity::EntirelyRecoverable => 1,
        ToRustAGaugeErrorSeverity::MaybeRecoverable => 0,
    }
}

impl ToRustAGaugeErrorSeverity {
    /// The rank of this severity as a number, highest attention first.
    pub fn rank(&self) -> (r: u8)
        ensures
            r as int == severity_rank(*self),
    {
        match self {
            ToRustAGaugeErrorSeverity::CompleteFailure => 4,
            ToRustAGaugeErrorSeverity::LossOfSomeFunctionality => 3,
            ToRustAGaugeErrorSeverity::BadIfReoccurring => 2,
            ToRustAGaugeErrorSeverity::EntirelyRecoverable => 1,
            ToRustAGaugeErrorSeverity::MaybeRecoverable => 0,
        }
    }

    /// Whether this severity demands at least as much attention as `other`.
    pub fn at_least(&self, other: &ToRustAGaugeErrorSeverity) -> (r: bool)
        ensures
            r == (severity_rank(*self) >= severity_rank(*other)),
    {
        self.rank() >= other.rank()
    }
}

/// An error cause paired with the severity chosen for it: the only shape in
/// which a fault may be published to the supervisor channel.
#[derive(Clone, Copy, PartialEq, Eq, Structural, Debug)]
pub struct ToRustAGaugeErrorWithSeverity {
    pub error: ToRustAGaugeError,
    pub severity: ToRustAGaugeErrorSeverity,
}

impl ToRustAGaugeErrorWithSeverity {
    /// Wrap a cause together with an explicitly chosen severity; nothing is
    /// defaulted and nothing is discarded.
    pub fn from_with_severity(
        error: ToRustAGaugeError,
        severity: ToRustAGaugeErrorSeverity,
    ) -> (r: Self)
        ensures
            r.error == error,
            r.severity == severity,
    {
        ToRustAGaugeErrorWithSeverity { error, severity }
    }

    /// A short diagnostic label for the cause, one per variant.
    pub fn error_label(&self) -> (r: &'static str)
        ensures
            self.error == ToRustAGaugeError::NondescriptError ==> r@ == "nondescript error"@,
            self.error == ToRustAGaugeError::UartError ==> r@ == "uart error"@,
            self.error == ToRustAGaugeError::UartTimeoutError ==> r@ == "uart timeout"@,
            self.error == ToRustAGaugeError::UartBufferOverflowError ==> r@
                == "uart buffer overflow"@,
            self.error == ToRustAGaugeError::UartByteParseError ==> r@ == "uart byte parse error"@,
    {
        match self.error {
            ToRustAGaugeError::NondescriptError => "nondescript error",
            ToRustAGaugeError::UartError => "uart error",
            ToRustAGaugeError::UartTimeoutError => "uart timeout",
            ToRustAGaugeError::UartBufferOverflowError => "uart buffer overflow",
            ToRustAGaugeError::UartByteParseError => "uart byte parse error",
        }
    }

    /// A short diagnostic label for the severity, one per rank.
    pub fn severity_label(&self) -> (r: &'static str)
        ensures
            self.severity == ToRustAGaugeErrorSeverity::CompleteFailure ==> r@
                == "complete failure"@,
            self.severity == ToRustAGaugeErrorSeverity::LossOfSomeFunctionality ==> r@
                == "loss of some functionality"@,
            self.severity == ToRustAGaugeErrorSeverity::BadIfReoccurring ==> r@
                == "bad if reoccurring"@,
            self.severity == ToRustAGaugeErrorSeverity::EntirelyRecoverable ==> r@
                == "entirely recoverable"@,
            self.severity == ToRustAGaugeErrorSeverity::MaybeRecoverable ==> r@
                == "maybe recoverable"@,
    {
        match self.severity {
            ToRustAGaugeErrorSeverity::CompleteFailure => "complete failure",
            ToRustAGaugeErrorSeverity::LossOfSomeFunctionality => "loss of some functionality",
            ToRustAGaugeErrorSeverity::BadIfReoccurring => "bad if reoccurring",
            ToRustAGaugeErrorSeverity::EntirelyRecoverable => "entirely recoverable",
            ToRustAGaugeErrorSeverity::MaybeRecoverable => "maybe recoverable",
        }
    }
}

} // verus!
