use vstd::prelude::*;

verus! {

/// The failures of the library.
#[derive(Debug, Clone, PartialEq, Eq)]
pub enum Error {
    /// The fidelity schedule holds no checkpoint.
    EmptySchedule,
    /// A checkpoint of the fidelity schedule is zero.
    ZeroCheckpoint,
    /// The fidelity schedule is not in ascending order.
    UnorderedSchedule,
    /// A range's lower bound is not below its upper bound.
    InvalidBounds,
    /// A log-scaled range has a lower bound that is not positive.
    NonPositiveLogBound,
    /// A categorical parameter has no choices.
    EmptyChoices,
    /// A categorical parameter names one choice twice.
    DuplicateChoice,
    /// The configuration does not select one of the declared modes.
    UnresolvedMode,
    /// A value has no text for the kind of its parameter.
    MalformedValue,
    /// The evaluator process exited with a failure status.
    ProcessFailed,
    /// No result file was found under the given directory.
    NoResult(String),
    /// The result file holds no accuracy.
    EmptyAccuracies,
    /// The registry has handed out every process number it can.
    RegistryExhausted,
}

} // verus!
