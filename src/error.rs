//! The two error families: model errors found while building a machine, and
//! the run-time error of a step.

use vstd::prelude::*;

verus! {

/// Why a model was rejected.
#[derive(Debug, Clone, PartialEq, Eq)]
pub enum SyntaxErrorType {
    /// Consume and produce strings differ in length, or the move string
    /// does not have one letter per tape.
    TransitionConsumeProduceNotMatch,
    /// A move letter is none of `L`, `R`, `S` (in either case).
    TransitionDirectionNotFound,
    /// A transition names a state that does not exist.
    TransitionNextStateNotFound,
    /// The text of the model could not be decoded; holds the decoder's message.
    SyntaxNotValid(String),
    /// The model's format tag is not one that is supported.
    FormatNotProvided,
    /// The model has no start state, or more than one.
    StartStateError,
}

/// A rejected model: the kind of fault and a message for people.
#[derive(Debug, Clone)]
pub struct SyntaxError {
    pub error_type: SyntaxErrorType,
    pub message: String,
}

/// Why a step could not be taken.
#[derive(Debug, Clone, Copy, PartialEq, Eq, Structural)]
pub enum MachineRunningError {
    /// The state that a transition leads to does not exist.
    NextStateNotFound,
}

} // verus!
