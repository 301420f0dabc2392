//! The ways in which an expansion fails.

use vstd::prelude::*;

verus! {

/// Why a block could not be expanded. Each failure is final: no output is
/// produced for the block.
#[derive(Debug, Clone, Copy, PartialEq, Eq)]
pub enum TransformError {
    /// The configuration names more than one option.
    MultipleOptions,
    /// The name of the configuration's option is not a single identifier.
    OptionNotIdentifier,
    /// The configuration's option is not one that the expansion knows.
    UnknownOption,
    /// The value of the configuration's option is not `true` or `false`.
    ValueNotBoolean,
    /// The method at this position in the block has fewer than two
    /// parameters, so it names no message.
    MissingMessageParameter { method: usize },
    /// The second parameter of the method at this position in the block is
    /// a receiver, so it names no message type.
    ReceiverAsMessage { method: usize },
}

/// What is said to the author of a block that could not be expanded.
pub open spec fn description_of(error: TransformError) -> Seq<char> {
    match error {
        TransformError::MultipleOptions => "expected at most one option"@,
        TransformError::OptionNotIdentifier => "expected an identifier as the name of the option"@,
        TransformError::UnknownOption => "unknown option, expected `message_impl`"@,
        TransformError::ValueNotBoolean => "expected `true` or `false` as the value of the option"@,
        TransformError::MissingMessageParameter { method } =>
            "a handler takes its message as the second parameter"@,
        TransformError::ReceiverAsMessage { method } => "cannot have receiver on second position"@,
    }
}

impl TransformError {
    /// What to say to the author of the block.
    pub fn describe(&self) -> (text: &'static str)
        ensures
            text@ == description_of(*self),
    {
        match self {
            TransformError::MultipleOptions => "expected at most one option",
            TransformError::OptionNotIdentifier => "expected an identifier as the name of the option",
            TransformError::UnknownOption => "unknown option, expected `message_impl`",
            TransformError::ValueNotBoolean => "expected `true` or `false` as the value of the option",
            TransformError::MissingMessageParameter { method } =>
                "a handler takes its message as the second parameter",
            TransformError::ReceiverAsMessage { method } => "cannot have receiver on second position",
        }
    }
}

} // verus!
