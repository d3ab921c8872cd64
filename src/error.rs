use vstd::prelude::*;

use crate::session::DecoderStatus;

verus! {

/// The structured error kinds of the pipeline; the host layer decides how to show them.
#[derive(Clone, Copy, Debug, PartialEq, Eq, Structural)]
pub enum DecoderError {
    /// A lifecycle call made from a state that does not permit it.
    InvalidStateTransition { from: DecoderStatus },
    /// A frame operation made while the session is not open.
    SessionNotOpen { status: DecoderStatus },
    /// The one-time setup of the decode backend failed.
    InitializationFailed,
    /// A pixel buffer whose length is not `width * height * 4`.
    MalformedFrameInput { width: usize, height: usize, actual: usize },
    /// A token chunk request failed.
    NetworkFailure,
    /// A reference feature whose tensor shape differs from the expected one.
    ShapeValidationFailure { feature: usize },
    /// A reference token of the wrong length.
    TokenLengthMismatch { actual: usize },
}

} // verus!
