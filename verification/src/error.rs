//! Error types of the rendering paths.
//!
//! The text-oriented path reports a generic failure without cause codes; the
//! byte-oriented path carries a rich error from the byte sink, or a
//! synthesized generic one when the text path failed without any byte fault.

use vstd::prelude::*;

use crate::values::ValueError;

verus! {

/// A failure of the text-oriented rendering path.
#[derive(Debug, PartialEq, Eq, Structural)]
pub enum RenderError {
    /// Writing to the text sink failed.
    Fmt,
    /// A template body chose to surface a value store failure.
    Values(ValueError),
}

/// A failure of the byte-oriented rendering path.
#[derive(Clone, Copy, Debug, PartialEq, Eq, Structural)]
pub enum IoError {
    /// An error reported by the byte sink, carrying its system error code.
    Os(i32),
    /// Synthesized when the text path failed without a recorded byte fault,
    /// so the byte-oriented caller never observes a silent failure.
    Other,
}

} // verus!
