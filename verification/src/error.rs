//! Error values surfaced by the editing engine.

use vstd::prelude::*;

verus! {

/// A cursor operation was handed a coordinate outside the buffer.
#[derive(Debug, Copy, Clone, PartialEq, Eq, Structural)]
pub enum CursorError {
    InvalidCursorPosition,
}

/// The clipboard collaborator was unavailable or inaccessible; the operation
/// that needed it left the engine unchanged.
#[derive(Debug, Copy, Clone, PartialEq, Eq, Structural)]
pub struct ClipboardError;

} // verus!
