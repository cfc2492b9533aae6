//! Mouse click state, and what is told of bytes to be written to the pty.
use vstd::prelude::*;

verus! {

/// Something that writes escape sequences to the pty.
pub trait Notify {
    /// Notify that an escape sequence should be written to the pty
    fn notify(&mut self, bytes: Vec<u8>);
}

/// How many clicks in a row the mouse has made.
#[derive(Debug, Clone, Copy, PartialEq, Eq, Structural)]
pub enum ClickState {
    NoClick,
    Click,
    DoubleClick,
    TripleClick,
}

} // verus!
