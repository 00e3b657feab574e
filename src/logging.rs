//! Output streams the log writer can probe for a terminal.
use vstd::prelude::*;

verus! {

/// A standard stream.
#[derive(Clone, Copy, Debug, PartialEq, Eq, Structural)]
pub enum Stream {
    Stdout,
}

} // verus!
