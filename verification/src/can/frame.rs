//! Frame direction tag shared with the device layer.

use vstd::prelude::*;

verus! {

/// Whether a link frame was sent or received.
#[derive(Debug, Copy, Clone, Eq, PartialEq, Default, Structural)]
pub enum Direct {
    #[default]
    Transmit,
    Receive,
}

} // verus!
