//! Decision logic of a window-bound presentation loop: key dispatch,
//! surface configuration and the host's event routing, each with a
//! contract checked by Verus.
pub mod host;
pub mod input;
pub mod surface;
