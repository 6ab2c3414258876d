//! Typed, validated MIDI messages and the timing logic of a MIDI clock.
use vstd::prelude::*;

pub mod connection;
pub mod consts;
pub mod util;
pub mod text;
pub mod message;
pub mod note;
pub mod transport;

verus! {

} // verus!
