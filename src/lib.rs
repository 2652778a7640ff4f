//! Slow-scan television (SSTV) encoding for the Martin and Scottie modes: the
//! state table of each mode, the engine that walks it one sample at a time while
//! scanning the image, and the phase-accumulating oscillator behind each sample.
use vstd::prelude::*;

pub mod state;
pub mod modes;
pub mod encoder;

verus! {

} // verus!
