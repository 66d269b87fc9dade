use vstd::prelude::*;
use crate::frame::SterioFrame;
use crate::frame::silence_spec;

verus! {

/// A pure, infallible source of frames indexed by position: calling
/// `generate_frame` at position `idx` always yields the frame that
/// `spec_generate` defines there, independently of any other call.
pub trait SignalGenerator {
    /// The frame this generator defines at each position.
    spec fn spec_generate(&self, idx: int) -> SterioFrame;

    /// Produce the frame at position `idx`.
    fn generate_frame(&self, idx: usize) -> (f: SterioFrame)
        ensures
            f == self.spec_generate(idx as int),
    ;
}

/// A generator backed by a fixed table of frames: a position inside the
/// table yields the frame stored there, a position past its end yields
/// silence.
pub struct TableGenerator {
    pub table: Vec<SterioFrame>,
}

impl SignalGenerator for TableGenerator {
    open spec fn spec_generate(&self, idx: int) -> SterioFrame {
        if 0 <= idx < self.table@.len() {
            self.table@[idx]
        } else {
            silence_spec()
        }
    }

    fn generate_frame(&self, idx: usize) -> (f: SterioFrame) {
        if idx < self.table.len() {
            self.table[idx]
        } else {
            SterioFrame::silence()
        }
    }
}

} // verus!
