use vstd::prelude::*;

verus! {

/// A two-channel audio frame: one sample for the left channel and one for
/// the right. Each channel holds the raw bit pattern of its 32-bit sample,
/// so the buffer logic is independent of sample arithmetic; silence is the
/// all-zero pattern on both channels.
#[derive(Clone, Copy, Debug, PartialEq, Eq, Structural)]
pub struct SterioFrame {
    pub left: u32,
    pub right: u32,
}

/// The silence frame: both channels zero.
pub open spec fn silence_spec() -> SterioFrame {
    SterioFrame { left: 0, right: 0 }
}

/// A frame that carries the same sample on both channels, as the downmix
/// conversion emits.
pub open spec fn mono_spec(value: u32) -> SterioFrame {
    SterioFrame { left: value, right: value }
}

impl SterioFrame {
    pub fn new(left: u32, right: u32) -> (f: SterioFrame)
        ensures
            f.left == left,
            f.right == right,
    {
        SterioFrame { left, right }
    }

    /// The defined silence value of a stereo frame.
    pub fn silence() -> (f: SterioFrame)
        ensures
            f == silence_spec(),
    {
        SterioFrame { left: 0, right: 0 }
    }

    /// Both channels set to `value`.
    pub fn mono(value: u32) -> (f: SterioFrame)
        ensures
            f == mono_spec(value),
    {
        SterioFrame { left: value, right: value }
    }
}

} // verus!
