use vstd::prelude::*;
use crate::frame::SterioFrame;
use crate::frame::mono_spec;
use crate::frame::silence_spec;
use crate::generator::SignalGenerator;

verus! {

/// An ordered, growable sequence of stereo frames. Frames enter only at
/// the tail and are never removed or altered afterwards, so the stored
/// order is playback order.
pub struct SterioSignal {
    frames: Vec<SterioFrame>,
}

impl View for SterioSignal {
    type V = Seq<SterioFrame>;

    closed spec fn view(&self) -> Seq<SterioFrame> {
        self.frames@
    }
}

/// The frame the buffer answers a streaming-source query with: its first
/// stored frame, or silence when it holds none.
pub open spec fn source_frame_spec(s: Seq<SterioFrame>) -> SterioFrame {
    if s.len() > 0 {
        s[0]
    } else {
        silence_spec()
    }
}

impl SterioSignal {
    /// An empty buffer.
    pub fn new() -> (s: SterioSignal)
        ensures
            s@ == Seq::<SterioFrame>::empty(),
    {
        SterioSignal { frames: Vec::new() }
    }

    /// Build a buffer of exactly `num_frames` frames by asking `gen` for
    /// the frame at each position `0..num_frames`, in ascending order.
    pub fn from_generator<T: SignalGenerator>(gen: T, num_frames: usize) -> (s: SterioSignal)
        ensures
            s@.len() == num_frames,
            forall|i: int| 0 <= i < num_frames ==> s@[i] == gen.spec_generate(i),
    {
        let mut n_frames: Vec<SterioFrame> = Vec::new();
        for i in 0..num_frames
            invariant
                n_frames@.len() == i,
                forall|j: int| 0 <= j < i ==> n_frames@[j] == gen.spec_generate(j),
        {
            n_frames.push(gen.generate_frame(i));
        }
        SterioSignal { frames: n_frames }
    }

    /// The frame at `idx`, or nothing when `idx` is past the end; an
    /// out-of-range position is never an error.
    pub fn get_raw_frame(&self, idx: usize) -> (r: Option<&SterioFrame>)
        ensures
            idx < self@.len() ==> (r matches Some(f) && *f == self@[idx as int]),
            idx >= self@.len() ==> r is None,
    {
        if idx < self.frames.len() {
            Some(&self.frames[idx])
        } else {
            None
        }
    }

    /// How many frames the buffer holds.
    pub fn get_num_frames(&self) -> (n: usize)
        ensures
            n == self@.len(),
    {
        self.frames.len()
    }

    /// Append `frame` at the tail: the one mutating operation.
    pub fn push_sterio_frame(&mut self, frame: SterioFrame)
        ensures
            final(self)@ == old(self)@.push(frame),
    {
        self.frames.push(frame);
    }

    /// The buffer queried as a streaming source. Deliberately cursorless:
    /// the call never advances any state, so every call answers with the
    /// first stored frame, or with silence when the buffer is empty.
    pub fn next(&mut self) -> (f: SterioFrame)
        ensures
            final(self)@ == old(self)@,
            f == source_frame_spec(old(self)@),
    {
        if self.frames.len() > 0 {
            self.frames[0]
        } else {
            SterioFrame::silence()
        }
    }

    /// One round of the downmix protocol, entered after a candidate frame
    /// has been produced and the exhaustion query answered. A terminal
    /// candidate is discarded and the conversion stops; otherwise a frame
    /// carrying the candidate's channel sum on both channels — the sum,
    /// not an average, to keep the amplitude policy — is appended and the
    /// conversion goes on. `channel_sum` is the already-summed channel
    /// value of the candidate; the result says whether to continue.
    pub fn downmix_step(&mut self, channel_sum: u32, exhausted: bool) -> (cont: bool)
        ensures
            cont == !exhausted,
            exhausted ==> final(self)@ == old(self)@,
            !exhausted ==> final(self)@ == old(self)@.push(mono_spec(channel_sum)),
    {
        if exhausted {
            false
        } else {
            self.frames.push(SterioFrame::mono(channel_sum));
            true
        }
    }

    /// The persisted form of the buffer: its frames flattened, in order,
    /// to a list of (left, right) channel pairs.
    pub fn to_channel_pairs(&self) -> (pairs: Vec<(u32, u32)>)
        ensures
            pairs@ == channel_pairs_spec(self@),
    {
        let mut pairs: Vec<(u32, u32)> = Vec::new();
        let n = self.frames.len();
        for i in 0..n
            invariant
                n == self@.len(),
                pairs@.len() == i,
                forall|j: int| 0 <= j < i ==> pairs@[j] == (self@[j].left, self@[j].right),
        {
            pairs.push((self.frames[i].left, self.frames[i].right));
        }
        proof {
            assert(pairs@ =~= channel_pairs_spec(self@));
        }
        pairs
    }

    /// Rebuild a buffer from its persisted form, keeping order and values
    /// exactly.
    pub fn from_channel_pairs(pairs: &Vec<(u32, u32)>) -> (s: SterioSignal)
        ensures
            s@ == frames_of_pairs_spec(pairs@),
    {
        let mut frames: Vec<SterioFrame> = Vec::new();
        let n = pairs.len();
        for i in 0..n
            invariant
                n == pairs@.len(),
                frames@.len() == i,
                forall|j: int| 0 <= j < i ==> frames@[j] == (SterioFrame {
                    left: pairs@[j].0,
                    right: pairs@[j].1,
                }),
        {
            frames.push(SterioFrame::new(pairs[i].0, pairs[i].1));
        }
        proof {
            assert(frames@ =~= frames_of_pairs_spec(pairs@));
        }
        SterioSignal { frames }
    }
}

/// What `to_channel_pairs` writes out for a buffer whose frames are `s`.
pub open spec fn channel_pairs_spec(s: Seq<SterioFrame>) -> Seq<(u32, u32)> {
    s.map_values(|f: SterioFrame| (f.left, f.right))
}

/// What `from_channel_pairs` reads back from a pair list `p`.
pub open spec fn frames_of_pairs_spec(p: Seq<(u32, u32)>) -> Seq<SterioFrame> {
    p.map_values(|c: (u32, u32)| SterioFrame { left: c.0, right: c.1 })
}

/// Round trip through the persisted form: writing a buffer out as channel
/// pairs and reading the pairs back reproduces the identical ordered frame
/// sequence.
pub proof fn lemma_channel_pairs_round_trip(s: Seq<SterioFrame>)
    ensures
        frames_of_pairs_spec(channel_pairs_spec(s)) == s,
{
    assert(frames_of_pairs_spec(channel_pairs_spec(s)) =~= s);
}

/// The view a buffer reaches when the frames of `appended` are handed to
/// `push_sterio_frame` one at a time, in order, starting from view `base`.
pub open spec fn push_all(base: Seq<SterioFrame>, appended: Seq<SterioFrame>) -> Seq<SterioFrame>
    decreases appended.len(),
{
    if appended.len() == 0 {
        base
    } else {
        push_all(base.push(appended[0]), appended.drop_first())
    }
}

/// One-at-a-time appending amounts to concatenation at the tail.
pub proof fn lemma_push_all_is_concat(base: Seq<SterioFrame>, appended: Seq<SterioFrame>)
    ensures
        push_all(base, appended) == base + appended,
    decreases appended.len(),
{
    if appended.len() == 0 {
        assert(push_all(base, appended) =~= base + appended);
    } else {
        lemma_push_all_is_concat(base.push(appended[0]), appended.drop_first());
        assert(base.push(appended[0]) + appended.drop_first() =~= base + appended);
    }
}

/// Appending `n` frames sequentially to an empty buffer leaves a buffer of
/// exactly `n` frames, where lookup at `i` answers the `i`-th appended
/// frame.
pub proof fn lemma_sequential_append(appended: Seq<SterioFrame>)
    ensures
        push_all(Seq::empty(), appended).len() == appended.len(),
        forall|i: int|
            0 <= i < appended.len() ==> push_all(Seq::empty(), appended)[i] == appended[i],
{
    lemma_push_all_is_concat(Seq::empty(), appended);
    assert(Seq::<SterioFrame>::empty() + appended =~= appended);
}

} // verus!
