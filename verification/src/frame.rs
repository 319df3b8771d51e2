use vstd::prelude::*;

verus! {

/// Abstract value of one decoded frame: width, height, display duration in
/// milliseconds, and the RGBA8 pixel bytes.
pub type FrameAbs = (u32, u32, u64, Seq<u8>);

/// One decoded image: an RGBA8 pixel buffer of `width` by `height` pixels and
/// a display duration in milliseconds. A zero duration marks a still frame
/// that is shown forever. Immutable once decoded.
#[derive(Debug)]
pub struct Frame {
    pub width: u32,
    pub height: u32,
    pub duration_ms: u64,
    pub rgba: Vec<u8>,
}

impl Frame {
    /// The buffer holds exactly four bytes per pixel, and both dimensions are
    /// at least one pixel and small enough to report through a signed
    /// intrinsic size.
    pub open spec fn wf(self) -> bool {
        &&& self.rgba@.len() == 4 * self.width * self.height
        &&& 1 <= self.width <= i32::MAX
        &&& 1 <= self.height <= i32::MAX
    }

    pub open spec fn abs(self) -> FrameAbs {
        (self.width, self.height, self.duration_ms, self.rgba@)
    }
}

/// Whether an abstract frame has well-formed pixel data and dimensions.
pub open spec fn frame_abs_wf(f: FrameAbs) -> bool {
    &&& f.3.len() == 4 * f.0 * f.1
    &&& 1 <= f.0 <= i32::MAX
    &&& 1 <= f.1 <= i32::MAX
}

/// Whether every abstract frame of a sequence is well-formed.
pub open spec fn frames_wf(s: Seq<FrameAbs>) -> bool {
    forall|i: int| 0 <= i < s.len() ==> frame_abs_wf(#[trigger] s[i])
}

/// An ordered, non-empty sequence of decoded frames. Indices are stable for
/// the set's lifetime; iteration order is decode order.
#[derive(Debug)]
pub struct FrameSet {
    pub frames: Vec<Frame>,
}

impl FrameSet {
    pub open spec fn wf(self) -> bool {
        &&& self.frames@.len() >= 1
        &&& forall|i: int| 0 <= i < self.frames@.len() ==> (#[trigger] self.frames@[i]).wf()
    }

    /// Abstract value: the sequence of abstract frames, in decode order.
    pub open spec fn abs(self) -> Seq<FrameAbs> {
        self.frames@.map_values(|f: Frame| f.abs())
    }

    pub fn len(&self) -> (n: usize)
        ensures
            n == self.abs().len(),
    {
        self.frames.len()
    }

    pub fn get(&self, i: usize) -> (f: &Frame)
        requires
            i < self.abs().len(),
        ensures
            f.abs() == self.abs()[i as int],
    {
        &self.frames[i]
    }
}

/// A frame set whose frames are all well-formed abstracts to a sequence of
/// well-formed abstract frames.
pub proof fn lemma_frameset_abs_wf(fs: FrameSet)
    requires
        fs.wf(),
    ensures
        fs.abs().len() >= 1,
        frames_wf(fs.abs()),
{
    assert forall|i: int| 0 <= i < fs.abs().len() implies frame_abs_wf(#[trigger] fs.abs()[i]) by {
        assert(fs.abs()[i] == fs.frames@[i].abs());
        assert(fs.frames@[i].wf());
    }
}

} // verus!
