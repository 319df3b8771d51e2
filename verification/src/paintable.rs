use vstd::prelude::*;

use crate::decode::{decode, decode_spec, DecodeError};
use crate::frame::{frames_wf, lemma_frameset_abs_wf, FrameAbs, FrameSet};

verus! {

/// Abstract playback state of a paintable: the decoded frames (if any), the
/// index the next tick will publish, whether a one-shot timer is outstanding,
/// a generation counter that stales old timer handles, the index of the frame
/// currently published for rendering, and the rendering-only rotation and
/// flip transforms.
pub struct PaintableModel {
    pub frames: Option<Seq<FrameAbs>>,
    pub idx: int,
    pub pending: bool,
    pub generation: int,
    pub published: Option<int>,
    pub rotation: int,
    pub flipped: bool,
    pub playing: bool,
}

/// Structural soundness of a playback state: the index the next tick will
/// publish and the published index both lie inside the loaded frame set, no
/// frame is published without a frame set, the empty state keeps its index at
/// zero, and every loaded frame is well-formed.
pub open spec fn model_wf(s: PaintableModel) -> bool {
    &&& s.frames matches Some(fs) ==> fs.len() >= 1 && 0 <= s.idx < fs.len() && frames_wf(fs)
    &&& s.published matches Some(p) ==> s.frames matches Some(fs) && 0 <= p < fs.len()
    &&& s.frames is None ==> s.idx == 0
    &&& s.generation >= 0
}

/// The state a paintable starts in: nothing loaded, nothing published,
/// playback disabled, no transform.
pub open spec fn init_model() -> PaintableModel {
    PaintableModel {
        frames: None,
        idx: 0,
        pending: false,
        generation: 0,
        published: None,
        rotation: 0,
        flipped: false,
        playing: false,
    }
}

/// One step of the frame-advance algorithm. If a timer is already
/// outstanding, or playback is paused and some frame has been published
/// before (the pause takes effect at the tick boundary), or nothing is
/// loaded, the state is unchanged and nothing is armed. Otherwise the frame
/// at the current index is published, the index advances cyclically, and —
/// when playback is active and the set is animated — a one-shot timer is
/// armed for the published frame's duration, carrying the current generation.
pub open spec fn tick_spec(s: PaintableModel) -> (PaintableModel, Option<(int, int)>) {
    if s.pending {
        (s, None)
    } else if !s.playing && s.published is Some {
        (s, None)
    } else {
        match s.frames {
            Option::None => (s, None),
            Option::Some(fs) => {
                let n = fs.len() as int;
                let arm = s.playing && n > 1;
                let s2 = PaintableModel {
                    published: Some(s.idx),
                    pending: arm,
                    idx: if s.idx + 1 < n {
                        s.idx + 1
                    } else {
                        0
                    },
                    ..s
                };
                (s2, if arm {
                    Some((fs[s.idx].2 as int, s.generation))
                } else {
                    None
                })
            },
        }
    }
}

/// What a firing timer does: a handle whose generation is stale mutates
/// nothing and schedules nothing; a live handle clears the outstanding-timer
/// marker and recurses into the frame-advance step.
pub open spec fn timeout_spec(s: PaintableModel, g: int) -> (PaintableModel, Option<(int, int)>) {
    if g != s.generation {
        (s, None)
    } else {
        tick_spec(PaintableModel { pending: false, ..s })
    }
}

/// Pausing only clears the play flag; an already-armed timer is left to fire
/// and is suppressed at the next tick boundary.
pub open spec fn pause_spec(s: PaintableModel) -> PaintableModel {
    PaintableModel { playing: false, ..s }
}

/// Resuming sets the play flag and immediately re-enters the frame-advance
/// step; the outstanding-timer guard makes this safe while a timer is armed.
pub open spec fn resume_spec(s: PaintableModel) -> (PaintableModel, Option<(int, int)>) {
    tick_spec(PaintableModel { playing: true, ..s })
}

/// Discarding the current frame set: any outstanding timer handle becomes
/// stale through the generation bump, and nothing is left loaded or
/// published.
pub open spec fn cancel_spec(s: PaintableModel) -> PaintableModel {
    PaintableModel {
        frames: None,
        idx: 0,
        pending: false,
        generation: s.generation + 1,
        published: None,
        ..s
    }
}

/// Loading: the old frame set and its timers are invalidated together; on
/// decode success the new set is installed with the index reset and the
/// frame-advance step runs once, on failure nothing is retained.
pub open spec fn load_spec(s: PaintableModel, decoded: Result<Seq<FrameAbs>, DecodeError>) -> (
    PaintableModel,
    Option<(int, int)>,
) {
    match decoded {
        Ok(fs) => tick_spec(PaintableModel { frames: Some(fs), ..cancel_spec(s) }),
        Err(_) => (cancel_spec(s), None),
    }
}

/// The rendering rotation: the stored angle wrapped into [0, 360).
pub open spec fn render_angle_spec(rotation: int) -> int {
    rotation % 360
}

/// The intrinsic size reported to layout: the published frame's dimension,
/// or -1 when no frame is published.
pub open spec fn intrinsic_width_spec(s: PaintableModel) -> int {
    match s.published {
        Option::Some(p) => s.frames.unwrap()[p].0 as int,
        Option::None => -1,
    }
}

pub open spec fn intrinsic_height_spec(s: PaintableModel) -> int {
    match s.published {
        Option::Some(p) => s.frames.unwrap()[p].1 as int,
        Option::None => -1,
    }
}

/// A request to the caller's scheduler: arm one one-shot timer for
/// `delay_ms` milliseconds whose callback hands `generation` back to
/// `on_timeout`.
#[derive(Clone, Copy, Debug, PartialEq, Eq, Structural)]
pub struct TimerArm {
    pub delay_ms: u64,
    pub generation: u64,
}

/// Abstract value of a timer request.
pub open spec fn arm_abs(a: Option<TimerArm>) -> Option<(int, int)> {
    match a {
        Option::Some(t) => Some((t.delay_ms as int, t.generation as int)),
        Option::None => None,
    }
}

/// What one rendering pass should draw into the target box.
pub enum RenderPlan {
    /// No frame is available: draw an opaque solid-color placeholder sized
    /// to the target box.
    Placeholder,
    /// Draw frame `idx` scaled to the target box, rotated by `angle`
    /// degrees about the target's center, then flipped horizontally if
    /// `flip_horizontal`.
    Shown { idx: usize, angle: i32, flip_horizontal: bool },
}

/// Playback state over a frame set: decodes on load, publishes frames on
/// timer ticks, and answers rendering queries. The surrounding shell owns
/// the actual timer facility: every mutating call returns the one-shot timer
/// to arm, if any, and the shell reports expiry through `on_timeout`.
pub struct SmartPaintable {
    frames: Option<FrameSet>,
    current_idx: usize,
    timer_pending: bool,
    generation: u64,
    published: Option<usize>,
    rotation: i32,
    flip_horizontal: bool,
    playing: bool,
}

impl View for SmartPaintable {
    type V = PaintableModel;

    closed spec fn view(&self) -> PaintableModel {
        PaintableModel {
            frames: match self.frames {
                Option::Some(fs) => Some(fs.abs()),
                Option::None => None,
            },
            idx: self.current_idx as int,
            pending: self.timer_pending,
            generation: self.generation as int,
            published: match self.published {
                Option::Some(p) => Some(p as int),
                Option::None => None,
            },
            rotation: self.rotation as int,
            flipped: self.flip_horizontal,
            playing: self.playing,
        }
    }
}

impl SmartPaintable {
    pub open spec fn wf(&self) -> bool {
        model_wf(self@)
    }

    pub fn new() -> (r: SmartPaintable)
        ensures
            r.wf(),
            r@ == init_model(),
    {
        SmartPaintable {
            frames: None,
            current_idx: 0,
            timer_pending: false,
            generation: 0,
            published: None,
            rotation: 0,
            flip_horizontal: false,
            playing: false,
        }
    }

    /// One tick of the frame-advance algorithm; never arms a second timer
    /// while one is outstanding.
    pub fn setup_next_frame(&mut self) -> (r: Option<TimerArm>)
        requires
            old(self).wf(),
        ensures
            final(self).wf(),
            final(self)@ == tick_spec(old(self)@).0,
            arm_abs(r) == tick_spec(old(self)@).1,
    {
        if self.timer_pending {
            return None;
        }
        if !self.playing && self.published.is_some() {
            return None;
        }
        let (n, delay): (usize, u64) = match &self.frames {
            Option::Some(fs) => (fs.frames.len(), fs.frames[self.current_idx].duration_ms),
            Option::None => {
                return None;
            },
        };
        self.published = Some(self.current_idx);
        let arm = self.playing && n > 1;
        self.timer_pending = arm;
        let r = if arm {
            Some(TimerArm { delay_ms: delay, generation: self.generation })
        } else {
            None
        };
        let next = if self.current_idx + 1 < n {
            self.current_idx + 1
        } else {
            0
        };
        self.current_idx = next;
        r
    }

    /// A timer handle has fired: a stale generation is ignored entirely;
    /// a live one clears the outstanding-timer marker and advances.
    pub fn on_timeout(&mut self, generation: u64) -> (r: Option<TimerArm>)
        requires
            old(self).wf(),
        ensures
            final(self).wf(),
            final(self)@ == timeout_spec(old(self)@, generation as int).0,
            arm_abs(r) == timeout_spec(old(self)@, generation as int).1,
    {
        if generation != self.generation {
            return None;
        }
        self.timer_pending = false;
        self.setup_next_frame()
    }

    /// Decode `bytes` under the format hint and take the result as the new
    /// frame set: the old set and any outstanding timer are invalidated
    /// together, the index resets to zero, and on success the first frame is
    /// published at once (arming a transition timer when the set is animated
    /// and playback is enabled). On failure no frame set is retained and a
    /// placeholder is rendered.
    pub fn load_from_bytes(&mut self, bytes: &Vec<u8>, extension: &str) -> (r: Result<
        Option<TimerArm>,
        DecodeError,
    >)
        requires
            old(self).wf(),
            old(self)@.generation < u64::MAX,
        ensures
            final(self).wf(),
            final(self)@ == load_spec(old(self)@, decode_spec(bytes@, extension@)).0,
            r matches Ok(a) ==> decode_spec(bytes@, extension@) is Ok && arm_abs(a) == load_spec(
                old(self)@,
                decode_spec(bytes@, extension@),
            ).1,
            r matches Err(e) ==> decode_spec(bytes@, extension@) == Err::<Seq<FrameAbs>, _>(e),
    {
        self.current_idx = 0;
        self.timer_pending = false;
        self.generation = self.generation + 1;
        self.published = None;
        match decode(bytes, extension) {
            Ok(fs) => {
                proof {
                    lemma_frameset_abs_wf(fs);
                }
                self.frames = Some(fs);
                Ok(self.setup_next_frame())
            },
            Err(e) => {
                self.frames = None;
                Err(e)
            },
        }
    }

    /// Discard the frame set; every timer handle armed earlier becomes stale.
    pub fn unload(&mut self)
        requires
            old(self).wf(),
            old(self)@.generation < u64::MAX,
        ensures
            final(self).wf(),
            final(self)@ == cancel_spec(old(self)@),
    {
        self.frames = None;
        self.current_idx = 0;
        self.timer_pending = false;
        self.generation = self.generation + 1;
        self.published = None;
    }

    pub fn is_playing(&self) -> (r: bool)
        ensures
            r == self@.playing,
    {
        self.playing
    }

    /// Enable playback and re-enter the frame-advance step from the current
    /// frame; safe to call while a timer is outstanding.
    pub fn resume(&mut self) -> (r: Option<TimerArm>)
        requires
            old(self).wf(),
        ensures
            final(self).wf(),
            final(self)@ == resume_spec(old(self)@).0,
            arm_abs(r) == resume_spec(old(self)@).1,
    {
        self.playing = true;
        self.setup_next_frame()
    }

    /// Disable playback; takes effect at the next tick boundary, an
    /// already-armed timer is not cancelled.
    pub fn pause(&mut self)
        requires
            old(self).wf(),
        ensures
            final(self).wf(),
            final(self)@ == pause_spec(old(self)@),
    {
        self.playing = false;
    }

    /// Reset the index the next tick will publish to the first frame.
    pub fn restart(&mut self)
        requires
            old(self).wf(),
        ensures
            final(self).wf(),
            final(self)@ == (PaintableModel { idx: 0, ..old(self)@ }),
    {
        self.current_idx = 0;
    }

    /// Set the rotation angle, in degrees, absolute (not cumulative): a
    /// rendering-only transform.
    pub fn rotate(&mut self, angle: i32)
        requires
            old(self).wf(),
        ensures
            final(self).wf(),
            final(self)@ == (PaintableModel { rotation: angle as int, ..old(self)@ }),
    {
        self.rotation = angle;
    }

    /// Set the horizontal-flip flag: a rendering-only hint that never alters
    /// stored pixel data.
    pub fn flip(&mut self, is_horizontal: bool)
        requires
            old(self).wf(),
        ensures
            final(self).wf(),
            final(self)@ == (PaintableModel { flipped: is_horizontal, ..old(self)@ }),
    {
        self.flip_horizontal = is_horizontal;
    }

    /// Width of the published frame, or -1 when none is published.
    pub fn intrinsic_width(&self) -> (r: i32)
        requires
            self.wf(),
        ensures
            r == intrinsic_width_spec(self@),
    {
        match (&self.frames, self.published) {
            (Option::Some(fs), Option::Some(p)) => fs.frames[p].width as i32,
            _ => -1,
        }
    }

    /// Height of the published frame, or -1 when none is published.
    pub fn intrinsic_height(&self) -> (r: i32)
        requires
            self.wf(),
        ensures
            r == intrinsic_height_spec(self@),
    {
        match (&self.frames, self.published) {
            (Option::Some(fs), Option::Some(p)) => fs.frames[p].height as i32,
            _ => -1,
        }
    }

    /// Borrow the published frame's pixel data, if a frame is published.
    pub fn published_frame(&self) -> (r: Option<&crate::frame::Frame>)
        requires
            self.wf(),
        ensures
            r matches Some(f) ==> self@.published matches Some(p) && f.abs()
                == self@.frames.unwrap()[p],
            r is None <==> self@.published is None,
    {
        match (&self.frames, self.published) {
            (Option::Some(fs), Option::Some(p)) => Some(&fs.frames[p]),
            _ => None,
        }
    }

    /// What a rendering pass should draw: the published frame under the
    /// wrapped rotation angle and the flip flag, or a placeholder when
    /// nothing is published.
    pub fn render_plan(&self) -> (r: RenderPlan)
        requires
            self.wf(),
        ensures
            self@.published is None ==> r is Placeholder,
            self@.published matches Some(p) ==> r matches RenderPlan::Shown {
                idx,
                angle,
                flip_horizontal,
            } && idx == p && angle == render_angle_spec(self@.rotation) && flip_horizontal
                == self@.flipped,
    {
        match self.published {
            Option::Some(p) => RenderPlan::Shown {
                idx: p,
                angle: normalize_angle(self.rotation),
                flip_horizontal: self.flip_horizontal,
            },
            Option::None => RenderPlan::Placeholder,
        }
    }
}

impl Default for SmartPaintable {
    /// A paintable with nothing loaded: renders a placeholder until the
    /// first successful load.
    fn default() -> (r: SmartPaintable)
        ensures
            r.wf(),
            r@ == init_model(),
    {
        SmartPaintable::new()
    }
}

/// Wrap a stored rotation into [0, 360) for rendering.
fn normalize_angle(rotation: i32) -> (r: i32)
    ensures
        r == render_angle_spec(rotation as int),
        0 <= r < 360,
{
    let m = rotation % 360;
    if m < 0 {
        m + 360
    } else {
        m
    }
}

/// Four successive quarter turns return the rendered orientation to where it
/// began: the rendering angle wraps modulo 360 even though the stored
/// integer may exceed 360.
pub proof fn lemma_four_quarter_turns(rotation: int)
    ensures
        render_angle_spec(rotation + 90 + 90 + 90 + 90) == render_angle_spec(rotation),
{
    vstd::arithmetic::div_mod::lemma_mod_add_multiples_vanish(rotation, 360);
}

/// A timer handle with a stale generation mutates nothing and schedules
/// nothing.
pub proof fn lemma_stale_timer_noop(s: PaintableModel, g: int)
    requires
        g != s.generation,
    ensures
        timeout_spec(s, g).0 == s,
        timeout_spec(s, g).1 is None,
{
}

/// After the frame set is discarded, every timer handle armed earlier is
/// stale: its firing mutates nothing and schedules nothing. Handles always
/// carry the generation current when they were armed, which never exceeds
/// the current one.
pub proof fn lemma_unload_silences_timers(s: PaintableModel, g: int)
    requires
        g <= s.generation,
    ensures
        timeout_spec(cancel_spec(s), g).0 == cancel_spec(s),
        timeout_spec(cancel_spec(s), g).1 is None,
{
}

/// The outstanding-timer guard: resuming while a timer is armed sets the
/// play flag and nothing else — no second timer is armed.
pub proof fn lemma_resume_while_pending(s: PaintableModel)
    requires
        s.pending,
    ensures
        resume_spec(s).0 == (PaintableModel { playing: true, ..s }),
        resume_spec(s).1 is None,
{
}

/// Pausing mid-animation and later resuming advances the published frame by
/// exactly one step past the frame published at pause time — the same single
/// step the pending tick would have shown — with no further drift: the
/// suppressed tick publishes nothing, and the resume publishes exactly the
/// successor frame.
pub proof fn lemma_pause_resume_no_drift(s: PaintableModel)
    requires
        model_wf(s),
        s.playing,
        s.pending,
        s.frames matches Some(fs) && s.published matches Some(p) && fs.len() >= 2 && s.idx == (
        if p + 1 < fs.len() {
            p + 1
        } else {
            0
        }),
    ensures
        ({
            let paused = pause_spec(s);
            let fired = timeout_spec(paused, paused.generation);
            let resumed = resume_spec(fired.0);
            &&& fired.0.published == s.published
            &&& fired.1 is None
            &&& resumed.0.published == Some(s.idx)
            &&& s.idx != s.published.unwrap()
        }),
{
}

} // verus!
