//! Animation clips and their playback.
//!
//! A clip is a run of frames, each shown for its own time, at some offset in a
//! sprite sheet. Playback keeps a cursor (the current frame and the time spent
//! in it) and moves it forward as time passes: a looping clip wraps around, any
//! other clip stays on its last frame.

use vstd::prelude::*;

verus! {

/// The timing of a clip's frames, in microseconds.
#[derive(Debug)]
pub enum Frames {
    /// A number of frames that all last equally long.
    Constant(usize, u32),
    /// One duration for each frame.
    Variable(Vec<u32>),
}

/// Why a clip was turned down when it was loaded.
#[derive(Clone, Copy, PartialEq, Eq, Debug, Structural)]
pub enum ClipError {
    /// The clip has no frame to show.
    NoFrames,
    /// The sheet index of the clip's last frame does not fit in a `usize`.
    IndexOverflow,
}

/// The mathematical content of a clip in playback.
pub struct ClipModel {
    /// How long each frame lasts.
    pub durations: Seq<nat>,
    /// The sheet index of the first frame.
    pub start_offset: nat,
    /// Whether the clip starts over after its last frame.
    pub looped: bool,
    /// The frame that is showing.
    pub index: nat,
    /// The time spent so far in that frame.
    pub elapsed: nat,
}

impl ClipModel {
    /// A clip at its very beginning.
    pub open spec fn fresh(durations: Seq<nat>, start_offset: nat, looped: bool) -> ClipModel {
        ClipModel { durations, start_offset, looped, index: 0, elapsed: 0 }
    }

    /// The cursor points at a frame of the clip, and that frame is not over.
    pub open spec fn wf(self) -> bool {
        &&& self.durations.len() > 0
        &&& self.index < self.durations.len()
        &&& (self.elapsed == 0 || self.elapsed < self.durations[self.index as int])
    }

    /// The clip has run to its end and stays there.
    pub open spec fn held(self) -> bool {
        !self.looped && self.index + 1 == self.durations.len()
    }

    /// The current frame is over once `dt` more has passed.
    pub open spec fn frame_due(self, dt: nat) -> bool {
        self.elapsed + dt >= self.durations[self.index as int]
    }

    /// The frame after the current one, the first frame following the last:
    /// the current index plus one, modulo the number of frames.
    pub open spec fn next_index(self) -> nat {
        if self.index + 1 == self.durations.len() {
            0
        } else {
            self.index + 1
        }
    }

    /// The clip after `dt` more has passed. At most one frame goes by in one
    /// step, and time beyond the end of a frame is not carried over.
    pub open spec fn advance(self, dt: nat) -> ClipModel {
        if self.held() {
            self
        } else if self.frame_due(dt) {
            ClipModel { index: self.next_index(), elapsed: 0, ..self }
        } else {
            ClipModel { elapsed: self.elapsed + dt, ..self }
        }
    }

    /// The clip after a run of steps, one after the other.
    pub open spec fn advance_all(self, steps: Seq<nat>) -> ClipModel
        decreases steps.len(),
    {
        if steps.len() == 0 {
            self
        } else {
            self.advance(steps[0]).advance_all(steps.drop_first())
        }
    }

    /// The sheet index of the frame that is showing.
    pub open spec fn display_index(self) -> nat {
        self.start_offset + self.index
    }
}

impl Frames {
    /// How long each frame lasts, frame by frame.
    pub open spec fn durations(&self) -> Seq<nat> {
        match self {
            Frames::Constant(count, duration) => Seq::new(*count as nat, |i: int| *duration as nat),
            Frames::Variable(list) => Seq::new(list@.len(), |i: int| list@[i] as nat),
        }
    }

    /// The number of frames.
    pub fn count(&self) -> (n: usize)
        ensures
            n == self.durations().len(),
    {
        match self {
            Frames::Constant(count, _) => *count,
            Frames::Variable(list) => list.len(),
        }
    }

    /// How long the frame at `index` lasts.
    pub fn duration_of(&self, index: usize) -> (d: u32)
        requires
            index < self.durations().len(),
        ensures
            d == self.durations()[index as int],
    {
        match self {
            Frames::Constant(_, duration) => *duration,
            Frames::Variable(list) => list[index],
        }
    }
}

impl Clone for Frames {
    /// A copy with the same timing.
    fn clone(&self) -> (copy: Frames)
        ensures
            copy.durations() == self.durations(),
    {
        match self {
            Frames::Constant(count, duration) => Frames::Constant(*count, *duration),
            Frames::Variable(list) => {
                let copied: Vec<u32> = list.clone();
                assert(copied@ =~= list@);
                Frames::Variable(copied)
            },
        }
    }
}

/// A clip together with its playback cursor. Every value of this type can
/// be played: it has a frame, its cursor points at one of its frames, and the
/// sheet index of each frame fits in a `usize`.
#[derive(Debug)]
pub struct SpriteAnimation {
    frames: Frames,
    start_index: usize,
    looped: bool,
    current_index: usize,
    elapsed: u32,
}

impl View for SpriteAnimation {
    type V = ClipModel;

    closed spec fn view(&self) -> ClipModel {
        ClipModel {
            durations: self.frames.durations(),
            start_offset: self.start_index as nat,
            looped: self.looped,
            index: self.current_index as nat,
            elapsed: self.elapsed as nat,
        }
    }
}

impl Clone for SpriteAnimation {
    /// A copy of the clip with its cursor where this one's is.
    fn clone(&self) -> (copy: SpriteAnimation)
        ensures
            copy@ == self@,
    {
        proof {
            use_type_invariant(self);
        }
        SpriteAnimation {
            frames: self.frames.clone(),
            start_index: self.start_index,
            looped: self.looped,
            current_index: self.current_index,
            elapsed: self.elapsed,
        }
    }
}

impl SpriteAnimation {
    /// What holds of every clip: its cursor is in order and every frame has
    /// a sheet index.
    #[verifier::type_invariant]
    closed spec fn playable(&self) -> bool {
        &&& self@.wf()
        &&& self.start_index + self.frames.durations().len() - 1 <= usize::MAX
    }

    /// A clip is fit to load when it has a frame and all its sheet indices
    /// fit in a `usize`.
    pub open spec fn loadable(frames: Frames, start_index: usize) -> bool {
        &&& frames.durations().len() > 0
        &&& start_index + frames.durations().len() - 1 <= usize::MAX
    }

    /// A clip at its beginning.
    pub fn new(frames: Frames, start_index: usize, looped: bool) -> (clip: SpriteAnimation)
        requires
            Self::loadable(frames, start_index),
        ensures
            clip@ == ClipModel::fresh(frames.durations(), start_index as nat, looped),
    {
        SpriteAnimation { frames, start_index, looped, current_index: 0, elapsed: 0 }
    }

    /// Loads a clip, or says why it cannot be played.
    pub fn try_new(frames: Frames, start_index: usize, looped: bool) -> (loaded: Result<
        SpriteAnimation,
        ClipError,
    >)
        ensures
            match loaded {
                Ok(clip) => {
                    &&& Self::loadable(frames, start_index)
                    &&& clip@ == ClipModel::fresh(frames.durations(), start_index as nat, looped)
                },
                Err(ClipError::NoFrames) => frames.durations().len() == 0,
                Err(ClipError::IndexOverflow) => {
                    &&& frames.durations().len() > 0
                    &&& start_index + frames.durations().len() - 1 > usize::MAX
                },
            },
    {
        let count: usize = frames.count();
        if count == 0 {
            return Err(ClipError::NoFrames);
        }
        if start_index > usize::MAX - (count - 1) {
            return Err(ClipError::IndexOverflow);
        }
        Ok(SpriteAnimation::new(frames, start_index, looped))
    }

    /// The timing of the frames.
    pub fn frames(&self) -> (frames: &Frames)
        ensures
            frames.durations() == self@.durations,
    {
        &self.frames
    }

    /// The sheet index of the first frame.
    pub fn start_index(&self) -> (i: usize)
        ensures
            i == self@.start_offset,
    {
        self.start_index
    }

    /// Whether the clip starts over after its last frame.
    pub fn looped(&self) -> (looped: bool)
        ensures
            looped == self@.looped,
    {
        self.looped
    }

    /// The number of frames; there is at least one.
    pub fn frame_count(&self) -> (n: usize)
        ensures
            n == self@.durations.len(),
            n > 0,
    {
        proof {
            use_type_invariant(self);
        }
        self.frames.count()
    }

    /// The frame that is showing, counted from the clip's first frame.
    pub fn index(&self) -> (i: usize)
        ensures
            i == self@.index,
            i < self@.durations.len(),
    {
        proof {
            use_type_invariant(self);
        }
        self.current_index
    }

    /// The time spent so far in the frame that is showing.
    pub fn elapsed_in_frame(&self) -> (t: u32)
        ensures
            t == self@.elapsed,
    {
        self.elapsed
    }

    /// The sheet index of the frame that is showing.
    pub fn display_index(&self) -> (i: usize)
        ensures
            i == self@.display_index(),
    {
        proof {
            use_type_invariant(self);
        }
        self.start_index + self.current_index
    }

    /// Lets `delta` microseconds pass.
    pub fn advance_index(&mut self, delta: u32)
        ensures
            final(self)@ == old(self)@.advance(delta as nat),
            old(self)@.wf(),
            final(self)@.wf(),
            old(self)@.held() ==> final(self)@ == old(self)@,
    {
        proof {
            use_type_invariant(&*self);
        }
        let count: usize = self.frame_count();
        if !self.looped && count == self.current_index + 1 {
            return ;
        }
        let duration: u32 = self.frames.duration_of(self.current_index);
        if delta < duration - self.elapsed {
            self.elapsed = self.elapsed + delta;
            return ;
        }
        proof {
            lemma_next_index_wraps(self@);
        }
        self.elapsed = 0;
        self.current_index = (self.current_index + 1) % count;
    }
}

/// Playing a clip keeps its cursor in order and its frames as they are.
pub proof fn lemma_advance_preserves(clip: ClipModel, dt: nat)
    requires
        clip.wf(),
    ensures
        clip.advance(dt).wf(),
        clip.advance(dt).durations == clip.durations,
        clip.advance(dt).start_offset == clip.start_offset,
        clip.advance(dt).looped == clip.looped,
{
}

/// One step shows either the same frame or the next one; after the last
/// frame of a looping clip the next one is the first.
pub proof fn lemma_advance_step(clip: ClipModel, dt: nat)
    requires
        clip.wf(),
    ensures
        clip.advance(dt).index == clip.index || clip.advance(dt).index == clip.next_index(),
        !clip.held() && clip.frame_due(dt) ==> clip.advance(dt).index == clip.next_index()
            && clip.advance(dt).elapsed == 0,
        !clip.held() && !clip.frame_due(dt) ==> clip.advance(dt).index == clip.index
            && clip.advance(dt).elapsed == clip.elapsed + dt,
{
}

/// The frame after the current one is the current index plus one, modulo the
/// number of frames.
pub proof fn lemma_next_index_wraps(clip: ClipModel)
    requires
        clip.wf(),
    ensures
        clip.next_index() == (clip.index + 1) % clip.durations.len(),
        clip.next_index() < clip.durations.len(),
{
    let n = clip.durations.len() as int;
    let i = clip.index as int;
    if i + 1 == n {
        assert(n % n == 0) by (nonlinear_arith)
            requires
                n > 0,
        ;
    } else {
        assert((i + 1) % n == i + 1) by (nonlinear_arith)
            requires
                0 <= i + 1 < n,
        ;
    }
}

/// A clip that has run to its end is not moved by any amount of time.
pub proof fn lemma_held_clip_stays(clip: ClipModel, dt: nat)
    requires
        clip.held(),
    ensures
        clip.advance(dt) == clip,
{
}

/// A clip that has run to its end is not moved by any run of steps.
pub proof fn lemma_held_clip_stays_forever(clip: ClipModel, steps: Seq<nat>)
    requires
        clip.held(),
    ensures
        clip.advance_all(steps) == clip,
    decreases steps.len(),
{
    if steps.len() > 0 {
        lemma_held_clip_stays_forever(clip, steps.drop_first());
    }
}

/// A clip of one frame that does not loop shows that frame whatever time
/// passes.
pub proof fn lemma_single_frame_stays(clip: ClipModel, steps: Seq<nat>)
    requires
        clip.wf(),
        !clip.looped,
        clip.durations.len() == 1,
    ensures
        clip.advance_all(steps) == clip,
        clip.advance_all(steps).index == 0,
{
    lemma_held_clip_stays_forever(clip, steps);
}

/// A run of steps keeps the cursor in order.
pub proof fn lemma_advance_all_preserves(clip: ClipModel, steps: Seq<nat>)
    requires
        clip.wf(),
    ensures
        clip.advance_all(steps).wf(),
        clip.advance_all(steps).durations == clip.durations,
        clip.advance_all(steps).start_offset == clip.start_offset,
        clip.advance_all(steps).looped == clip.looped,
    decreases steps.len(),
{
    if steps.len() > 0 {
        lemma_advance_preserves(clip, steps[0]);
        lemma_advance_all_preserves(clip.advance(steps[0]), steps.drop_first());
    }
}

} // verus!
