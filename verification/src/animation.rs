//! Per-entity sprite animation: a repeating frame timer, a list of
//! animation variants, and the index of the atlas cell to display.

use vstd::prelude::*;

verus! {

/// Logical animation state of the character.
#[derive(Debug, PartialEq, Eq, Structural, Clone, Copy)]
pub enum AnimationState {
    Idling,
    Walking,
}

/// A repeating timer over integer nanoseconds.
///
/// Ticking accumulates elapsed time (saturating at `u64::MAX`); when the
/// accumulated time reaches the duration, the timer reports completion for
/// that tick and keeps the remainder, so that completions recur every
/// `duration_ns` of elapsed time.
#[derive(Debug, PartialEq, Eq, Structural, Clone, Copy)]
pub struct FrameTimer {
    pub duration_ns: u64,
    pub elapsed_ns: u64,
    pub just_finished: bool,
}

impl FrameTimer {
    /// The timer's period is positive and the stored elapsed time has
    /// already been reduced below it.
    pub open spec fn wf(self) -> bool {
        &&& self.duration_ns > 0
        &&& self.elapsed_ns < self.duration_ns
    }

    /// A freshly started timer: nothing elapsed, not finished.
    pub open spec fn spec_new(duration_ns: u64) -> FrameTimer {
        FrameTimer { duration_ns, elapsed_ns: 0, just_finished: false }
    }

    /// Elapsed time after adding `delta` nanoseconds, saturating at `u64::MAX`.
    pub open spec fn spec_total(self, delta: u64) -> int {
        if self.elapsed_ns + delta > u64::MAX {
            u64::MAX as int
        } else {
            self.elapsed_ns + delta
        }
    }

    /// Whether a tick of `delta` nanoseconds completes the current period.
    pub open spec fn completes(self, delta: u64) -> bool {
        self.elapsed_ns + delta >= self.duration_ns
    }

    /// Elapsed time stored after a tick of `delta` nanoseconds: the total,
    /// reduced modulo the period once the period has been reached.
    pub open spec fn spec_elapsed_after(self, delta: u64) -> int {
        if self.completes(delta) {
            self.spec_total(delta) % (self.duration_ns as int)
        } else {
            self.spec_total(delta)
        }
    }

    pub fn new(duration_ns: u64) -> (t: FrameTimer)
        requires
            duration_ns > 0,
        ensures
            t == Self::spec_new(duration_ns),
            t.wf(),
    {
        FrameTimer { duration_ns, elapsed_ns: 0, just_finished: false }
    }

    /// Advance the timer by `delta` nanoseconds.
    pub fn tick(&mut self, delta: u64)
        requires
            old(self).wf(),
        ensures
            final(self).wf(),
            final(self).duration_ns == old(self).duration_ns,
            final(self).just_finished == old(self).completes(delta),
            final(self).elapsed_ns == old(self).spec_elapsed_after(delta),
    {
        let total = self.elapsed_ns.saturating_add(delta);
        if total >= self.duration_ns {
            self.just_finished = true;
            self.elapsed_ns = total % self.duration_ns;
        } else {
            self.just_finished = false;
            self.elapsed_ns = total;
        }
    }
}

/// One animation variant: a fixed number of frames shown at a fixed
/// interval, starting at a base index into the texture atlas.
#[derive(Debug, PartialEq, Eq, Structural, Clone, Copy)]
pub struct AnimationData {
    pub frames: usize,
    pub interval_ns: u64,
    pub state: AnimationState,
    pub atlas_index: usize,
}

/// A variant that can actually be played: at least one frame, a positive
/// interval, and atlas cells that all fit in `usize`.
pub open spec fn valid_variant(d: AnimationData) -> bool {
    &&& d.frames > 0
    &&& d.interval_ns > 0
    &&& d.atlas_index + d.frames <= usize::MAX
}

/// Per-entity animation: the timer driving the active variant, the current
/// frame within it, the index of the active variant, and the variant list.
pub struct Animation {
    pub timer: FrameTimer,
    pub frame: usize,
    pub current: usize,
    pub animations: Vec<AnimationData>,
}

/// The next frame index after one completed timer period: one step forward,
/// wrapping to 0 after `frames - 1`.
pub open spec fn next_frame(frame: nat, frames: nat) -> nat
    recommends
        frames > 0,
{
    (frame + 1) % frames
}

impl Animation {
    /// Well-formedness: the variant list is non-empty and every variant is
    /// playable; the active variant index and the frame index are in range;
    /// the timer runs at the active variant's interval.
    pub open spec fn wf(self) -> bool {
        &&& self.animations@.len() > 0
        &&& forall|i: int|
            0 <= i < self.animations@.len() ==> valid_variant(#[trigger] self.animations@[i])
        &&& self.current < self.animations@.len()
        &&& self.frame < self.active().frames
        &&& self.timer.duration_ns == self.active().interval_ns
        &&& self.timer.wf()
    }

    /// The active animation variant.
    pub open spec fn active(self) -> AnimationData {
        self.animations@[self.current as int]
    }

    /// The logical state the entity is animating.
    pub open spec fn spec_state(self) -> AnimationState {
        self.active().state
    }

    /// The atlas cell currently selected: the active variant's base index
    /// plus the current frame.
    pub open spec fn spec_atlas_index(self) -> int {
        self.active().atlas_index + self.frame
    }

    /// Some variant in the list carries the given state tag.
    pub open spec fn has_state(self, state: AnimationState) -> bool {
        exists|i: int| 0 <= i < self.animations@.len() && self.animations@[i].state == state
    }

    pub fn new(animations: Vec<AnimationData>) -> (a: Animation)
        requires
            animations@.len() > 0,
            forall|i: int|
                0 <= i < animations@.len() ==> valid_variant(#[trigger] animations@[i]),
        ensures
            a.wf(),
            a.animations@ == animations@,
            a.frame == 0,
            a.current == 0,
            a.timer == FrameTimer::spec_new(animations@[0].interval_ns),
    {
        let interval_ns = animations[0].interval_ns;
        Animation { timer: FrameTimer::new(interval_ns), frame: 0, current: 0, animations }
    }

    /// Accumulate `delta_ns` nanoseconds into the active variant's timer;
    /// when the timer completes this tick, step the frame index forward,
    /// wrapping modulo the variant's frame count.
    pub fn update_timer(&mut self, delta_ns: u64)
        requires
            old(self).wf(),
        ensures
            final(self).wf(),
            final(self).animations@ == old(self).animations@,
            final(self).current == old(self).current,
            final(self).timer.duration_ns == old(self).timer.duration_ns,
            final(self).timer.just_finished == old(self).timer.completes(delta_ns),
            final(self).timer.elapsed_ns == old(self).timer.spec_elapsed_after(delta_ns),
            final(self).frame == if old(self).timer.completes(delta_ns) {
                next_frame(old(self).frame as nat, old(self).active().frames as nat)
            } else {
                old(self).frame as nat
            },
    {
        self.timer.tick(delta_ns);
        if !self.timer.just_finished {
            return ;
        }
        self.frame = (self.frame + 1) % self.animations[self.current].frames;
    }

    /// Switch to the first variant tagged with `state` when the state
    /// changes: the frame index resets to 0 and the timer restarts at the
    /// new variant's interval. A repeated state is a no-op.
    pub fn update_state(&mut self, state: AnimationState)
        requires
            old(self).wf(),
            old(self).spec_state() != state ==> old(self).has_state(state),
        ensures
            final(self).wf(),
            state_transition(*old(self), *final(self), state),
    {
        if self.state() != state {
            let i = find_first_with_state(&self.animations, state);
            self.current = i;
            let interval_ns = self.animations[i].interval_ns;
            self.timer = FrameTimer::new(interval_ns);
            self.frame = 0;
        }
    }

    /// Whether the animation advanced on the most recent tick, so that the
    /// rendered atlas cell needs to be rewritten.
    pub fn changed(&self) -> (r: bool)
        ensures
            r == self.timer.just_finished,
    {
        self.timer.just_finished
    }

    pub fn state(&self) -> (r: AnimationState)
        requires
            self.wf(),
        ensures
            r == self.spec_state(),
    {
        self.animations[self.current].state
    }

    /// Return the sprite's index in the atlas.
    pub fn get_atlas_index(&self) -> (r: usize)
        requires
            self.wf(),
        ensures
            r == self.spec_atlas_index(),
    {
        self.animations[self.current].atlas_index + self.frame
    }
}

/// Index of the first variant in the list tagged with `state`.
fn find_first_with_state(animations: &Vec<AnimationData>, state: AnimationState) -> (r: usize)
    requires
        exists|i: int| 0 <= i < animations@.len() && animations@[i].state == state,
    ensures
        r < animations@.len(),
        animations@[r as int].state == state,
        forall|j: int| 0 <= j < r ==> animations@[j].state != state,
{
    let n = animations.len();
    let mut i: usize = 0;
    while i < n && animations[i].state != state
        invariant
            n == animations@.len(),
            i <= n,
            exists|k: int| 0 <= k < animations@.len() && animations@[k].state == state,
            forall|j: int| 0 <= j < i ==> animations@[j].state != state,
        decreases n - i,
    {
        i += 1;
    }
    i
}

/// How an animation changes under `update_state`: unchanged when the state
/// tag already matches, otherwise switched to the first variant carrying the
/// new tag, with the frame reset to 0 and the timer restarted at that
/// variant's interval.
pub open spec fn state_transition(pre: Animation, post: Animation, state: AnimationState) -> bool {
    if pre.spec_state() == state {
        post == pre
    } else {
        &&& post.animations@ == pre.animations@
        &&& 0 <= post.current < post.animations@.len()
        &&& post.active().state == state
        &&& forall|j: int| 0 <= j < post.current ==> post.animations@[j].state != state
        &&& post.frame == 0
        &&& post.timer == FrameTimer::spec_new(post.active().interval_ns)
    }
}

/// The frame index after `k` completed timer periods, each stepping the
/// frame as `update_timer` does.
pub open spec fn frame_after_completions(frame: nat, frames: nat, k: nat) -> nat
    recommends
        frames > 0,
    decreases k,
{
    if k == 0 {
        frame
    } else {
        next_frame(frame_after_completions(frame, frames, (k - 1) as nat), frames)
    }
}

/// One completed period keeps the frame index inside `[0, frames)` and
/// wraps it: it steps to `frame + 1`, except after the last frame, where it
/// returns to 0.
pub proof fn lemma_frame_wraps(frame: nat, frames: nat)
    requires
        frames > 0,
        frame < frames,
    ensures
        next_frame(frame, frames) < frames,
        frame + 1 < frames ==> next_frame(frame, frames) == frame + 1,
        frame + 1 == frames ==> next_frame(frame, frames) == 0,
{
    if frame + 1 < frames {
        vstd::arithmetic::div_mod::lemma_small_mod(frame + 1, frames);
    } else {
        vstd::arithmetic::div_mod::lemma_mod_self_0(frames as int);
    }
}

/// Starting from frame 0, the first `frames` completed periods visit every
/// index of `[0, frames)` in order.
pub proof fn lemma_frame_cycle_visits_all(frames: nat, k: nat)
    requires
        frames > 0,
        k < frames,
    ensures
        frame_after_completions(0, frames, k) == k,
    decreases k,
{
    if k > 0 {
        lemma_frame_cycle_visits_all(frames, (k - 1) as nat);
        lemma_frame_wraps((k - 1) as nat, frames);
    }
}

/// After one full cycle of `frames` completed periods, the frame index is
/// back at 0.
pub proof fn lemma_frame_cycle_wraps(frames: nat)
    requires
        frames > 0,
    ensures
        frame_after_completions(0, frames, frames) == 0,
{
    lemma_frame_cycle_visits_all(frames, (frames - 1) as nat);
    lemma_frame_wraps((frames - 1) as nat, frames);
}

/// Write the animation's atlas cell into the sprite's atlas slot, but only
/// on a tick on which the animation advanced; otherwise leave the slot
/// untouched.
pub fn sync_atlas(animation: &Animation, atlas_index: &mut usize)
    requires
        animation.wf(),
    ensures
        *final(atlas_index) == if animation.timer.just_finished {
            animation.spec_atlas_index()
        } else {
            *old(atlas_index) as int
        },
{
    if animation.changed() {
        *atlas_index = animation.get_atlas_index();
    }
}

} // verus!
