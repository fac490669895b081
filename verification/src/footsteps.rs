//! Footstep-sound state machine.
//!
//! While the character walks, exactly one looping footstep sound should be
//! live, chosen by the area the character is in; it stops when the walking
//! stops and, with priority, when the area changes. The engine owns the
//! audio entities: each tick it hands this machine the current area and
//! whether the character walks, and carries out the command that comes
//! back (start a clip, stop the live sound, or keep things as they are).

use vstd::prelude::*;

verus! {

/// The area the character currently is in, which selects the footstep
/// sound variant.
#[derive(Debug, PartialEq, Eq, Structural, Clone, Copy)]
pub enum Area {
    Outside,
    Cave,
}

/// One of the looping footstep clips the engine has loaded.
#[derive(Debug, PartialEq, Eq, Structural, Clone, Copy)]
pub enum FootstepClip {
    RunOutside,
    RunCave,
}

/// The clip that belongs to an area.
pub open spec fn spec_clip_for_area(area: Area) -> FootstepClip {
    match area {
        Area::Outside => FootstepClip::RunOutside,
        Area::Cave => FootstepClip::RunCave,
    }
}

/// Select the footstep clip for an area.
pub fn clip_for_area(area: Area) -> (c: FootstepClip)
    ensures
        c == spec_clip_for_area(area),
{
    match area {
        Area::Outside => FootstepClip::RunOutside,
        Area::Cave => FootstepClip::RunCave,
    }
}

/// What the engine must do with the footstep sound this tick.
#[derive(Debug, PartialEq, Eq, Structural, Clone, Copy)]
pub enum StepCommand {
    /// Spawn one looping instance of the clip.
    Start(FootstepClip),
    /// Despawn the live instance.
    Stop,
    /// Leave the live sounds as they are.
    Keep,
}

/// The machine's memory between ticks: the area it last acted on, and
/// whether a footstep sound is live.
#[derive(Debug, PartialEq, Eq, Structural, Clone, Copy)]
pub struct StepSoundState {
    pub last_area: Area,
    pub playing: bool,
}

/// One tick of the machine. An area change while a sound is live takes
/// priority: the sound stops at once and nothing else happens this tick
/// (in particular the remembered area stays, so the following tick still
/// sees the change and can restart the sound). Otherwise the remembered
/// area is brought up to date; walking without a live sound starts the
/// area's clip, standing still with a live sound stops it.
pub open spec fn step_spec(pre: StepSoundState, area: Area, walking: bool) -> (
    StepSoundState,
    StepCommand,
) {
    if area != pre.last_area && pre.playing {
        (StepSoundState { last_area: pre.last_area, playing: false }, StepCommand::Stop)
    } else if walking && !pre.playing {
        (
            StepSoundState { last_area: area, playing: true },
            StepCommand::Start(spec_clip_for_area(area)),
        )
    } else if !walking && pre.playing {
        (StepSoundState { last_area: area, playing: false }, StepCommand::Stop)
    } else {
        (StepSoundState { last_area: area, playing: pre.playing }, StepCommand::Keep)
    }
}

/// How many footstep sounds are live after the engine carries out a
/// command, given how many were live before.
pub open spec fn live_after(cmd: StepCommand, live: int) -> int {
    match cmd {
        StepCommand::Start(_) => live + 1,
        StepCommand::Stop => live - 1,
        StepCommand::Keep => live,
    }
}

/// The machine's view agrees with the world: a sound is live exactly when
/// the machine believes one is, and never more than one.
pub open spec fn sound_inventory_ok(s: StepSoundState, live: int) -> bool {
    live == if s.playing {
        1int
    } else {
        0int
    }
}

impl StepSoundState {
    /// A machine that has seen `area` and plays nothing.
    pub fn new(area: Area) -> (s: StepSoundState)
        ensures
            s.last_area == area,
            !s.playing,
    {
        StepSoundState { last_area: area, playing: false }
    }

    /// Advance the machine by one tick and return the command the engine
    /// must carry out.
    pub fn tick(&mut self, area: Area, walking: bool) -> (cmd: StepCommand)
        ensures
            *final(self) == step_spec(*old(self), area, walking).0,
            cmd == step_spec(*old(self), area, walking).1,
    {
        if area != self.last_area && self.playing {
            self.playing = false;
            return StepCommand::Stop;
        }
        self.last_area = area;
        if walking && !self.playing {
            self.playing = true;
            return StepCommand::Start(clip_for_area(area));
        }
        if !walking && self.playing {
            self.playing = false;
            return StepCommand::Stop;
        }
        StepCommand::Keep
    }
}

/// One tick keeps the books straight: commands never despawn a sound that
/// is not there, the machine's belief keeps matching the number of live
/// sounds, a walking tick in the remembered area leaves exactly one sound
/// live, a standing tick leaves none, and an area change while a sound is
/// live stops it at once.
pub proof fn lemma_step_sound_inventory(pre: StepSoundState, area: Area, walking: bool, live: int)
    requires
        sound_inventory_ok(pre, live),
    ensures
        ({
            let (post, cmd) = step_spec(pre, area, walking);
            &&& 0 <= live_after(cmd, live) <= 1
            &&& sound_inventory_ok(post, live_after(cmd, live))
            &&& (walking && area == pre.last_area) ==> live_after(cmd, live) == 1
            &&& !walking ==> live_after(cmd, live) == 0
            &&& (pre.playing && area != pre.last_area) ==> (cmd == StepCommand::Stop
                && !post.playing)
        }),
{
}

/// The machine's state and the number of live sounds after a run of ticks,
/// each tick's command carried out by the engine.
pub open spec fn run_steps(pre: StepSoundState, live: int, inputs: Seq<(Area, bool)>) -> (
    StepSoundState,
    int,
)
    decreases inputs.len(),
{
    if inputs.len() == 0 {
        (pre, live)
    } else {
        let (post, cmd) = step_spec(pre, inputs[0].0, inputs[0].1);
        run_steps(post, live_after(cmd, live), inputs.subrange(1, inputs.len() as int))
    }
}

/// Walking continuously in one area keeps exactly one footstep sound live:
/// over any non-empty run of ticks that all walk in the area the machine
/// already remembers, every tick ends with one live sound.
pub proof fn lemma_walking_keeps_one_sound(
    pre: StepSoundState,
    live: int,
    inputs: Seq<(Area, bool)>,
    area: Area,
)
    requires
        sound_inventory_ok(pre, live),
        pre.last_area == area,
        inputs.len() > 0,
        forall|i: int| 0 <= i < inputs.len() ==> inputs[i] == (area, true),
    ensures
        run_steps(pre, live, inputs).0.playing,
        run_steps(pre, live, inputs).0.last_area == area,
        run_steps(pre, live, inputs).1 == 1,
    decreases inputs.len(),
{
    assert(inputs[0] == (area, true));
    let (post, cmd) = step_spec(pre, inputs[0].0, inputs[0].1);
    lemma_step_sound_inventory(pre, inputs[0].0, inputs[0].1, live);
    let rest = inputs.subrange(1, inputs.len() as int);
    assert(run_steps(pre, live, inputs) == run_steps(post, live_after(cmd, live), rest));
    if inputs.len() > 1 {
        assert forall|i: int| 0 <= i < rest.len() implies rest[i] == (area, true) by {
            assert(rest[i] == inputs[i + 1]);
        }
        lemma_walking_keeps_one_sound(post, live_after(cmd, live), rest, area);
    } else {
        assert(run_steps(post, live_after(cmd, live), rest) == (post, live_after(cmd, live)));
    }
}

/// While the character does not walk, no footstep sound is live: over any
/// non-empty run of ticks without walking, every tick ends with zero live
/// sounds, whatever the areas were.
pub proof fn lemma_idle_keeps_silence(pre: StepSoundState, live: int, inputs: Seq<(Area, bool)>)
    requires
        sound_inventory_ok(pre, live),
        inputs.len() > 0,
        forall|i: int| 0 <= i < inputs.len() ==> !(#[trigger] inputs[i]).1,
    ensures
        !run_steps(pre, live, inputs).0.playing,
        run_steps(pre, live, inputs).1 == 0,
    decreases inputs.len(),
{
    assert(!inputs[0].1);
    let (post, cmd) = step_spec(pre, inputs[0].0, inputs[0].1);
    lemma_step_sound_inventory(pre, inputs[0].0, inputs[0].1, live);
    let rest = inputs.subrange(1, inputs.len() as int);
    assert(run_steps(pre, live, inputs) == run_steps(post, live_after(cmd, live), rest));
    if inputs.len() > 1 {
        assert forall|i: int| 0 <= i < rest.len() implies !(#[trigger] rest[i]).1 by {
            assert(rest[i] == inputs[i + 1]);
        }
        lemma_idle_keeps_silence(post, live_after(cmd, live), rest);
    } else {
        assert(run_steps(post, live_after(cmd, live), rest) == (post, live_after(cmd, live)));
    }
}

/// A run of ticks never leaks a sound entity and never stops a sound that
/// is not live: the count of live sounds stays 0 or 1 throughout, and ends
/// as the machine believes.
pub proof fn lemma_run_no_leak(pre: StepSoundState, live: int, inputs: Seq<(Area, bool)>)
    requires
        sound_inventory_ok(pre, live),
    ensures
        sound_inventory_ok(run_steps(pre, live, inputs).0, run_steps(pre, live, inputs).1),
        0 <= run_steps(pre, live, inputs).1 <= 1,
    decreases inputs.len(),
{
    if inputs.len() == 0 {
    } else {
        let (post, cmd) = step_spec(pre, inputs[0].0, inputs[0].1);
        lemma_step_sound_inventory(pre, inputs[0].0, inputs[0].1, live);
        lemma_run_no_leak(post, live_after(cmd, live), inputs.subrange(1, inputs.len() as int));
    }
}

} // verus!
