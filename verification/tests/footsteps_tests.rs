use step_animation::footsteps::Area;
use step_animation::footsteps::FootstepClip;
use step_animation::footsteps::StepCommand;
use step_animation::footsteps::StepSoundState;
use step_animation::footsteps::clip_for_area;

#[test]
fn clip_selection_follows_area() {
    assert_eq!(clip_for_area(Area::Outside), FootstepClip::RunOutside);
    assert_eq!(clip_for_area(Area::Cave), FootstepClip::RunCave);
}

#[test]
fn walking_in_one_area_keeps_exactly_one_sound() {
    let mut s = StepSoundState::new(Area::Outside);
    let mut live: i64 = 0;
    for tick in 0..5 {
        let cmd = s.tick(Area::Outside, true);
        match cmd {
            StepCommand::Start(clip) => {
                assert_eq!(clip, FootstepClip::RunOutside);
                live += 1;
            }
            StepCommand::Stop => live -= 1,
            StepCommand::Keep => {}
        }
        assert_eq!(live, 1, "tick {tick}");
    }
}

#[test]
fn stopping_walk_despawns_the_sound() {
    let mut s = StepSoundState::new(Area::Cave);
    assert_eq!(s.tick(Area::Cave, true), StepCommand::Start(FootstepClip::RunCave));
    assert_eq!(s.tick(Area::Cave, false), StepCommand::Stop);
    assert!(!s.playing);
    assert_eq!(s.tick(Area::Cave, false), StepCommand::Keep);
}

#[test]
fn area_change_while_walking_despawns_then_restarts() {
    let mut s = StepSoundState::new(Area::Outside);
    assert_eq!(s.tick(Area::Outside, true), StepCommand::Start(FootstepClip::RunOutside));
    // The change is handled before anything else: the old sound goes first.
    assert_eq!(s.tick(Area::Cave, true), StepCommand::Stop);
    assert!(!s.playing);
    assert_eq!(s.last_area, Area::Outside);
    // The next tick starts the new area's clip.
    assert_eq!(s.tick(Area::Cave, true), StepCommand::Start(FootstepClip::RunCave));
    assert_eq!(s.last_area, Area::Cave);
}

#[test]
fn area_change_while_silent_spawns_at_once() {
    let mut s = StepSoundState::new(Area::Outside);
    assert_eq!(s.tick(Area::Outside, false), StepCommand::Keep);
    assert_eq!(s.tick(Area::Cave, true), StepCommand::Start(FootstepClip::RunCave));
    assert_eq!(s.last_area, Area::Cave);
}

#[test]
fn idle_run_never_spawns() {
    let mut s = StepSoundState::new(Area::Outside);
    let mut live: i64 = 0;
    for area in [Area::Outside, Area::Cave, Area::Cave, Area::Outside] {
        match s.tick(area, false) {
            StepCommand::Start(_) => live += 1,
            StepCommand::Stop => live -= 1,
            StepCommand::Keep => {}
        }
        assert_eq!(live, 0);
    }
}
