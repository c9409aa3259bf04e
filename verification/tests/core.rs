use platformer_core::camera::camera_follow;
use platformer_core::camera::Position;
use platformer_core::character::advance_frame_once;
use platformer_core::character::Character;
use platformer_core::clips::AnimationClip;
use platformer_core::clips::SheetEntry;
use platformer_core::clips::SpriteAnimationSet;
use platformer_core::clock::AnimationClock;
use platformer_core::state::CharacterState;
use platformer_core::state::InputEvents;
use platformer_core::state::Velocity;

fn quiet() -> InputEvents {
    InputEvents { idle: false, run_right: false, run_left: false, jump: false }
}

fn entries(counts: [usize; 4]) -> Vec<SheetEntry> {
    let mut v = Vec::new();
    for (i, c) in counts.iter().enumerate() {
        v.push(SheetEntry { texture: 100 + i as u64, frame_count: *c });
    }
    v
}

/// The hero's sheet table: idle, jump, run (left), run (right).
fn hero_set() -> SpriteAnimationSet {
    SpriteAnimationSet::build(&entries([10, 15, 10, 10]))
}

#[test]
fn clip_bounds_ordered_for_every_state() {
    let set = hero_set();
    assert_eq!(set.len(), 4);
    let expected_last = [9, 14, 9, 9];
    for i in 0..4 {
        let clip = set.clip(i);
        assert!(clip.first_frame <= clip.last_frame);
        assert_eq!(clip.first_frame, 0);
        assert_eq!(clip.last_frame, expected_last[i]);
    }
}

#[test]
fn builder_ranges_idempotent() {
    let a = SpriteAnimationSet::build(&entries([10, 15, 10, 10]));
    let mut rows = entries([10, 15, 10, 10]);
    for r in rows.iter_mut() {
        r.texture += 1000; // a rebuild may resolve different texture handles
    }
    let b = SpriteAnimationSet::build(&rows);
    assert_eq!(a.len(), b.len());
    for i in 0..a.len() {
        assert_eq!(a.clip(i).first_frame, b.clip(i).first_frame);
        assert_eq!(a.clip(i).last_frame, b.clip(i).last_frame);
        assert_ne!(a.clip(i).texture, b.clip(i).texture);
    }
}

#[test]
fn wraparound_at_last_frame() {
    let clip = AnimationClip { first_frame: 0, last_frame: 4, texture: 7 };
    assert_eq!(advance_frame_once(4, clip), 0);
    assert_eq!(advance_frame_once(2, clip), 3);
}

#[test]
fn stale_frame_past_last_wraps() {
    let clip = AnimationClip { first_frame: 0, last_frame: 4, texture: 7 };
    assert_eq!(advance_frame_once(7, clip), 0);
}

#[test]
fn single_frame_clip_stays_put() {
    let clip = AnimationClip { first_frame: 0, last_frame: 0, texture: 7 };
    assert_eq!(advance_frame_once(0, clip), 0);
}

#[test]
fn run_right_transition_and_velocity() {
    let set = hero_set();
    let mut ch = Character::spawn(&set, 100).unwrap();
    assert_eq!(ch.state, CharacterState::Idle);
    let mut vel = Velocity { x: 0, y: 0 };
    let events = InputEvents { run_right: true, ..quiet() };
    ch.update(&set, events, 1, &mut vel);
    assert_eq!(ch.state, CharacterState::RunRight);
    assert_eq!(vel, Velocity { x: 500, y: 0 });
}

#[test]
fn run_left_velocity() {
    let set = hero_set();
    let mut ch = Character::spawn(&set, 100).unwrap();
    let mut vel = Velocity { x: 0, y: 0 };
    let events = InputEvents { run_left: true, ..quiet() };
    ch.update(&set, events, 1, &mut vel);
    assert_eq!(ch.state, CharacterState::RunLeft);
    assert_eq!(vel, Velocity { x: -500, y: 0 });
}

#[test]
fn jump_sets_vertical_only() {
    let set = hero_set();
    let mut ch = Character::spawn(&set, 100).unwrap();
    let mut vel = Velocity { x: 123, y: -7 };
    let events = InputEvents { jump: true, ..quiet() };
    ch.update(&set, events, 1, &mut vel);
    assert_eq!(ch.state, CharacterState::Jump);
    assert_eq!(vel, Velocity { x: 123, y: 300 });
}

#[test]
fn idle_issues_no_velocity_command() {
    let set = hero_set();
    let mut ch = Character::spawn(&set, 100).unwrap();
    ch.state = CharacterState::RunRight;
    let mut vel = Velocity { x: 42, y: 13 };
    let events = InputEvents { idle: true, ..quiet() };
    ch.update(&set, events, 1, &mut vel);
    assert_eq!(ch.state, CharacterState::Idle);
    assert_eq!(vel, Velocity { x: 42, y: 13 });
}

#[test]
fn simultaneous_events_jump_wins() {
    let set = hero_set();
    let mut ch = Character::spawn(&set, 100).unwrap();
    let mut vel = Velocity { x: 0, y: 0 };
    let events = InputEvents { idle: true, run_right: true, run_left: true, jump: true };
    ch.update(&set, events, 1, &mut vel);
    assert_eq!(ch.state, CharacterState::Jump);
}

#[test]
fn sticky_state_without_events() {
    let set = hero_set();
    let mut ch = Character::spawn(&set, 100).unwrap();
    ch.state = CharacterState::RunLeft;
    let mut vel = Velocity { x: 0, y: 0 };
    ch.update(&set, quiet(), 1, &mut vel);
    assert_eq!(ch.state, CharacterState::RunLeft);
    // the state's command is reissued on every tick it holds
    assert_eq!(vel, Velocity { x: -500, y: 0 });
}

#[test]
fn clip_swap_keeps_frame_index() {
    // Idle clip [0, 9], Jump clip [0, 14]
    let set = hero_set();
    let mut ch = Character::spawn(&set, 100).unwrap();
    ch.frame = 7;
    let mut vel = Velocity { x: 0, y: 0 };
    let events = InputEvents { jump: true, ..quiet() };
    // dt below the interval: the clock does not fire this tick
    let fired = ch.update(&set, events, 1, &mut vel);
    assert!(!fired);
    assert_eq!(ch.state, CharacterState::Jump);
    assert_eq!(ch.frame, 7);
    assert_eq!(ch.texture, set.clip(1).texture);
}

#[test]
fn clip_swap_stale_frame_wraps_on_fire() {
    // Jump clip [0, 4], shorter than Idle's [0, 9]
    let set = SpriteAnimationSet::build(&entries([10, 5, 10, 10]));
    let mut ch = Character::spawn(&set, 100).unwrap();
    ch.frame = 7;
    let mut vel = Velocity { x: 0, y: 0 };
    let events = InputEvents { jump: true, ..quiet() };
    // dt reaches the interval: the clock fires and 7 >= 4 wraps to 0
    let fired = ch.update(&set, events, 100, &mut vel);
    assert!(fired);
    assert_eq!(ch.state, CharacterState::Jump);
    assert_eq!(ch.frame, 0);
}

#[test]
fn clock_fires_when_cumulative_time_crosses_interval() {
    // Idle [0, 9], Jump [0, 14], interval 100 time units, five ticks of 50:
    // the clock fires exactly when cumulative elapsed time crosses each
    // multiple of the interval, here on the second and fourth tick.
    let set = hero_set();
    let mut ch = Character::spawn(&set, 100).unwrap();
    let mut vel = Velocity { x: 0, y: 0 };
    let mut frames = Vec::new();
    let mut firings = Vec::new();
    for _ in 0..5 {
        let fired = ch.update(&set, quiet(), 50, &mut vel);
        frames.push(ch.frame);
        firings.push(fired);
    }
    assert_eq!(firings, vec![false, true, false, true, false]);
    assert_eq!(frames, vec![0, 1, 1, 2, 2]);
}

#[test]
fn clock_fires_at_most_once_per_tick() {
    // one tick covering two and a half intervals still advances one frame
    let set = hero_set();
    let mut ch = Character::spawn(&set, 100).unwrap();
    let mut vel = Velocity { x: 0, y: 0 };
    let fired = ch.update(&set, quiet(), 250, &mut vel);
    assert!(fired);
    assert_eq!(ch.frame, 1);
    assert_eq!(ch.clock.elapsed, 50);
}

#[test]
fn frames_stay_in_bounds_over_many_ticks() {
    let set = hero_set();
    let mut ch = Character::spawn(&set, 3).unwrap();
    let mut vel = Velocity { x: 0, y: 0 };
    let scripts = [
        InputEvents { jump: true, ..quiet() },
        quiet(),
        InputEvents { run_left: true, ..quiet() },
        quiet(),
        quiet(),
        InputEvents { idle: true, ..quiet() },
    ];
    for t in 0..200 {
        let events = scripts[t % scripts.len()];
        let fired = ch.update(&set, events, 2, &mut vel);
        // the frame always stays within the union of the set's clip bounds,
        // here [0, 14]
        assert!(ch.frame <= 14);
        // and a firing lands it within the active clip's bounds
        if fired {
            let active = set.clip(ch.state.ordinal());
            assert!(active.first_frame <= ch.frame && ch.frame <= active.last_frame);
        }
    }
}

#[test]
fn empty_set_defers_spawn() {
    let set = SpriteAnimationSet::new_empty();
    assert!(Character::spawn(&set, 100).is_none());
}

#[test]
fn empty_set_update_is_a_no_op() {
    let set = SpriteAnimationSet::new_empty();
    let mut ch = Character {
        state: CharacterState::RunRight,
        clock: AnimationClock::new(100),
        frame: 3,
        texture: 9,
    };
    let before = ch;
    let mut vel = Velocity { x: 11, y: 22 };
    let events = InputEvents { jump: true, ..quiet() };
    let fired = ch.update(&set, events, 1000, &mut vel);
    assert!(!fired);
    assert_eq!(ch, before);
    assert_eq!(vel, Velocity { x: 11, y: 22 });
}

#[test]
fn spawn_starts_idle_on_first_idle_frame() {
    let set = hero_set();
    let ch = Character::spawn(&set, 80).unwrap();
    assert_eq!(ch.state, CharacterState::Idle);
    assert_eq!(ch.frame, 0);
    assert_eq!(ch.texture, set.clip(0).texture);
    assert_eq!(ch.clock.interval, 80);
    assert_eq!(ch.clock.elapsed, 0);
}

#[test]
fn locomotion_controller_alone() {
    let mut state = CharacterState::Idle;
    let mut vel = Velocity { x: 9, y: 9 };
    platformer_core::state::locomotion_step(
        &mut state,
        InputEvents { run_right: true, ..quiet() },
        &mut vel,
    );
    assert_eq!(state, CharacterState::RunRight);
    assert_eq!(vel, Velocity { x: 500, y: 0 });

    // sticky with no events, and the command reissued
    platformer_core::state::locomotion_step(&mut state, quiet(), &mut vel);
    assert_eq!(state, CharacterState::RunRight);
    assert_eq!(vel, Velocity { x: 500, y: 0 });
}

#[test]
fn camera_follows_single_character() {
    let mut cameras = vec![Position { x: 0, y: 50 }];
    let heroes = vec![Position { x: 320, y: -40 }];
    let applied = camera_follow(&mut cameras, &heroes);
    assert!(applied);
    assert_eq!(cameras[0], Position { x: 320, y: 50 });
}

#[test]
fn camera_follow_guarded_against_wrong_counts() {
    let mut cameras = vec![Position { x: 1, y: 2 }, Position { x: 3, y: 4 }];
    let heroes = vec![Position { x: 320, y: -40 }];
    assert!(!camera_follow(&mut cameras, &heroes));
    assert_eq!(cameras[0], Position { x: 1, y: 2 });
    assert_eq!(cameras[1], Position { x: 3, y: 4 });

    let mut one_camera = vec![Position { x: 1, y: 2 }];
    let nobody: Vec<Position> = Vec::new();
    assert!(!camera_follow(&mut one_camera, &nobody));
    assert_eq!(one_camera[0], Position { x: 1, y: 2 });
}
