//! Character states, edge-triggered input events, and the locomotion
//! controller that couples state transitions to velocity commands.

use vstd::prelude::*;

verus! {

/// Horizontal speed commanded while running, in engine units per second.
pub const RUN_SPEED: i64 = 500;

/// Horizontal speed commanded while running left.
pub const RUN_SPEED_LEFT: i64 = -500;

/// Vertical speed commanded on a jump, in engine units per second.
pub const JUMP_SPEED: i64 = 300;

/// Number of variants of `CharacterState`.
pub const STATE_COUNT: usize = 4;

/// Discrete state of a character.
///
/// Declaration order matters: the ordinal of a state in declaration order is
/// the index of its animation clip in the shared `SpriteAnimationSet`.
#[derive(Clone, Copy, Debug, PartialEq, Eq, Structural)]
pub enum CharacterState {
    Idle,
    Jump,
    RunLeft,
    RunRight,
}

impl CharacterState {
    /// Position of the state in declaration order, used as the index of its
    /// clip in the animation set.
    pub open spec fn ordinal_spec(self) -> int {
        match self {
            CharacterState::Idle => 0,
            CharacterState::Jump => 1,
            CharacterState::RunLeft => 2,
            CharacterState::RunRight => 3,
        }
    }

    /// The ordinal is always a valid index into a set of `STATE_COUNT` clips.
    pub proof fn lemma_ordinal_in_range(self)
        ensures
            0 <= self.ordinal_spec() < STATE_COUNT,
    {
    }

    pub fn ordinal(self) -> (r: usize)
        ensures
            r == self.ordinal_spec(),
    {
        match self {
            CharacterState::Idle => 0,
            CharacterState::Jump => 1,
            CharacterState::RunLeft => 2,
            CharacterState::RunRight => 3,
        }
    }
}

/// The set of edge-triggered input events observed this tick.
///
/// Each flag is true only on a tick where the corresponding action was
/// freshly pressed; holding a key does not re-fire an event.
#[derive(Clone, Copy, Debug, PartialEq, Eq, Structural)]
pub struct InputEvents {
    pub idle: bool,
    pub run_right: bool,
    pub run_left: bool,
    pub jump: bool,
}

impl InputEvents {
    /// Whether any edge event fired this tick.
    pub open spec fn any(self) -> bool {
        self.idle || self.run_right || self.run_left || self.jump
    }

    /// A tick on which no edge event fired.
    pub fn quiet() -> (e: InputEvents)
        ensures
            !e.any(),
    {
        InputEvents { idle: false, run_right: false, run_left: false, jump: false }
    }
}

/// The state after one tick of input.
///
/// Any edge event sets the state unconditionally to the matching variant (a
/// jump is allowed even mid-air; this permissive policy is deliberate).  When
/// several events fire on the same tick, later-checked events win: jump over
/// run-left over run-right over idle.  With no event the state is sticky.
pub open spec fn transition(s: CharacterState, e: InputEvents) -> CharacterState {
    if e.jump {
        CharacterState::Jump
    } else if e.run_left {
        CharacterState::RunLeft
    } else if e.run_right {
        CharacterState::RunRight
    } else if e.idle {
        CharacterState::Idle
    } else {
        s
    }
}

/// Sticky state: on a tick with no edge events the character state is
/// unchanged.
pub proof fn lemma_sticky_state(s: CharacterState, e: InputEvents)
    requires
        !e.any(),
    ensures
        transition(s, e) == s,
{
}

/// Apply this tick's edge events to the character state.
pub fn apply_events(state: &mut CharacterState, events: InputEvents)
    ensures
        *final(state) == transition(*old(state), events),
{
    if events.idle {
        *state = CharacterState::Idle;
    }
    if events.run_right {
        *state = CharacterState::RunRight;
    }
    if events.run_left {
        *state = CharacterState::RunLeft;
    }
    if events.jump {
        *state = CharacterState::Jump;
    }
}

/// A linear velocity, as the external physics body sees it.
#[derive(Clone, Copy, Debug, PartialEq, Eq, Structural)]
pub struct Velocity {
    pub x: i64,
    pub y: i64,
}

/// One-shot velocity command issued to the external physics body.
#[derive(Clone, Copy, Debug, PartialEq, Eq, Structural)]
pub enum VelocityCommand {
    /// Overwrite both velocity components (running).
    SetFull { x: i64, y: i64 },
    /// Overwrite the vertical component only (jumping).
    SetVertical { y: i64 },
    /// Issue no command; the body keeps its current velocity (idling).
    Coast,
}

/// The velocity command a state issues, reissued on every tick the state
/// holds that value.
pub open spec fn command_for(s: CharacterState) -> VelocityCommand {
    match s {
        CharacterState::Idle => VelocityCommand::Coast,
        CharacterState::Jump => VelocityCommand::SetVertical { y: JUMP_SPEED },
        CharacterState::RunLeft => VelocityCommand::SetFull { x: RUN_SPEED_LEFT, y: 0 },
        CharacterState::RunRight => VelocityCommand::SetFull { x: RUN_SPEED, y: 0 },
    }
}

/// The velocity command for the given state.
pub fn velocity_command(s: CharacterState) -> (c: VelocityCommand)
    ensures
        c == command_for(s),
{
    match s {
        CharacterState::Idle => VelocityCommand::Coast,
        CharacterState::Jump => VelocityCommand::SetVertical { y: JUMP_SPEED },
        CharacterState::RunLeft => VelocityCommand::SetFull { x: RUN_SPEED_LEFT, y: 0 },
        CharacterState::RunRight => VelocityCommand::SetFull { x: RUN_SPEED, y: 0 },
    }
}

/// The velocity after a command is applied.
pub open spec fn apply_command_spec(v: Velocity, c: VelocityCommand) -> Velocity {
    match c {
        VelocityCommand::SetFull { x, y } => Velocity { x: x, y: y },
        VelocityCommand::SetVertical { y } => Velocity { x: v.x, y: y },
        VelocityCommand::Coast => v,
    }
}

/// Apply a velocity command to the physics body's velocity.
pub fn apply_command(vel: &mut Velocity, c: VelocityCommand)
    ensures
        *final(vel) == apply_command_spec(*old(vel), c),
{
    match c {
        VelocityCommand::SetFull { x, y } => {
            vel.x = x;
            vel.y = y;
        },
        VelocityCommand::SetVertical { y } => {
            vel.y = y;
        },
        VelocityCommand::Coast => {},
    }
}

/// One tick of the locomotion controller: apply this tick's edge events to
/// the state, then issue the new state's velocity command to the body.
pub fn locomotion_step(state: &mut CharacterState, events: InputEvents, vel: &mut Velocity)
    ensures
        *final(state) == transition(*old(state), events),
        *final(vel) == apply_command_spec(*old(vel), command_for(*final(state))),
{
    apply_events(state, events);
    let c = velocity_command(*state);
    apply_command(vel, c);
}

} // verus!
