//! A character entity and its per-tick update: locomotion first, then the
//! animation frame advancer.

use vstd::prelude::*;
use crate::clips::AnimationClip;
use crate::clips::SpriteAnimationSet;
use crate::clock::AnimationClock;
use crate::state::CharacterState;
use crate::state::InputEvents;
use crate::state::Velocity;
use crate::state::apply_command_spec;
use crate::state::command_for;
use crate::state::locomotion_step;
use crate::state::transition;

verus! {

/// The frame index after one firing of the animation clock: one step
/// forward, wrapping to the clip's first frame once the index has reached
/// (or, after a clip swap left it stale, passed) the clip's last frame.
pub open spec fn advance_frame(frame: usize, clip: AnimationClip) -> usize {
    if frame >= clip.last_frame {
        clip.first_frame
    } else {
        (frame + 1) as usize
    }
}

/// One wraparound step of the frame index within a clip.
pub fn advance_frame_once(frame: usize, clip: AnimationClip) -> (f: usize)
    ensures
        f == advance_frame(frame, clip),
{
    if frame >= clip.last_frame {
        clip.first_frame
    } else {
        frame + 1
    }
}

/// The mutable per-entity pieces of one animated character: its discrete
/// state, its animation clock, and the displayed sprite (frame index and
/// atlas reference).  The shared `SpriteAnimationSet` of its character type
/// is referenced, not owned.
#[derive(Clone, Copy, Debug, PartialEq, Eq, Structural)]
pub struct Character {
    pub state: CharacterState,
    pub clock: AnimationClock,
    /// Frame index the external sprite currently displays.
    pub frame: usize,
    /// Atlas reference the external sprite currently displays.
    pub texture: u64,
}

impl Character {
    pub open spec fn wf(self) -> bool {
        self.clock.wf()
    }

    /// Whether the displayed frame lies within the bounds of the clip the
    /// current state selects.
    pub open spec fn frame_in_active_bounds(self, set: SpriteAnimationSet) -> bool {
        set.clip_for(self.state).covers(self.frame)
    }

    /// Whether the displayed frame lies within the bounds of some clip of
    /// the set.
    pub open spec fn frame_covered(self, set: SpriteAnimationSet) -> bool {
        exists|i: int|
            0 <= i < set.clips().len() && (#[trigger] set.clips()[i]).covers(self.frame)
    }

    /// The character after one simulation tick: with a built set, input
    /// events move the state, the clock advances, the displayed clip follows
    /// the new state, and the frame steps with wraparound exactly when the
    /// clock fired.  A clip swap does not reset the frame index.  With an
    /// empty set (assets still loading) the tick is a no-op.
    pub open spec fn step(self, set: SpriteAnimationSet, events: InputEvents, dt: u64) -> Character {
        if set.clips().len() == 0 {
            self
        } else {
            let s2 = transition(self.state, events);
            let clip = set.clip_for(s2);
            Character {
                state: s2,
                clock: self.clock.ticked(dt),
                frame: if self.clock.fires(dt) {
                    advance_frame(self.frame, clip)
                } else {
                    self.frame
                },
                texture: clip.texture,
            }
        }
    }

    /// Spawn a character over a shared animation set: initial state `Idle`,
    /// displaying the first frame of the idle clip.  While the set is still
    /// empty the spawn is deferred and nothing is produced.
    pub fn spawn(set: &SpriteAnimationSet, interval: u64) -> (c: Option<Character>)
        requires
            set.wf(),
            1 <= interval,
        ensures
            c is Some <==> set.clips().len() > 0,
            c matches Some(ch) ==> {
                &&& ch.state == CharacterState::Idle
                &&& ch.clock == (AnimationClock { interval: interval, elapsed: 0 })
                &&& ch.frame == set.clip_for(CharacterState::Idle).first_frame
                &&& ch.texture == set.clip_for(CharacterState::Idle).texture
                &&& ch.wf()
                &&& ch.frame_in_active_bounds(*set)
                &&& ch.frame_covered(*set)
            },
    {
        if set.is_empty() {
            return None;
        }
        let idle = CharacterState::Idle;
        let clip = set.clip(idle.ordinal());
        let ch = Character {
            state: idle,
            clock: AnimationClock::new(interval),
            frame: clip.first_frame,
            texture: clip.texture,
        };
        proof {
            assert(set.clips()[0].covers(ch.frame));
        }
        Some(ch)
    }

    /// One simulation tick: the locomotion controller applies this tick's
    /// edge events to the state and reissues the new state's velocity
    /// command, then the frame advancer swaps the displayed clip to the new
    /// state's, ticks the clock, and advances the frame on a firing.
    pub fn update(
        &mut self,
        set: &SpriteAnimationSet,
        events: InputEvents,
        dt: u64,
        vel: &mut Velocity,
    ) -> (fired: bool)
        requires
            old(self).wf(),
            set.wf(),
        ensures
            *final(self) == old(self).step(*set, events, dt),
            final(self).wf(),
            *final(vel) == if set.clips().len() == 0 {
                *old(vel)
            } else {
                apply_command_spec(*old(vel), command_for(final(self).state))
            },
            fired == (set.clips().len() > 0 && old(self).clock.fires(dt)),
    {
        if set.is_empty() {
            return false;
        }
        // Locomotion: state transition, then the physics command for the
        // resulting state.
        locomotion_step(&mut self.state, events, vel);

        // Animation: follow the new state's clip, tick the clock, and step
        // the frame when the clock fires.
        proof {
            self.state.lemma_ordinal_in_range();
        }
        let clip = set.clip(self.state.ordinal());
        self.texture = clip.texture;
        let fired = self.clock.tick(dt);
        if fired {
            self.frame = advance_frame_once(self.frame, clip);
        }
        fired
    }
}

/// A firing of the clock always lands the frame within the bounds of a
/// zero-based clip, whatever the frame was before: a stale index from a clip
/// swap is wrapped back into bounds by the very next advance.
pub proof fn lemma_fired_frame_in_bounds(frame: usize, clip: AnimationClip)
    requires
        clip.wf(),
        clip.first_frame == 0,
    ensures
        clip.covers(advance_frame(frame, clip)),
{
}

/// A frame within a clip's bounds stays within them across an advance.
pub proof fn lemma_advance_preserves_bounds(frame: usize, clip: AnimationClip)
    requires
        clip.wf(),
        clip.covers(frame),
    ensures
        clip.covers(advance_frame(frame, clip)),
{
}

/// One tick keeps the frame within the bounds of some clip of a built,
/// zero-based set.  Together with `Character::spawn`, which starts the frame
/// inside the idle clip, this bounds the frame after any number of ticks.
pub proof fn lemma_step_frame_covered(
    ch: Character,
    set: SpriteAnimationSet,
    events: InputEvents,
    dt: u64,
)
    requires
        set.wf(),
        set.zero_based(),
        ch.frame_covered(set),
    ensures
        ch.step(set, events, dt).frame_covered(set),
{
    if set.clips().len() > 0 && ch.clock.fires(dt) {
        let s2 = transition(ch.state, events);
        s2.lemma_ordinal_in_range();
        let clip = set.clips()[s2.ordinal_spec()];
        lemma_fired_frame_in_bounds(ch.frame, clip);
        assert(set.clips()[s2.ordinal_spec()].covers(ch.step(set, events, dt).frame));
    }
}

/// After a tick in which the clock fired, the frame lies within the bounds
/// of the clip active at the end of the tick, whatever it was before.
pub proof fn lemma_fired_step_in_active_bounds(
    ch: Character,
    set: SpriteAnimationSet,
    events: InputEvents,
    dt: u64,
)
    requires
        set.wf(),
        set.zero_based(),
        set.clips().len() > 0,
        ch.clock.fires(dt),
    ensures
        ch.step(set, events, dt).frame_in_active_bounds(set),
{
    let s2 = transition(ch.state, events);
    s2.lemma_ordinal_in_range();
    lemma_fired_frame_in_bounds(ch.frame, set.clips()[s2.ordinal_spec()]);
}

/// On a tick whose events leave the state where it was, a frame within the
/// active clip's bounds stays within them, whether or not the clock fired.
pub proof fn lemma_steady_step_in_active_bounds(
    ch: Character,
    set: SpriteAnimationSet,
    events: InputEvents,
    dt: u64,
)
    requires
        set.wf(),
        set.clips().len() > 0,
        transition(ch.state, events) == ch.state,
        ch.frame_in_active_bounds(set),
    ensures
        ch.step(set, events, dt).frame_in_active_bounds(set),
{
    ch.state.lemma_ordinal_in_range();
    lemma_advance_preserves_bounds(ch.frame, set.clips()[ch.state.ordinal_spec()]);
}

/// The character after a whole sequence of ticks, each a pair of that tick's
/// edge events and elapsed time.
pub open spec fn run(
    ch: Character,
    set: SpriteAnimationSet,
    ticks: Seq<(InputEvents, u64)>,
) -> Character
    decreases ticks.len(),
{
    if ticks.len() == 0 {
        ch
    } else {
        run(ch.step(set, ticks[0].0, ticks[0].1), set, ticks.drop_first())
    }
}

/// After any number of ticks over a built, zero-based set, the frame index
/// is still within the bounds of some clip of the set.
pub proof fn lemma_run_frame_covered(
    ch: Character,
    set: SpriteAnimationSet,
    ticks: Seq<(InputEvents, u64)>,
)
    requires
        set.wf(),
        set.zero_based(),
        ch.frame_covered(set),
    ensures
        run(ch, set, ticks).frame_covered(set),
    decreases ticks.len(),
{
    if ticks.len() > 0 {
        lemma_step_frame_covered(ch, set, ticks[0].0, ticks[0].1);
        lemma_run_frame_covered(ch.step(set, ticks[0].0, ticks[0].1), set, ticks.drop_first());
    }
}

} // verus!
