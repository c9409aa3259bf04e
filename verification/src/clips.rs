//! Animation clips and the shared, build-once set of clips per character
//! type.

use vstd::prelude::*;
use crate::state::CharacterState;
use crate::state::STATE_COUNT;

verus! {

/// A contiguous range of frame indices over one texture atlas, representing
/// one animation.
#[derive(Clone, Copy, Debug, PartialEq, Eq, Structural)]
pub struct AnimationClip {
    pub first_frame: usize,
    pub last_frame: usize,
    /// Opaque reference to the clip's texture atlas, resolved by the external
    /// asset loader.
    pub texture: u64,
}

impl AnimationClip {
    /// A clip's frame range is never empty.
    pub open spec fn wf(self) -> bool {
        self.first_frame <= self.last_frame
    }

    /// Whether a frame index lies within this clip's bounds.
    pub open spec fn covers(self, frame: usize) -> bool {
        self.first_frame <= frame <= self.last_frame
    }
}

/// One row of the table the animation set is built from: the atlas handle the
/// asset loader resolved for a sprite sheet, and how many frames it holds.
#[derive(Clone, Copy, Debug, PartialEq, Eq, Structural)]
pub struct SheetEntry {
    pub texture: u64,
    pub frame_count: usize,
}

/// The clip a table row builds: frames `0 ..= frame_count - 1` over the row's
/// atlas.
pub open spec fn built_clip(e: SheetEntry) -> AnimationClip {
    AnimationClip {
        first_frame: 0,
        last_frame: (e.frame_count - 1) as usize,
        texture: e.texture,
    }
}

/// The ordered collection of animation clips of one character type, indexed
/// by the ordinal of a `CharacterState`.
///
/// Built exactly once per character type and shared read-only by every
/// character instance of that type.  An empty set stands for "assets still
/// loading": every per-tick operation treats it as a no-op.
#[derive(Debug)]
pub struct SpriteAnimationSet {
    clips: Vec<AnimationClip>,
}

impl SpriteAnimationSet {
    /// The clips, in state-ordinal order.
    pub closed spec fn clips(self) -> Seq<AnimationClip> {
        self.clips@
    }

    /// Well-formedness: either not yet built (empty), or exactly one clip per
    /// character state, each with a non-empty frame range.
    pub open spec fn wf(self) -> bool {
        &&& self.clips().len() == 0 || self.clips().len() == STATE_COUNT
        &&& forall|i: int| 0 <= i < self.clips().len() ==> (#[trigger] self.clips()[i]).wf()
    }

    /// Whether every clip's range starts at frame 0, as built clips do.
    pub open spec fn zero_based(self) -> bool {
        forall|i: int| 0 <= i < self.clips().len() ==> (#[trigger] self.clips()[i]).first_frame == 0
    }

    /// The clip of one character state.
    pub open spec fn clip_for(self, s: CharacterState) -> AnimationClip {
        self.clips()[s.ordinal_spec()]
    }

    /// The not-yet-built set, safe to hand to spawn and per-tick updates.
    pub fn new_empty() -> (s: SpriteAnimationSet)
        ensures
            s.clips().len() == 0,
            s.wf(),
            s.zero_based(),
    {
        SpriteAnimationSet { clips: Vec::new() }
    }

    /// Build the animation set from a fixed table with exactly one row per
    /// character state, in state-ordinal order.
    ///
    /// Each row becomes one clip with `first_frame == 0` and
    /// `last_frame == frame_count - 1` over the row's atlas.  The build is
    /// deterministic in the table, so two builds from the same table yield
    /// identical clips.
    pub fn build(entries: &Vec<SheetEntry>) -> (s: SpriteAnimationSet)
        requires
            entries@.len() == STATE_COUNT,
            forall|i: int| 0 <= i < entries@.len() ==> (#[trigger] entries@[i]).frame_count >= 1,
        ensures
            s.clips().len() == STATE_COUNT,
            forall|i: int| 0 <= i < STATE_COUNT ==> #[trigger] s.clips()[i] == built_clip(entries@[i]),
            s.wf(),
            s.zero_based(),
    {
        let mut clips: Vec<AnimationClip> = Vec::new();
        let mut i: usize = 0;
        while i < entries.len()
            invariant
                i <= entries@.len(),
                entries@.len() == STATE_COUNT,
                forall|k: int| 0 <= k < entries@.len() ==> (#[trigger] entries@[k]).frame_count >= 1,
                clips@.len() == i,
                forall|k: int| 0 <= k < i ==> #[trigger] clips@[k] == built_clip(entries@[k]),
            decreases entries@.len() - i,
        {
            let e = entries[i];
            clips.push(AnimationClip {
                first_frame: 0,
                last_frame: e.frame_count - 1,
                texture: e.texture,
            });
            i = i + 1;
        }
        SpriteAnimationSet { clips }
    }

    pub fn len(&self) -> (n: usize)
        ensures
            n == self.clips().len(),
    {
        self.clips.len()
    }

    pub fn is_empty(&self) -> (b: bool)
        ensures
            b == (self.clips().len() == 0),
    {
        self.clips.len() == 0
    }

    /// The clip at one state ordinal.
    pub fn clip(&self, i: usize) -> (c: AnimationClip)
        requires
            i < self.clips().len(),
        ensures
            c == self.clips()[i as int],
    {
        self.clips[i]
    }
}

/// Every valid character state selects a clip whose frame range is non-empty:
/// `first_frame <= last_frame`.
pub proof fn lemma_clip_bounds_ordered(set: SpriteAnimationSet, s: CharacterState)
    requires
        set.wf(),
        set.clips().len() > 0,
    ensures
        set.clip_for(s).first_frame <= set.clip_for(s).last_frame,
{
    s.lemma_ordinal_in_range();
}

/// Builder idempotence: two tables whose rows agree on frame counts build
/// clips with identical frame ranges, whatever their texture handles are.
pub proof fn lemma_build_ranges_deterministic(a: Seq<SheetEntry>, b: Seq<SheetEntry>)
    requires
        a.len() == b.len(),
        forall|i: int| 0 <= i < a.len() ==> (#[trigger] a[i]).frame_count == (#[trigger] b[i]).frame_count,
    ensures
        forall|i: int| 0 <= i < a.len() ==> {
            &&& (#[trigger] built_clip(a[i])).first_frame == built_clip(b[i]).first_frame
            &&& built_clip(a[i]).last_frame == built_clip(b[i]).last_frame
        },
{
}

} // verus!
