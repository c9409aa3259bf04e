//! Camera follow: keep the viewing camera horizontally aligned with the one
//! followed character.

use vstd::prelude::*;

verus! {

/// A position in the scene, in engine units.
#[derive(Clone, Copy, Debug, PartialEq, Eq, Structural)]
pub struct Position {
    pub x: i64,
    pub y: i64,
}

/// Set the camera's horizontal position to the tracked character's, leaving
/// the vertical position alone.
///
/// The move is guarded: it applies only when exactly one camera and exactly
/// one tracked character exist.  With zero or several of either, nothing
/// moves and the result says so, rather than picking an arbitrary pair.
pub fn camera_follow(cameras: &mut Vec<Position>, heroes: &Vec<Position>) -> (applied: bool)
    ensures
        applied == (old(cameras)@.len() == 1 && heroes@.len() == 1),
        applied ==> final(cameras)@ == old(cameras)@.update(
            0,
            (Position { x: heroes@[0].x, y: old(cameras)@[0].y }),
        ),
        !applied ==> final(cameras)@ == old(cameras)@,
{
    if cameras.len() == 1 && heroes.len() == 1 {
        let y = cameras[0].y;
        cameras.set(0, Position { x: heroes[0].x, y });
        true
    } else {
        false
    }
}

} // verus!
