//! The client's side of the side channel: the envelopes in which a client
//! uploads a picture.

use crate::picture::{PictureKind, PictureWrapper, PictureWrapperView};
use vstd::prelude::*;

verus! {

/// The envelope for the profile picture of team `team` in session
/// `session`.
pub fn team_picture(picture: Vec<u8>, session: u64, team: usize) -> (envelope: PictureWrapper)
    ensures
        envelope@ == (PictureWrapperView {
            kind: PictureKind::TeamProfile { session, team },
            picture: picture@,
        }),
{
    PictureWrapper { kind: PictureKind::TeamProfile { session, team }, picture }
}

/// The envelope for the profile picture of player `player`.
pub fn player_picture(picture: Vec<u8>, player: u64) -> (envelope: PictureWrapper)
    ensures
        envelope@ == (PictureWrapperView {
            kind: PictureKind::PlayerProfile(player),
            picture: picture@,
        }),
{
    PictureWrapper { kind: PictureKind::PlayerProfile(player), picture }
}

/// The envelope for a picture that proves period `period_id` of team `team`
/// in session `session`.
pub fn period_picture(picture: Vec<u8>, session: u64, team: usize, period_id: usize) -> (envelope:
    PictureWrapper)
    ensures
        envelope@ == (PictureWrapperView {
            kind: PictureKind::Period { session, team, period_id },
            picture: picture@,
        }),
{
    PictureWrapper { kind: PictureKind::Period { session, team, period_id }, picture }
}

} // verus!
