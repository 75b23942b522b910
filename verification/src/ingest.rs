//! The side channel for pictures.
//!
//! A connection on the side channel brings one envelope and is closed. The
//! picture in the envelope goes through the engine's decoder, and if the
//! decoder takes it, one command goes to the engine; which one, the kind of
//! the envelope says. A picture that the decoder refuses is dropped, and
//! nothing goes to the engine.

use crate::engine::commands::{EngineAction, EngineActionView, EngineCommand, EngineCommandView};
use crate::engine::RawPicture;
use crate::picture::PictureKind;
use crate::views::views;
use crate::translate::command::{command_view, decoded_view};
use vstd::prelude::*;

verus! {

/// The most bytes that are read of one upload: sixty-four mebibytes. What
/// arrives beyond is not read, and an envelope cut short is dropped.
pub const MAX_UPLOAD_LEN: usize = 67_108_864;

/// The command that stores `picture` as what `kind` says it is: a team's
/// profile picture in the team's session, a player's profile picture
/// without a session, proof for a period as the one picture of an upload
/// in the team's session.
pub open spec fn ingestion_command_of(kind: PictureKind, picture: Seq<u8>) -> EngineCommandView {
    match kind {
        PictureKind::TeamProfile { session, team } => EngineCommandView {
            session: Some(session),
            action: EngineActionView::UploadTeamPicture { team_id: team, picture },
        },
        PictureKind::PlayerProfile(player_id) => EngineCommandView {
            session: None,
            action: EngineActionView::UploadPlayerPicture { player_id, picture },
        },
        PictureKind::Period { session, team, period_id } => EngineCommandView {
            session: Some(session),
            action: EngineActionView::UploadPeriodPictures {
                pictures: seq![picture],
                team,
                period: period_id,
            },
        },
    }
}

/// What goes to the engine for an envelope of kind `kind` whose picture
/// came out of the decoder as `decoded`.
pub open spec fn ingestion_of(kind: PictureKind, decoded: Option<Seq<u8>>) -> Option<
    EngineCommandView,
> {
    match decoded {
        Some(picture) => Some(ingestion_command_of(kind, picture)),
        None => None,
    }
}

/// Says what goes to the engine for one envelope, given what came of
/// decoding its picture. See `ingestion_of`.
pub fn handle_pictures(kind: PictureKind, decoded: Option<RawPicture>) -> (command: Option<
    EngineCommand,
>)
    ensures
        command_view(command) == ingestion_of(kind, decoded_view(decoded)),
{
    let picture = match decoded {
        Some(picture) => picture,
        None => {
            return None;
        },
    };
    match kind {
        PictureKind::TeamProfile { session, team } => Some(
            EngineCommand {
                session: Some(session),
                action: EngineAction::UploadTeamPicture { team_id: team, picture },
            },
        ),
        PictureKind::PlayerProfile(player_id) => Some(
            EngineCommand {
                session: None,
                action: EngineAction::UploadPlayerPicture { player_id, picture },
            },
        ),
        PictureKind::Period { session, team, period_id } => {
            let mut pictures: Vec<RawPicture> = Vec::new();
            pictures.push(picture);
            assert(views(pictures@) =~= seq![picture@]);
            Some(
                EngineCommand {
                    session: Some(session),
                    action: EngineAction::UploadPeriodPictures {
                        pictures,
                        team,
                        period: period_id,
                    },
                },
            )
        },
    }
}

/// Exactly one command goes to the engine for an envelope whose picture
/// the decoder takes, and none for one that it refuses.
pub proof fn lemma_one_command_per_envelope(kind: PictureKind, decoded: Option<Seq<u8>>)
    ensures
        ingestion_of(kind, decoded).is_some() <==> decoded.is_some(),
{
}

} // verus!
