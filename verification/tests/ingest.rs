use trainlappcomms::api::{period_picture, player_picture, team_picture};
use trainlappcomms::engine::commands::{EngineAction, EngineCommand};
use trainlappcomms::engine::RawPicture;
use trainlappcomms::ingest::handle_pictures;
use trainlappcomms::{PictureKind, PictureWrapper};

fn decoded(bytes: &[u8]) -> Option<RawPicture> {
    Some(RawPicture { bytes: bytes.to_vec() })
}

#[test]
fn a_team_profile_is_uploaded_in_its_session() {
    assert_eq!(
        handle_pictures(PictureKind::TeamProfile { session: 9, team: 2 }, decoded(&[0xde, 0xad])),
        Some(EngineCommand {
            session: Some(9),
            action: EngineAction::UploadTeamPicture {
                team_id: 2,
                picture: RawPicture { bytes: vec![0xde, 0xad] },
            },
        })
    );
}

#[test]
fn a_player_profile_is_uploaded_without_a_session() {
    assert_eq!(
        handle_pictures(PictureKind::PlayerProfile(42), decoded(&[1, 2, 3])),
        Some(EngineCommand {
            session: None,
            action: EngineAction::UploadPlayerPicture {
                player_id: 42,
                picture: RawPicture { bytes: vec![1, 2, 3] },
            },
        })
    );
}

#[test]
fn proof_for_a_period_is_uploaded_as_one_picture() {
    assert_eq!(
        handle_pictures(PictureKind::Period { session: 9, team: 2, period_id: 4 }, decoded(&[5])),
        Some(EngineCommand {
            session: Some(9),
            action: EngineAction::UploadPeriodPictures {
                pictures: vec![RawPicture { bytes: vec![5] }],
                team: 2,
                period: 4,
            },
        })
    );
}

#[test]
fn a_picture_that_the_decoder_refused_sends_nothing() {
    assert_eq!(handle_pictures(PictureKind::TeamProfile { session: 9, team: 2 }, None), None);
    assert_eq!(handle_pictures(PictureKind::PlayerProfile(42), None), None);
    assert_eq!(
        handle_pictures(PictureKind::Period { session: 9, team: 2, period_id: 4 }, None),
        None
    );
}

#[test]
fn envelopes_name_what_the_picture_shows() {
    assert_eq!(
        team_picture(vec![1, 2], 9, 2),
        PictureWrapper { kind: PictureKind::TeamProfile { session: 9, team: 2 }, picture: vec![1, 2] }
    );
    assert_eq!(
        player_picture(vec![3], 42),
        PictureWrapper { kind: PictureKind::PlayerProfile(42), picture: vec![3] }
    );
    assert_eq!(
        period_picture(vec![], 9, 2, 4),
        PictureWrapper {
            kind: PictureKind::Period { session: 9, team: 2, period_id: 4 },
            picture: vec![],
        }
    );
}

#[test]
fn an_envelope_ends_in_the_command_for_its_kind() {
    let envelope = team_picture(vec![7, 7, 7], 9, 2);
    let picture = decoded(&envelope.picture);
    assert_eq!(
        handle_pictures(envelope.kind, picture),
        Some(EngineCommand {
            session: Some(9),
            action: EngineAction::UploadTeamPicture {
                team_id: 2,
                picture: RawPicture { bytes: vec![7, 7, 7] },
            },
        })
    );
}
