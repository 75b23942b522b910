use trainlappcomms::engine::commands::{EngineAction, EngineCommand};
use trainlappcomms::engine::{self, RawPicture};
use trainlappcomms::translate::command::{
    to_server_to_engine_command, upload_command, EngineCommandConversion, PendingUpload,
    UploadTarget,
};
use trainlappcomms::{DetailedLocation, ToServer};

const SESSION: u64 = 9;
const TEAM: usize = 3;
const PLAYER: u64 = 42;

fn translated(request: ToServer) -> EngineCommandConversion {
    to_server_to_engine_command(request, SESSION, TEAM, PLAYER)
}

fn at_once(session: Option<u64>, action: EngineAction) -> EngineCommandConversion {
    EngineCommandConversion::Instant(EngineCommand { session, action })
}

fn picture(bytes: &[u8]) -> RawPicture {
    RawPicture { bytes: bytes.to_vec() }
}

#[test]
fn a_login_looks_the_player_up_without_a_session() {
    assert_eq!(
        translated(ToServer::Login("open sesame".to_string())),
        at_once(None, EngineAction::GetPlayerByPassphrase("open sesame".to_string()))
    );
}

#[test]
fn a_location_is_reported_for_the_connections_player() {
    let place = DetailedLocation {
        latitude: 47.0f32.to_bits(),
        longitude: 8.0f32.to_bits(),
        accuracy: 5,
        heading: 180.0f32.to_bits(),
        speed: 2.5f32.to_bits(),
        timestamp: 77,
    };
    assert_eq!(
        translated(ToServer::Location(place)),
        at_once(
            Some(SESSION),
            EngineAction::SendLocation {
                player: PLAYER,
                location: engine::DetailedLocation {
                    latitude: 47.0f32.to_bits(),
                    longitude: 8.0f32.to_bits(),
                    accuracy: 5,
                    heading: 180.0f32.to_bits(),
                    speed: 2.5f32.to_bits(),
                    timestamp: 77,
                },
            }
        )
    );
}

#[test]
fn a_catch_is_made_by_the_connections_team() {
    assert_eq!(
        translated(ToServer::Catch { caught_id: 7, period_id: 11 }),
        at_once(Some(SESSION), EngineAction::Catch { catcher: TEAM, caught: 7, period_id: 11 })
    );
}

#[test]
fn a_completion_is_made_by_the_connections_team() {
    assert_eq!(
        translated(ToServer::Complete { completed_id: 5, period_id: 12 }),
        at_once(
            Some(SESSION),
            EngineAction::Complete { completer: TEAM, completed: 5, period_id: 12 }
        )
    );
}

#[test]
fn a_ping_goes_out_without_a_session() {
    assert_eq!(
        translated(ToServer::Ping(Some("hello".to_string()))),
        at_once(None, EngineAction::Ping(Some("hello".to_string())))
    );
    assert_eq!(translated(ToServer::Ping(None)), at_once(None, EngineAction::Ping(None)));
}

#[test]
fn everything_is_asked_for_in_the_session() {
    assert_eq!(
        translated(ToServer::RequestEverything),
        at_once(Some(SESSION), EngineAction::GetState)
    );
}

#[test]
fn pictures_and_thumbnails_are_asked_for_without_a_session() {
    assert_eq!(
        translated(ToServer::RequestPictures(vec![3, 1, 2])),
        at_once(None, EngineAction::GetPictures(vec![3, 1, 2]))
    );
    assert_eq!(
        translated(ToServer::RequestThumbnails(vec![])),
        at_once(None, EngineAction::GetThumbnails(vec![]))
    );
}

#[test]
fn past_locations_are_asked_for_the_team_named_in_the_request() {
    assert_eq!(
        translated(ToServer::RequestPastLocations { of_past_seconds: Some(600), team_id: 8 }),
        at_once(
            Some(SESSION),
            EngineAction::GetPastLocations { of_past_seconds: Some(600), team_id: 8 }
        )
    );
    assert_eq!(
        translated(ToServer::RequestPastLocations { of_past_seconds: None, team_id: TEAM }),
        at_once(
            Some(SESSION),
            EngineAction::GetPastLocations { of_past_seconds: None, team_id: TEAM }
        )
    );
}

#[test]
fn period_pictures_wait_for_the_decoder() {
    assert_eq!(
        translated(ToServer::AttachPeriodPictures {
            event_id: 6,
            pictures: vec![vec![1, 2], vec![], vec![3]],
        }),
        EngineCommandConversion::Delayed(PendingUpload {
            target: UploadTarget::Period { session: SESSION, team: TEAM, period: 6 },
            payloads: vec![vec![1, 2], vec![], vec![3]],
        })
    );
}

#[test]
fn a_player_picture_waits_for_the_decoder() {
    assert_eq!(
        translated(ToServer::UploadPlayerPicture(vec![9, 8, 7])),
        EngineCommandConversion::Delayed(PendingUpload {
            target: UploadTarget::Player { player_id: PLAYER },
            payloads: vec![vec![9, 8, 7]],
        })
    );
}

#[test]
fn a_team_picture_waits_for_the_decoder() {
    assert_eq!(
        translated(ToServer::UploadTeamPicture(vec![4])),
        EngineCommandConversion::Delayed(PendingUpload {
            target: UploadTarget::Team { session: SESSION, team_id: TEAM },
            payloads: vec![vec![4]],
        })
    );
}

#[test]
fn a_command_converts_into_an_instant_conversion() {
    let command = EngineCommand { session: None, action: EngineAction::GetState };
    assert_eq!(
        EngineCommandConversion::from(command.clone()),
        EngineCommandConversion::Instant(command)
    );
}

#[test]
fn refused_period_pictures_are_left_out_and_the_order_is_kept() {
    let target = UploadTarget::Period { session: SESSION, team: TEAM, period: 6 };
    let decoded = vec![Some(picture(&[1])), None, Some(picture(&[3])), None, Some(picture(&[5]))];
    assert_eq!(
        upload_command(target, decoded),
        Some(EngineCommand {
            session: Some(SESSION),
            action: EngineAction::UploadPeriodPictures {
                pictures: vec![picture(&[1]), picture(&[3]), picture(&[5])],
                team: TEAM,
                period: 6,
            },
        })
    );
}

#[test]
fn period_pictures_go_out_even_if_none_was_accepted() {
    let target = UploadTarget::Period { session: SESSION, team: TEAM, period: 6 };
    let empty = Some(EngineCommand {
        session: Some(SESSION),
        action: EngineAction::UploadPeriodPictures { pictures: vec![], team: TEAM, period: 6 },
    });
    assert_eq!(upload_command(target, vec![None, None]), empty);
    assert_eq!(upload_command(target, vec![]), empty);
}

#[test]
fn an_accepted_player_picture_goes_out_without_a_session() {
    assert_eq!(
        upload_command(UploadTarget::Player { player_id: PLAYER }, vec![Some(picture(&[7, 7]))]),
        Some(EngineCommand {
            session: None,
            action: EngineAction::UploadPlayerPicture {
                player_id: PLAYER,
                picture: picture(&[7, 7]),
            },
        })
    );
}

#[test]
fn an_accepted_team_picture_goes_out_in_the_session() {
    assert_eq!(
        upload_command(
            UploadTarget::Team { session: SESSION, team_id: TEAM },
            vec![Some(picture(&[6]))]
        ),
        Some(EngineCommand {
            session: Some(SESSION),
            action: EngineAction::UploadTeamPicture { team_id: TEAM, picture: picture(&[6]) },
        })
    );
}

#[test]
fn a_refused_profile_picture_sends_nothing() {
    assert_eq!(upload_command(UploadTarget::Player { player_id: PLAYER }, vec![None]), None);
    assert_eq!(
        upload_command(UploadTarget::Team { session: SESSION, team_id: TEAM }, vec![None]),
        None
    );
    assert_eq!(upload_command(UploadTarget::Player { player_id: PLAYER }, vec![]), None);
}
