use trainlappcomms::engine::commands::{
    BroadcastAction, EngineAction, EngineCommand, Error, ResponseAction,
};
use trainlappcomms::engine::{self, RawPicture};
use trainlappcomms::fault::SessionFault;
use trainlappcomms::handshake::Identity;
use trainlappcomms::session::{Closure, Ending, Session, SessionAction, SessionEvent};
use trainlappcomms::{ClientError, Event, Everything, MinimalLocation, State, Team, ToApp, ToServer};

const ME: Identity = Identity { player: 42, session: 9, team: 1 };

fn gang(id: usize, members: &[u64]) -> engine::Team {
    engine::Team {
        colour: engine::Colour { r: 0, g: 0, b: 0 },
        role: engine::TeamRole::Catcher,
        name: format!("team {}", id),
        id,
        picture_id: None,
        bounty: 0,
        points: 0,
        players: members
            .iter()
            .map(|id| engine::Player {
                name: String::new(),
                id: *id,
                picture_id: None,
                session: Some(9),
            })
            .collect(),
        challenges: vec![],
        completed_challenges: vec![],
        location: None,
        in_grace_period: false,
        period_id: 0,
    }
}

fn teams_of_the_session() -> Vec<engine::Team> {
    vec![gang(0, &[1]), gang(1, &[42]), gang(2, &[3])]
}

fn state_of_the_session() -> ResponseAction {
    ResponseAction::SendState { teams: teams_of_the_session(), events: vec![], game_running: true }
}

fn my_everything() -> Everything {
    Everything {
        state: State::Catcher,
        teams: teams_of_the_session().into_iter().map(Team::from).collect(),
        events: vec![],
        you: 42,
        your_team: 1,
        your_session: 9,
    }
}

fn query() -> EngineCommand {
    EngineCommand { session: Some(9), action: EngineAction::GetState }
}

#[test]
fn a_new_session_is_open_and_knows_its_identity() {
    let session = Session::new(ME);
    assert!(!session.is_closed());
    assert_eq!(session.identity(), ME);
}

#[test]
fn commands_go_out_under_tokens_counted_from_zero() {
    let session = Session::new(ME);
    let (session, first) = session.step(SessionEvent::Request(ToServer::RequestEverything));
    assert_eq!(first, SessionAction::Dispatch { token: 0, command: query() });
    let (session, second) =
        session.step(SessionEvent::Request(ToServer::Catch { caught_id: 2, period_id: 5 }));
    assert_eq!(
        second,
        SessionAction::Dispatch {
            token: 1,
            command: EngineCommand {
                session: Some(9),
                action: EngineAction::Catch { catcher: 1, caught: 2, period_id: 5 },
            },
        }
    );
    let (_, third) = session.step(SessionEvent::Broadcast(BroadcastAction::Ended));
    assert_eq!(third, SessionAction::Dispatch { token: 2, command: query() });
}

#[test]
fn the_answer_to_a_request_is_told_to_the_client() {
    let (session, _) = Session::new(ME).step(SessionEvent::Request(ToServer::RequestEverything));
    let (session, action) =
        session.step(SessionEvent::Reply { token: 0, response: state_of_the_session() });
    assert_eq!(action, SessionAction::Notify(ToApp::Everything(my_everything())));
    assert!(!session.is_closed());
}

#[test]
fn an_acknowledgement_tells_the_client_nothing() {
    let (session, _) =
        Session::new(ME).step(SessionEvent::Request(ToServer::Catch { caught_id: 2, period_id: 5 }));
    let (session, action) =
        session.step(SessionEvent::Reply { token: 0, response: ResponseAction::Success });
    assert_eq!(action, SessionAction::Nothing);
    assert!(!session.is_closed());
}

#[test]
fn an_error_of_the_engine_is_told_and_the_session_goes_on() {
    let (session, _) =
        Session::new(ME).step(SessionEvent::Request(ToServer::Catch { caught_id: 2, period_id: 5 }));
    let (session, action) = session
        .step(SessionEvent::Reply { token: 0, response: ResponseAction::Error(Error::TeamsTooFar) });
    assert_eq!(action, SessionAction::Notify(ToApp::Error(ClientError::TeamsTooFar)));
    assert!(!session.is_closed());
}

#[test]
fn an_answer_is_taken_once() {
    let (session, _) = Session::new(ME).step(SessionEvent::Request(ToServer::RequestEverything));
    let (session, first) =
        session.step(SessionEvent::Reply { token: 0, response: ResponseAction::Period(4) });
    assert_eq!(first, SessionAction::Notify(ToApp::AddedPeriod(4)));
    let (_, second) =
        session.step(SessionEvent::Reply { token: 0, response: ResponseAction::Period(4) });
    assert_eq!(second, SessionAction::Nothing);
}

#[test]
fn an_answer_under_an_unknown_token_is_dropped() {
    let (session, action) =
        Session::new(ME).step(SessionEvent::Reply { token: 5, response: ResponseAction::Period(4) });
    assert_eq!(action, SessionAction::Nothing);
    assert!(!session.is_closed());
}

#[test]
fn answers_may_arrive_in_any_order() {
    let session = Session::new(ME);
    let (session, _) = session.step(SessionEvent::Request(ToServer::RequestEverything));
    let (session, _) = session.step(SessionEvent::Broadcast(BroadcastAction::Started));
    let (session, _) = session.step(SessionEvent::Request(ToServer::Ping(None)));

    let (session, last) =
        session.step(SessionEvent::Reply { token: 2, response: ResponseAction::Success });
    assert_eq!(last, SessionAction::Nothing);
    let (session, middle) =
        session.step(SessionEvent::Reply { token: 1, response: state_of_the_session() });
    assert_eq!(middle, SessionAction::Notify(ToApp::GameStarted(my_everything())));
    let (_, first) =
        session.step(SessionEvent::Reply { token: 0, response: state_of_the_session() });
    assert_eq!(first, SessionAction::Notify(ToApp::Everything(my_everything())));
}

#[test]
fn a_catch_by_the_own_team_makes_a_runner_once_the_state_is_there() {
    let broadcast = BroadcastAction::Caught { catcher: gang(1, &[]), caught: gang(2, &[]) };
    let (session, asked) = Session::new(ME).step(SessionEvent::Broadcast(broadcast));
    assert_eq!(asked, SessionAction::Dispatch { token: 0, command: query() });
    let (_, told) = session.step(SessionEvent::Reply { token: 0, response: state_of_the_session() });
    assert_eq!(told, SessionAction::Notify(ToApp::BecomeRunner(my_everything())));
}

#[test]
fn a_catch_among_others_is_told_as_an_event_once_the_state_is_there() {
    let broadcast = BroadcastAction::Caught { catcher: gang(0, &[]), caught: gang(2, &[]) };
    let (session, _) = Session::new(ME).step(SessionEvent::Broadcast(broadcast));
    let (_, told) = session.step(SessionEvent::Reply { token: 0, response: state_of_the_session() });
    assert_eq!(
        told,
        SessionAction::Notify(ToApp::EventOccurred(
            Event::CatchTeam {
                catcher_id: 0,
                caught_id: 2,
                bounty: 0,
                time: 0,
                picture_ids: vec![],
                location: MinimalLocation { latitude: 0, longitude: 0, timestamp: 0 },
            },
            my_everything()
        ))
    );
}

#[test]
fn a_broadcast_for_others_leaves_the_session_alone() {
    let (session, action) = Session::new(ME)
        .step(SessionEvent::Broadcast(BroadcastAction::TeamMadeCatcher(gang(2, &[3]))));
    assert_eq!(action, SessionAction::Nothing);
    let (_, next) = session.step(SessionEvent::Request(ToServer::RequestEverything));
    assert_eq!(next, SessionAction::Dispatch { token: 0, command: query() });
}

#[test]
fn a_ping_of_the_engine_is_forwarded_at_once() {
    let (_, action) = Session::new(ME)
        .step(SessionEvent::Broadcast(BroadcastAction::Pinged(Some("ping".to_string()))));
    assert_eq!(action, SessionAction::Notify(ToApp::Ping(Some("ping".to_string()))));
}

#[test]
fn the_deletion_of_the_own_player_closes_the_session_for_good() {
    let deleted = engine::Player { name: String::new(), id: 42, picture_id: None, session: None };
    let (session, _) = Session::new(ME).step(SessionEvent::Request(ToServer::RequestEverything));
    let (session, action) =
        session.step(SessionEvent::Broadcast(BroadcastAction::PlayerDeleted(deleted)));
    assert_eq!(action, SessionAction::Close(Closure::Fault(SessionFault::PlayerDeleted)));
    assert!(session.is_closed());

    let (session, late_answer) =
        session.step(SessionEvent::Reply { token: 0, response: state_of_the_session() });
    assert_eq!(late_answer, SessionAction::Nothing);
    let (session, late_broadcast) =
        session.step(SessionEvent::Broadcast(BroadcastAction::Pinged(None)));
    assert_eq!(late_broadcast, SessionAction::Nothing);
    let (session, late_request) = session.step(SessionEvent::Request(ToServer::RequestEverything));
    assert_eq!(late_request, SessionAction::Nothing);
    let (session, late_end) = session.step(SessionEvent::Ended(Ending::ClientLeft));
    assert_eq!(late_end, SessionAction::Nothing);
    assert!(session.is_closed());
}

#[test]
fn a_change_of_session_or_team_of_the_own_player_closes_the_session() {
    let moved = engine::Player { name: String::new(), id: 42, picture_id: None, session: Some(3) };
    let (session, action) = Session::new(ME)
        .step(SessionEvent::Broadcast(BroadcastAction::PlayerChangedSession { player: moved }));
    assert_eq!(action, SessionAction::Close(Closure::Fault(SessionFault::SessionChanged)));
    assert!(session.is_closed());

    let (session, action) = Session::new(ME)
        .step(SessionEvent::Broadcast(BroadcastAction::PlayerChangedTeam { player_id: 42 }));
    assert_eq!(action, SessionAction::Close(Closure::Fault(SessionFault::TeamChanged)));
    assert!(session.is_closed());
}

#[test]
fn the_end_of_any_stream_closes_the_session() {
    for ending in [Ending::ClientLeft, Ending::BadFrame, Ending::IoFailure] {
        let (session, action) = Session::new(ME).step(SessionEvent::Ended(ending));
        assert_eq!(action, SessionAction::Close(Closure::Ended(ending)));
        assert!(session.is_closed());
    }
}

#[test]
fn a_state_without_the_player_closes_the_session() {
    let (session, _) = Session::new(ME).step(SessionEvent::Request(ToServer::RequestEverything));
    let strangers = ResponseAction::SendState {
        teams: vec![gang(0, &[1])],
        events: vec![],
        game_running: true,
    };
    let (session, action) = session.step(SessionEvent::Reply { token: 0, response: strangers });
    assert_eq!(action, SessionAction::Close(Closure::Fault(SessionFault::NotOnAnyTeam)));
    assert!(session.is_closed());
}

#[test]
fn a_refresh_that_brings_no_state_closes_the_session() {
    let (session, _) = Session::new(ME).step(SessionEvent::Broadcast(BroadcastAction::Ended));
    let (session, action) =
        session.step(SessionEvent::Reply { token: 0, response: ResponseAction::Success });
    assert_eq!(action, SessionAction::Close(Closure::Fault(SessionFault::StateUnavailable)));
    assert!(session.is_closed());
}

#[test]
fn an_upload_waits_for_its_pictures_and_then_goes_out() {
    let request = ToServer::AttachPeriodPictures { event_id: 6, pictures: vec![vec![1], vec![2]] };
    let (session, first) = Session::new(ME).step(SessionEvent::Request(request));
    assert_eq!(first, SessionAction::Decode { token: 0, payloads: vec![vec![1], vec![2]] });

    let (session, between) = session.step(SessionEvent::Request(ToServer::Ping(None)));
    assert_eq!(
        between,
        SessionAction::Dispatch {
            token: 1,
            command: EngineCommand { session: None, action: EngineAction::Ping(None) },
        }
    );

    let pictures = vec![None, Some(RawPicture { bytes: vec![2] })];
    let (session, sent) = session.step(SessionEvent::Decoded { token: 0, pictures });
    assert_eq!(
        sent,
        SessionAction::Dispatch {
            token: 2,
            command: EngineCommand {
                session: Some(9),
                action: EngineAction::UploadPeriodPictures {
                    pictures: vec![RawPicture { bytes: vec![2] }],
                    team: 1,
                    period: 6,
                },
            },
        }
    );

    let (_, answered) =
        session.step(SessionEvent::Reply { token: 2, response: ResponseAction::UploadedPictures });
    assert_eq!(answered, SessionAction::Nothing);
}

#[test]
fn a_refused_profile_picture_sends_no_command() {
    let (session, first) =
        Session::new(ME).step(SessionEvent::Request(ToServer::UploadPlayerPicture(vec![0])));
    assert_eq!(first, SessionAction::Decode { token: 0, payloads: vec![vec![0]] });
    let (session, dropped) = session.step(SessionEvent::Decoded { token: 0, pictures: vec![None] });
    assert_eq!(dropped, SessionAction::Nothing);
    assert!(!session.is_closed());
}

#[test]
fn decoded_pictures_are_taken_once() {
    let (session, _) =
        Session::new(ME).step(SessionEvent::Request(ToServer::UploadTeamPicture(vec![0])));
    let picture = || vec![Some(RawPicture { bytes: vec![0] })];
    let (session, first) = session.step(SessionEvent::Decoded { token: 0, pictures: picture() });
    assert_eq!(
        first,
        SessionAction::Dispatch {
            token: 1,
            command: EngineCommand {
                session: Some(9),
                action: EngineAction::UploadTeamPicture {
                    team_id: 1,
                    picture: RawPicture { bytes: vec![0] },
                },
            },
        }
    );
    let (_, second) = session.step(SessionEvent::Decoded { token: 0, pictures: picture() });
    assert_eq!(second, SessionAction::Nothing);
}

#[test]
fn pictures_and_answers_are_not_taken_for_each_other() {
    let (session, _) =
        Session::new(ME).step(SessionEvent::Request(ToServer::UploadTeamPicture(vec![0])));
    let (session, _) = session.step(SessionEvent::Request(ToServer::RequestEverything));

    let (session, answer_for_upload) =
        session.step(SessionEvent::Reply { token: 0, response: ResponseAction::Period(1) });
    assert_eq!(answer_for_upload, SessionAction::Nothing);
    let (session, pictures_for_request) =
        session.step(SessionEvent::Decoded { token: 1, pictures: vec![] });
    assert_eq!(pictures_for_request, SessionAction::Nothing);

    let (_, answer) =
        session.step(SessionEvent::Reply { token: 1, response: ResponseAction::Period(1) });
    assert_eq!(answer, SessionAction::Notify(ToApp::AddedPeriod(1)));
}

#[test]
fn tokens_can_be_counted_from_elsewhere() {
    let session = Session::with_tokens_from(ME, 1_000);
    let (session, first) = session.step(SessionEvent::Request(ToServer::RequestEverything));
    assert_eq!(first, SessionAction::Dispatch { token: 1_000, command: query() });
    let (_, second) = session.step(SessionEvent::Request(ToServer::RequestEverything));
    assert_eq!(second, SessionAction::Dispatch { token: 1_001, command: query() });
}

#[test]
fn the_last_token_but_one_is_the_last_to_go_out() {
    let session = Session::with_tokens_from(ME, u64::MAX - 1);
    let (session, last) = session.step(SessionEvent::Request(ToServer::RequestEverything));
    assert_eq!(last, SessionAction::Dispatch { token: u64::MAX - 1, command: query() });
    let (session, none_left) = session.step(SessionEvent::Request(ToServer::RequestEverything));
    assert_eq!(none_left, SessionAction::Close(Closure::Fault(SessionFault::TokensExhausted)));
    assert!(session.is_closed());
}

#[test]
fn without_a_token_no_upload_and_no_refresh_begins() {
    let (session, upload) = Session::with_tokens_from(ME, u64::MAX)
        .step(SessionEvent::Request(ToServer::UploadTeamPicture(vec![1])));
    assert_eq!(upload, SessionAction::Close(Closure::Fault(SessionFault::TokensExhausted)));
    assert!(session.is_closed());

    let (session, refresh) = Session::with_tokens_from(ME, u64::MAX)
        .step(SessionEvent::Broadcast(BroadcastAction::Started));
    assert_eq!(refresh, SessionAction::Close(Closure::Fault(SessionFault::TokensExhausted)));
    assert!(session.is_closed());

    let (session, forwarded) = Session::with_tokens_from(ME, u64::MAX)
        .step(SessionEvent::Broadcast(BroadcastAction::Pinged(None)));
    assert_eq!(forwarded, SessionAction::Notify(ToApp::Ping(None)));
    assert!(!session.is_closed());
}
