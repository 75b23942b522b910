use trainlappcomms::engine::commands::{EngineAction, EngineCommand, Error, ResponseAction};
use trainlappcomms::engine::{self};
use trainlappcomms::handshake::{Handshake, HandshakeAction, HandshakeEvent, Identity};
use trainlappcomms::{ToApp, ToServer};

fn found(id: u64, session: Option<u64>) -> ResponseAction {
    ResponseAction::Player(engine::Player {
        name: "Ada".to_string(),
        id,
        picture_id: None,
        session,
    })
}

fn crew(id: usize, members: &[u64]) -> engine::Team {
    engine::Team {
        colour: engine::Colour { r: 0, g: 0, b: 0 },
        role: engine::TeamRole::Runner,
        name: format!("team {}", id),
        id,
        picture_id: None,
        bounty: 0,
        points: 0,
        players: members
            .iter()
            .map(|id| engine::Player {
                name: String::new(),
                id: *id,
                picture_id: None,
                session: Some(9),
            })
            .collect(),
        challenges: vec![],
        completed_challenges: vec![],
        location: None,
        in_grace_period: false,
        period_id: 0,
    }
}

fn state_with(teams: Vec<engine::Team>) -> ResponseAction {
    ResponseAction::SendState { teams, events: vec![], game_running: false }
}

fn login(passphrase: &str) -> HandshakeEvent {
    HandshakeEvent::Frame(ToServer::Login(passphrase.to_string()))
}

fn refused() -> (Handshake, HandshakeAction) {
    (Handshake::AwaitingLogin, HandshakeAction::Tell(ToApp::LoginSuccessful(false)))
}

#[test]
fn a_fresh_connection_awaits_a_login() {
    assert_eq!(Handshake::new(), Handshake::AwaitingLogin);
    assert_eq!(Handshake::new().identity(), None);
}

#[test]
fn a_passphrase_has_its_player_looked_up() {
    assert_eq!(
        Handshake::new().step(login("open sesame")),
        (
            Handshake::LookingUpPlayer,
            HandshakeAction::Ask(EngineCommand {
                session: None,
                action: EngineAction::GetPlayerByPassphrase("open sesame".to_string()),
            })
        )
    );
}

#[test]
fn a_player_with_a_session_has_the_state_fetched() {
    assert_eq!(
        Handshake::LookingUpPlayer.step(HandshakeEvent::Reply(found(42, Some(9)))),
        (
            Handshake::FetchingState { player: 42, session: 9 },
            HandshakeAction::Ask(EngineCommand { session: Some(9), action: EngineAction::GetState })
        )
    );
}

#[test]
fn a_player_on_a_team_is_logged_in() {
    let teams = vec![crew(0, &[1, 2]), crew(1, &[]), crew(2, &[41, 42])];
    let (state, action) = Handshake::FetchingState { player: 42, session: 9 }
        .step(HandshakeEvent::Reply(state_with(teams)));
    let identity = Identity { player: 42, session: 9, team: 2 };
    assert_eq!(state, Handshake::Established(identity));
    assert_eq!(action, HandshakeAction::Tell(ToApp::LoginSuccessful(true)));
    assert_eq!(state.identity(), Some(identity));
}

#[test]
fn a_whole_login_tells_of_its_success_once() {
    let mut state = Handshake::new();
    let mut told = Vec::new();
    let arrivals = vec![
        HandshakeEvent::Frame(ToServer::Ping(None)),
        login("open sesame"),
        HandshakeEvent::Reply(found(42, Some(9))),
        HandshakeEvent::Reply(state_with(vec![crew(0, &[42])])),
        HandshakeEvent::Frame(ToServer::RequestEverything),
    ];
    for event in arrivals {
        let (next, action) = state.step(event);
        state = next;
        if let HandshakeAction::Tell(notification) = action {
            told.push(notification);
        }
    }
    assert_eq!(state, Handshake::Established(Identity { player: 42, session: 9, team: 0 }));
    assert_eq!(told, vec![ToApp::LoginSuccessful(true)]);
}

#[test]
fn an_unknown_passphrase_is_refused() {
    assert_eq!(
        Handshake::LookingUpPlayer
            .step(HandshakeEvent::Reply(ResponseAction::Error(Error::NotFound("player".to_string())))),
        refused()
    );
    assert_eq!(
        Handshake::LookingUpPlayer
            .step(HandshakeEvent::Reply(ResponseAction::Error(Error::AmbiguousData))),
        refused()
    );
    assert_eq!(Handshake::LookingUpPlayer.step(HandshakeEvent::Reply(ResponseAction::Success)), refused());
}

#[test]
fn a_player_without_a_session_is_refused() {
    assert_eq!(Handshake::LookingUpPlayer.step(HandshakeEvent::Reply(found(42, None))), refused());
}

#[test]
fn a_player_without_a_team_is_refused_once() {
    let teams = vec![crew(0, &[1, 2]), crew(1, &[3])];
    assert_eq!(
        Handshake::FetchingState { player: 42, session: 9 }
            .step(HandshakeEvent::Reply(state_with(teams))),
        refused()
    );
    assert_eq!(
        Handshake::FetchingState { player: 42, session: 9 }
            .step(HandshakeEvent::Reply(state_with(vec![]))),
        refused()
    );
}

#[test]
fn an_answer_that_is_no_state_refuses_the_login() {
    assert_eq!(
        Handshake::FetchingState { player: 42, session: 9 }
            .step(HandshakeEvent::Reply(ResponseAction::Error(Error::InternalError))),
        refused()
    );
}

#[test]
fn after_a_refusal_the_client_may_try_again() {
    let (state, _) = Handshake::LookingUpPlayer.step(HandshakeEvent::Reply(found(42, None)));
    let (state, action) = state.step(login("second try"));
    assert_eq!(state, Handshake::LookingUpPlayer);
    assert_eq!(
        action,
        HandshakeAction::Ask(EngineCommand {
            session: None,
            action: EngineAction::GetPlayerByPassphrase("second try".to_string()),
        })
    );
}

#[test]
fn other_frames_are_dropped_before_the_login() {
    let frames = vec![
        ToServer::RequestEverything,
        ToServer::Ping(Some("early".to_string())),
        ToServer::Catch { caught_id: 1, period_id: 2 },
        ToServer::UploadTeamPicture(vec![1, 2, 3]),
    ];
    for frame in frames {
        assert_eq!(
            Handshake::AwaitingLogin.step(HandshakeEvent::Frame(frame)),
            (Handshake::AwaitingLogin, HandshakeAction::Wait)
        );
    }
}

#[test]
fn frames_are_dropped_while_the_engine_is_asked() {
    assert_eq!(
        Handshake::LookingUpPlayer.step(login("again")),
        (Handshake::LookingUpPlayer, HandshakeAction::Wait)
    );
    let fetching = Handshake::FetchingState { player: 42, session: 9 };
    assert_eq!(fetching.step(login("again")), (fetching, HandshakeAction::Wait));
}

#[test]
fn an_answer_that_nobody_asked_for_is_dropped() {
    assert_eq!(
        Handshake::AwaitingLogin.step(HandshakeEvent::Reply(found(42, Some(9)))),
        (Handshake::AwaitingLogin, HandshakeAction::Wait)
    );
}

#[test]
fn an_established_login_stays_established() {
    let established = Handshake::Established(Identity { player: 42, session: 9, team: 0 });
    assert_eq!(established.step(login("again")), (established, HandshakeAction::Wait));
    assert_eq!(
        established.step(HandshakeEvent::Reply(ResponseAction::Success)),
        (established, HandshakeAction::Wait)
    );
}
