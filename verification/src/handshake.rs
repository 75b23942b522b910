//! The login of a connection.
//!
//! A connection has no identity until its client has logged in. The client
//! sends a passphrase; the engine is asked for the player of that
//! passphrase, and then for the state of the player's session, in which the
//! player's team is looked up. Two questions to the engine lie between the
//! passphrase and the verdict, so the login is a machine: `Handshake::step`
//! takes what arrived, a frame of the client or an answer of the engine, and
//! says what to do next. Whoever runs the connection does it and comes back
//! with what arrives then.
//!
//! A frame that is no login is dropped while the login lasts, and so is any
//! frame that arrives while an answer of the engine is awaited.

use crate::engine::commands::{
    EngineAction, EngineActionView, EngineCommand, EngineCommandView, ResponseAction,
    ResponseActionView,
};
use crate::membership::{find_team, lemma_place_exists_iff_on_a_team, on_a_team, team_place};
use crate::protocol::{ToApp, ToAppView, ToServer, ToServerView};
use crate::translate::response::{state_query, state_query_of};
use vstd::prelude::*;

verus! {

/// Who a connection is: its player, the player's session, and the place of
/// the player's team in the session's list of teams.
#[derive(Clone, Copy, Debug, PartialEq, Eq)]
pub struct Identity {
    pub player: u64,
    pub session: u64,
    pub team: usize,
}

/// How far the login of a connection has come.
#[derive(Clone, Copy, Debug, PartialEq, Eq)]
pub enum Handshake {
    /// The client has yet to send a passphrase.
    AwaitingLogin,
    /// The engine has been asked for the player of the passphrase.
    LookingUpPlayer,
    /// The engine has been asked for the state of the player's session.
    FetchingState { player: u64, session: u64 },
    /// The client is logged in.
    Established(Identity),
}

/// What arrives during a login.
#[derive(Debug, PartialEq)]
pub enum HandshakeEvent {
    /// A frame of the client.
    Frame(ToServer),
    /// The engine's answer to the command asked last.
    Reply(ResponseAction),
}

pub enum HandshakeEventView {
    Frame(ToServerView),
    Reply(ResponseActionView),
}

impl View for HandshakeEvent {
    type V = HandshakeEventView;

    open spec fn view(&self) -> HandshakeEventView {
        match self {
            HandshakeEvent::Frame(frame) => HandshakeEventView::Frame(frame@),
            HandshakeEvent::Reply(response) => HandshakeEventView::Reply(response@),
        }
    }
}

/// What is to be done next during a login.
#[derive(Debug, PartialEq)]
pub enum HandshakeAction {
    /// Nothing but to wait for what arrives next.
    Wait,
    /// To send this command to the engine and come back with its answer.
    Ask(EngineCommand),
    /// To send this notification to the client.
    Tell(ToApp),
}

pub enum HandshakeActionView {
    Wait,
    Ask(EngineCommandView),
    Tell(ToAppView),
}

impl View for HandshakeAction {
    type V = HandshakeActionView;

    open spec fn view(&self) -> HandshakeActionView {
        match self {
            HandshakeAction::Wait => HandshakeActionView::Wait,
            HandshakeAction::Ask(command) => HandshakeActionView::Ask(command@),
            HandshakeAction::Tell(notification) => HandshakeActionView::Tell(notification@),
        }
    }
}

/// The command that asks the engine for the player of `passphrase`.
pub open spec fn lookup_of(passphrase: Seq<char>) -> EngineCommandView {
    EngineCommandView { session: None, action: EngineActionView::GetPlayerByPassphrase(passphrase) }
}

/// The refusal of a login: the client is told so, and may try again.
pub open spec fn refusal() -> (Handshake, HandshakeActionView) {
    (Handshake::AwaitingLogin, HandshakeActionView::Tell(ToAppView::LoginSuccessful(false)))
}

/// One step of a login: the state after `event` arrived in `state`, and
/// what is to be done.
///
/// - Awaiting a login, a passphrase makes the engine be asked for its
///   player. Any other frame is dropped.
/// - Looking up the player, the answer decides: a player with a session
///   makes the engine be asked for the state of that session; any other
///   answer, a player without a session among them, refuses the login.
/// - Fetching the state, the answer decides: the state of a session in
///   which the player has a team establishes the connection, with that
///   player, session and team, and the client is told of the success; any
///   other answer refuses the login.
/// - Once established, nothing more happens here.
pub open spec fn handshake_step(state: Handshake, event: HandshakeEventView) -> (
    Handshake,
    HandshakeActionView,
) {
    match state {
        Handshake::AwaitingLogin => match event {
            HandshakeEventView::Frame(ToServerView::Login(passphrase)) => (
                Handshake::LookingUpPlayer,
                HandshakeActionView::Ask(lookup_of(passphrase)),
            ),
            _ => (state, HandshakeActionView::Wait),
        },
        Handshake::LookingUpPlayer => match event {
            HandshakeEventView::Reply(ResponseActionView::Player(player)) => {
                match player.session {
                    Some(session) => (
                        Handshake::FetchingState { player: player.id, session },
                        HandshakeActionView::Ask(state_query_of(session)),
                    ),
                    None => refusal(),
                }
            },
            HandshakeEventView::Reply(_) => refusal(),
            HandshakeEventView::Frame(_) => (state, HandshakeActionView::Wait),
        },
        Handshake::FetchingState { player, session } => match event {
            HandshakeEventView::Reply(ResponseActionView::SendState { teams, .. }) => {
                match team_place(teams, player) {
                    Some(place) => (
                        Handshake::Established(Identity { player, session, team: place as usize }),
                        HandshakeActionView::Tell(ToAppView::LoginSuccessful(true)),
                    ),
                    None => refusal(),
                }
            },
            HandshakeEventView::Reply(_) => refusal(),
            HandshakeEventView::Frame(_) => (state, HandshakeActionView::Wait),
        },
        Handshake::Established(_) => (state, HandshakeActionView::Wait),
    }
}

impl Handshake {
    /// The login of a fresh connection.
    pub fn new() -> (state: Handshake)
        ensures
            state == Handshake::AwaitingLogin,
    {
        Handshake::AwaitingLogin
    }

    /// The identity that the login has established, if it has.
    pub open spec fn spec_identity(&self) -> Option<Identity> {
        match self {
            Handshake::Established(identity) => Some(*identity),
            _ => None,
        }
    }

    /// The identity that the login has established, if it has.
    #[verifier::when_used_as_spec(spec_identity)]
    pub fn identity(&self) -> (identity: Option<Identity>)
        ensures
            identity == self.spec_identity(),
    {
        match self {
            Handshake::Established(identity) => Some(*identity),
            _ => None,
        }
    }

    /// Takes one step of the login. See `handshake_step`.
    pub fn step(self, event: HandshakeEvent) -> (next: (Handshake, HandshakeAction))
        ensures
            (next.0, next.1@) == handshake_step(self, event@),
    {
        match self {
            Handshake::AwaitingLogin => match event {
                HandshakeEvent::Frame(ToServer::Login(passphrase)) => (
                    Handshake::LookingUpPlayer,
                    HandshakeAction::Ask(
                        EngineCommand {
                            session: None,
                            action: EngineAction::GetPlayerByPassphrase(passphrase),
                        },
                    ),
                ),
                _ => (self, HandshakeAction::Wait),
            },
            Handshake::LookingUpPlayer => match event {
                HandshakeEvent::Reply(ResponseAction::Player(player)) => match player.session {
                    Some(session) => (
                        Handshake::FetchingState { player: player.id, session },
                        HandshakeAction::Ask(state_query(session)),
                    ),
                    None => Self::refuse(),
                },
                HandshakeEvent::Reply(_) => Self::refuse(),
                HandshakeEvent::Frame(_) => (self, HandshakeAction::Wait),
            },
            Handshake::FetchingState { player, session } => match event {
                HandshakeEvent::Reply(ResponseAction::SendState { teams, .. }) => {
                    match find_team(&teams, player) {
                        Some(team) => (
                            Handshake::Established(Identity { player, session, team }),
                            HandshakeAction::Tell(ToApp::LoginSuccessful(true)),
                        ),
                        None => Self::refuse(),
                    }
                },
                HandshakeEvent::Reply(_) => Self::refuse(),
                HandshakeEvent::Frame(_) => (self, HandshakeAction::Wait),
            },
            Handshake::Established(_) => (self, HandshakeAction::Wait),
        }
    }

    fn refuse() -> (next: (Handshake, HandshakeAction))
        ensures
            (next.0, next.1@) == refusal(),
    {
        (Handshake::AwaitingLogin, HandshakeAction::Tell(ToApp::LoginSuccessful(false)))
    }
}

/// The identity that a passphrase resolves to, given the engine's answer to
/// the lookup of its player and its answer to the question for the state of
/// that player's session: the player must have a session, and a team in the
/// state of that session.
pub open spec fn resolved(lookup: ResponseActionView, state: ResponseActionView) -> Option<
    Identity,
> {
    match lookup {
        ResponseActionView::Player(player) => match player.session {
            Some(session) => match state {
                ResponseActionView::SendState { teams, .. } => {
                    match team_place(teams, player.id) {
                        Some(place) => Some(
                            Identity { player: player.id, session, team: place as usize },
                        ),
                        None => None,
                    }
                },
                _ => None,
            },
            None => None,
        },
        _ => None,
    }
}

/// The course of one login: the state in which it ends and what was done
/// on the way, in order. The engine is asked for the state of a session
/// only where the lookup gave one.
pub open spec fn login_course(
    passphrase: Seq<char>,
    lookup: ResponseActionView,
    state: ResponseActionView,
) -> (Handshake, Seq<HandshakeActionView>) {
    let (asked, first) = handshake_step(
        Handshake::AwaitingLogin,
        HandshakeEventView::Frame(ToServerView::Login(passphrase)),
    );
    let (looked_up, second) = handshake_step(asked, HandshakeEventView::Reply(lookup));
    if looked_up is FetchingState {
        let (end, third) = handshake_step(looked_up, HandshakeEventView::Reply(state));
        (end, seq![first, second, third])
    } else {
        (looked_up, seq![first, second])
    }
}

/// A login succeeds exactly when its passphrase resolves to an identity.
/// Then the connection is established with that identity and the client is
/// told of the success, once. Otherwise the login is back where it began
/// and the client is told of the failure, once. Either way the verdict is
/// the last thing done and the only thing told.
pub proof fn lemma_login_succeeds_exactly_when_resolved(
    passphrase: Seq<char>,
    lookup: ResponseActionView,
    state: ResponseActionView,
)
    ensures
        ({
            let (end, done) = login_course(passphrase, lookup, state);
            let identity = resolved(lookup, state);
            &&& identity.is_some() ==> end == Handshake::Established(identity.unwrap())
            &&& identity.is_none() ==> end == Handshake::AwaitingLogin
            &&& done.len() >= 2
            &&& done.last() == HandshakeActionView::Tell(
                ToAppView::LoginSuccessful(identity.is_some()),
            )
            &&& forall|i: int| 0 <= i < done.len() - 1 ==> (#[trigger] done[i]) is Ask
        }),
{
}

/// Until a connection is established, only a login is taken from the
/// client: any other frame changes nothing and has nothing done, and no
/// frame at all makes the engine be asked for anything but the player of a
/// passphrase.
pub proof fn lemma_only_login_before_established(state: Handshake, frame: ToServerView)
    requires
        !(state is Established),
    ensures
        ({
            let (next, action) = handshake_step(state, HandshakeEventView::Frame(frame));
            &&& !(frame is Login) ==> next == state && action is Wait
            &&& action is Ask ==> frame is Login && action == HandshakeActionView::Ask(
                lookup_of(frame->Login_0),
            )
            &&& !(action is Tell)
            &&& !(next is Established)
        }),
{
}

/// A passphrase resolves to an identity exactly when the engine finds its
/// player, the player has a session, and the player is on a team in the
/// state of that session.
pub proof fn lemma_resolved_means_player_session_and_team(
    lookup: ResponseActionView,
    state: ResponseActionView,
)
    ensures
        resolved(lookup, state).is_some() <==> {
            &&& lookup matches ResponseActionView::Player(player)
            &&& player.session.is_some()
            &&& state matches ResponseActionView::SendState { teams, .. }
            &&& on_a_team(teams, player.id)
        },
{
    if let ResponseActionView::Player(player) = lookup {
        if let ResponseActionView::SendState { teams, .. } = state {
            lemma_place_exists_iff_on_a_team(teams, player.id);
        }
    }
}

} // verus!
