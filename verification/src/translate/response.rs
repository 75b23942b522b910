//! From the engine's answer to what the client is told.
//!
//! An answer becomes one notification or none. One answer can end the
//! session instead: the state of a session on none of whose teams the
//! connection's player is.

use crate::convert::{
    client_error_of, events_from, events_of, minimal_locations_from, minimal_locations_of,
    pictures_from, pictures_of, teams_from, teams_of,
};
use crate::engine::commands::{
    EngineAction, EngineActionView, EngineCommand, EngineCommandView, ResponseAction,
    ResponseActionView,
};
use crate::engine::{EventView, TeamRole, TeamView};
use crate::error::ClientError;
use crate::fault::SessionFault;
use crate::membership::{
    find_team, is_team_place, lemma_place_exists_iff_on_a_team, on_a_team, team_place,
};
use crate::protocol::{Everything, EverythingView, State, ToApp, ToAppView};
use crate::views::views;
use vstd::prelude::*;

verus! {

/// How the team at `place` of `teams` stands: without a game it neither
/// runs nor catches, in a game its role says which.
pub open spec fn standing_of(teams: Seq<TeamView>, place: int, game_running: bool) -> State {
    if !game_running {
        State::GameNotRunning
    } else if teams[place].role == TeamRole::Catcher {
        State::Catcher
    } else {
        State::Runner
    }
}

/// The full state that the player `player_id` is shown, made of the state
/// of session `session_id` as the engine sent it; `None` where the player
/// is on none of the teams.
pub open spec fn everything_of(
    teams: Seq<TeamView>,
    events: Seq<EventView>,
    game_running: bool,
    player_id: u64,
    session_id: u64,
) -> Option<EverythingView> {
    match team_place(teams, player_id) {
        Some(place) => Some(
            EverythingView {
                state: standing_of(teams, place, game_running),
                teams: teams_of(teams),
                events: events_of(events),
                you: player_id,
                your_team: place as usize,
                your_session: session_id,
            },
        ),
        None => None,
    }
}

/// What the player `player_id` in session `session_id` is told of an answer
/// of the engine: `Ok` with the one notification or with none, or `Err`
/// where the session cannot go on.
///
/// The state of the session becomes `Everything`, a new period
/// `AddedPeriod`, pictures `Pictures`, past locations `SendPastLocations`,
/// and an error that is meant for clients `Error`. Every other answer, an
/// error that is not meant for clients among them, is passed over.
pub open spec fn notification_of(response: ResponseActionView, player_id: u64, session_id: u64)
    -> Result<Option<ToAppView>, SessionFault> {
    match response {
        ResponseActionView::Error(error) => match client_error_of(error) {
            Some(error) => Ok(Some(ToAppView::Error(error))),
            None => Ok(None),
        },
        ResponseActionView::SendState { teams, events, game_running } => {
            match everything_of(teams, events, game_running, player_id, session_id) {
                Some(everything) => Ok(Some(ToAppView::Everything(everything))),
                None => Err(SessionFault::NotOnAnyTeam),
            }
        },
        ResponseActionView::Period(id) => Ok(Some(ToAppView::AddedPeriod(id))),
        ResponseActionView::Pictures(pictures) => Ok(
            Some(ToAppView::Pictures(pictures_of(pictures))),
        ),
        ResponseActionView::SendPastLocations { team_id, locations } => Ok(
            Some(
                ToAppView::SendPastLocations {
                    team: team_id,
                    locations: minimal_locations_of(locations),
                },
            ),
        ),
        ResponseActionView::Team => Ok(None),
        ResponseActionView::Player(_) => Ok(None),
        ResponseActionView::Success => Ok(None),
        ResponseActionView::SendGlobalState => Ok(None),
        ResponseActionView::SendRawChallenges => Ok(None),
        ResponseActionView::SendChallengeSets => Ok(None),
        ResponseActionView::SendZones => Ok(None),
        ResponseActionView::SendEvents => Ok(None),
        ResponseActionView::UploadedPictures => Ok(None),
        ResponseActionView::SendLocations => Ok(None),
        ResponseActionView::SendGameConfig => Ok(None),
    }
}

/// The outcome of a translation by its view.
pub open spec fn outcome_view(outcome: Result<Option<ToApp>, SessionFault>) -> Result<
    Option<ToAppView>,
    SessionFault,
> {
    match outcome {
        Ok(Some(notification)) => Ok(Some(notification@)),
        Ok(None) => Ok(None),
        Err(fault) => Err(fault),
    }
}

/// Translates one answer of the engine. See `notification_of`.
pub fn response_to_to_app(response: ResponseAction, player_id: u64, session_id: u64) -> (outcome:
    Result<Option<ToApp>, SessionFault>)
    ensures
        outcome_view(outcome) == notification_of(response@, player_id, session_id),
{
    match response {
        ResponseAction::Error(error) => match ClientError::try_from(error) {
            Ok(error) => Ok(Some(ToApp::Error(error))),
            Err(_) => Ok(None),
        },
        ResponseAction::SendState { teams, events, game_running } => {
            match find_team(&teams, player_id) {
                Some(your_team) => {
                    let state = if !game_running {
                        State::GameNotRunning
                    } else {
                        match teams[your_team].role {
                            TeamRole::Catcher => State::Catcher,
                            TeamRole::Runner => State::Runner,
                        }
                    };
                    Ok(
                        Some(
                            ToApp::Everything(
                                Everything {
                                    state,
                                    teams: teams_from(teams),
                                    events: events_from(events),
                                    you: player_id,
                                    your_team,
                                    your_session: session_id,
                                },
                            ),
                        ),
                    )
                },
                None => Err(SessionFault::NotOnAnyTeam),
            }
        },
        ResponseAction::Period(id) => Ok(Some(ToApp::AddedPeriod(id))),
        ResponseAction::Pictures(pictures) => Ok(Some(ToApp::Pictures(pictures_from(pictures)))),
        ResponseAction::SendPastLocations { team_id, locations } => Ok(
            Some(
                ToApp::SendPastLocations {
                    team: team_id,
                    locations: minimal_locations_from(locations),
                },
            ),
        ),
        ResponseAction::Team => Ok(None),
        ResponseAction::Player(_) => Ok(None),
        ResponseAction::Success => Ok(None),
        ResponseAction::SendGlobalState => Ok(None),
        ResponseAction::SendRawChallenges => Ok(None),
        ResponseAction::SendChallengeSets => Ok(None),
        ResponseAction::SendZones => Ok(None),
        ResponseAction::SendEvents => Ok(None),
        ResponseAction::UploadedPictures => Ok(None),
        ResponseAction::SendLocations => Ok(None),
        ResponseAction::SendGameConfig => Ok(None),
    }
}

/// The command that asks the engine for the state of `session`.
pub open spec fn state_query_of(session: u64) -> EngineCommandView {
    EngineCommandView { session: Some(session), action: EngineActionView::GetState }
}

/// Makes the command that asks the engine for the state of `session`.
pub fn state_query(session: u64) -> (command: EngineCommand)
    ensures
        command@ == state_query_of(session),
{
    EngineCommand { session: Some(session), action: EngineAction::GetState }
}

/// The full state that an answer to `state_query` holds for the player
/// `player_id`: what `notification_of` makes of the state of the session.
/// An answer that is no state of a session holds none.
pub open spec fn refreshed_of(response: ResponseActionView, player_id: u64, session: u64)
    -> Result<EverythingView, SessionFault> {
    match notification_of(response, player_id, session) {
        Ok(Some(ToAppView::Everything(everything))) => Ok(everything),
        Ok(_) => Err(SessionFault::StateUnavailable),
        Err(fault) => Err(fault),
    }
}

/// The full state, or why there is none, by its view.
pub open spec fn refreshed_view(refreshed: Result<Everything, SessionFault>) -> Result<
    EverythingView,
    SessionFault,
> {
    match refreshed {
        Ok(everything) => Ok(everything@),
        Err(fault) => Err(fault),
    }
}

/// Takes the full state out of the engine's answer to `state_query`. See
/// `refreshed_of`.
pub fn get_everything(response: ResponseAction, player_id: u64, session: u64) -> (refreshed:
    Result<Everything, SessionFault>)
    ensures
        refreshed_view(refreshed) == refreshed_of(response@, player_id, session),
{
    match response_to_to_app(response, player_id, session) {
        Ok(Some(ToApp::Everything(everything))) => Ok(everything),
        Ok(_) => Err(SessionFault::StateUnavailable),
        Err(fault) => Err(fault),
    }
}

/// The answers that only acknowledge a command or serve the engine's other
/// clients, and the errors that speak of a misuse of the engine's protocol.
pub open spec fn is_acknowledgement(response: ResponseActionView) -> bool {
    match response {
        ResponseActionView::Error(error) => client_error_of(error).is_none(),
        ResponseActionView::SendState { .. } => false,
        ResponseActionView::Period(_) => false,
        ResponseActionView::Pictures(_) => false,
        ResponseActionView::SendPastLocations { .. } => false,
        _ => true,
    }
}

/// An answer makes one notification or none, and it makes none exactly
/// when it is an acknowledgement. The one answer that can end a session is
/// the state of a session.
pub proof fn lemma_acknowledgements_tell_nothing(
    response: ResponseActionView,
    player_id: u64,
    session_id: u64,
)
    ensures
        is_acknowledgement(response) <==> notification_of(response, player_id, session_id) == Ok::<
            Option<ToAppView>,
            SessionFault,
        >(None),
        notification_of(response, player_id, session_id) is Err ==> response is SendState,
{
}

/// The full state names the connection's own team: `your_team` is a place
/// in the list of teams, the team at that place has the player `you`, and
/// no team before it has. The state is that of the session asked for and
/// shows every team and every entry of the history that the engine sent,
/// in the engine's order.
pub proof fn lemma_everything_names_own_team(
    teams: Seq<TeamView>,
    events: Seq<EventView>,
    game_running: bool,
    player_id: u64,
    session_id: u64,
)
    requires
        teams.len() <= usize::MAX,
    ensures
        everything_of(teams, events, game_running, player_id, session_id) matches Some(
            everything,
        ) ==> {
            &&& everything.you == player_id
            &&& everything.your_session == session_id
            &&& everything.teams.len() == teams.len()
            &&& everything.events.len() == events.len()
            &&& is_team_place(teams, player_id, everything.your_team as int)
            &&& everything.state is GameNotRunning <==> !game_running
            &&& everything.state is Catcher ==> everything.teams[everything.your_team as int].is_catcher
            &&& everything.state is Runner ==> !everything.teams[everything.your_team as int].is_catcher
        },
        everything_of(teams, events, game_running, player_id, session_id).is_some() <==> on_a_team(
            teams,
            player_id,
        ),
{
    lemma_place_exists_iff_on_a_team(teams, player_id);
}

} // verus!
