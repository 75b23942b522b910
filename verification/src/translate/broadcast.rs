//! From a broadcast of the engine to what one connection is told of it.
//!
//! What a connection is told depends on who it is: on its player and its
//! team. Most notifications carry the full state of the session, which the
//! broadcast does not hold and the engine has to be asked for. So a
//! broadcast is first turned into a plan, and a plan that asks for the state
//! is carried out by `wrap_everything` once the state is there.

use crate::convert::{challenge_of, detailed_location_of};
use crate::engine::commands::{BroadcastAction, BroadcastActionView};
use crate::engine::TeamView;
use crate::event::{Event, EventView};
use crate::fault::SessionFault;
use crate::location::{DetailedLocation, MinimalLocation};
use crate::membership::{has_player, team_has_player};
use crate::protocol::{Everything, EverythingView, ToApp, ToAppView};
use crate::roster::Challenge;
use vstd::prelude::*;

verus! {

/// The notification that the full state of the session is wrapped in.
#[derive(Debug, PartialEq)]
pub enum Wrapping {
    BecomeRunner,
    BecomeCatcher,
    EventOccurred(Event),
    ChallengeCompleted(Event),
    BecomeNoGameRunning,
    GameStarted,
    YouLeftGracePeriod,
    Everything,
}

pub enum WrappingView {
    BecomeRunner,
    BecomeCatcher,
    EventOccurred(EventView),
    ChallengeCompleted(EventView),
    BecomeNoGameRunning,
    GameStarted,
    YouLeftGracePeriod,
    Everything,
}

impl View for Wrapping {
    type V = WrappingView;

    open spec fn view(&self) -> WrappingView {
        match self {
            Wrapping::BecomeRunner => WrappingView::BecomeRunner,
            Wrapping::BecomeCatcher => WrappingView::BecomeCatcher,
            Wrapping::EventOccurred(event) => WrappingView::EventOccurred(event@),
            Wrapping::ChallengeCompleted(event) => WrappingView::ChallengeCompleted(event@),
            Wrapping::BecomeNoGameRunning => WrappingView::BecomeNoGameRunning,
            Wrapping::GameStarted => WrappingView::GameStarted,
            Wrapping::YouLeftGracePeriod => WrappingView::YouLeftGracePeriod,
            Wrapping::Everything => WrappingView::Everything,
        }
    }
}

impl Clone for Wrapping {
    fn clone(&self) -> (copy: Wrapping)
        ensures
            copy@ == self@,
    {
        match self {
            Wrapping::BecomeRunner => Wrapping::BecomeRunner,
            Wrapping::BecomeCatcher => Wrapping::BecomeCatcher,
            Wrapping::EventOccurred(event) => Wrapping::EventOccurred(event.clone()),
            Wrapping::ChallengeCompleted(event) => Wrapping::ChallengeCompleted(event.clone()),
            Wrapping::BecomeNoGameRunning => Wrapping::BecomeNoGameRunning,
            Wrapping::GameStarted => Wrapping::GameStarted,
            Wrapping::YouLeftGracePeriod => Wrapping::YouLeftGracePeriod,
            Wrapping::Everything => Wrapping::Everything,
        }
    }
}

/// What is to be done about a broadcast.
#[derive(Debug, PartialEq)]
pub enum BroadcastPlan {
    /// The connection is told nothing.
    Drop,
    /// The connection is told this, as it stands.
    Forward(ToApp),
    /// The engine is asked for the state of the session, and the connection
    /// is told the state in this wrapping.
    Refresh(Wrapping),
}

pub enum BroadcastPlanView {
    Drop,
    Forward(ToAppView),
    Refresh(WrappingView),
}

impl View for BroadcastPlan {
    type V = BroadcastPlanView;

    open spec fn view(&self) -> BroadcastPlanView {
        match self {
            BroadcastPlan::Drop => BroadcastPlanView::Drop,
            BroadcastPlan::Forward(notification) => BroadcastPlanView::Forward(notification@),
            BroadcastPlan::Refresh(wrapping) => BroadcastPlanView::Refresh(wrapping@),
        }
    }
}

/// The catch of team `caught_id` by team `catcher_id` as a broadcast
/// reports it: without bounty, time, pictures or place.
pub open spec fn reported_catch(catcher_id: usize, caught_id: usize) -> EventView {
    EventView::CatchTeam {
        catcher_id,
        caught_id,
        bounty: 0,
        time: 0,
        picture_ids: Seq::empty(),
        location: MinimalLocation::spec_origin(),
    }
}

/// The completion of `challenge` by team `completer_id` as a broadcast
/// reports it: without time, pictures or place.
pub open spec fn reported_completion(
    challenge: crate::engine::ChallengeView,
    completer_id: usize,
) -> EventView {
    EventView::Complete {
        challenge: challenge_of(challenge),
        completer_id,
        time: 0,
        picture_ids: Seq::empty(),
        location: MinimalLocation::spec_origin(),
    }
}

/// What is to be done about a broadcast on the connection of player
/// `player_id` in team `team_id`; `Err` where the broadcast ends the
/// session.
///
/// - A team made runner: its members become runners; others are told
///   nothing.
/// - A team made catcher: that team becomes catcher; others are told
///   nothing.
/// - A location and a ping go to everyone as they are.
/// - A catch: the catching team becomes runner, the caught team catcher,
///   and everyone else is told of the catch.
/// - A completed challenge: the completing team is told that it completed
///   it, everyone else that it happened.
/// - The end and the start of a game go to everyone.
/// - A team leaving its grace period: that team is told so, everyone else
///   gets the state.
/// - The connection's own player changing session or team, or being
///   deleted, ends the session; of another player's, nothing is told.
pub open spec fn plan_of(broadcast: BroadcastActionView, player_id: u64, team_id: usize) -> Result<
    BroadcastPlanView,
    SessionFault,
> {
    match broadcast {
        BroadcastActionView::TeamMadeRunner(team) => Ok(
            if has_player(team, player_id) {
                BroadcastPlanView::Refresh(WrappingView::BecomeRunner)
            } else {
                BroadcastPlanView::Drop
            },
        ),
        BroadcastActionView::TeamMadeCatcher(team) => Ok(
            if team.id == team_id {
                BroadcastPlanView::Refresh(WrappingView::BecomeCatcher)
            } else {
                BroadcastPlanView::Drop
            },
        ),
        BroadcastActionView::Location { team, location } => Ok(
            BroadcastPlanView::Forward(
                ToAppView::Location { team, location: detailed_location_of(location) },
            ),
        ),
        BroadcastActionView::Caught { catcher, caught } => Ok(
            BroadcastPlanView::Refresh(
                if catcher.id == team_id {
                    WrappingView::BecomeRunner
                } else if caught.id == team_id {
                    WrappingView::BecomeCatcher
                } else {
                    WrappingView::EventOccurred(reported_catch(catcher.id, caught.id))
                },
            ),
        ),
        BroadcastActionView::Completed { completer, completed } => Ok(
            BroadcastPlanView::Refresh(
                if completer.id == team_id {
                    WrappingView::ChallengeCompleted(reported_completion(completed, completer.id))
                } else {
                    WrappingView::EventOccurred(reported_completion(completed, completer.id))
                },
            ),
        ),
        BroadcastActionView::Pinged(text) => Ok(BroadcastPlanView::Forward(ToAppView::Ping(text))),
        BroadcastActionView::Ended => Ok(
            BroadcastPlanView::Refresh(WrappingView::BecomeNoGameRunning),
        ),
        BroadcastActionView::Started => Ok(BroadcastPlanView::Refresh(WrappingView::GameStarted)),
        BroadcastActionView::TeamLeftGracePeriod(team) => Ok(
            BroadcastPlanView::Refresh(
                if team.id == team_id {
                    WrappingView::YouLeftGracePeriod
                } else {
                    WrappingView::Everything
                },
            ),
        ),
        BroadcastActionView::PlayerChangedSession { player } => {
            if player.id == player_id {
                Err(SessionFault::SessionChanged)
            } else {
                Ok(BroadcastPlanView::Drop)
            }
        },
        BroadcastActionView::PlayerChangedTeam { player_id: moved } => {
            if moved == player_id {
                Err(SessionFault::TeamChanged)
            } else {
                Ok(BroadcastPlanView::Drop)
            }
        },
        BroadcastActionView::PlayerDeleted(player) => {
            if player.id == player_id {
                Err(SessionFault::PlayerDeleted)
            } else {
                Ok(BroadcastPlanView::Drop)
            }
        },
    }
}

/// A plan, or the fault in its place, by its view.
pub open spec fn plan_view(plan: Result<BroadcastPlan, SessionFault>) -> Result<
    BroadcastPlanView,
    SessionFault,
> {
    match plan {
        Ok(plan) => Ok(plan@),
        Err(fault) => Err(fault),
    }
}

/// Decides what is to be done about one broadcast. See `plan_of`.
pub fn broadcast_to_to_app(broadcast: BroadcastAction, player_id: u64, team_id: usize) -> (plan:
    Result<BroadcastPlan, SessionFault>)
    ensures
        plan_view(plan) == plan_of(broadcast@, player_id, team_id),
{
    match broadcast {
        BroadcastAction::TeamMadeRunner(team) => {
            if team_has_player(&team, player_id) {
                Ok(BroadcastPlan::Refresh(Wrapping::BecomeRunner))
            } else {
                Ok(BroadcastPlan::Drop)
            }
        },
        BroadcastAction::TeamMadeCatcher(team) => {
            if team.id == team_id {
                Ok(BroadcastPlan::Refresh(Wrapping::BecomeCatcher))
            } else {
                Ok(BroadcastPlan::Drop)
            }
        },
        BroadcastAction::Location { team, location } => Ok(
            BroadcastPlan::Forward(
                ToApp::Location { team, location: DetailedLocation::from(location) },
            ),
        ),
        BroadcastAction::Caught { catcher, caught } => {
            if catcher.id == team_id {
                Ok(BroadcastPlan::Refresh(Wrapping::BecomeRunner))
            } else if caught.id == team_id {
                Ok(BroadcastPlan::Refresh(Wrapping::BecomeCatcher))
            } else {
                Ok(
                    BroadcastPlan::Refresh(
                        Wrapping::EventOccurred(
                            Event::CatchTeam {
                                catcher_id: catcher.id,
                                caught_id: caught.id,
                                bounty: 0,
                                time: 0,
                                picture_ids: Vec::new(),
                                location: MinimalLocation::origin(),
                            },
                        ),
                    ),
                )
            }
        },
        BroadcastAction::Completed { completer, completed } => {
            let event = Event::Complete {
                challenge: Challenge::from(completed),
                completer_id: completer.id,
                time: 0,
                picture_ids: Vec::new(),
                location: MinimalLocation::origin(),
            };
            if completer.id == team_id {
                Ok(BroadcastPlan::Refresh(Wrapping::ChallengeCompleted(event)))
            } else {
                Ok(BroadcastPlan::Refresh(Wrapping::EventOccurred(event)))
            }
        },
        BroadcastAction::Pinged(text) => Ok(BroadcastPlan::Forward(ToApp::Ping(text))),
        BroadcastAction::Ended => Ok(BroadcastPlan::Refresh(Wrapping::BecomeNoGameRunning)),
        BroadcastAction::Started => Ok(BroadcastPlan::Refresh(Wrapping::GameStarted)),
        BroadcastAction::TeamLeftGracePeriod(team) => {
            if team.id == team_id {
                Ok(BroadcastPlan::Refresh(Wrapping::YouLeftGracePeriod))
            } else {
                Ok(BroadcastPlan::Refresh(Wrapping::Everything))
            }
        },
        BroadcastAction::PlayerChangedSession { player } => {
            if player.id == player_id {
                Err(SessionFault::SessionChanged)
            } else {
                Ok(BroadcastPlan::Drop)
            }
        },
        BroadcastAction::PlayerChangedTeam { player_id: moved } => {
            if moved == player_id {
                Err(SessionFault::TeamChanged)
            } else {
                Ok(BroadcastPlan::Drop)
            }
        },
        BroadcastAction::PlayerDeleted(player) => {
            if player.id == player_id {
                Err(SessionFault::PlayerDeleted)
            } else {
                Ok(BroadcastPlan::Drop)
            }
        },
    }
}

/// The notification that carries the state `everything` in `wrapping`.
pub open spec fn wrapped(wrapping: WrappingView, everything: EverythingView) -> ToAppView {
    match wrapping {
        WrappingView::BecomeRunner => ToAppView::BecomeRunner(everything),
        WrappingView::BecomeCatcher => ToAppView::BecomeCatcher(everything),
        WrappingView::EventOccurred(event) => ToAppView::EventOccurred(event, everything),
        WrappingView::ChallengeCompleted(event) => ToAppView::ChallengeCompleted(
            event,
            everything,
        ),
        WrappingView::BecomeNoGameRunning => ToAppView::BecomeNoGameRunning(everything),
        WrappingView::GameStarted => ToAppView::GameStarted(everything),
        WrappingView::YouLeftGracePeriod => ToAppView::YouLeftGracePeriod(everything),
        WrappingView::Everything => ToAppView::Everything(everything),
    }
}

/// Wraps the state of the session for the client. See `wrapped`.
pub fn wrap_everything(wrapping: Wrapping, everything: Everything) -> (notification: ToApp)
    ensures
        notification@ == wrapped(wrapping@, everything@),
{
    match wrapping {
        Wrapping::BecomeRunner => ToApp::BecomeRunner(everything),
        Wrapping::BecomeCatcher => ToApp::BecomeCatcher(everything),
        Wrapping::EventOccurred(event) => ToApp::EventOccurred(event, everything),
        Wrapping::ChallengeCompleted(event) => ToApp::ChallengeCompleted(event, everything),
        Wrapping::BecomeNoGameRunning => ToApp::BecomeNoGameRunning(everything),
        Wrapping::GameStarted => ToApp::GameStarted(everything),
        Wrapping::YouLeftGracePeriod => ToApp::YouLeftGracePeriod(everything),
        Wrapping::Everything => ToApp::Everything(everything),
    }
}

/// Whether `team` is the team of the connection of player `player_id` in
/// team `team_id`, by its id or by its members.
pub open spec fn is_own_team(team: TeamView, player_id: u64, team_id: usize) -> bool {
    team.id == team_id || has_player(team, player_id)
}

/// Whether a broadcast names the connection of player `player_id` in team
/// `team_id`: whether that team or that player is among those it speaks
/// of.
pub open spec fn names_connection(broadcast: BroadcastActionView, player_id: u64, team_id: usize)
    -> bool {
    match broadcast {
        BroadcastActionView::TeamMadeRunner(team) => is_own_team(team, player_id, team_id),
        BroadcastActionView::TeamMadeCatcher(team) => is_own_team(team, player_id, team_id),
        BroadcastActionView::Location { team, .. } => team == team_id,
        BroadcastActionView::Caught { catcher, caught } => is_own_team(
            catcher,
            player_id,
            team_id,
        ) || is_own_team(caught, player_id, team_id),
        BroadcastActionView::Completed { completer, .. } => is_own_team(
            completer,
            player_id,
            team_id,
        ),
        BroadcastActionView::Pinged(_) => false,
        BroadcastActionView::Ended => false,
        BroadcastActionView::Started => false,
        BroadcastActionView::TeamLeftGracePeriod(team) => is_own_team(team, player_id, team_id),
        BroadcastActionView::PlayerChangedSession { player } => player.id == player_id,
        BroadcastActionView::PlayerChangedTeam { player_id: moved } => moved == player_id,
        BroadcastActionView::PlayerDeleted(player) => player.id == player_id,
    }
}

/// The broadcasts that speak of the game as a whole and of no team or
/// player: a ping, and the end and the start of a game.
pub open spec fn is_global(broadcast: BroadcastActionView) -> bool {
    broadcast is Pinged || broadcast is Ended || broadcast is Started
}

/// The broadcasts that speak of a team and yet have every connection told
/// something: a location, a catch, a completed challenge, and a team
/// leaving its grace period.
pub open spec fn concerns_everyone(broadcast: BroadcastActionView) -> bool {
    broadcast is Location || broadcast is Caught || broadcast is Completed
        || broadcast is TeamLeftGracePeriod
}

/// Of a broadcast that does not name it, a connection is told nothing;
/// unless the broadcast is global or concerns everyone.
pub proof fn lemma_unnamed_connection_is_told_nothing(
    broadcast: BroadcastActionView,
    player_id: u64,
    team_id: usize,
)
    requires
        !names_connection(broadcast, player_id, team_id),
        !is_global(broadcast),
        !concerns_everyone(broadcast),
    ensures
        plan_of(broadcast, player_id, team_id) == Ok::<BroadcastPlanView, SessionFault>(
            BroadcastPlanView::Drop,
        ),
{
}

/// Of a broadcast that is global or concerns everyone, every connection is
/// told something, whoever it is.
pub proof fn lemma_everyone_is_told(broadcast: BroadcastActionView, player_id: u64, team_id: usize)
    requires
        is_global(broadcast) || concerns_everyone(broadcast),
    ensures
        plan_of(broadcast, player_id, team_id) matches Ok(plan) && !(plan is Drop),
{
}

/// A broadcast ends the session of a connection exactly when it says that
/// the connection's own player changed session or team, or was deleted.
pub proof fn lemma_fatal_broadcasts(broadcast: BroadcastActionView, player_id: u64, team_id: usize)
    ensures
        plan_of(broadcast, player_id, team_id) is Err <==> names_connection(
            broadcast,
            player_id,
            team_id,
        ) && (broadcast is PlayerChangedSession || broadcast is PlayerChangedTeam
            || broadcast is PlayerDeleted),
{
}

} // verus!
