//! What the bridge says to the engine and what the engine says back: the
//! commands that the bridge issues, the answer to each, and the broadcasts
//! that the engine sends to every bridge unasked.

use crate::engine::{
    Challenge, ChallengeView, DetailedLocation, Event, EventView, MinimalLocation, Picture,
    PictureView, Player, PlayerView, RawPicture, Team, TeamView,
};
use crate::protocol::{clone_text, text_view};
use crate::views::views;
use vstd::prelude::*;

verus! {

/// Why the engine refused a command.
#[derive(Debug, PartialEq)]
pub enum Error {
    /// The command needs a session and came without one.
    NoSessionSupplied,
    /// The command takes no session and came with one.
    SessionSupplied,
    NotFound(String),
    TeamExists(String),
    AlreadyExists,
    GameInProgress,
    GameNotRunning,
    AmbiguousData,
    InternalError,
    NotImplemented,
    TeamIsRunner(usize),
    TeamIsCatcher(usize),
    TeamsTooFar,
    BadData(String),
    TextError(String),
    PictureProblem,
    TooRapid,
    TooFewChallenges,
}

pub enum ErrorView {
    NoSessionSupplied,
    SessionSupplied,
    NotFound(Seq<char>),
    TeamExists(Seq<char>),
    AlreadyExists,
    GameInProgress,
    GameNotRunning,
    AmbiguousData,
    InternalError,
    NotImplemented,
    TeamIsRunner(usize),
    TeamIsCatcher(usize),
    TeamsTooFar,
    BadData(Seq<char>),
    TextError(Seq<char>),
    PictureProblem,
    TooRapid,
    TooFewChallenges,
}

impl View for Error {
    type V = ErrorView;

    open spec fn view(&self) -> ErrorView {
        match self {
            Error::NoSessionSupplied => ErrorView::NoSessionSupplied,
            Error::SessionSupplied => ErrorView::SessionSupplied,
            Error::NotFound(what) => ErrorView::NotFound(what@),
            Error::TeamExists(team) => ErrorView::TeamExists(team@),
            Error::AlreadyExists => ErrorView::AlreadyExists,
            Error::GameInProgress => ErrorView::GameInProgress,
            Error::GameNotRunning => ErrorView::GameNotRunning,
            Error::AmbiguousData => ErrorView::AmbiguousData,
            Error::InternalError => ErrorView::InternalError,
            Error::NotImplemented => ErrorView::NotImplemented,
            Error::TeamIsRunner(team) => ErrorView::TeamIsRunner(*team),
            Error::TeamIsCatcher(team) => ErrorView::TeamIsCatcher(*team),
            Error::TeamsTooFar => ErrorView::TeamsTooFar,
            Error::BadData(text) => ErrorView::BadData(text@),
            Error::TextError(text) => ErrorView::TextError(text@),
            Error::PictureProblem => ErrorView::PictureProblem,
            Error::TooRapid => ErrorView::TooRapid,
            Error::TooFewChallenges => ErrorView::TooFewChallenges,
        }
    }
}

impl Clone for Error {
    fn clone(&self) -> (copy: Error)
        ensures
            copy@ == self@,
    {
        match self {
            Error::NoSessionSupplied => Error::NoSessionSupplied,
            Error::SessionSupplied => Error::SessionSupplied,
            Error::NotFound(what) => Error::NotFound(what.clone()),
            Error::TeamExists(team) => Error::TeamExists(team.clone()),
            Error::AlreadyExists => Error::AlreadyExists,
            Error::GameInProgress => Error::GameInProgress,
            Error::GameNotRunning => Error::GameNotRunning,
            Error::AmbiguousData => Error::AmbiguousData,
            Error::InternalError => Error::InternalError,
            Error::NotImplemented => Error::NotImplemented,
            Error::TeamIsRunner(team) => Error::TeamIsRunner(*team),
            Error::TeamIsCatcher(team) => Error::TeamIsCatcher(*team),
            Error::TeamsTooFar => Error::TeamsTooFar,
            Error::BadData(text) => Error::BadData(text.clone()),
            Error::TextError(text) => Error::TextError(text.clone()),
            Error::PictureProblem => Error::PictureProblem,
            Error::TooRapid => Error::TooRapid,
            Error::TooFewChallenges => Error::TooFewChallenges,
        }
    }
}

/// What the bridge asks of the engine.
#[derive(Debug, PartialEq)]
pub enum EngineAction {
    GetState,
    GetPlayerByPassphrase(String),
    SendLocation { player: u64, location: DetailedLocation },
    UploadPeriodPictures { pictures: Vec<RawPicture>, team: usize, period: usize },
    UploadPlayerPicture { player_id: u64, picture: RawPicture },
    UploadTeamPicture { team_id: usize, picture: RawPicture },
    Complete { completer: usize, completed: usize, period_id: usize },
    Catch { catcher: usize, caught: usize, period_id: usize },
    Ping(Option<String>),
    GetPictures(Vec<u64>),
    GetThumbnails(Vec<u64>),
    GetPastLocations { of_past_seconds: Option<u32>, team_id: usize },
}

pub enum EngineActionView {
    GetState,
    GetPlayerByPassphrase(Seq<char>),
    SendLocation { player: u64, location: DetailedLocation },
    UploadPeriodPictures { pictures: Seq<Seq<u8>>, team: usize, period: usize },
    UploadPlayerPicture { player_id: u64, picture: Seq<u8> },
    UploadTeamPicture { team_id: usize, picture: Seq<u8> },
    Complete { completer: usize, completed: usize, period_id: usize },
    Catch { catcher: usize, caught: usize, period_id: usize },
    Ping(Option<Seq<char>>),
    GetPictures(Seq<u64>),
    GetThumbnails(Seq<u64>),
    GetPastLocations { of_past_seconds: Option<u32>, team_id: usize },
}

impl View for EngineAction {
    type V = EngineActionView;

    open spec fn view(&self) -> EngineActionView {
        match self {
            EngineAction::GetState => EngineActionView::GetState,
            EngineAction::GetPlayerByPassphrase(passphrase) => {
                EngineActionView::GetPlayerByPassphrase(passphrase@)
            },
            EngineAction::SendLocation { player, location } => EngineActionView::SendLocation {
                player: *player,
                location: *location,
            },
            EngineAction::UploadPeriodPictures { pictures, team, period } => {
                EngineActionView::UploadPeriodPictures {
                    pictures: views(pictures@),
                    team: *team,
                    period: *period,
                }
            },
            EngineAction::UploadPlayerPicture { player_id, picture } => {
                EngineActionView::UploadPlayerPicture { player_id: *player_id, picture: picture@ }
            },
            EngineAction::UploadTeamPicture { team_id, picture } => {
                EngineActionView::UploadTeamPicture { team_id: *team_id, picture: picture@ }
            },
            EngineAction::Complete { completer, completed, period_id } => {
                EngineActionView::Complete {
                    completer: *completer,
                    completed: *completed,
                    period_id: *period_id,
                }
            },
            EngineAction::Catch { catcher, caught, period_id } => EngineActionView::Catch {
                catcher: *catcher,
                caught: *caught,
                period_id: *period_id,
            },
            EngineAction::Ping(text) => EngineActionView::Ping(text_view(*text)),
            EngineAction::GetPictures(ids) => EngineActionView::GetPictures(ids@),
            EngineAction::GetThumbnails(ids) => EngineActionView::GetThumbnails(ids@),
            EngineAction::GetPastLocations { of_past_seconds, team_id } => {
                EngineActionView::GetPastLocations {
                    of_past_seconds: *of_past_seconds,
                    team_id: *team_id,
                }
            },
        }
    }
}

impl Clone for EngineAction {
    fn clone(&self) -> (copy: EngineAction)
        ensures
            copy@ == self@,
    {
        match self {
            EngineAction::GetState => EngineAction::GetState,
            EngineAction::GetPlayerByPassphrase(passphrase) => {
                EngineAction::GetPlayerByPassphrase(passphrase.clone())
            },
            EngineAction::SendLocation { player, location } => EngineAction::SendLocation {
                player: *player,
                location: *location,
            },
            EngineAction::UploadPeriodPictures { pictures, team, period } => {
                let copy = pictures.clone();
                assert(views(copy@) =~= views(pictures@));
                EngineAction::UploadPeriodPictures { pictures: copy, team: *team, period: *period }
            },
            EngineAction::UploadPlayerPicture { player_id, picture } => {
                EngineAction::UploadPlayerPicture {
                    player_id: *player_id,
                    picture: picture.clone(),
                }
            },
            EngineAction::UploadTeamPicture { team_id, picture } => {
                EngineAction::UploadTeamPicture { team_id: *team_id, picture: picture.clone() }
            },
            EngineAction::Complete { completer, completed, period_id } => {
                EngineAction::Complete {
                    completer: *completer,
                    completed: *completed,
                    period_id: *period_id,
                }
            },
            EngineAction::Catch { catcher, caught, period_id } => EngineAction::Catch {
                catcher: *catcher,
                caught: *caught,
                period_id: *period_id,
            },
            EngineAction::Ping(text) => EngineAction::Ping(clone_text(text)),
            EngineAction::GetPictures(ids) => EngineAction::GetPictures(ids.clone()),
            EngineAction::GetThumbnails(ids) => EngineAction::GetThumbnails(ids.clone()),
            EngineAction::GetPastLocations { of_past_seconds, team_id } => {
                EngineAction::GetPastLocations {
                    of_past_seconds: *of_past_seconds,
                    team_id: *team_id,
                }
            },
        }
    }
}

/// A command to the engine: what is asked, and in which session if in any.
#[derive(Debug, PartialEq)]
pub struct EngineCommand {
    pub session: Option<u64>,
    pub action: EngineAction,
}

pub struct EngineCommandView {
    pub session: Option<u64>,
    pub action: EngineActionView,
}

impl View for EngineCommand {
    type V = EngineCommandView;

    open spec fn view(&self) -> EngineCommandView {
        EngineCommandView { session: self.session, action: self.action@ }
    }
}

impl Clone for EngineCommand {
    fn clone(&self) -> (copy: EngineCommand)
        ensures
            copy@ == self@,
    {
        EngineCommand { session: self.session, action: self.action.clone() }
    }
}

/// The engine's answer to one command. An answer that the bridge passes
/// over comes without what the engine sent in it.
#[derive(Debug, PartialEq)]
pub enum ResponseAction {
    Error(Error),
    Team,
    Player(Player),
    Success,
    SendState { teams: Vec<Team>, events: Vec<Event>, game_running: bool },
    SendGlobalState,
    SendRawChallenges,
    SendChallengeSets,
    SendZones,
    SendEvents,
    UploadedPictures,
    Period(usize),
    Pictures(Vec<Picture>),
    SendLocations,
    SendPastLocations { team_id: usize, locations: Vec<MinimalLocation> },
    SendGameConfig,
}

pub enum ResponseActionView {
    Error(ErrorView),
    Team,
    Player(PlayerView),
    Success,
    SendState { teams: Seq<TeamView>, events: Seq<EventView>, game_running: bool },
    SendGlobalState,
    SendRawChallenges,
    SendChallengeSets,
    SendZones,
    SendEvents,
    UploadedPictures,
    Period(usize),
    Pictures(Seq<PictureView>),
    SendLocations,
    SendPastLocations { team_id: usize, locations: Seq<MinimalLocation> },
    SendGameConfig,
}

impl View for ResponseAction {
    type V = ResponseActionView;

    open spec fn view(&self) -> ResponseActionView {
        match self {
            ResponseAction::Error(error) => ResponseActionView::Error(error@),
            ResponseAction::Team => ResponseActionView::Team,
            ResponseAction::Player(player) => ResponseActionView::Player(player@),
            ResponseAction::Success => ResponseActionView::Success,
            ResponseAction::SendState { teams, events, game_running } => {
                ResponseActionView::SendState {
                    teams: views(teams@),
                    events: views(events@),
                    game_running: *game_running,
                }
            },
            ResponseAction::SendGlobalState => ResponseActionView::SendGlobalState,
            ResponseAction::SendRawChallenges => ResponseActionView::SendRawChallenges,
            ResponseAction::SendChallengeSets => ResponseActionView::SendChallengeSets,
            ResponseAction::SendZones => ResponseActionView::SendZones,
            ResponseAction::SendEvents => ResponseActionView::SendEvents,
            ResponseAction::UploadedPictures => ResponseActionView::UploadedPictures,
            ResponseAction::Period(id) => ResponseActionView::Period(*id),
            ResponseAction::Pictures(pictures) => ResponseActionView::Pictures(views(pictures@)),
            ResponseAction::SendLocations => ResponseActionView::SendLocations,
            ResponseAction::SendPastLocations { team_id, locations } => {
                ResponseActionView::SendPastLocations { team_id: *team_id, locations: locations@ }
            },
            ResponseAction::SendGameConfig => ResponseActionView::SendGameConfig,
        }
    }
}

impl Clone for ResponseAction {
    fn clone(&self) -> (copy: ResponseAction)
        ensures
            copy@ == self@,
    {
        match self {
            ResponseAction::Error(error) => ResponseAction::Error(error.clone()),
            ResponseAction::Team => ResponseAction::Team,
            ResponseAction::Player(player) => ResponseAction::Player(player.clone()),
            ResponseAction::Success => ResponseAction::Success,
            ResponseAction::SendState { teams, events, game_running } => {
                let teams_copy = teams.clone();
                let events_copy = events.clone();
                assert(views(teams_copy@) =~= views(teams@));
                assert(views(events_copy@) =~= views(events@));
                ResponseAction::SendState {
                    teams: teams_copy,
                    events: events_copy,
                    game_running: *game_running,
                }
            },
            ResponseAction::SendGlobalState => ResponseAction::SendGlobalState,
            ResponseAction::SendRawChallenges => ResponseAction::SendRawChallenges,
            ResponseAction::SendChallengeSets => ResponseAction::SendChallengeSets,
            ResponseAction::SendZones => ResponseAction::SendZones,
            ResponseAction::SendEvents => ResponseAction::SendEvents,
            ResponseAction::UploadedPictures => ResponseAction::UploadedPictures,
            ResponseAction::Period(id) => ResponseAction::Period(*id),
            ResponseAction::Pictures(pictures) => {
                let copy = pictures.clone();
                assert(views(copy@) =~= views(pictures@));
                ResponseAction::Pictures(copy)
            },
            ResponseAction::SendLocations => ResponseAction::SendLocations,
            ResponseAction::SendPastLocations { team_id, locations } => {
                ResponseAction::SendPastLocations {
                    team_id: *team_id,
                    locations: locations.clone(),
                }
            },
            ResponseAction::SendGameConfig => ResponseAction::SendGameConfig,
        }
    }
}

/// What the engine tells every bridge when something changes.
#[derive(Debug, PartialEq)]
pub enum BroadcastAction {
    TeamMadeRunner(Team),
    TeamMadeCatcher(Team),
    Location { team: usize, location: DetailedLocation },
    Caught { catcher: Team, caught: Team },
    Completed { completer: Team, completed: Challenge },
    Pinged(Option<String>),
    Ended,
    Started,
    TeamLeftGracePeriod(Team),
    PlayerChangedSession { player: Player },
    PlayerChangedTeam { player_id: u64 },
    PlayerDeleted(Player),
}

pub enum BroadcastActionView {
    TeamMadeRunner(TeamView),
    TeamMadeCatcher(TeamView),
    Location { team: usize, location: DetailedLocation },
    Caught { catcher: TeamView, caught: TeamView },
    Completed { completer: TeamView, completed: ChallengeView },
    Pinged(Option<Seq<char>>),
    Ended,
    Started,
    TeamLeftGracePeriod(TeamView),
    PlayerChangedSession { player: PlayerView },
    PlayerChangedTeam { player_id: u64 },
    PlayerDeleted(PlayerView),
}

impl View for BroadcastAction {
    type V = BroadcastActionView;

    open spec fn view(&self) -> BroadcastActionView {
        match self {
            BroadcastAction::TeamMadeRunner(team) => BroadcastActionView::TeamMadeRunner(team@),
            BroadcastAction::TeamMadeCatcher(team) => BroadcastActionView::TeamMadeCatcher(team@),
            BroadcastAction::Location { team, location } => BroadcastActionView::Location {
                team: *team,
                location: *location,
            },
            BroadcastAction::Caught { catcher, caught } => BroadcastActionView::Caught {
                catcher: catcher@,
                caught: caught@,
            },
            BroadcastAction::Completed { completer, completed } => {
                BroadcastActionView::Completed { completer: completer@, completed: completed@ }
            },
            BroadcastAction::Pinged(text) => BroadcastActionView::Pinged(text_view(*text)),
            BroadcastAction::Ended => BroadcastActionView::Ended,
            BroadcastAction::Started => BroadcastActionView::Started,
            BroadcastAction::TeamLeftGracePeriod(team) => {
                BroadcastActionView::TeamLeftGracePeriod(team@)
            },
            BroadcastAction::PlayerChangedSession { player } => {
                BroadcastActionView::PlayerChangedSession { player: player@ }
            },
            BroadcastAction::PlayerChangedTeam { player_id } => {
                BroadcastActionView::PlayerChangedTeam { player_id: *player_id }
            },
            BroadcastAction::PlayerDeleted(player) => BroadcastActionView::PlayerDeleted(player@),
        }
    }
}

impl Clone for BroadcastAction {
    fn clone(&self) -> (copy: BroadcastAction)
        ensures
            copy@ == self@,
    {
        match self {
            BroadcastAction::TeamMadeRunner(team) => BroadcastAction::TeamMadeRunner(
                team.clone(),
            ),
            BroadcastAction::TeamMadeCatcher(team) => BroadcastAction::TeamMadeCatcher(
                team.clone(),
            ),
            BroadcastAction::Location { team, location } => BroadcastAction::Location {
                team: *team,
                location: *location,
            },
            BroadcastAction::Caught { catcher, caught } => BroadcastAction::Caught {
                catcher: catcher.clone(),
                caught: caught.clone(),
            },
            BroadcastAction::Completed { completer, completed } => BroadcastAction::Completed {
                completer: completer.clone(),
                completed: completed.clone(),
            },
            BroadcastAction::Pinged(text) => BroadcastAction::Pinged(clone_text(text)),
            BroadcastAction::Ended => BroadcastAction::Ended,
            BroadcastAction::Started => BroadcastAction::Started,
            BroadcastAction::TeamLeftGracePeriod(team) => BroadcastAction::TeamLeftGracePeriod(
                team.clone(),
            ),
            BroadcastAction::PlayerChangedSession { player } => {
                BroadcastAction::PlayerChangedSession { player: player.clone() }
            },
            BroadcastAction::PlayerChangedTeam { player_id } => {
                BroadcastAction::PlayerChangedTeam { player_id: *player_id }
            },
            BroadcastAction::PlayerDeleted(player) => BroadcastAction::PlayerDeleted(
                player.clone(),
            ),
        }
    }
}

} // verus!
