//! The messages that travel between a client and the bridge.

use crate::error::{ClientError, ClientErrorView};
use crate::event::{Event, EventView};
use crate::location::{DetailedLocation, MinimalLocation};
use crate::picture::{JuhuiPicture, JuhuiPictureView};
use crate::roster::{Team, TeamView};
use crate::views::views;
use vstd::prelude::*;

verus! {

/// An optional text by its characters.
pub open spec fn text_view(text: Option<String>) -> Option<Seq<char>> {
    match text {
        Some(words) => Some(words@),
        None => None,
    }
}

/// A copy of an optional text.
pub fn clone_text(text: &Option<String>) -> (copy: Option<String>)
    ensures
        text_view(copy) == text_view(*text),
{
    match text {
        Some(words) => Some(words.clone()),
        None => None,
    }
}

/// A copy of a list of byte strings.
pub fn clone_payloads(payloads: &Vec<Vec<u8>>) -> (copy: Vec<Vec<u8>>)
    ensures
        views(copy@) == views(payloads@),
{
    payloads.clone()
}

/// A request of a client.
#[derive(Debug, PartialEq)]
pub enum ToServer {
    Login(String),
    Location(DetailedLocation),
    AttachPeriodPictures { event_id: usize, pictures: Vec<Vec<u8>> },
    UploadPlayerPicture(Vec<u8>),
    UploadTeamPicture(Vec<u8>),
    Complete { completed_id: usize, period_id: usize },
    Catch { caught_id: usize, period_id: usize },
    RequestEverything,
    Ping(Option<String>),
    RequestPictures(Vec<u64>),
    RequestThumbnails(Vec<u64>),
    /// The past locations of a team, all of them or those of the last
    /// `of_past_seconds` seconds; a window, where given, is not zero.
    RequestPastLocations { of_past_seconds: Option<u32>, team_id: usize },
}

pub enum ToServerView {
    Login(Seq<char>),
    Location(DetailedLocation),
    AttachPeriodPictures { event_id: usize, pictures: Seq<Seq<u8>> },
    UploadPlayerPicture(Seq<u8>),
    UploadTeamPicture(Seq<u8>),
    Complete { completed_id: usize, period_id: usize },
    Catch { caught_id: usize, period_id: usize },
    RequestEverything,
    Ping(Option<Seq<char>>),
    RequestPictures(Seq<u64>),
    RequestThumbnails(Seq<u64>),
    RequestPastLocations { of_past_seconds: Option<u32>, team_id: usize },
}

impl View for ToServer {
    type V = ToServerView;

    open spec fn view(&self) -> ToServerView {
        match self {
            ToServer::Login(passphrase) => ToServerView::Login(passphrase@),
            ToServer::Location(location) => ToServerView::Location(*location),
            ToServer::AttachPeriodPictures { event_id, pictures } => {
                ToServerView::AttachPeriodPictures {
                    event_id: *event_id,
                    pictures: views(pictures@),
                }
            },
            ToServer::UploadPlayerPicture(picture) => ToServerView::UploadPlayerPicture(picture@),
            ToServer::UploadTeamPicture(picture) => ToServerView::UploadTeamPicture(picture@),
            ToServer::Complete { completed_id, period_id } => ToServerView::Complete {
                completed_id: *completed_id,
                period_id: *period_id,
            },
            ToServer::Catch { caught_id, period_id } => ToServerView::Catch {
                caught_id: *caught_id,
                period_id: *period_id,
            },
            ToServer::RequestEverything => ToServerView::RequestEverything,
            ToServer::Ping(text) => ToServerView::Ping(text_view(*text)),
            ToServer::RequestPictures(ids) => ToServerView::RequestPictures(ids@),
            ToServer::RequestThumbnails(ids) => ToServerView::RequestThumbnails(ids@),
            ToServer::RequestPastLocations { of_past_seconds, team_id } => {
                ToServerView::RequestPastLocations {
                    of_past_seconds: *of_past_seconds,
                    team_id: *team_id,
                }
            },
        }
    }
}

impl Clone for ToServer {
    fn clone(&self) -> (copy: ToServer)
        ensures
            copy@ == self@,
    {
        match self {
            ToServer::Login(passphrase) => ToServer::Login(passphrase.clone()),
            ToServer::Location(location) => ToServer::Location(*location),
            ToServer::AttachPeriodPictures { event_id, pictures } => {
                ToServer::AttachPeriodPictures {
                    event_id: *event_id,
                    pictures: clone_payloads(pictures),
                }
            },
            ToServer::UploadPlayerPicture(picture) => ToServer::UploadPlayerPicture(
                picture.clone(),
            ),
            ToServer::UploadTeamPicture(picture) => ToServer::UploadTeamPicture(picture.clone()),
            ToServer::Complete { completed_id, period_id } => ToServer::Complete {
                completed_id: *completed_id,
                period_id: *period_id,
            },
            ToServer::Catch { caught_id, period_id } => ToServer::Catch {
                caught_id: *caught_id,
                period_id: *period_id,
            },
            ToServer::RequestEverything => ToServer::RequestEverything,
            ToServer::Ping(text) => ToServer::Ping(clone_text(text)),
            ToServer::RequestPictures(ids) => ToServer::RequestPictures(ids.clone()),
            ToServer::RequestThumbnails(ids) => ToServer::RequestThumbnails(ids.clone()),
            ToServer::RequestPastLocations { of_past_seconds, team_id } => {
                ToServer::RequestPastLocations {
                    of_past_seconds: *of_past_seconds,
                    team_id: *team_id,
                }
            },
        }
    }
}

/// How a connection's team stands in its session.
#[derive(Clone, Copy, Debug, PartialEq, Eq)]
pub enum State {
    GameNotRunning,
    Runner,
    Catcher,
}

/// The full state of a session, as one connection sees it.
#[derive(Debug, PartialEq)]
pub struct Everything {
    pub state: State,
    pub teams: Vec<Team>,
    pub events: Vec<Event>,
    /// The connection's player.
    pub you: u64,
    /// The place of the connection's team in `teams`.
    pub your_team: usize,
    pub your_session: u64,
}

pub struct EverythingView {
    pub state: State,
    pub teams: Seq<TeamView>,
    pub events: Seq<EventView>,
    pub you: u64,
    pub your_team: usize,
    pub your_session: u64,
}

impl View for Everything {
    type V = EverythingView;

    open spec fn view(&self) -> EverythingView {
        EverythingView {
            state: self.state,
            teams: views(self.teams@),
            events: views(self.events@),
            you: self.you,
            your_team: self.your_team,
            your_session: self.your_session,
        }
    }
}

impl Clone for Everything {
    fn clone(&self) -> (copy: Everything)
        ensures
            copy@ == self@,
    {
        let teams = self.teams.clone();
        let events = self.events.clone();
        assert(views(teams@) =~= views(self.teams@));
        assert(views(events@) =~= views(self.events@));
        Everything {
            state: self.state,
            teams,
            events,
            you: self.you,
            your_team: self.your_team,
            your_session: self.your_session,
        }
    }
}

/// A notification to a client.
#[derive(Debug, PartialEq)]
pub enum ToApp {
    Everything(Everything),
    LoginSuccessful(bool),
    Ping(Option<String>),
    BecomeCatcher(Everything),
    BecomeRunner(Everything),
    ChallengeCompleted(Event, Everything),
    BecomeNoGameRunning(Everything),
    BecomeShutDown,
    Location { team: usize, location: DetailedLocation },
    AddedPeriod(usize),
    Pictures(Vec<JuhuiPicture>),
    Error(ClientError),
    SendPastLocations { team: usize, locations: Vec<MinimalLocation> },
    GameStarted(Everything),
    EventOccurred(Event, Everything),
    YouLeftGracePeriod(Everything),
}

pub enum ToAppView {
    Everything(EverythingView),
    LoginSuccessful(bool),
    Ping(Option<Seq<char>>),
    BecomeCatcher(EverythingView),
    BecomeRunner(EverythingView),
    ChallengeCompleted(EventView, EverythingView),
    BecomeNoGameRunning(EverythingView),
    BecomeShutDown,
    Location { team: usize, location: DetailedLocation },
    AddedPeriod(usize),
    Pictures(Seq<JuhuiPictureView>),
    Error(ClientErrorView),
    SendPastLocations { team: usize, locations: Seq<MinimalLocation> },
    GameStarted(EverythingView),
    EventOccurred(EventView, EverythingView),
    YouLeftGracePeriod(EverythingView),
}

impl View for ToApp {
    type V = ToAppView;

    open spec fn view(&self) -> ToAppView {
        match self {
            ToApp::Everything(everything) => ToAppView::Everything(everything@),
            ToApp::LoginSuccessful(accepted) => ToAppView::LoginSuccessful(*accepted),
            ToApp::Ping(text) => ToAppView::Ping(text_view(*text)),
            ToApp::BecomeCatcher(everything) => ToAppView::BecomeCatcher(everything@),
            ToApp::BecomeRunner(everything) => ToAppView::BecomeRunner(everything@),
            ToApp::ChallengeCompleted(event, everything) => ToAppView::ChallengeCompleted(
                event@,
                everything@,
            ),
            ToApp::BecomeNoGameRunning(everything) => ToAppView::BecomeNoGameRunning(
                everything@,
            ),
            ToApp::BecomeShutDown => ToAppView::BecomeShutDown,
            ToApp::Location { team, location } => ToAppView::Location {
                team: *team,
                location: *location,
            },
            ToApp::AddedPeriod(id) => ToAppView::AddedPeriod(*id),
            ToApp::Pictures(pictures) => ToAppView::Pictures(views(pictures@)),
            ToApp::Error(error) => ToAppView::Error(error@),
            ToApp::SendPastLocations { team, locations } => ToAppView::SendPastLocations {
                team: *team,
                locations: locations@,
            },
            ToApp::GameStarted(everything) => ToAppView::GameStarted(everything@),
            ToApp::EventOccurred(event, everything) => ToAppView::EventOccurred(
                event@,
                everything@,
            ),
            ToApp::YouLeftGracePeriod(everything) => ToAppView::YouLeftGracePeriod(everything@),
        }
    }
}

impl Clone for ToApp {
    fn clone(&self) -> (copy: ToApp)
        ensures
            copy@ == self@,
    {
        match self {
            ToApp::Everything(everything) => ToApp::Everything(everything.clone()),
            ToApp::LoginSuccessful(accepted) => ToApp::LoginSuccessful(*accepted),
            ToApp::Ping(text) => ToApp::Ping(clone_text(text)),
            ToApp::BecomeCatcher(everything) => ToApp::BecomeCatcher(everything.clone()),
            ToApp::BecomeRunner(everything) => ToApp::BecomeRunner(everything.clone()),
            ToApp::ChallengeCompleted(event, everything) => ToApp::ChallengeCompleted(
                event.clone(),
                everything.clone(),
            ),
            ToApp::BecomeNoGameRunning(everything) => ToApp::BecomeNoGameRunning(
                everything.clone(),
            ),
            ToApp::BecomeShutDown => ToApp::BecomeShutDown,
            ToApp::Location { team, location } => ToApp::Location {
                team: *team,
                location: *location,
            },
            ToApp::AddedPeriod(id) => ToApp::AddedPeriod(*id),
            ToApp::Pictures(pictures) => {
                let copy = pictures.clone();
                assert(views(copy@) =~= views(pictures@));
                ToApp::Pictures(copy)
            },
            ToApp::Error(error) => ToApp::Error(error.clone()),
            ToApp::SendPastLocations { team, locations } => ToApp::SendPastLocations {
                team: *team,
                locations: locations.clone(),
            },
            ToApp::GameStarted(everything) => ToApp::GameStarted(everything.clone()),
            ToApp::EventOccurred(event, everything) => ToApp::EventOccurred(
                event.clone(),
                everything.clone(),
            ),
            ToApp::YouLeftGracePeriod(everything) => ToApp::YouLeftGracePeriod(
                everything.clone(),
            ),
        }
    }
}

/// A request together with the number under which its sender files it.
#[derive(Debug, PartialEq)]
pub struct ToServerPackage {
    pub contents: ToServer,
    pub id: Option<u64>,
}

pub struct ToServerPackageView {
    pub contents: ToServerView,
    pub id: Option<u64>,
}

impl View for ToServerPackage {
    type V = ToServerPackageView;

    open spec fn view(&self) -> ToServerPackageView {
        ToServerPackageView { contents: self.contents@, id: self.id }
    }
}

impl Clone for ToServerPackage {
    fn clone(&self) -> (copy: ToServerPackage)
        ensures
            copy@ == self@,
    {
        ToServerPackage { contents: self.contents.clone(), id: self.id }
    }
}

/// A notification together with the number of the request that it answers,
/// if it answers one.
#[derive(Debug, PartialEq)]
pub struct ToAppPackage {
    pub contents: ToApp,
    pub id: Option<u64>,
}

pub struct ToAppPackageView {
    pub contents: ToAppView,
    pub id: Option<u64>,
}

impl View for ToAppPackage {
    type V = ToAppPackageView;

    open spec fn view(&self) -> ToAppPackageView {
        ToAppPackageView { contents: self.contents@, id: self.id }
    }
}

impl Clone for ToAppPackage {
    fn clone(&self) -> (copy: ToAppPackage)
        ensures
            copy@ == self@,
    {
        ToAppPackage { contents: self.contents.clone(), id: self.id }
    }
}

} // verus!
