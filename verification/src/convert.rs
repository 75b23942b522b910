//! From the engine's records to what the client is told, and for positions
//! the way back as well.
//!
//! Each conversion is an impl of `From`. Positions are plain numbers, and
//! what their conversions give is said by `from_spec`. The other records
//! hold texts and lists; what their conversions give is said over the views
//! of both sides, in the `ensures` of each `from`, and `obeys_from_spec`
//! answers no for them.

use crate::clock::{seconds_from_midnight, seconds_past_midnight};
use crate::engine;
use crate::engine::commands::{Error, ErrorView};
use crate::error::{ClientError, ClientErrorView};
use crate::event::{Event, EventView};
use crate::location::{DetailedLocation, MinimalLocation};
use crate::picture::{JuhuiPicture, JuhuiPictureView};
use crate::roster::{
    Challenge, ChallengeView, CompletedChallenge, CompletedChallengeView, Player, PlayerView,
    Team, TeamView,
};
use crate::views::views;
use vstd::prelude::*;
use vstd::std_specs::convert::{FromSpecImpl, TryFromSpecImpl};

verus! {

/// The client's form of a position that the engine reports.
pub open spec fn detailed_location_of(location: engine::DetailedLocation) -> DetailedLocation {
    DetailedLocation {
        latitude: location.latitude,
        longitude: location.longitude,
        accuracy: location.accuracy,
        heading: location.heading,
        speed: location.speed,
        timestamp: location.timestamp,
    }
}

/// The engine's form of a position that a client reports.
pub open spec fn engine_detailed_location_of(location: DetailedLocation)
    -> engine::DetailedLocation {
    engine::DetailedLocation {
        latitude: location.latitude,
        longitude: location.longitude,
        accuracy: location.accuracy,
        heading: location.heading,
        speed: location.speed,
        timestamp: location.timestamp,
    }
}

/// The client's form of a reduced position of the engine.
pub open spec fn minimal_location_of(location: engine::MinimalLocation) -> MinimalLocation {
    MinimalLocation {
        latitude: location.latitude,
        longitude: location.longitude,
        timestamp: location.timestamp,
    }
}

/// The engine's form of a reduced position of a client.
pub open spec fn engine_minimal_location_of(location: MinimalLocation)
    -> engine::MinimalLocation {
    engine::MinimalLocation {
        latitude: location.latitude,
        longitude: location.longitude,
        timestamp: location.timestamp,
    }
}

/// An optional position, converted where there is one.
pub open spec fn optional_location_of(location: Option<engine::DetailedLocation>) -> Option<
    DetailedLocation,
> {
    match location {
        Some(place) => Some(detailed_location_of(place)),
        None => None,
    }
}

/// Each reduced position of `locations`, converted, in the same order.
pub open spec fn minimal_locations_of(locations: Seq<engine::MinimalLocation>) -> Seq<
    MinimalLocation,
> {
    Seq::new(locations.len(), |i: int| minimal_location_of(locations[i]))
}

/// What the client is told of a player: everything but the session.
pub open spec fn player_of(player: engine::PlayerView) -> PlayerView {
    PlayerView { name: player.name, id: player.id, picture_id: player.picture_id }
}

pub open spec fn players_of(players: Seq<engine::PlayerView>) -> Seq<PlayerView> {
    Seq::new(players.len(), |i: int| player_of(players[i]))
}

pub open spec fn challenge_of(challenge: engine::ChallengeView) -> ChallengeView {
    ChallengeView {
        title: challenge.title,
        description: challenge.description,
        points: challenge.points,
    }
}

pub open spec fn challenges_of(challenges: Seq<engine::ChallengeView>) -> Seq<ChallengeView> {
    Seq::new(challenges.len(), |i: int| challenge_of(challenges[i]))
}

pub open spec fn completed_challenge_of(
    challenge: engine::CompletedChallengeView,
) -> CompletedChallengeView {
    CompletedChallengeView {
        picture_ids: challenge.picture_ids,
        title: challenge.title,
        description: challenge.description,
        points: challenge.points,
        time: challenge.time,
    }
}

pub open spec fn completed_challenges_of(
    challenges: Seq<engine::CompletedChallengeView>,
) -> Seq<CompletedChallengeView> {
    Seq::new(challenges.len(), |i: int| completed_challenge_of(challenges[i]))
}

/// What the client is told of a team. The role becomes the flag
/// `is_catcher`, the colour a triple of red, green and blue.
pub open spec fn team_of(team: engine::TeamView) -> TeamView {
    TeamView {
        is_catcher: team.role == engine::TeamRole::Catcher,
        name: team.name,
        picture_id: team.picture_id,
        id: team.id,
        bounty: team.bounty,
        points: team.points,
        players: players_of(team.players),
        challenges: challenges_of(team.challenges),
        completed_challenges: completed_challenges_of(team.completed_challenges),
        colour: (team.colour.r, team.colour.g, team.colour.b),
        location: optional_location_of(team.location),
        in_grace_period: team.in_grace_period,
        period_id: team.period_id,
    }
}

pub open spec fn teams_of(teams: Seq<engine::TeamView>) -> Seq<TeamView> {
    Seq::new(teams.len(), |i: int| team_of(teams[i]))
}

/// What the client is told of an entry of the history. Of its time of day
/// the client gets the seconds since midnight.
pub open spec fn event_of(event: engine::EventView) -> EventView {
    match event {
        engine::EventView::Complete { challenge, completer_id, time, picture_ids, location } => {
            EventView::Complete {
                challenge: challenge_of(challenge),
                completer_id,
                time: seconds_past_midnight(time),
                picture_ids,
                location: minimal_location_of(location),
            }
        },
        engine::EventView::Catch {
            catcher_id,
            caught_id,
            bounty,
            time,
            picture_ids,
            location,
        } => EventView::CatchTeam {
            catcher_id,
            caught_id,
            bounty,
            time: seconds_past_midnight(time),
            picture_ids,
            location: minimal_location_of(location),
        },
    }
}

pub open spec fn events_of(events: Seq<engine::EventView>) -> Seq<EventView> {
    Seq::new(events.len(), |i: int| event_of(events[i]))
}

pub open spec fn picture_of(picture: engine::PictureView) -> JuhuiPictureView {
    JuhuiPictureView { data: picture.data, is_thumbnail: picture.is_thumbnail, id: picture.id }
}

pub open spec fn pictures_of(pictures: Seq<engine::PictureView>) -> Seq<JuhuiPictureView> {
    Seq::new(pictures.len(), |i: int| picture_of(pictures[i]))
}

impl FromSpecImpl<engine::DetailedLocation> for DetailedLocation {
    open spec fn obeys_from_spec() -> bool {
        true
    }

    open spec fn from_spec(value: engine::DetailedLocation) -> DetailedLocation {
        detailed_location_of(value)
    }
}

impl From<engine::DetailedLocation> for DetailedLocation {
    fn from(value: engine::DetailedLocation) -> (location: DetailedLocation)
        ensures
            location == detailed_location_of(value),
    {
        DetailedLocation {
            latitude: value.latitude,
            longitude: value.longitude,
            accuracy: value.accuracy,
            heading: value.heading,
            speed: value.speed,
            timestamp: value.timestamp,
        }
    }
}

impl FromSpecImpl<DetailedLocation> for engine::DetailedLocation {
    open spec fn obeys_from_spec() -> bool {
        true
    }

    open spec fn from_spec(value: DetailedLocation) -> engine::DetailedLocation {
        engine_detailed_location_of(value)
    }
}

impl From<DetailedLocation> for engine::DetailedLocation {
    fn from(value: DetailedLocation) -> (location: engine::DetailedLocation)
        ensures
            location == engine_detailed_location_of(value),
    {
        engine::DetailedLocation {
            latitude: value.latitude,
            longitude: value.longitude,
            accuracy: value.accuracy,
            heading: value.heading,
            speed: value.speed,
            timestamp: value.timestamp,
        }
    }
}

impl FromSpecImpl<engine::MinimalLocation> for MinimalLocation {
    open spec fn obeys_from_spec() -> bool {
        true
    }

    open spec fn from_spec(value: engine::MinimalLocation) -> MinimalLocation {
        minimal_location_of(value)
    }
}

impl From<engine::MinimalLocation> for MinimalLocation {
    fn from(value: engine::MinimalLocation) -> (location: MinimalLocation)
        ensures
            location == minimal_location_of(value),
    {
        MinimalLocation {
            latitude: value.latitude,
            longitude: value.longitude,
            timestamp: value.timestamp,
        }
    }
}

impl FromSpecImpl<MinimalLocation> for engine::MinimalLocation {
    open spec fn obeys_from_spec() -> bool {
        true
    }

    open spec fn from_spec(value: MinimalLocation) -> engine::MinimalLocation {
        engine_minimal_location_of(value)
    }
}

impl From<MinimalLocation> for engine::MinimalLocation {
    fn from(value: MinimalLocation) -> (location: engine::MinimalLocation)
        ensures
            location == engine_minimal_location_of(value),
    {
        engine::MinimalLocation {
            latitude: value.latitude,
            longitude: value.longitude,
            timestamp: value.timestamp,
        }
    }
}

impl FromSpecImpl<engine::Player> for Player {
    open spec fn obeys_from_spec() -> bool {
        false
    }

    open spec fn from_spec(value: engine::Player) -> Player {
        arbitrary()
    }
}

impl From<engine::Player> for Player {
    fn from(value: engine::Player) -> (player: Player)
        ensures
            player@ == player_of(value@),
    {
        Player { name: value.name, id: value.id, picture_id: value.picture_id }
    }
}

/// Converts each player of `players`, in order.
pub fn players_from(players: Vec<engine::Player>) -> (converted: Vec<Player>)
    ensures
        views(converted@) == players_of(views(players@)),
{
    let ghost all = players@;
    let mut converted: Vec<Player> = Vec::new();
    for player in iter: players
        invariant
            iter.seq() == all,
            converted@.len() == iter.index(),
            forall|j: int| 0 <= j < iter.index() ==> (#[trigger] converted@[j])@ == player_of(all[j]@),
    {
        converted.push(Player::from(player));
    }
    converted
}

impl FromSpecImpl<engine::Challenge> for Challenge {
    open spec fn obeys_from_spec() -> bool {
        false
    }

    open spec fn from_spec(value: engine::Challenge) -> Challenge {
        arbitrary()
    }
}

impl From<engine::Challenge> for Challenge {
    fn from(challenge: engine::Challenge) -> (converted: Challenge)
        ensures
            converted@ == challenge_of(challenge@),
    {
        Challenge {
            title: challenge.title,
            description: challenge.description,
            points: challenge.points,
        }
    }
}

/// Converts each challenge of `challenges`, in order.
pub fn challenges_from(challenges: Vec<engine::Challenge>) -> (converted: Vec<Challenge>)
    ensures
        views(converted@) == challenges_of(views(challenges@)),
{
    let ghost all = challenges@;
    let mut converted: Vec<Challenge> = Vec::new();
    for challenge in iter: challenges
        invariant
            iter.seq() == all,
            converted@.len() == iter.index(),
            forall|j: int|
                0 <= j < iter.index() ==> (#[trigger] converted@[j])@ == challenge_of(all[j]@),
    {
        converted.push(Challenge::from(challenge));
    }
    converted
}

impl FromSpecImpl<engine::CompletedChallenge> for CompletedChallenge {
    open spec fn obeys_from_spec() -> bool {
        false
    }

    open spec fn from_spec(value: engine::CompletedChallenge) -> CompletedChallenge {
        arbitrary()
    }
}

impl From<engine::CompletedChallenge> for CompletedChallenge {
    fn from(value: engine::CompletedChallenge) -> (converted: CompletedChallenge)
        ensures
            converted@ == completed_challenge_of(value@),
    {
        CompletedChallenge {
            picture_ids: value.picture_ids,
            title: value.title,
            description: value.description,
            points: value.points,
            time: value.time,
        }
    }
}

/// Converts each completed challenge of `challenges`, in order.
pub fn completed_challenges_from(challenges: Vec<engine::CompletedChallenge>) -> (converted: Vec<
    CompletedChallenge,
>)
    ensures
        views(converted@) == completed_challenges_of(views(challenges@)),
{
    let ghost all = challenges@;
    let mut converted: Vec<CompletedChallenge> = Vec::new();
    for challenge in iter: challenges
        invariant
            iter.seq() == all,
            converted@.len() == iter.index(),
            forall|j: int|
                0 <= j < iter.index() ==> (#[trigger] converted@[j])@ == completed_challenge_of(
                    all[j]@,
                ),
    {
        converted.push(CompletedChallenge::from(challenge));
    }
    converted
}

impl FromSpecImpl<engine::Team> for Team {
    open spec fn obeys_from_spec() -> bool {
        false
    }

    open spec fn from_spec(value: engine::Team) -> Team {
        arbitrary()
    }
}

impl From<engine::Team> for Team {
    fn from(value: engine::Team) -> (team: Team)
        ensures
            team@ == team_of(value@),
    {
        let is_catcher = match value.role {
            engine::TeamRole::Catcher => true,
            engine::TeamRole::Runner => false,
        };
        let location = match value.location {
            Some(place) => Some(DetailedLocation::from(place)),
            None => None,
        };
        Team {
            colour: (value.colour.r, value.colour.g, value.colour.b),
            is_catcher,
            name: value.name,
            id: value.id,
            picture_id: value.picture_id,
            bounty: value.bounty,
            points: value.points,
            players: players_from(value.players),
            challenges: challenges_from(value.challenges),
            completed_challenges: completed_challenges_from(value.completed_challenges),
            location,
            in_grace_period: value.in_grace_period,
            period_id: value.period_id,
        }
    }
}

/// Converts each team of `teams`, in order.
pub fn teams_from(teams: Vec<engine::Team>) -> (converted: Vec<Team>)
    ensures
        views(converted@) == teams_of(views(teams@)),
{
    let ghost all = teams@;
    let mut converted: Vec<Team> = Vec::new();
    for team in iter: teams
        invariant
            iter.seq() == all,
            converted@.len() == iter.index(),
            forall|j: int| 0 <= j < iter.index() ==> (#[trigger] converted@[j])@ == team_of(all[j]@),
    {
        converted.push(Team::from(team));
    }
    converted
}

impl FromSpecImpl<engine::Event> for Event {
    open spec fn obeys_from_spec() -> bool {
        false
    }

    open spec fn from_spec(value: engine::Event) -> Event {
        arbitrary()
    }
}

impl From<engine::Event> for Event {
    fn from(value: engine::Event) -> (event: Event)
        ensures
            event@ == event_of(value@),
    {
        match value {
            engine::Event::Complete { challenge, completer_id, time, picture_ids, location } => {
                Event::Complete {
                    challenge: Challenge::from(challenge),
                    completer_id,
                    time: seconds_from_midnight(&time),
                    picture_ids,
                    location: MinimalLocation::from(location),
                }
            },
            engine::Event::Catch {
                catcher_id,
                caught_id,
                bounty,
                time,
                picture_ids,
                location,
            } => Event::CatchTeam {
                catcher_id,
                caught_id,
                bounty,
                time: seconds_from_midnight(&time),
                picture_ids,
                location: MinimalLocation::from(location),
            },
        }
    }
}

/// Converts each entry of `events`, in order.
pub fn events_from(events: Vec<engine::Event>) -> (converted: Vec<Event>)
    ensures
        views(converted@) == events_of(views(events@)),
{
    let ghost all = events@;
    let mut converted: Vec<Event> = Vec::new();
    for event in iter: events
        invariant
            iter.seq() == all,
            converted@.len() == iter.index(),
            forall|j: int| 0 <= j < iter.index() ==> (#[trigger] converted@[j])@ == event_of(all[j]@),
    {
        converted.push(Event::from(event));
    }
    converted
}

impl FromSpecImpl<engine::Picture> for JuhuiPicture {
    open spec fn obeys_from_spec() -> bool {
        false
    }

    open spec fn from_spec(value: engine::Picture) -> JuhuiPicture {
        arbitrary()
    }
}

impl From<engine::Picture> for JuhuiPicture {
    fn from(value: engine::Picture) -> (picture: JuhuiPicture)
        ensures
            picture@ == picture_of(value@),
    {
        JuhuiPicture { data: value.data.bytes, is_thumbnail: value.is_thumbnail, id: value.id }
    }
}

/// Converts each picture of `pictures`, in order.
pub fn pictures_from(pictures: Vec<engine::Picture>) -> (converted: Vec<JuhuiPicture>)
    ensures
        views(converted@) == pictures_of(views(pictures@)),
{
    let ghost all = pictures@;
    let mut converted: Vec<JuhuiPicture> = Vec::new();
    for picture in iter: pictures
        invariant
            iter.seq() == all,
            converted@.len() == iter.index(),
            forall|j: int|
                0 <= j < iter.index() ==> (#[trigger] converted@[j])@ == picture_of(all[j]@),
    {
        converted.push(JuhuiPicture::from(picture));
    }
    converted
}

/// Converts each reduced position of `locations`, in order.
pub fn minimal_locations_from(locations: Vec<engine::MinimalLocation>) -> (converted: Vec<
    MinimalLocation,
>)
    ensures
        converted@ == minimal_locations_of(locations@),
{
    let ghost all = locations@;
    let mut converted: Vec<MinimalLocation> = Vec::new();
    for location in iter: locations
        invariant
            iter.seq() == all,
            converted@.len() == iter.index(),
            forall|j: int|
                0 <= j < iter.index() ==> #[trigger] converted@[j] == minimal_location_of(all[j]),
    {
        converted.push(MinimalLocation::from(location));
    }
    converted
}

/// What a client is told of an error of the engine. The two errors that
/// only a misuse of the engine's protocol brings about are kept from it.
pub open spec fn client_error_of(error: ErrorView) -> Option<ClientErrorView> {
    match error {
        ErrorView::NoSessionSupplied => None,
        ErrorView::SessionSupplied => None,
        ErrorView::NotFound(what) => Some(ClientErrorView::NotFound(what)),
        ErrorView::TeamExists(team) => Some(ClientErrorView::TeamExists(team)),
        ErrorView::AlreadyExists => Some(ClientErrorView::AlreadyExists),
        ErrorView::GameInProgress => Some(ClientErrorView::GameInProgress),
        ErrorView::GameNotRunning => Some(ClientErrorView::GameNotRunning),
        ErrorView::AmbiguousData => Some(ClientErrorView::AmbiguousData),
        ErrorView::InternalError => Some(ClientErrorView::InternalError),
        ErrorView::NotImplemented => Some(ClientErrorView::NotImplemented),
        ErrorView::TeamIsRunner(team) => Some(ClientErrorView::TeamIsRunner(team)),
        ErrorView::TeamIsCatcher(team) => Some(ClientErrorView::TeamIsCatcher(team)),
        ErrorView::TeamsTooFar => Some(ClientErrorView::TeamsTooFar),
        ErrorView::BadData(text) => Some(ClientErrorView::BadData(text)),
        ErrorView::TextError(text) => Some(ClientErrorView::TextError(text)),
        ErrorView::PictureProblem => Some(ClientErrorView::PictureProblem),
        ErrorView::TooRapid => Some(ClientErrorView::TooRapid),
        ErrorView::TooFewChallenges => Some(ClientErrorView::TooFewChallenges),
    }
}

impl TryFromSpecImpl<Error> for ClientError {
    open spec fn obeys_try_from_spec() -> bool {
        false
    }

    open spec fn try_from_spec(value: Error) -> Result<ClientError, ()> {
        arbitrary()
    }
}

impl TryFrom<Error> for ClientError {
    type Error = ();

    fn try_from(value: Error) -> (converted: Result<ClientError, ()>)
        ensures
            match converted {
                Ok(error) => client_error_of(value@) == Some(error@),
                Err(_) => client_error_of(value@).is_none(),
            },
    {
        match value {
            Error::NoSessionSupplied => Err(()),
            Error::SessionSupplied => Err(()),
            Error::NotFound(what) => Ok(ClientError::NotFound(what)),
            Error::TeamExists(team) => Ok(ClientError::TeamExists(team)),
            Error::AlreadyExists => Ok(ClientError::AlreadyExists),
            Error::GameInProgress => Ok(ClientError::GameInProgress),
            Error::GameNotRunning => Ok(ClientError::GameNotRunning),
            Error::AmbiguousData => Ok(ClientError::AmbiguousData),
            Error::InternalError => Ok(ClientError::InternalError),
            Error::NotImplemented => Ok(ClientError::NotImplemented),
            Error::TeamIsRunner(team) => Ok(ClientError::TeamIsRunner(team)),
            Error::TeamIsCatcher(team) => Ok(ClientError::TeamIsCatcher(team)),
            Error::TeamsTooFar => Ok(ClientError::TeamsTooFar),
            Error::BadData(text) => Ok(ClientError::BadData(text)),
            Error::TextError(text) => Ok(ClientError::TextError(text)),
            Error::PictureProblem => Ok(ClientError::PictureProblem),
            Error::TooRapid => Ok(ClientError::TooRapid),
            Error::TooFewChallenges => Ok(ClientError::TooFewChallenges),
        }
    }
}

/// A position that goes to the engine and comes back is the position that
/// went, and so the other way round: nothing of it is lost or changed.
pub proof fn lemma_positions_come_back(
    sent: DetailedLocation,
    reported: engine::DetailedLocation,
    reduced_sent: MinimalLocation,
    reduced_reported: engine::MinimalLocation,
)
    ensures
        detailed_location_of(engine_detailed_location_of(sent)) == sent,
        engine_detailed_location_of(detailed_location_of(reported)) == reported,
        minimal_location_of(engine_minimal_location_of(reduced_sent)) == reduced_sent,
        engine_minimal_location_of(minimal_location_of(reduced_reported)) == reduced_reported,
{
}

} // verus!
