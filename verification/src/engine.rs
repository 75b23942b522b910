//! The engine's side of the bridge: the records that the engine keeps, as far
//! as the bridge reads them. Its commands, answers and broadcasts are in
//! `commands`.

pub mod commands;

use crate::views::views;
use chrono::NaiveTime;
use vstd::prelude::*;

verus! {

/// A position as the engine takes and reports it. The four measurements are
/// bit patterns, as in `crate::location`.
#[derive(Clone, Copy, Debug, PartialEq, Eq)]
pub struct DetailedLocation {
    pub latitude: u32,
    pub longitude: u32,
    pub accuracy: u16,
    pub heading: u32,
    pub speed: u32,
    pub timestamp: i64,
}

/// A position reduced to where and when, as the engine records it.
#[derive(Clone, Copy, Debug, PartialEq, Eq)]
pub struct MinimalLocation {
    pub latitude: u32,
    pub longitude: u32,
    pub timestamp: i64,
}

/// A player in the engine's records.
#[derive(Debug, PartialEq)]
pub struct Player {
    pub name: String,
    pub id: u64,
    pub picture_id: Option<u64>,
    /// The session in which the player takes part, if any.
    pub session: Option<u64>,
}

pub struct PlayerView {
    pub name: Seq<char>,
    pub id: u64,
    pub picture_id: Option<u64>,
    pub session: Option<u64>,
}

impl View for Player {
    type V = PlayerView;

    open spec fn view(&self) -> PlayerView {
        PlayerView {
            name: self.name@,
            id: self.id,
            picture_id: self.picture_id,
            session: self.session,
        }
    }
}

impl Clone for Player {
    fn clone(&self) -> (copy: Player)
        ensures
            copy@ == self@,
    {
        Player {
            name: self.name.clone(),
            id: self.id,
            picture_id: self.picture_id,
            session: self.session,
        }
    }
}

/// A challenge in the engine's records.
#[derive(Debug, PartialEq)]
pub struct Challenge {
    pub title: String,
    pub description: String,
    pub points: u64,
}

pub struct ChallengeView {
    pub title: Seq<char>,
    pub description: Seq<char>,
    pub points: u64,
}

impl View for Challenge {
    type V = ChallengeView;

    open spec fn view(&self) -> ChallengeView {
        ChallengeView {
            title: self.title@,
            description: self.description@,
            points: self.points,
        }
    }
}

impl Clone for Challenge {
    fn clone(&self) -> (copy: Challenge)
        ensures
            copy@ == self@,
    {
        Challenge {
            title: self.title.clone(),
            description: self.description.clone(),
            points: self.points,
        }
    }
}

/// A completed challenge in the engine's records.
#[derive(Debug, PartialEq)]
pub struct CompletedChallenge {
    pub picture_ids: Vec<u64>,
    pub title: String,
    pub description: String,
    pub points: u64,
    pub time: NaiveTime,
}

pub struct CompletedChallengeView {
    pub picture_ids: Seq<u64>,
    pub title: Seq<char>,
    pub description: Seq<char>,
    pub points: u64,
    pub time: NaiveTime,
}

impl View for CompletedChallenge {
    type V = CompletedChallengeView;

    open spec fn view(&self) -> CompletedChallengeView {
        CompletedChallengeView {
            picture_ids: self.picture_ids@,
            title: self.title@,
            description: self.description@,
            points: self.points,
            time: self.time,
        }
    }
}

impl Clone for CompletedChallenge {
    fn clone(&self) -> (copy: CompletedChallenge)
        ensures
            copy@ == self@,
    {
        CompletedChallenge {
            picture_ids: self.picture_ids.clone(),
            title: self.title.clone(),
            description: self.description.clone(),
            points: self.points,
            time: self.time,
        }
    }
}

/// Whether a team chases or is chased.
#[derive(Clone, Copy, Debug, PartialEq, Eq)]
pub enum TeamRole {
    Runner,
    Catcher,
}

/// A team's colour.
#[derive(Clone, Copy, Debug, PartialEq, Eq)]
pub struct Colour {
    pub r: u8,
    pub g: u8,
    pub b: u8,
}

/// A team in the engine's records.
#[derive(Debug, PartialEq)]
pub struct Team {
    pub colour: Colour,
    pub role: TeamRole,
    pub name: String,
    pub id: usize,
    pub picture_id: Option<u64>,
    pub bounty: u64,
    pub points: u64,
    pub players: Vec<Player>,
    pub challenges: Vec<Challenge>,
    pub completed_challenges: Vec<CompletedChallenge>,
    pub location: Option<DetailedLocation>,
    pub in_grace_period: bool,
    pub period_id: usize,
}

pub struct TeamView {
    pub colour: Colour,
    pub role: TeamRole,
    pub name: Seq<char>,
    pub id: usize,
    pub picture_id: Option<u64>,
    pub bounty: u64,
    pub points: u64,
    pub players: Seq<PlayerView>,
    pub challenges: Seq<ChallengeView>,
    pub completed_challenges: Seq<CompletedChallengeView>,
    pub location: Option<DetailedLocation>,
    pub in_grace_period: bool,
    pub period_id: usize,
}

impl View for Team {
    type V = TeamView;

    open spec fn view(&self) -> TeamView {
        TeamView {
            colour: self.colour,
            role: self.role,
            name: self.name@,
            id: self.id,
            picture_id: self.picture_id,
            bounty: self.bounty,
            points: self.points,
            players: views(self.players@),
            challenges: views(self.challenges@),
            completed_challenges: views(self.completed_challenges@),
            location: self.location,
            in_grace_period: self.in_grace_period,
            period_id: self.period_id,
        }
    }
}

impl Clone for Team {
    fn clone(&self) -> (copy: Team)
        ensures
            copy@ == self@,
    {
        let players = self.players.clone();
        let challenges = self.challenges.clone();
        let completed_challenges = self.completed_challenges.clone();
        assert(views(players@) =~= views(self.players@));
        assert(views(challenges@) =~= views(self.challenges@));
        assert(views(completed_challenges@) =~= views(self.completed_challenges@));
        Team {
            colour: self.colour,
            role: self.role,
            name: self.name.clone(),
            id: self.id,
            picture_id: self.picture_id,
            bounty: self.bounty,
            points: self.points,
            players,
            challenges,
            completed_challenges,
            location: self.location,
            in_grace_period: self.in_grace_period,
            period_id: self.period_id,
        }
    }
}

/// One entry of a game's history in the engine's records.
#[derive(Debug, PartialEq)]
pub enum Event {
    Complete {
        challenge: Challenge,
        completer_id: usize,
        time: NaiveTime,
        picture_ids: Vec<u64>,
        location: MinimalLocation,
    },
    Catch {
        catcher_id: usize,
        caught_id: usize,
        bounty: u64,
        time: NaiveTime,
        picture_ids: Vec<u64>,
        location: MinimalLocation,
    },
}

pub enum EventView {
    Complete {
        challenge: ChallengeView,
        completer_id: usize,
        time: NaiveTime,
        picture_ids: Seq<u64>,
        location: MinimalLocation,
    },
    Catch {
        catcher_id: usize,
        caught_id: usize,
        bounty: u64,
        time: NaiveTime,
        picture_ids: Seq<u64>,
        location: MinimalLocation,
    },
}

impl View for Event {
    type V = EventView;

    open spec fn view(&self) -> EventView {
        match self {
            Event::Complete { challenge, completer_id, time, picture_ids, location } => {
                EventView::Complete {
                    challenge: challenge@,
                    completer_id: *completer_id,
                    time: *time,
                    picture_ids: picture_ids@,
                    location: *location,
                }
            },
            Event::Catch { catcher_id, caught_id, bounty, time, picture_ids, location } => {
                EventView::Catch {
                    catcher_id: *catcher_id,
                    caught_id: *caught_id,
                    bounty: *bounty,
                    time: *time,
                    picture_ids: picture_ids@,
                    location: *location,
                }
            },
        }
    }
}

impl Clone for Event {
    fn clone(&self) -> (copy: Event)
        ensures
            copy@ == self@,
    {
        match self {
            Event::Complete { challenge, completer_id, time, picture_ids, location } => {
                Event::Complete {
                    challenge: challenge.clone(),
                    completer_id: *completer_id,
                    time: *time,
                    picture_ids: picture_ids.clone(),
                    location: *location,
                }
            },
            Event::Catch { catcher_id, caught_id, bounty, time, picture_ids, location } => {
                Event::Catch {
                    catcher_id: *catcher_id,
                    caught_id: *caught_id,
                    bounty: *bounty,
                    time: *time,
                    picture_ids: picture_ids.clone(),
                    location: *location,
                }
            },
        }
    }
}

/// A picture that the engine's decoder has accepted, by its encoded bytes.
#[derive(Debug, PartialEq)]
pub struct RawPicture {
    pub bytes: Vec<u8>,
}

impl View for RawPicture {
    type V = Seq<u8>;

    open spec fn view(&self) -> Seq<u8> {
        self.bytes@
    }
}

impl Clone for RawPicture {
    fn clone(&self) -> (copy: RawPicture)
        ensures
            copy@ == self@,
    {
        RawPicture { bytes: self.bytes.clone() }
    }
}

/// A stored picture, or its thumbnail, as the engine hands it out.
#[derive(Debug, PartialEq)]
pub struct Picture {
    pub data: RawPicture,
    pub is_thumbnail: bool,
    pub id: u64,
}

pub struct PictureView {
    pub data: Seq<u8>,
    pub is_thumbnail: bool,
    pub id: u64,
}

impl View for Picture {
    type V = PictureView;

    open spec fn view(&self) -> PictureView {
        PictureView { data: self.data@, is_thumbnail: self.is_thumbnail, id: self.id }
    }
}

impl Clone for Picture {
    fn clone(&self) -> (copy: Picture)
        ensures
            copy@ == self@,
    {
        Picture { data: self.data.clone(), is_thumbnail: self.is_thumbnail, id: self.id }
    }
}

} // verus!
