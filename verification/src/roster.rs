//! Teams and what belongs to them, as the client is told of them.

use crate::location::DetailedLocation;
use crate::views::views;
use chrono::NaiveTime;
use vstd::prelude::*;

verus! {

/// A member of a team.
#[derive(Debug, PartialEq)]
pub struct Player {
    pub name: String,
    pub id: u64,
    pub picture_id: Option<u64>,
}

pub struct PlayerView {
    pub name: Seq<char>,
    pub id: u64,
    pub picture_id: Option<u64>,
}

impl View for Player {
    type V = PlayerView;

    open spec fn view(&self) -> PlayerView {
        PlayerView { name: self.name@, id: self.id, picture_id: self.picture_id }
    }
}

impl Clone for Player {
    fn clone(&self) -> (copy: Player)
        ensures
            copy@ == self@,
    {
        Player { name: self.name.clone(), id: self.id, picture_id: self.picture_id }
    }
}

/// A challenge that a team may complete for points.
#[derive(Debug, PartialEq)]
pub struct Challenge {
    pub title: String,
    pub description: String,
    pub points: u64,
}

pub struct ChallengeView {
    pub title: Seq<char>,
    pub description: Seq<char>,
    pub points: u64,
}

impl View for Challenge {
    type V = ChallengeView;

    open spec fn view(&self) -> ChallengeView {
        ChallengeView {
            title: self.title@,
            description: self.description@,
            points: self.points,
        }
    }
}

impl Clone for Challenge {
    fn clone(&self) -> (copy: Challenge)
        ensures
            copy@ == self@,
    {
        Challenge {
            title: self.title.clone(),
            description: self.description.clone(),
            points: self.points,
        }
    }
}

/// A challenge that a team has completed, with its proof and its time of day.
#[derive(Debug, PartialEq)]
pub struct CompletedChallenge {
    pub picture_ids: Vec<u64>,
    pub title: String,
    pub description: String,
    pub points: u64,
    pub time: NaiveTime,
}

pub struct CompletedChallengeView {
    pub picture_ids: Seq<u64>,
    pub title: Seq<char>,
    pub description: Seq<char>,
    pub points: u64,
    pub time: NaiveTime,
}

impl View for CompletedChallenge {
    type V = CompletedChallengeView;

    open spec fn view(&self) -> CompletedChallengeView {
        CompletedChallengeView {
            picture_ids: self.picture_ids@,
            title: self.title@,
            description: self.description@,
            points: self.points,
            time: self.time,
        }
    }
}

impl Clone for CompletedChallenge {
    fn clone(&self) -> (copy: CompletedChallenge)
        ensures
            copy@ == self@,
    {
        CompletedChallenge {
            picture_ids: self.picture_ids.clone(),
            title: self.title.clone(),
            description: self.description.clone(),
            points: self.points,
            time: self.time,
        }
    }
}

/// A team with its members, its open and completed challenges and its standing.
#[derive(Debug, PartialEq)]
pub struct Team {
    pub is_catcher: bool,
    pub name: String,
    pub picture_id: Option<u64>,
    pub id: usize,
    pub bounty: u64,
    pub points: u64,
    pub players: Vec<Player>,
    pub challenges: Vec<Challenge>,
    pub completed_challenges: Vec<CompletedChallenge>,
    pub colour: (u8, u8, u8),
    pub location: Option<DetailedLocation>,
    pub in_grace_period: bool,
    pub period_id: usize,
}

pub struct TeamView {
    pub is_catcher: bool,
    pub name: Seq<char>,
    pub picture_id: Option<u64>,
    pub id: usize,
    pub bounty: u64,
    pub points: u64,
    pub players: Seq<PlayerView>,
    pub challenges: Seq<ChallengeView>,
    pub completed_challenges: Seq<CompletedChallengeView>,
    pub colour: (u8, u8, u8),
    pub location: Option<DetailedLocation>,
    pub in_grace_period: bool,
    pub period_id: usize,
}

impl View for Team {
    type V = TeamView;

    open spec fn view(&self) -> TeamView {
        TeamView {
            is_catcher: self.is_catcher,
            name: self.name@,
            picture_id: self.picture_id,
            id: self.id,
            bounty: self.bounty,
            points: self.points,
            players: views(self.players@),
            challenges: views(self.challenges@),
            completed_challenges: views(self.completed_challenges@),
            colour: self.colour,
            location: self.location,
            in_grace_period: self.in_grace_period,
            period_id: self.period_id,
        }
    }
}

impl Clone for Team {
    fn clone(&self) -> (copy: Team)
        ensures
            copy@ == self@,
    {
        let players = self.players.clone();
        let challenges = self.challenges.clone();
        let completed_challenges = self.completed_challenges.clone();
        assert(views(players@) =~= views(self.players@));
        assert(views(challenges@) =~= views(self.challenges@));
        assert(views(completed_challenges@) =~= views(self.completed_challenges@));
        Team {
            is_catcher: self.is_catcher,
            name: self.name.clone(),
            picture_id: self.picture_id,
            id: self.id,
            bounty: self.bounty,
            points: self.points,
            players,
            challenges,
            completed_challenges,
            colour: self.colour,
            location: self.location,
            in_grace_period: self.in_grace_period,
            period_id: self.period_id,
        }
    }
}

} // verus!
