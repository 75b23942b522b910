//! What happened in a game, as the client is told of it.

use crate::location::MinimalLocation;
use crate::roster::{Challenge, ChallengeView};
use vstd::prelude::*;

verus! {

/// One entry of a game's history.
#[derive(Debug, PartialEq)]
pub enum Event {
    CatchTeam {
        catcher_id: usize,
        caught_id: usize,
        bounty: u64,
        /// Seconds since midnight.
        time: u32,
        picture_ids: Vec<u64>,
        location: MinimalLocation,
    },
    Complete {
        challenge: Challenge,
        completer_id: usize,
        /// Seconds since midnight.
        time: u32,
        picture_ids: Vec<u64>,
        location: MinimalLocation,
    },
}

pub enum EventView {
    CatchTeam {
        catcher_id: usize,
        caught_id: usize,
        bounty: u64,
        time: u32,
        picture_ids: Seq<u64>,
        location: MinimalLocation,
    },
    Complete {
        challenge: ChallengeView,
        completer_id: usize,
        time: u32,
        picture_ids: Seq<u64>,
        location: MinimalLocation,
    },
}

impl View for Event {
    type V = EventView;

    open spec fn view(&self) -> EventView {
        match self {
            Event::CatchTeam { catcher_id, caught_id, bounty, time, picture_ids, location } => {
                EventView::CatchTeam {
                    catcher_id: *catcher_id,
                    caught_id: *caught_id,
                    bounty: *bounty,
                    time: *time,
                    picture_ids: picture_ids@,
                    location: *location,
                }
            },
            Event::Complete { challenge, completer_id, time, picture_ids, location } => {
                EventView::Complete {
                    challenge: challenge@,
                    completer_id: *completer_id,
                    time: *time,
                    picture_ids: picture_ids@,
                    location: *location,
                }
            },
        }
    }
}

impl Clone for Event {
    fn clone(&self) -> (copy: Event)
        ensures
            copy@ == self@,
    {
        match self {
            Event::CatchTeam { catcher_id, caught_id, bounty, time, picture_ids, location } => {
                Event::CatchTeam {
                    catcher_id: *catcher_id,
                    caught_id: *caught_id,
                    bounty: *bounty,
                    time: *time,
                    picture_ids: picture_ids.clone(),
                    location: *location,
                }
            },
            Event::Complete { challenge, completer_id, time, picture_ids, location } => {
                Event::Complete {
                    challenge: challenge.clone(),
                    completer_id: *completer_id,
                    time: *time,
                    picture_ids: picture_ids.clone(),
                    location: *location,
                }
            },
        }
    }
}

} // verus!
