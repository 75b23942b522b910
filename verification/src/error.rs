//! The errors that a client is told about.

use crate::text::{decimal, decimal_string};
use vstd::prelude::*;
use vstd::string::StringExecFns;

verus! {

/// Why the engine refused a request, as far as a client is meant to know.
#[derive(Debug, PartialEq)]
pub enum ClientError {
    /// The element looked for was not found.
    NotFound(String),
    /// A team with a similar name exists already.
    TeamExists(String),
    /// What exists already cannot be created.
    AlreadyExists,
    /// The request cannot be served while a game is in progress.
    GameInProgress,
    /// The request can only be served while a game is in progress.
    GameNotRunning,
    /// Several objects match where one was expected.
    AmbiguousData,
    /// The engine failed internally.
    InternalError,
    /// The feature is not there yet.
    NotImplemented,
    /// The team is runner but has to be catcher.
    TeamIsRunner(usize),
    /// The team is catcher but has to be runner.
    TeamIsCatcher(usize),
    /// The two teams are too far from each other.
    TeamsTooFar,
    BadData(String),
    /// Another error, in its own words.
    TextError(String),
    /// A picture could not be processed.
    PictureProblem,
    /// Requests came too quickly one after another.
    TooRapid,
    /// There are too few challenges to start a game.
    TooFewChallenges,
}

pub enum ClientErrorView {
    NotFound(Seq<char>),
    TeamExists(Seq<char>),
    AlreadyExists,
    GameInProgress,
    GameNotRunning,
    AmbiguousData,
    InternalError,
    NotImplemented,
    TeamIsRunner(usize),
    TeamIsCatcher(usize),
    TeamsTooFar,
    BadData(Seq<char>),
    TextError(Seq<char>),
    PictureProblem,
    TooRapid,
    TooFewChallenges,
}

impl View for ClientError {
    type V = ClientErrorView;

    open spec fn view(&self) -> ClientErrorView {
        match self {
            ClientError::NotFound(what) => ClientErrorView::NotFound(what@),
            ClientError::TeamExists(team) => ClientErrorView::TeamExists(team@),
            ClientError::AlreadyExists => ClientErrorView::AlreadyExists,
            ClientError::GameInProgress => ClientErrorView::GameInProgress,
            ClientError::GameNotRunning => ClientErrorView::GameNotRunning,
            ClientError::AmbiguousData => ClientErrorView::AmbiguousData,
            ClientError::InternalError => ClientErrorView::InternalError,
            ClientError::NotImplemented => ClientErrorView::NotImplemented,
            ClientError::TeamIsRunner(team) => ClientErrorView::TeamIsRunner(*team),
            ClientError::TeamIsCatcher(team) => ClientErrorView::TeamIsCatcher(*team),
            ClientError::TeamsTooFar => ClientErrorView::TeamsTooFar,
            ClientError::BadData(text) => ClientErrorView::BadData(text@),
            ClientError::TextError(text) => ClientErrorView::TextError(text@),
            ClientError::PictureProblem => ClientErrorView::PictureProblem,
            ClientError::TooRapid => ClientErrorView::TooRapid,
            ClientError::TooFewChallenges => ClientErrorView::TooFewChallenges,
        }
    }
}

impl Clone for ClientError {
    fn clone(&self) -> (copy: ClientError)
        ensures
            copy@ == self@,
    {
        match self {
            ClientError::NotFound(what) => ClientError::NotFound(what.clone()),
            ClientError::TeamExists(team) => ClientError::TeamExists(team.clone()),
            ClientError::AlreadyExists => ClientError::AlreadyExists,
            ClientError::GameInProgress => ClientError::GameInProgress,
            ClientError::GameNotRunning => ClientError::GameNotRunning,
            ClientError::AmbiguousData => ClientError::AmbiguousData,
            ClientError::InternalError => ClientError::InternalError,
            ClientError::NotImplemented => ClientError::NotImplemented,
            ClientError::TeamIsRunner(team) => ClientError::TeamIsRunner(*team),
            ClientError::TeamIsCatcher(team) => ClientError::TeamIsCatcher(*team),
            ClientError::TeamsTooFar => ClientError::TeamsTooFar,
            ClientError::BadData(text) => ClientError::BadData(text.clone()),
            ClientError::TextError(text) => ClientError::TextError(text.clone()),
            ClientError::PictureProblem => ClientError::PictureProblem,
            ClientError::TooRapid => ClientError::TooRapid,
            ClientError::TooFewChallenges => ClientError::TooFewChallenges,
        }
    }
}

/// What an error says in words.
pub open spec fn message_of(error: ClientErrorView) -> Seq<char> {
    match error {
        ClientErrorView::NotFound(what) => what + " was not found"@,
        ClientErrorView::TeamExists(team) => "Team "@ + team + " already exists"@,
        ClientErrorView::AlreadyExists => "Already exists"@,
        ClientErrorView::GameInProgress => "There is already a game in progress"@,
        ClientErrorView::GameNotRunning => "There is no game in progress"@,
        ClientErrorView::AmbiguousData => "Ambiguous data"@,
        ClientErrorView::InternalError => "There was a truinlag-internal error"@,
        ClientErrorView::NotImplemented => "Not yet implemented"@,
        ClientErrorView::TeamIsRunner(team) => "team "@ + decimal(team as nat) + " is runner"@,
        ClientErrorView::TeamIsCatcher(team) => "team "@ + decimal(team as nat) + " is catcher"@,
        ClientErrorView::TeamsTooFar => "the teams are too far away from each other"@,
        ClientErrorView::BadData(text) => "bad data: "@ + text,
        ClientErrorView::TextError(text) => text,
        ClientErrorView::PictureProblem => "there was a problem processing an image"@,
        ClientErrorView::TooRapid => "not enough time has passed since the last request"@,
        ClientErrorView::TooFewChallenges => {
            "there are not enough challenges to start a game in the challenge db"@
        },
    }
}

impl ClientError {
    /// The error in words, for a person to read.
    pub fn to_string(&self) -> (message: String)
        ensures
            message@ == message_of(self@),
    {
        match self {
            ClientError::NotFound(what) => what.clone().concat(" was not found"),
            ClientError::TeamExists(team) => {
                let mut message = String::from_str("Team ");
                message.append(team.as_str());
                message.append(" already exists");
                message
            },
            ClientError::AlreadyExists => String::from_str("Already exists"),
            ClientError::GameInProgress => String::from_str("There is already a game in progress"),
            ClientError::GameNotRunning => String::from_str("There is no game in progress"),
            ClientError::AmbiguousData => String::from_str("Ambiguous data"),
            ClientError::InternalError => String::from_str("There was a truinlag-internal error"),
            ClientError::NotImplemented => String::from_str("Not yet implemented"),
            ClientError::TeamIsRunner(team) => {
                let mut message = String::from_str("team ");
                message.append(decimal_string(*team).as_str());
                message.append(" is runner");
                message
            },
            ClientError::TeamIsCatcher(team) => {
                let mut message = String::from_str("team ");
                message.append(decimal_string(*team).as_str());
                message.append(" is catcher");
                message
            },
            ClientError::TeamsTooFar => String::from_str(
                "the teams are too far away from each other",
            ),
            ClientError::BadData(text) => String::from_str("bad data: ").concat(text.as_str()),
            ClientError::TextError(text) => text.clone(),
            ClientError::PictureProblem => String::from_str(
                "there was a problem processing an image",
            ),
            ClientError::TooRapid => String::from_str(
                "not enough time has passed since the last request",
            ),
            ClientError::TooFewChallenges => String::from_str(
                "there are not enough challenges to start a game in the challenge db",
            ),
        }
    }
}

} // verus!
