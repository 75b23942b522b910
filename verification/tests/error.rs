use trainlappcomms::engine::commands::Error;
use trainlappcomms::ClientError;

#[test]
fn messages_with_a_name_in_them() {
    assert_eq!(
        ClientError::NotFound("player 7".to_string()).to_string(),
        "player 7 was not found"
    );
    assert_eq!(
        ClientError::TeamExists("Owls".to_string()).to_string(),
        "Team Owls already exists"
    );
    assert_eq!(ClientError::BadData("no colour".to_string()).to_string(), "bad data: no colour");
    assert_eq!(ClientError::TextError("as it is".to_string()).to_string(), "as it is");
}

#[test]
fn messages_with_a_team_number_in_them() {
    assert_eq!(ClientError::TeamIsRunner(3).to_string(), "team 3 is runner");
    assert_eq!(ClientError::TeamIsCatcher(12).to_string(), "team 12 is catcher");
    assert_eq!(ClientError::TeamIsRunner(0).to_string(), "team 0 is runner");
}

#[test]
fn messages_that_stand_alone() {
    assert_eq!(ClientError::AlreadyExists.to_string(), "Already exists");
    assert_eq!(ClientError::GameInProgress.to_string(), "There is already a game in progress");
    assert_eq!(ClientError::GameNotRunning.to_string(), "There is no game in progress");
    assert_eq!(ClientError::AmbiguousData.to_string(), "Ambiguous data");
    assert_eq!(ClientError::InternalError.to_string(), "There was a truinlag-internal error");
    assert_eq!(ClientError::NotImplemented.to_string(), "Not yet implemented");
    assert_eq!(
        ClientError::TeamsTooFar.to_string(),
        "the teams are too far away from each other"
    );
    assert_eq!(
        ClientError::PictureProblem.to_string(),
        "there was a problem processing an image"
    );
    assert_eq!(
        ClientError::TooRapid.to_string(),
        "not enough time has passed since the last request"
    );
    assert_eq!(
        ClientError::TooFewChallenges.to_string(),
        "there are not enough challenges to start a game in the challenge db"
    );
}

#[test]
fn an_empty_name_leaves_the_rest_of_the_message() {
    assert_eq!(ClientError::NotFound(String::new()).to_string(), " was not found");
    assert_eq!(ClientError::TextError(String::new()).to_string(), "");
}

#[test]
fn protocol_misuse_is_kept_from_clients() {
    assert_eq!(ClientError::try_from(Error::NoSessionSupplied), Err(()));
    assert_eq!(ClientError::try_from(Error::SessionSupplied), Err(()));
}

#[test]
fn every_other_error_reaches_the_client_unchanged() {
    assert_eq!(
        ClientError::try_from(Error::NotFound("team".to_string())),
        Ok(ClientError::NotFound("team".to_string()))
    );
    assert_eq!(
        ClientError::try_from(Error::TeamExists("Owls".to_string())),
        Ok(ClientError::TeamExists("Owls".to_string()))
    );
    assert_eq!(ClientError::try_from(Error::AlreadyExists), Ok(ClientError::AlreadyExists));
    assert_eq!(ClientError::try_from(Error::GameInProgress), Ok(ClientError::GameInProgress));
    assert_eq!(ClientError::try_from(Error::GameNotRunning), Ok(ClientError::GameNotRunning));
    assert_eq!(ClientError::try_from(Error::AmbiguousData), Ok(ClientError::AmbiguousData));
    assert_eq!(ClientError::try_from(Error::InternalError), Ok(ClientError::InternalError));
    assert_eq!(ClientError::try_from(Error::NotImplemented), Ok(ClientError::NotImplemented));
    assert_eq!(ClientError::try_from(Error::TeamIsRunner(4)), Ok(ClientError::TeamIsRunner(4)));
    assert_eq!(ClientError::try_from(Error::TeamIsCatcher(5)), Ok(ClientError::TeamIsCatcher(5)));
    assert_eq!(ClientError::try_from(Error::TeamsTooFar), Ok(ClientError::TeamsTooFar));
    assert_eq!(
        ClientError::try_from(Error::BadData("x".to_string())),
        Ok(ClientError::BadData("x".to_string()))
    );
    assert_eq!(
        ClientError::try_from(Error::TextError("y".to_string())),
        Ok(ClientError::TextError("y".to_string()))
    );
    assert_eq!(ClientError::try_from(Error::PictureProblem), Ok(ClientError::PictureProblem));
    assert_eq!(ClientError::try_from(Error::TooRapid), Ok(ClientError::TooRapid));
    assert_eq!(ClientError::try_from(Error::TooFewChallenges), Ok(ClientError::TooFewChallenges));
}

#[test]
fn a_copy_of_an_error_equals_it() {
    let error = ClientError::TeamExists("Owls".to_string());
    assert_eq!(error.clone(), error);
}
