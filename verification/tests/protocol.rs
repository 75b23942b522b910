use trainlappcomms::{
    Everything, JuhuiPicture, State, ToApp, ToAppPackage, ToServer, ToServerPackage,
};

#[test]
fn notifications_compare_by_content() {
    assert_eq!(ToApp::LoginSuccessful(true), ToApp::LoginSuccessful(true));
    assert_ne!(ToApp::LoginSuccessful(true), ToApp::LoginSuccessful(false));
    assert_ne!(ToApp::AddedPeriod(1), ToApp::AddedPeriod(2));
    assert_eq!(State::Runner, State::Runner);
    assert_ne!(State::Runner, State::Catcher);
}

#[test]
fn a_copy_of_a_request_equals_it() {
    let requests = vec![
        ToServer::Login("open sesame".to_string()),
        ToServer::AttachPeriodPictures { event_id: 1, pictures: vec![vec![1, 2], vec![]] },
        ToServer::UploadPlayerPicture(vec![3]),
        ToServer::Ping(Some("hi".to_string())),
        ToServer::Ping(None),
        ToServer::RequestPictures(vec![1, 2, 3]),
        ToServer::RequestPastLocations { of_past_seconds: Some(60), team_id: 2 },
    ];
    for request in requests {
        assert_eq!(request.clone(), request);
    }
}

#[test]
fn a_copy_of_a_notification_equals_it() {
    let everything = Everything {
        state: State::GameNotRunning,
        teams: vec![],
        events: vec![],
        you: 1,
        your_team: 0,
        your_session: 2,
    };
    let notifications = vec![
        ToApp::Everything(everything.clone()),
        ToApp::BecomeShutDown,
        ToApp::Ping(Some("hi".to_string())),
        ToApp::Pictures(vec![JuhuiPicture { data: vec![1], is_thumbnail: false, id: 4 }]),
        ToApp::GameStarted(everything),
    ];
    for notification in notifications {
        assert_eq!(notification.clone(), notification);
    }
}

#[test]
fn packages_carry_their_number() {
    let request = ToServerPackage { contents: ToServer::RequestEverything, id: Some(7) };
    assert_eq!(request.clone(), request);
    assert_eq!(request.id, Some(7));
    let answer = ToAppPackage { contents: ToApp::AddedPeriod(3), id: None };
    assert_eq!(answer.clone(), answer);
    assert_eq!(answer.contents, ToApp::AddedPeriod(3));
}
