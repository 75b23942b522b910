//! From a client's request to a command for the engine.
//!
//! Most requests become a command at once. A request that carries pictures
//! does not: its raw bytes have to pass the engine's picture decoder first,
//! which takes time and is not done here. Such a request becomes an upload
//! that waits for its pictures; once they are decoded, `upload_command` says
//! which command, if any, goes to the engine.

use crate::convert::engine_detailed_location_of;
use crate::engine::commands::{EngineAction, EngineActionView, EngineCommand, EngineCommandView};
use crate::engine::{DetailedLocation, RawPicture};
use crate::protocol::{ToServer, ToServerView};
use crate::views::views;
use vstd::prelude::*;
use vstd::std_specs::convert::FromSpecImpl;

verus! {

/// What the pictures of an upload are for.
#[derive(Clone, Copy, Debug, PartialEq, Eq)]
pub enum UploadTarget {
    /// Proof for a period of a team.
    Period { session: u64, team: usize, period: usize },
    /// The profile picture of a player.
    Player { player_id: u64 },
    /// The profile picture of a team.
    Team { session: u64, team_id: usize },
}

/// An upload that waits for its pictures to be decoded.
#[derive(Debug, PartialEq)]
pub struct PendingUpload {
    pub target: UploadTarget,
    /// The raw bytes of each picture, in the order of the request.
    pub payloads: Vec<Vec<u8>>,
}

pub struct PendingUploadView {
    pub target: UploadTarget,
    pub payloads: Seq<Seq<u8>>,
}

impl View for PendingUpload {
    type V = PendingUploadView;

    open spec fn view(&self) -> PendingUploadView {
        PendingUploadView { target: self.target, payloads: views(self.payloads@) }
    }
}

/// What a request becomes: a command, or an upload that waits.
#[derive(Debug, PartialEq)]
pub enum EngineCommandConversion {
    Instant(EngineCommand),
    Delayed(PendingUpload),
}

pub enum EngineCommandConversionView {
    Instant(EngineCommandView),
    Delayed(PendingUploadView),
}

impl View for EngineCommandConversion {
    type V = EngineCommandConversionView;

    open spec fn view(&self) -> EngineCommandConversionView {
        match self {
            EngineCommandConversion::Instant(command) => EngineCommandConversionView::Instant(
                command@,
            ),
            EngineCommandConversion::Delayed(upload) => EngineCommandConversionView::Delayed(
                upload@,
            ),
        }
    }
}

impl FromSpecImpl<EngineCommand> for EngineCommandConversion {
    open spec fn obeys_from_spec() -> bool {
        true
    }

    open spec fn from_spec(value: EngineCommand) -> EngineCommandConversion {
        EngineCommandConversion::Instant(value)
    }
}

impl From<EngineCommand> for EngineCommandConversion {
    fn from(value: EngineCommand) -> (conversion: EngineCommandConversion)
        ensures
            conversion == EngineCommandConversion::Instant(value),
    {
        EngineCommandConversion::Instant(value)
    }
}

/// The command that goes out in a session.
pub open spec fn in_session(session: u64, action: EngineActionView) -> EngineCommandConversionView {
    EngineCommandConversionView::Instant(EngineCommandView { session: Some(session), action })
}

/// The command that goes out without a session.
pub open spec fn sessionless(action: EngineActionView) -> EngineCommandConversionView {
    EngineCommandConversionView::Instant(EngineCommandView { session: None, action })
}

/// What a request becomes on a connection of player `player_id` in team
/// `team_id` of session `session`.
///
/// A location is reported for the connection's player. A catch or a
/// completion is made by the connection's team; whom it concerns and the
/// period go on unchanged. A ping, a login and a request for pictures or
/// thumbnails go out without a session. A request with pictures becomes an
/// upload that waits, with the payloads in the request's order: a player's
/// or a team's picture with its one payload.
pub open spec fn conversion_of(
    request: ToServerView,
    session: u64,
    team_id: usize,
    player_id: u64,
) -> EngineCommandConversionView {
    match request {
        ToServerView::Login(passphrase) => sessionless(
            EngineActionView::GetPlayerByPassphrase(passphrase),
        ),
        ToServerView::Location(location) => in_session(
            session,
            EngineActionView::SendLocation {
                player: player_id,
                location: engine_detailed_location_of(location),
            },
        ),
        ToServerView::AttachPeriodPictures { event_id, pictures } => {
            EngineCommandConversionView::Delayed(
                PendingUploadView {
                    target: UploadTarget::Period { session, team: team_id, period: event_id },
                    payloads: pictures,
                },
            )
        },
        ToServerView::UploadPlayerPicture(picture) => EngineCommandConversionView::Delayed(
            PendingUploadView { target: UploadTarget::Player { player_id }, payloads: seq![picture] },
        ),
        ToServerView::UploadTeamPicture(picture) => EngineCommandConversionView::Delayed(
            PendingUploadView {
                target: UploadTarget::Team { session, team_id },
                payloads: seq![picture],
            },
        ),
        ToServerView::Complete { completed_id, period_id } => in_session(
            session,
            EngineActionView::Complete { completer: team_id, completed: completed_id, period_id },
        ),
        ToServerView::Catch { caught_id, period_id } => in_session(
            session,
            EngineActionView::Catch { catcher: team_id, caught: caught_id, period_id },
        ),
        ToServerView::RequestEverything => in_session(session, EngineActionView::GetState),
        ToServerView::Ping(text) => sessionless(EngineActionView::Ping(text)),
        ToServerView::RequestPictures(ids) => sessionless(EngineActionView::GetPictures(ids)),
        ToServerView::RequestThumbnails(ids) => sessionless(EngineActionView::GetThumbnails(ids)),
        ToServerView::RequestPastLocations { of_past_seconds, team_id } => in_session(
            session,
            EngineActionView::GetPastLocations { of_past_seconds, team_id },
        ),
    }
}

/// Translates one request of a client. See `conversion_of`.
pub fn to_server_to_engine_command(
    to_server: ToServer,
    session: u64,
    team_id: usize,
    player_id: u64,
) -> (conversion: EngineCommandConversion)
    ensures
        conversion@ == conversion_of(to_server@, session, team_id, player_id),
{
    match to_server {
        ToServer::Login(passphrase) => EngineCommandConversion::from(
            EngineCommand { session: None, action: EngineAction::GetPlayerByPassphrase(passphrase) },
        ),
        ToServer::Location(location) => EngineCommandConversion::from(
            EngineCommand {
                session: Some(session),
                action: EngineAction::SendLocation {
                    player: player_id,
                    location: DetailedLocation::from(location),
                },
            },
        ),
        ToServer::AttachPeriodPictures { event_id, pictures } => {
            EngineCommandConversion::Delayed(
                PendingUpload {
                    target: UploadTarget::Period { session, team: team_id, period: event_id },
                    payloads: pictures,
                },
            )
        },
        ToServer::UploadPlayerPicture(picture) => {
            let mut payloads: Vec<Vec<u8>> = Vec::new();
            payloads.push(picture);
            assert(views(payloads@) =~= seq![picture@]);
            EngineCommandConversion::Delayed(
                PendingUpload { target: UploadTarget::Player { player_id }, payloads },
            )
        },
        ToServer::UploadTeamPicture(picture) => {
            let mut payloads: Vec<Vec<u8>> = Vec::new();
            payloads.push(picture);
            assert(views(payloads@) =~= seq![picture@]);
            EngineCommandConversion::Delayed(
                PendingUpload { target: UploadTarget::Team { session, team_id }, payloads },
            )
        },
        ToServer::Complete { completed_id, period_id } => EngineCommandConversion::from(
            EngineCommand {
                session: Some(session),
                action: EngineAction::Complete {
                    completer: team_id,
                    completed: completed_id,
                    period_id,
                },
            },
        ),
        ToServer::Catch { caught_id, period_id } => EngineCommandConversion::from(
            EngineCommand {
                session: Some(session),
                action: EngineAction::Catch { catcher: team_id, caught: caught_id, period_id },
            },
        ),
        ToServer::Ping(text) => EngineCommandConversion::from(
            EngineCommand { session: None, action: EngineAction::Ping(text) },
        ),
        ToServer::RequestEverything => EngineCommandConversion::from(
            EngineCommand { session: Some(session), action: EngineAction::GetState },
        ),
        ToServer::RequestPictures(ids) => EngineCommandConversion::from(
            EngineCommand { session: None, action: EngineAction::GetPictures(ids) },
        ),
        ToServer::RequestThumbnails(ids) => EngineCommandConversion::from(
            EngineCommand { session: None, action: EngineAction::GetThumbnails(ids) },
        ),
        ToServer::RequestPastLocations { of_past_seconds, team_id } => {
            EngineCommandConversion::from(
                EngineCommand {
                    session: Some(session),
                    action: EngineAction::GetPastLocations { of_past_seconds, team_id },
                },
            )
        },
    }
}

/// What came of decoding a picture: its bytes, where the decoder took it.
pub open spec fn decoded_view(decoded: Option<RawPicture>) -> Option<Seq<u8>> {
    match decoded {
        Some(picture) => Some(picture@),
        None => None,
    }
}

/// What came of decoding each picture of an upload, in order.
pub open spec fn decoded_views(decoded: Seq<Option<RawPicture>>) -> Seq<Option<Seq<u8>>> {
    Seq::new(decoded.len(), |i: int| decoded_view(decoded[i]))
}

/// The pictures that the decoder took, in their order; those that it
/// refused are left out.
pub open spec fn accepted(decoded: Seq<Option<Seq<u8>>>) -> Seq<Seq<u8>>
    decreases decoded.len(),
{
    if decoded.len() == 0 {
        Seq::empty()
    } else {
        match decoded.last() {
            Some(picture) => accepted(decoded.drop_last()).push(picture),
            None => accepted(decoded.drop_last()),
        }
    }
}

/// The command that an upload ends in, once its pictures went through the
/// decoder. Proof for a period goes out with the pictures that were
/// accepted, however few. A profile picture goes out if its picture was
/// accepted; if not, nothing goes out.
pub open spec fn upload_command_of(target: UploadTarget, decoded: Seq<Option<Seq<u8>>>) -> Option<
    EngineCommandView,
> {
    match target {
        UploadTarget::Period { session, team, period } => Some(
            EngineCommandView {
                session: Some(session),
                action: EngineActionView::UploadPeriodPictures {
                    pictures: accepted(decoded),
                    team,
                    period,
                },
            },
        ),
        UploadTarget::Player { player_id } => {
            if decoded.len() > 0 && decoded[0].is_some() {
                Some(
                    EngineCommandView {
                        session: None,
                        action: EngineActionView::UploadPlayerPicture {
                            player_id,
                            picture: decoded[0].unwrap(),
                        },
                    },
                )
            } else {
                None
            }
        },
        UploadTarget::Team { session, team_id } => {
            if decoded.len() > 0 && decoded[0].is_some() {
                Some(
                    EngineCommandView {
                        session: Some(session),
                        action: EngineActionView::UploadTeamPicture {
                            team_id,
                            picture: decoded[0].unwrap(),
                        },
                    },
                )
            } else {
                None
            }
        },
    }
}

/// An optional command by its view.
pub open spec fn command_view(command: Option<EngineCommand>) -> Option<EngineCommandView> {
    match command {
        Some(command) => Some(command@),
        None => None,
    }
}

/// Keeps the pictures that the decoder took, in their order.
fn keep_accepted(decoded: Vec<Option<RawPicture>>) -> (pictures: Vec<RawPicture>)
    ensures
        views(pictures@) == accepted(decoded_views(decoded@)),
{
    let ghost all = decoded_views(decoded@);
    let mut pictures: Vec<RawPicture> = Vec::new();
    for outcome in iter: decoded
        invariant
            all == decoded_views(iter.seq()),
            views(pictures@) == accepted(all.take(iter.index())),
    {
        assert(all.take(iter.index() + 1).drop_last() =~= all.take(iter.index()));
        match outcome {
            Some(picture) => {
                pictures.push(picture);
            },
            None => {},
        }
    }
    assert(all.take(all.len() as int) =~= all);
    pictures
}

/// Says which command an upload ends in, given what came of decoding each
/// of its payloads, in the payloads' order. See `upload_command_of`.
pub fn upload_command(target: UploadTarget, decoded: Vec<Option<RawPicture>>) -> (command: Option<
    EngineCommand,
>)
    ensures
        command_view(command) == upload_command_of(target, decoded_views(decoded@)),
{
    match target {
        UploadTarget::Period { session, team, period } => Some(
            EngineCommand {
                session: Some(session),
                action: EngineAction::UploadPeriodPictures {
                    pictures: keep_accepted(decoded),
                    team,
                    period,
                },
            },
        ),
        UploadTarget::Player { player_id } => match first_accepted(decoded) {
            Some(picture) => Some(
                EngineCommand {
                    session: None,
                    action: EngineAction::UploadPlayerPicture { player_id, picture },
                },
            ),
            None => None,
        },
        UploadTarget::Team { session, team_id } => match first_accepted(decoded) {
            Some(picture) => Some(
                EngineCommand {
                    session: Some(session),
                    action: EngineAction::UploadTeamPicture { team_id, picture },
                },
            ),
            None => None,
        },
    }
}

/// The first picture of an upload, if the decoder took it.
fn first_accepted(decoded: Vec<Option<RawPicture>>) -> (picture: Option<RawPicture>)
    ensures
        decoded_view(picture) == if decoded@.len() > 0 {
            decoded_view(decoded@[0])
        } else {
            None
        },
{
    let mut decoded = decoded;
    if decoded.len() > 0 {
        decoded.swap_remove(0)
    } else {
        None
    }
}

/// Whether a command acts for no one but the connection of player
/// `player_id` in team `team_id` of session `session`: it goes out in that
/// session or in none, and where it says who acts, it is that player or
/// that team.
pub open spec fn acts_for(command: EngineCommandView, session: u64, team_id: usize, player_id: u64)
    -> bool {
    &&& command.session.is_none() || command.session == Some(session)
    &&& match command.action {
        EngineActionView::SendLocation { player, .. } => player == player_id,
        EngineActionView::UploadPeriodPictures { team, .. } => team == team_id,
        EngineActionView::UploadPlayerPicture { player_id: whose, .. } => whose == player_id,
        EngineActionView::UploadTeamPicture { team_id: whose, .. } => whose == team_id,
        EngineActionView::Complete { completer, .. } => completer == team_id,
        EngineActionView::Catch { catcher, .. } => catcher == team_id,
        _ => true,
    }
}

/// Whatever a client requests, the command that comes of it acts for its
/// own connection: at once, or once its pictures are decoded, whatever
/// comes of decoding them.
pub proof fn lemma_commands_act_for_their_connection(
    request: ToServerView,
    session: u64,
    team_id: usize,
    player_id: u64,
    decoded: Seq<Option<Seq<u8>>>,
)
    ensures
        match conversion_of(request, session, team_id, player_id) {
            EngineCommandConversionView::Instant(command) => acts_for(
                command,
                session,
                team_id,
                player_id,
            ),
            EngineCommandConversionView::Delayed(upload) => {
                upload_command_of(upload.target, decoded) matches Some(command) ==> acts_for(
                    command,
                    session,
                    team_id,
                    player_id,
                )
            },
        },
{
}

/// The pictures that go out are among those that came in, and no more
/// than those: a picture is accepted or left out, never added.
pub proof fn lemma_accepted_are_no_more_than_decoded(decoded: Seq<Option<Seq<u8>>>)
    ensures
        accepted(decoded).len() <= decoded.len(),
        forall|k: int|
            0 <= k < accepted(decoded).len() ==> decoded.contains(
                Some(#[trigger] accepted(decoded)[k]),
            ),
    decreases decoded.len(),
{
    if decoded.len() > 0 {
        lemma_accepted_are_no_more_than_decoded(decoded.drop_last());
    }
}

} // verus!
