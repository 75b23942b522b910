//! The session of an established connection.
//!
//! Three streams meet in a session: the requests of the client, the answers
//! of the engine to the commands sent for them, and the broadcasts of the
//! engine. Whoever runs the connection reads the streams and does the
//! sending; what is to be sent is decided here. `Session::step` takes what
//! arrived and says the one thing to do about it.
//!
//! Every command goes out under a token of its own and the engine's answer
//! comes back under the same token, so an answer is never taken for that of
//! another command, whoever had it sent: a request, a broadcast that needs
//! the state of the session, or an upload whose pictures took their time in
//! the decoder. Such an upload waits under a token as well.
//!
//! A session ends when one of its streams ends or fails, or on a fault. A
//! session that has ended has nothing more done and tells nothing more.

use crate::engine::commands::{
    BroadcastAction, BroadcastActionView, EngineCommand, EngineCommandView, ResponseAction,
    ResponseActionView,
};
use crate::engine::RawPicture;
use crate::fault::SessionFault;
use crate::handshake::Identity;
use crate::protocol::{ToApp, ToAppView, ToServer, ToServerView};
use crate::views::views;
use crate::translate::broadcast::{
    broadcast_to_to_app, concerns_everyone, is_global, names_connection, plan_of,
    wrap_everything, wrapped, BroadcastPlan, BroadcastPlanView, Wrapping, WrappingView,
};
use crate::translate::command::{
    conversion_of, decoded_views, to_server_to_engine_command, upload_command, upload_command_of,
    EngineCommandConversion, EngineCommandConversionView, UploadTarget,
};
use crate::translate::response::{
    get_everything, notification_of, refreshed_of, response_to_to_app, state_query,
    state_query_of,
};
use vstd::prelude::*;

verus! {

/// How a stream of a session ended.
#[derive(Clone, Copy, Debug, PartialEq, Eq)]
pub enum Ending {
    /// The client closed the connection.
    ClientLeft,
    /// A frame of the client could not be told apart or decoded.
    BadFrame,
    /// Reading or writing failed, on the client's socket or on the engine's
    /// channel.
    IoFailure,
}

/// Why a session was closed.
#[derive(Clone, Copy, Debug, PartialEq, Eq)]
pub enum Closure {
    Ended(Ending),
    Fault(SessionFault),
}

/// What a token is awaited for.
#[derive(Debug, PartialEq)]
pub enum Purpose {
    /// The engine's answer to the command of a request.
    Request,
    /// The decoded pictures of an upload.
    Upload(UploadTarget),
    /// The state of the session, to be told in this wrapping.
    Refresh(Wrapping),
}

pub enum PurposeView {
    Request,
    Upload(UploadTarget),
    Refresh(WrappingView),
}

impl View for Purpose {
    type V = PurposeView;

    open spec fn view(&self) -> PurposeView {
        match self {
            Purpose::Request => PurposeView::Request,
            Purpose::Upload(target) => PurposeView::Upload(*target),
            Purpose::Refresh(wrapping) => PurposeView::Refresh(wrapping@),
        }
    }
}

/// What arrives in a session.
#[derive(Debug, PartialEq)]
pub enum SessionEvent {
    /// A request of the client.
    Request(ToServer),
    /// What came of decoding each payload of the upload that waits under
    /// `token`, in the payloads' order: the picture, or nothing where the
    /// decoder refused the payload.
    Decoded { token: u64, pictures: Vec<Option<RawPicture>> },
    /// The engine's answer to the command that went out under `token`.
    Reply { token: u64, response: ResponseAction },
    /// A broadcast of the engine.
    Broadcast(BroadcastAction),
    /// One of the streams ended.
    Ended(Ending),
}

pub enum SessionEventView {
    Request(ToServerView),
    Decoded { token: u64, pictures: Seq<Option<Seq<u8>>> },
    Reply { token: u64, response: ResponseActionView },
    Broadcast(BroadcastActionView),
    Ended(Ending),
}

impl View for SessionEvent {
    type V = SessionEventView;

    open spec fn view(&self) -> SessionEventView {
        match self {
            SessionEvent::Request(request) => SessionEventView::Request(request@),
            SessionEvent::Decoded { token, pictures } => SessionEventView::Decoded {
                token: *token,
                pictures: decoded_views(pictures@),
            },
            SessionEvent::Reply { token, response } => SessionEventView::Reply {
                token: *token,
                response: response@,
            },
            SessionEvent::Broadcast(broadcast) => SessionEventView::Broadcast(broadcast@),
            SessionEvent::Ended(ending) => SessionEventView::Ended(*ending),
        }
    }
}

/// The one thing to do about what arrived.
#[derive(Debug, PartialEq)]
pub enum SessionAction {
    Nothing,
    /// To have the payloads decoded, away from the streams, and to come
    /// back with `SessionEvent::Decoded` under the same token.
    Decode { token: u64, payloads: Vec<Vec<u8>> },
    /// To send the command to the engine and to come back with
    /// `SessionEvent::Reply` under the same token.
    Dispatch { token: u64, command: EngineCommand },
    /// To send the notification to the client, after those before it.
    Notify(ToApp),
    /// To close the connection and let go of all that belongs to it.
    Close(Closure),
}

pub enum SessionActionView {
    Nothing,
    Decode { token: u64, payloads: Seq<Seq<u8>> },
    Dispatch { token: u64, command: EngineCommandView },
    Notify(ToAppView),
    Close(Closure),
}

impl View for SessionAction {
    type V = SessionActionView;

    open spec fn view(&self) -> SessionActionView {
        match self {
            SessionAction::Nothing => SessionActionView::Nothing,
            SessionAction::Decode { token, payloads } => SessionActionView::Decode {
                token: *token,
                payloads: views(payloads@),
            },
            SessionAction::Dispatch { token, command } => SessionActionView::Dispatch {
                token: *token,
                command: command@,
            },
            SessionAction::Notify(notification) => SessionActionView::Notify(notification@),
            SessionAction::Close(closure) => SessionActionView::Close(*closure),
        }
    }
}

/// A session as its contracts speak of it.
pub struct SessionView {
    pub identity: Identity,
    pub closed: bool,
    /// The token that goes out next.
    pub next_token: u64,
    /// The tokens that are awaited, each with its purpose, oldest first.
    pub awaiting: Seq<(u64, PurposeView)>,
}

impl SessionView {
    /// What holds of every session: the tokens that are awaited were given
    /// out one after the other, none of them twice, and the next token is
    /// beyond them all; a closed session awaits nothing.
    pub open spec fn well_formed(self) -> bool {
        &&& forall|i: int, j: int|
            0 <= i < j < self.awaiting.len() ==> (#[trigger] self.awaiting[i]).0 < (
            #[trigger] self.awaiting[j]).0
        &&& forall|i: int|
            0 <= i < self.awaiting.len() ==> (#[trigger] self.awaiting[i]).0 < self.next_token
        &&& self.closed ==> self.awaiting.len() == 0
    }

    /// The session of a connection that has just been established, whose
    /// tokens are counted from `first_token`.
    pub open spec fn fresh(identity: Identity, first_token: u64) -> SessionView {
        SessionView { identity, closed: false, next_token: first_token, awaiting: Seq::empty() }
    }

    /// Whether `token` is awaited at `place`.
    pub open spec fn awaits_at(self, token: u64, place: int) -> bool {
        0 <= place < self.awaiting.len() && self.awaiting[place].0 == token
    }

    /// The place at which `token` is awaited, if it is.
    pub open spec fn place_of(self, token: u64) -> Option<int> {
        if exists|place: int| self.awaits_at(token, place) {
            Some(choose|place: int| self.awaits_at(token, place))
        } else {
            None
        }
    }

    /// The session closed: it awaits nothing any more.
    pub open spec fn shut(self) -> SessionView {
        SessionView { closed: true, awaiting: Seq::empty(), ..self }
    }

    /// The session after its next token went out for `purpose`.
    pub open spec fn issue(self, purpose: PurposeView) -> SessionView {
        SessionView {
            next_token: (self.next_token + 1) as u64,
            awaiting: self.awaiting.push((self.next_token, purpose)),
            ..self
        }
    }

    /// The session after what was awaited at `place` has arrived.
    pub open spec fn settle(self, place: int) -> SessionView {
        SessionView { awaiting: self.awaiting.remove(place), ..self }
    }

    /// Sending `command` for `purpose`: it goes out under the next token,
    /// which is awaited from then on. Where no token is left, the session
    /// closes.
    pub open spec fn dispatch(self, command: EngineCommandView, purpose: PurposeView) -> (
        SessionView,
        SessionActionView,
    ) {
        if self.next_token == u64::MAX {
            (self.shut(), SessionActionView::Close(Closure::Fault(SessionFault::TokensExhausted)))
        } else {
            (
                self.issue(purpose),
                SessionActionView::Dispatch { token: self.next_token, command },
            )
        }
    }

    /// Closing the session on a fault.
    pub open spec fn fail(self, fault: SessionFault) -> (SessionView, SessionActionView) {
        (self.shut(), SessionActionView::Close(Closure::Fault(fault)))
    }
}

/// One step of a session: the session after `event` arrived, and the one
/// thing to do about it.
///
/// - A closed session stays as it is, and nothing is done.
/// - A request is translated for the session's identity. A command goes
///   out under a fresh token. An upload has its payloads decoded, and waits
///   under a fresh token.
/// - Decoded pictures that an upload waits for make the upload's command
///   go out under a fresh token, or nothing where the upload ends in no
///   command; the upload waits no longer.
/// - An answer that is awaited for a request is translated, and the client
///   is told the notification if there is one. An answer that is awaited
///   for the state of the session is told in the wrapping it was asked for.
///   Either way the token is awaited no longer. Where the translation
///   finds a fault, the session closes.
/// - Pictures or an answer under a token that is not awaited, or is awaited
///   for the other of the two, change nothing.
/// - A broadcast is planned for the session's identity: the client is told
///   nothing, or what the plan forwards, or the engine is asked for the
///   state of the session under a fresh token. A broadcast that ends the
///   session closes it.
/// - The end of a stream closes the session.
pub open spec fn session_step(session: SessionView, event: SessionEventView) -> (
    SessionView,
    SessionActionView,
) {
    let identity = session.identity;
    if session.closed {
        (session, SessionActionView::Nothing)
    } else {
        match event {
            SessionEventView::Request(request) => {
                match conversion_of(request, identity.session, identity.team, identity.player) {
                    EngineCommandConversionView::Instant(command) => session.dispatch(
                        command,
                        PurposeView::Request,
                    ),
                    EngineCommandConversionView::Delayed(upload) => {
                        if session.next_token == u64::MAX {
                            session.fail(SessionFault::TokensExhausted)
                        } else {
                            (
                                session.issue(PurposeView::Upload(upload.target)),
                                SessionActionView::Decode {
                                    token: session.next_token,
                                    payloads: upload.payloads,
                                },
                            )
                        }
                    },
                }
            },
            SessionEventView::Decoded { token, pictures } => match session.place_of(token) {
                Some(place) => match session.awaiting[place].1 {
                    PurposeView::Upload(target) => match upload_command_of(target, pictures) {
                        Some(command) => session.settle(place).dispatch(
                            command,
                            PurposeView::Request,
                        ),
                        None => (session.settle(place), SessionActionView::Nothing),
                    },
                    _ => (session, SessionActionView::Nothing),
                },
                None => (session, SessionActionView::Nothing),
            },
            SessionEventView::Reply { token, response } => match session.place_of(token) {
                Some(place) => match session.awaiting[place].1 {
                    PurposeView::Request => {
                        match notification_of(response, identity.player, identity.session) {
                            Ok(Some(notification)) => (
                                session.settle(place),
                                SessionActionView::Notify(notification),
                            ),
                            Ok(None) => (session.settle(place), SessionActionView::Nothing),
                            Err(fault) => session.fail(fault),
                        }
                    },
                    PurposeView::Refresh(wrapping) => {
                        match refreshed_of(response, identity.player, identity.session) {
                            Ok(everything) => (
                                session.settle(place),
                                SessionActionView::Notify(wrapped(wrapping, everything)),
                            ),
                            Err(fault) => session.fail(fault),
                        }
                    },
                    PurposeView::Upload(_) => (session, SessionActionView::Nothing),
                },
                None => (session, SessionActionView::Nothing),
            },
            SessionEventView::Broadcast(broadcast) => {
                match plan_of(broadcast, identity.player, identity.team) {
                    Ok(BroadcastPlanView::Drop) => (session, SessionActionView::Nothing),
                    Ok(BroadcastPlanView::Forward(notification)) => (
                        session,
                        SessionActionView::Notify(notification),
                    ),
                    Ok(BroadcastPlanView::Refresh(wrapping)) => session.dispatch(
                        state_query_of(identity.session),
                        PurposeView::Refresh(wrapping),
                    ),
                    Err(fault) => session.fail(fault),
                }
            },
            SessionEventView::Ended(ending) => (
                session.shut(),
                SessionActionView::Close(Closure::Ended(ending)),
            ),
        }
    }
}

/// A token with what it is awaited for.
struct Awaited {
    token: u64,
    purpose: Purpose,
}

/// The tokens of `awaiting` with the views of their purposes, in order.
spec fn listed(awaiting: Seq<Awaited>) -> Seq<(u64, PurposeView)> {
    Seq::new(awaiting.len(), |i: int| (awaiting[i].token, awaiting[i].purpose@))
}

/// The session of an established connection.
pub struct Session {
    identity: Identity,
    closed: bool,
    next_token: u64,
    awaiting: Vec<Awaited>,
}

impl View for Session {
    type V = SessionView;

    closed spec fn view(&self) -> SessionView {
        SessionView {
            identity: self.identity,
            closed: self.closed,
            next_token: self.next_token,
            awaiting: listed(self.awaiting@),
        }
    }
}

impl Session {
    #[verifier::type_invariant]
    spec fn sound(self) -> bool {
        self@.well_formed()
    }

    /// The session of a connection that has just been established as
    /// `identity`. Its tokens are counted from zero.
    pub fn new(identity: Identity) -> (session: Session)
        ensures
            session@ == SessionView::fresh(identity, 0),
    {
        Self::with_tokens_from(identity, 0)
    }

    /// The session of a connection that has just been established as
    /// `identity`, with tokens counted from `first_token`: for sessions
    /// that share an engine channel and keep their tokens apart.
    pub fn with_tokens_from(identity: Identity, first_token: u64) -> (session: Session)
        ensures
            session@ == SessionView::fresh(identity, first_token),
    {
        let awaiting: Vec<Awaited> = Vec::new();
        assert(listed(awaiting@) =~= Seq::empty());
        Session { identity, closed: false, next_token: first_token, awaiting }
    }

    /// Who the session belongs to.
    pub fn identity(&self) -> (identity: Identity)
        ensures
            identity == self@.identity,
    {
        self.identity
    }

    /// Whether the session has ended.
    pub fn is_closed(&self) -> (closed: bool)
        ensures
            closed == self@.closed,
    {
        self.closed
    }

    /// The place at which `token` is awaited, if it is.
    fn find(&self, token: u64) -> (found: Option<usize>)
        ensures
            match found {
                Some(place) => self@.place_of(token) == Some(place as int),
                None => self@.place_of(token).is_none(),
            },
    {
        proof {
            use_type_invariant(self);
        }
        let mut place: usize = 0;
        while place < self.awaiting.len()
            invariant
                self@.well_formed(),
                place <= self.awaiting@.len(),
                self@.awaiting.len() == self.awaiting@.len(),
                forall|j: int| 0 <= j < place ==> (#[trigger] self@.awaiting[j]).0 != token,
            decreases self.awaiting@.len() - place,
        {
            if self.awaiting[place].token == token {
                proof {
                    assert(self@.awaits_at(token, place as int));
                    lemma_token_is_awaited_once(
                        self@,
                        token,
                        place as int,
                        choose|p: int| self@.awaits_at(token, p),
                    );
                }
                return Some(place);
            }
            place += 1;
        }
        None
    }

    /// The session closed on `closure`.
    fn close(self, closure: Closure) -> (next: (Session, SessionAction))
        ensures
            next.0@ == self@.shut(),
            next.1@ == SessionActionView::Close(closure),
    {
        let awaiting: Vec<Awaited> = Vec::new();
        assert(listed(awaiting@) =~= Seq::empty());
        let session = Session {
            identity: self.identity,
            closed: true,
            next_token: self.next_token,
            awaiting,
        };
        (session, SessionAction::Close(closure))
    }

    /// Gives out the next token for `purpose`.
    fn issue(self, purpose: Purpose) -> (next: (Session, u64))
        requires
            !self@.closed,
            self@.next_token < u64::MAX,
        ensures
            next.0@ == self@.issue(purpose@),
            next.1 == self@.next_token,
    {
        proof {
            use_type_invariant(&self);
        }
        let ghost before = self@;
        let token = self.next_token;
        let mut awaiting = self.awaiting;
        awaiting.push(Awaited { token, purpose });
        assert(listed(awaiting@) =~= before.awaiting.push((token, purpose@)));
        let session = Session {
            identity: self.identity,
            closed: false,
            next_token: token + 1,
            awaiting,
        };
        (session, token)
    }

    /// Sends `command` for `purpose` under the next token.
    fn dispatch(self, command: EngineCommand, purpose: Purpose) -> (next: (Session, SessionAction))
        requires
            !self@.closed,
        ensures
            (next.0@, next.1@) == self@.dispatch(command@, purpose@),
    {
        if self.next_token == u64::MAX {
            self.close(Closure::Fault(SessionFault::TokensExhausted))
        } else {
            let (session, token) = self.issue(purpose);
            (session, SessionAction::Dispatch { token, command })
        }
    }

    /// Takes what is awaited at `place` off the list.
    fn settle(self, place: usize) -> (next: (Session, Purpose))
        requires
            !self@.closed,
            place < self@.awaiting.len(),
        ensures
            next.0@ == self@.settle(place as int),
            next.1@ == self@.awaiting[place as int].1,
    {
        proof {
            use_type_invariant(&self);
        }
        let ghost before = self@;
        let mut awaiting = self.awaiting;
        let awaited = awaiting.remove(place);
        assert(listed(awaiting@) =~= before.awaiting.remove(place as int));
        let session = Session {
            identity: self.identity,
            closed: false,
            next_token: self.next_token,
            awaiting,
        };
        (session, awaited.purpose)
    }

    /// Takes one step of the session. See `session_step`.
    pub fn step(self, event: SessionEvent) -> (next: (Session, SessionAction))
        ensures
            (next.0@, next.1@) == session_step(self@, event@),
            next.0@.well_formed(),
    {
        let next = self.decide(event);
        proof {
            use_type_invariant(&next.0);
        }
        next
    }

    fn decide(self, event: SessionEvent) -> (next: (Session, SessionAction))
        ensures
            (next.0@, next.1@) == session_step(self@, event@),
    {
        let identity = self.identity;
        if self.closed {
            return (self, SessionAction::Nothing);
        }
        match event {
            SessionEvent::Request(request) => {
                match to_server_to_engine_command(
                    request,
                    identity.session,
                    identity.team,
                    identity.player,
                ) {
                    EngineCommandConversion::Instant(command) => self.dispatch(
                        command,
                        Purpose::Request,
                    ),
                    EngineCommandConversion::Delayed(upload) => {
                        if self.next_token == u64::MAX {
                            self.close(Closure::Fault(SessionFault::TokensExhausted))
                        } else {
                            let (session, token) = self.issue(Purpose::Upload(upload.target));
                            (session, SessionAction::Decode { token, payloads: upload.payloads })
                        }
                    },
                }
            },
            SessionEvent::Decoded { token, pictures } => match self.find(token) {
                Some(place) => {
                    match self.awaiting[place].purpose {
                        Purpose::Upload(target) => {
                            let (session, _) = self.settle(place);
                            match upload_command(target, pictures) {
                                Some(command) => session.dispatch(command, Purpose::Request),
                                None => (session, SessionAction::Nothing),
                            }
                        },
                        _ => (self, SessionAction::Nothing),
                    }
                },
                None => (self, SessionAction::Nothing),
            },
            SessionEvent::Reply { token, response } => match self.find(token) {
                Some(place) => {
                    if let Purpose::Upload(_) = self.awaiting[place].purpose {
                        return (self, SessionAction::Nothing);
                    }
                    let (session, purpose) = self.settle(place);
                    match purpose {
                        Purpose::Request => {
                            match response_to_to_app(response, identity.player, identity.session) {
                                Ok(Some(notification)) => (
                                    session,
                                    SessionAction::Notify(notification),
                                ),
                                Ok(None) => (session, SessionAction::Nothing),
                                Err(fault) => session.close(Closure::Fault(fault)),
                            }
                        },
                        Purpose::Refresh(wrapping) => {
                            match get_everything(response, identity.player, identity.session) {
                                Ok(everything) => (
                                    session,
                                    SessionAction::Notify(wrap_everything(wrapping, everything)),
                                ),
                                Err(fault) => session.close(Closure::Fault(fault)),
                            }
                        },
                        Purpose::Upload(_) => (session, SessionAction::Nothing),
                    }
                },
                None => (self, SessionAction::Nothing),
            },
            SessionEvent::Broadcast(broadcast) => {
                match broadcast_to_to_app(broadcast, identity.player, identity.team) {
                    Ok(BroadcastPlan::Drop) => (self, SessionAction::Nothing),
                    Ok(BroadcastPlan::Forward(notification)) => (
                        self,
                        SessionAction::Notify(notification),
                    ),
                    Ok(BroadcastPlan::Refresh(wrapping)) => self.dispatch(
                        state_query(identity.session),
                        Purpose::Refresh(wrapping),
                    ),
                    Err(fault) => self.close(Closure::Fault(fault)),
                }
            },
            SessionEvent::Ended(ending) => self.close(Closure::Ended(ending)),
        }
    }
}

/// A session that has ended stays as it is, whatever arrives: nothing is
/// done and the client is told nothing more.
pub proof fn lemma_closed_session_is_silent(session: SessionView, event: SessionEventView)
    requires
        session.closed,
    ensures
        session_step(session, event) == (session, SessionActionView::Nothing),
{
}

/// A session is closed exactly by the step that says to close it.
pub proof fn lemma_close_closes(session: SessionView, event: SessionEventView)
    requires
        !session.closed,
    ensures
        session_step(session, event).1 is Close <==> session_step(session, event).0.closed,
{
}

/// Every step keeps a session well formed.
pub proof fn lemma_step_keeps_well_formed(session: SessionView, event: SessionEventView)
    requires
        session.well_formed(),
    ensures
        session_step(session, event).0.well_formed(),
{
}

/// A token is awaited at one place at most.
pub proof fn lemma_token_is_awaited_once(session: SessionView, token: u64, a: int, b: int)
    requires
        session.well_formed(),
        session.awaits_at(token, a),
        session.awaits_at(token, b),
    ensures
        a == b,
{
}

/// The token under which something goes out is fresh: nothing was awaited
/// under it before, and from then on it is awaited, for what went out.
pub proof fn lemma_outgoing_token_is_fresh(session: SessionView, event: SessionEventView)
    requires
        session.well_formed(),
    ensures
        ({
            let (next, action) = session_step(session, event);
            &&& action matches SessionActionView::Dispatch { token, .. } ==> {
                &&& session.place_of(token).is_none()
                &&& next.place_of(token) == Some(next.awaiting.len() - 1)
                &&& !(next.awaiting.last().1 is Upload)
            }
            &&& action matches SessionActionView::Decode { token, .. } ==> {
                &&& session.place_of(token).is_none()
                &&& next.place_of(token) == Some(next.awaiting.len() - 1)
                &&& next.awaiting.last().1 is Upload
            }
        }),
{
    let (next, action) = session_step(session, event);
    lemma_step_keeps_well_formed(session, event);
    if action is Dispatch || action is Decode {
        let token = if action is Dispatch {
            action->Dispatch_token
        } else {
            action->Decode_token
        };
        let last = next.awaiting.len() - 1;
        assert(next.awaits_at(token, last));
        lemma_token_is_awaited_once(next, token, last, choose|p: int| next.awaits_at(token, p));
    }
}

/// Whether `event` is something that arrives under `token`: an answer of
/// the engine or decoded pictures.
pub open spec fn arrives_under(event: SessionEventView, token: u64) -> bool {
    match event {
        SessionEventView::Reply { token: under, .. } => under == token,
        SessionEventView::Decoded { token: under, .. } => under == token,
        _ => false,
    }
}

/// Once a token is settled it is awaited no more.
proof fn lemma_settled_token_is_gone(session: SessionView, token: u64, place: int)
    requires
        session.well_formed(),
        session.awaits_at(token, place),
    ensures
        session.settle(place).place_of(token).is_none(),
{
    let rest = session.settle(place);
    assert forall|p: int| !rest.awaits_at(token, p) by {
        if rest.awaits_at(token, p) {
            let from_p = if p < place { p } else { p + 1 };
            lemma_token_is_awaited_once(session, token, place, from_p);
        }
    }
}

/// What arrives under a token is taken once: after an arrival that the
/// session took, whatever arrives under the same token has nothing done.
/// So a request ends in one command at most, and an answer in one
/// notification at most.
pub proof fn lemma_arrival_is_taken_once(
    session: SessionView,
    token: u64,
    first: SessionEventView,
    again: SessionEventView,
)
    requires
        session.well_formed(),
        arrives_under(first, token),
        arrives_under(again, token),
        session_step(session, first).0 != session,
    ensures
        session_step(session_step(session, first).0, again) == (
            session_step(session, first).0,
            SessionActionView::Nothing,
        ),
{
    let taken = session_step(session, first).0;
    if !taken.closed {
        let place = session.place_of(token).unwrap();
        let settled = session.settle(place);
        lemma_settled_token_is_gone(session, token, place);
    }
}

/// An answer to the command of a request tells the client the one
/// notification that its translation gives, or nothing where it gives
/// none, and closes the session where it finds a fault.
pub proof fn lemma_answer_tells_what_its_translation_gives(
    session: SessionView,
    token: u64,
    response: ResponseActionView,
)
    requires
        !session.closed,
        session.place_of(token) matches Some(place) && session.awaiting[place].1 is Request,
    ensures
        ({
            let action = session_step(session, SessionEventView::Reply { token, response }).1;
            let told = notification_of(response, session.identity.player, session.identity.session);
            &&& told matches Ok(Some(notification)) ==> action == SessionActionView::Notify(
                notification,
            )
            &&& told matches Ok(None) ==> action is Nothing
            &&& told matches Err(fault) ==> action == SessionActionView::Close(
                Closure::Fault(fault),
            )
        }),
{
}

/// A broadcast that ends a session closes it, and nothing is done or told
/// afterwards, whatever arrives.
pub proof fn lemma_fatal_broadcast_ends_session(
    session: SessionView,
    broadcast: BroadcastActionView,
    afterwards: SessionEventView,
)
    requires
        !session.closed,
        plan_of(broadcast, session.identity.player, session.identity.team) is Err,
    ensures
        ({
            let (ended, action) = session_step(session, SessionEventView::Broadcast(broadcast));
            &&& action is Close
            &&& ended.closed
            &&& session_step(ended, afterwards) == (ended, SessionActionView::Nothing)
        }),
{
}

/// A broadcast that does not name the connection of a session leaves the
/// session as it is and the client is told nothing; unless the broadcast
/// is global or concerns everyone.
pub proof fn lemma_unnamed_session_is_told_nothing(
    session: SessionView,
    broadcast: BroadcastActionView,
)
    requires
        !names_connection(broadcast, session.identity.player, session.identity.team),
        !is_global(broadcast),
        !concerns_everyone(broadcast),
    ensures
        session_step(session, SessionEventView::Broadcast(broadcast)) == (
            session,
            SessionActionView::Nothing,
        ),
{
}

} // verus!
