//! What ends a session from within.

use vstd::prelude::*;

verus! {

/// Why a session cannot go on. The connection is closed on any of these,
/// and the client logs in again for a fresh identity.
#[derive(Clone, Copy, Debug, PartialEq, Eq)]
pub enum SessionFault {
    /// The engine moved the connection's player to another session.
    SessionChanged,
    /// The engine moved the connection's player to another team.
    TeamChanged,
    /// The engine deleted the connection's player.
    PlayerDeleted,
    /// The engine sent the state of the session, and the connection's
    /// player is on none of its teams.
    NotOnAnyTeam,
    /// The engine was asked for the state of the session and answered with
    /// something else.
    StateUnavailable,
    /// No token is left to mark another command with.
    TokensExhausted,
}

} // verus!
