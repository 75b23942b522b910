//! Which team of a session a player is on.

use crate::engine::{Team, TeamView};
use crate::views::views;
use vstd::prelude::*;

verus! {

/// Whether the player `player_id` is a member of `team`.
pub open spec fn has_player(team: TeamView, player_id: u64) -> bool {
    exists|k: int| 0 <= k < team.players.len() && (#[trigger] team.players[k]).id == player_id
}

/// Whether `place` is the place of the first team of `teams` that has the
/// player `player_id`.
pub open spec fn is_team_place(teams: Seq<TeamView>, player_id: u64, place: int) -> bool {
    &&& 0 <= place < teams.len()
    &&& has_player(teams[place], player_id)
    &&& forall|j: int| 0 <= j < place ==> !has_player(#[trigger] teams[j], player_id)
}

/// The place in `teams` of the team of the player `player_id`: that of the
/// first team that has the player, if any has.
pub open spec fn team_place(teams: Seq<TeamView>, player_id: u64) -> Option<int> {
    if exists|place: int| is_team_place(teams, player_id, place) {
        Some(choose|place: int| is_team_place(teams, player_id, place))
    } else {
        None
    }
}

/// Whether the player `player_id` is a member of any team of `teams`.
pub open spec fn on_a_team(teams: Seq<TeamView>, player_id: u64) -> bool {
    exists|place: int| 0 <= place < teams.len() && has_player(#[trigger] teams[place], player_id)
}

/// There is at most one first team of a player.
pub proof fn lemma_team_place_is_unique(teams: Seq<TeamView>, player_id: u64, a: int, b: int)
    requires
        is_team_place(teams, player_id, a),
        is_team_place(teams, player_id, b),
    ensures
        a == b,
{
}

/// Says whether the player `player_id` is a member of `team`.
pub fn team_has_player(team: &Team, player_id: u64) -> (found: bool)
    ensures
        found == has_player(team@, player_id),
{
    let mut k: usize = 0;
    while k < team.players.len()
        invariant
            k <= team.players@.len(),
            forall|j: int| 0 <= j < k ==> team.players@[j].id != player_id,
        decreases team.players@.len() - k,
    {
        if team.players[k].id == player_id {
            assert(team@.players[k as int].id == player_id);
            return true;
        }
        k += 1;
    }
    assert forall|j: int| 0 <= j < team@.players.len() implies (#[trigger] team@.players[j]).id
        != player_id by {
    }
    false
}

/// Finds the place in `teams` of the team of the player `player_id`.
pub fn find_team(teams: &Vec<Team>, player_id: u64) -> (found: Option<usize>)
    ensures
        match found {
            Some(place) => team_place(views(teams@), player_id) == Some(place as int),
            None => team_place(views(teams@), player_id).is_none(),
        },
{
    let ghost all = views(teams@);
    let mut place: usize = 0;
    while place < teams.len()
        invariant
            all == views(teams@),
            place <= teams@.len(),
            forall|j: int| 0 <= j < place ==> !has_player(#[trigger] all[j], player_id),
        decreases teams@.len() - place,
    {
        if team_has_player(&teams[place], player_id) {
            proof {
                assert(is_team_place(all, player_id, place as int));
                let chosen = choose|p: int| is_team_place(all, player_id, p);
                lemma_team_place_is_unique(all, player_id, chosen, place as int);
            }
            return Some(place);
        }
        place += 1;
    }
    None
}

/// A player has a place among the teams exactly when the player is on one
/// of them, and the place is then that of the player's first team.
pub proof fn lemma_place_exists_iff_on_a_team(teams: Seq<TeamView>, player_id: u64)
    ensures
        team_place(teams, player_id).is_some() <==> on_a_team(teams, player_id),
        team_place(teams, player_id) matches Some(place) ==> is_team_place(teams, player_id, place),
{
    if on_a_team(teams, player_id) {
        let some = choose|place: int|
            0 <= place < teams.len() && has_player(#[trigger] teams[place], player_id);
        lemma_first_team_exists(teams, player_id, some);
    }
}

/// Where a team has a player, some team is the first to have the player.
proof fn lemma_first_team_exists(teams: Seq<TeamView>, player_id: u64, upto: int)
    requires
        0 <= upto < teams.len(),
        has_player(teams[upto], player_id),
    ensures
        exists|place: int| is_team_place(teams, player_id, place),
    decreases upto,
{
    if exists|j: int| 0 <= j < upto && has_player(#[trigger] teams[j], player_id) {
        let earlier = choose|j: int| 0 <= j < upto && has_player(#[trigger] teams[j], player_id);
        lemma_first_team_exists(teams, player_id, earlier);
    } else {
        assert(is_team_place(teams, player_id, upto));
    }
}

} // verus!
