//! Leaving a pending game: validation, stable removal of the member, escrow
//! bookkeeping, the automatic end of an emptied lobby, and the events that
//! record it.
use vstd::prelude::*;

use crate::events::{
    emit_pending_game_ended, emit_player_left_pending, GameEvent, PendingGameEndedData,
    PlayerLeftPendingData,
};
use crate::game::{clone_members, members_view, stake_balanced, Game, GameView, Identity};
use crate::types::GameStatus;

verus! {

/// Why an operation was refused. Every refusal leaves the state as it was.
#[derive(Clone, Copy, Debug, PartialEq, Eq, Structural)]
pub enum GameError {
    /// The contract was set up already.
    AlreadyInitialized,
    /// A mutating operation came before the contract was set up.
    NotInitialized,
    /// No game has the requested id.
    NotFound,
    /// The game is not in the phase the operation needs.
    InvalidPhase,
    /// The actor is not among the game's members.
    NotAMember,
    /// The actor could not prove its identity.
    Unauthorized,
}

/// `i` is the position of the first occurrence of `x` in `s`.
pub open spec fn is_first_index(s: Seq<Seq<char>>, x: Seq<char>, i: int) -> bool {
    &&& 0 <= i < s.len()
    &&& s[i] == x
    &&& forall|j: int| 0 <= j < i ==> s[j] != x
}

/// Subtraction floored at zero.
pub open spec fn floor_sub(a: u128, b: u128) -> u128 {
    if a >= b {
        (a - b) as u128
    } else {
        0
    }
}

/// A member count as carried by an event: the count itself, or `u32::MAX`
/// where it does not fit.
pub open spec fn count_u32(n: nat) -> u32 {
    if n > u32::MAX {
        u32::MAX
    } else {
        n as u32
    }
}

/// Which refusal, if any, leaving `g` as `player` meets once the game has
/// been found and the player has proved its identity.
pub open spec fn leave_error(g: GameView, player: Seq<char>) -> Option<GameError> {
    if g.status != GameStatus::Pending {
        Some(GameError::InvalidPhase)
    } else if !g.joined_players.contains(player) {
        Some(GameError::NotAMember)
    } else {
        None
    }
}

/// The game after the member at position `i` has left at time `now`: the
/// others keep their order, one stake leaves the pool (floored at zero),
/// and an emptied lobby ends with no winner.
pub open spec fn after_leave(g: GameView, i: int, now: u64) -> GameView {
    let members = g.joined_players.remove(i);
    let drained = members.len() == 0;
    GameView {
        joined_players: members,
        total_staked: floor_sub(g.total_staked, g.stake_per_player),
        status: if drained {
            GameStatus::Ended
        } else {
            g.status
        },
        ended_at: if drained {
            now
        } else {
            g.ended_at
        },
        ..g
    }
}

/// The events recorded when `player` leaves game `game_id`, `remaining`
/// members staying behind.
pub open spec fn leave_events(game_id: u64, player: Identity, stake: u128, remaining: nat) -> Seq<
    GameEvent,
> {
    let left = GameEvent::PlayerLeftPending(
        PlayerLeftPendingData {
            game_id,
            player,
            stake_refunded: stake,
            remaining_players: count_u32(remaining),
        },
    );
    if remaining == 0 {
        seq![left, GameEvent::PendingGameEnded(PendingGameEndedData { game_id })]
    } else {
        seq![left]
    }
}

/// The first position of `x` in `s`, where `x` occurs in `s`.
pub open spec fn first_index(s: Seq<Seq<char>>, x: Seq<char>) -> int {
    choose|i: int| is_first_index(s, x, i)
}

/// There is one first position.
pub proof fn lemma_first_index_unique(s: Seq<Seq<char>>, x: Seq<char>, i: int)
    requires
        is_first_index(s, x, i),
    ensures
        first_index(s, x) == i,
{
    let k = first_index(s, x);
    assert(is_first_index(s, x, k));
    if k < i {
        assert(s[k] != x);
    } else if i < k {
        assert(s[i] != x);
    }
}

/// Where `x` occurs in `s`, it has a first position.
pub proof fn lemma_first_index_exists(s: Seq<Seq<char>>, x: Seq<char>)
    requires
        s.contains(x),
    ensures
        is_first_index(s, x, first_index(s, x)),
{
    let k = choose|k: int| 0 <= k < s.len() && s[k] == x;
    lemma_first_at_or_before(s, x, k);
}

proof fn lemma_first_at_or_before(s: Seq<Seq<char>>, x: Seq<char>, k: int)
    requires
        0 <= k < s.len(),
        s[k] == x,
    ensures
        is_first_index(s, x, first_index(s, x)),
    decreases k,
{
    if forall|j: int| 0 <= j < k ==> s[j] != x {
        assert(is_first_index(s, x, k));
    } else {
        let j = choose|j: int| 0 <= j < k && s[j] == x;
        lemma_first_at_or_before(s, x, j);
    }
}

/// A pending game whose pool holds one stake per member still does so after
/// a member leaves and it stays pending; when the last member leaves the
/// pool is empty.
pub proof fn lemma_leave_keeps_stake_balanced(g: GameView, player: Seq<char>, now: u64)
    requires
        stake_balanced(g),
        leave_error(g, player) is None,
    ensures
        stake_balanced(after_leave(g, first_index(g.joined_players, player), now)),
        after_leave(g, first_index(g.joined_players, player), now).joined_players.len() == 0
            ==> after_leave(g, first_index(g.joined_players, player), now).total_staked == 0,
{
    lemma_first_index_exists(g.joined_players, player);
    let n = g.joined_players.len();
    let stake = g.stake_per_player as int;
    assert(n >= 1);
    assert(stake * n - stake == stake * (n - 1)) by (nonlinear_arith);
    assert(stake * n >= stake) by (nonlinear_arith)
        requires
            n >= 1,
            stake >= 0,
    ;
}

/// When a member leaves, those before it keep their positions and those
/// after it move up by one: the remaining members keep their relative order.
pub proof fn lemma_leave_keeps_order(g: GameView, player: Seq<char>, now: u64)
    requires
        leave_error(g, player) is None,
    ensures
        ({
            let s = g.joined_players;
            let k = first_index(s, player);
            let r = after_leave(g, k, now).joined_players;
            &&& 0 <= k < s.len()
            &&& r.len() == s.len() - 1
            &&& forall|j: int| 0 <= j < k ==> r[j] == s[j]
            &&& forall|j: int| k <= j < r.len() ==> r[j] == s[j + 1]
        }),
{
    lemma_first_index_exists(g.joined_players, player);
}

/// A leave that empties the lobby ends the game with no winner and records
/// two events, `PlayerLeftPending` then `PendingGameEnded`; any other leave
/// keeps the game pending and records the `PlayerLeftPending` event alone.
pub proof fn lemma_drained_lobby_ends(g: GameView, player: Identity, now: u64)
    requires
        leave_error(g, player@) is None,
    ensures
        ({
            let after = after_leave(g, first_index(g.joined_players, player@), now);
            let events = leave_events(g.id, player, g.stake_per_player, after.joined_players.len());
            &&& after.joined_players.len() == 0 ==> {
                &&& after.status == GameStatus::Ended
                &&& after.winner == g.winner
                &&& after.ended_at == now
                &&& events.len() == 2
                &&& events[0] is PlayerLeftPending
                &&& events[1] == GameEvent::PendingGameEnded(PendingGameEndedData { game_id: g.id })
            }
            &&& after.joined_players.len() > 0 ==> {
                &&& after.status == GameStatus::Pending
                &&& events.len() == 1
                &&& events[0] is PlayerLeftPending
            }
        }),
{
}

/// What leaving a game amounts to, before anything is committed.
#[derive(Debug)]
pub struct LeavePlan {
    /// The game as it is to be stored.
    pub game: Game,
    /// Where the player stood in the membership list.
    pub index: usize,
    /// The amount the escrow must pay back to the player; nothing moves when
    /// it is zero.
    pub refund: u128,
    /// The events to record, in order.
    pub events: Vec<GameEvent>,
    /// The player still appears in the list after its first entry was
    /// removed: the record broke the rule that members are unique.
    pub duplicate_member: bool,
}

/// The position of the first entry of `v` that is `x`.
pub fn find_member(v: &Vec<Identity>, x: &Identity) -> (r: Option<usize>)
    ensures
        match r {
            Some(i) => is_first_index(members_view(v@), x@, i as int),
            None => !members_view(v@).contains(x@),
        },
{
    let mut i: usize = 0;
    while i < v.len()
        invariant
            i <= v.len(),
            forall|j: int| 0 <= j < i ==> #[trigger] members_view(v@)[j] != x@,
        decreases v.len() - i,
    {
        if v[i].same_as(x) {
            return Some(i);
        }
        i = i + 1;
    }
    assert forall|j: int| 0 <= j < members_view(v@).len() implies members_view(v@)[j] != x@ by {}
    None
}

/// Works out how `player` leaves `game` at time `now`.
///
/// Refuses a game that is not pending, then a player that is not a member.
/// Otherwise the first entry of the player is removed and the rest keep
/// their order, `total_staked` loses one stake (floored at zero), the game
/// ends at `now` if nobody is left, and the plan carries the refund and the
/// events to record.
pub fn plan_leave(game: &Game, player: &Identity, now: u64) -> (r: Result<LeavePlan, GameError>)
    ensures
        r is Ok <==> leave_error(game@, player@) is None,
        r matches Err(e) ==> leave_error(game@, player@) == Some(e),
        r matches Ok(p) ==> {
            &&& is_first_index(game@.joined_players, player@, p.index as int)
            &&& p.game@ == after_leave(game@, p.index as int, now)
            &&& p.refund == game.stake_per_player
            &&& p.events@ == leave_events(
                game.id,
                *player,
                game.stake_per_player,
                p.game@.joined_players.len(),
            )
            &&& p.duplicate_member == p.game@.joined_players.contains(player@)
        },
{
    if game.status != GameStatus::Pending {
        return Err(GameError::InvalidPhase);
    }
    let index = match find_member(&game.joined_players, player) {
        Some(i) => i,
        None => {
            return Err(GameError::NotAMember);
        },
    };
    let mut members = clone_members(&game.joined_players);
    members.remove(index);
    assert(members_view(members@) =~= members_view(game.joined_players@).remove(index as int));
    let duplicate_member = find_member(&members, player).is_some();
    let remaining_len = members.len();
    let mut next = game.clone();
    next.joined_players = members;
    next.total_staked = game.total_staked.saturating_sub(game.stake_per_player);
    if remaining_len == 0 {
        next.status = GameStatus::Ended;
        next.ended_at = now;
    }
    let remaining: u32 = if remaining_len > u32::MAX as usize {
        u32::MAX
    } else {
        remaining_len as u32
    };
    let mut events: Vec<GameEvent> = Vec::new();
    let left = PlayerLeftPendingData {
        game_id: game.id,
        player: player.clone(),
        stake_refunded: game.stake_per_player,
        remaining_players: remaining,
    };
    emit_player_left_pending(&mut events, &left);
    if remaining_len == 0 {
        emit_pending_game_ended(&mut events, &PendingGameEndedData { game_id: game.id });
    }
    proof {
        let expected = leave_events(
            game.id,
            *player,
            game.stake_per_player,
            next@.joined_players.len(),
        );
        assert(events@ =~= expected);
    }
    Ok(LeavePlan { game: next, index, refund: game.stake_per_player, events, duplicate_member })
}

} // verus!
