//! The audit trail: records appended when players leave a pending game.
use vstd::prelude::*;

use crate::game::Identity;

verus! {

/// Payload of the event recorded when a player leaves a pending game.
#[derive(Debug)]
pub struct PlayerLeftPendingData {
    pub game_id: u64,
    pub player: Identity,
    pub stake_refunded: u128,
    pub remaining_players: u32,
}

impl Clone for PlayerLeftPendingData {
    fn clone(&self) -> (r: Self)
        ensures
            r == *self,
    {
        PlayerLeftPendingData {
            game_id: self.game_id,
            player: self.player.clone(),
            stake_refunded: self.stake_refunded,
            remaining_players: self.remaining_players,
        }
    }
}

/// Payload of the event recorded when the last player leaves and the lobby
/// closes by itself.
#[derive(Clone, Copy, Debug, PartialEq, Eq, Structural)]
pub struct PendingGameEndedData {
    pub game_id: u64,
}

/// One entry of the append-only event log.
#[derive(Debug)]
pub enum GameEvent {
    /// Topic `PlayerLeftPending`, indexed by the player.
    PlayerLeftPending(PlayerLeftPendingData),
    /// Topic `PendingGameEnded`, indexed by the game id.
    PendingGameEnded(PendingGameEndedData),
}

impl GameEvent {
    /// The topic name under which the event is published.
    pub fn topic(&self) -> (r: &'static str)
        ensures
            self is PlayerLeftPending ==> r@ == "PlayerLeftPending"@,
            self is PendingGameEnded ==> r@ == "PendingGameEnded"@,
    {
        proof {
            reveal_strlit("PlayerLeftPending");
            reveal_strlit("PendingGameEnded");
        }
        match self {
            GameEvent::PlayerLeftPending(_) => "PlayerLeftPending",
            GameEvent::PendingGameEnded(_) => "PendingGameEnded",
        }
    }
}

/// Appends a `PlayerLeftPending` record to the log.
pub fn emit_player_left_pending(log: &mut Vec<GameEvent>, data: &PlayerLeftPendingData)
    ensures
        final(log)@ == old(log)@.push(GameEvent::PlayerLeftPending(*data)),
{
    log.push(GameEvent::PlayerLeftPending(data.clone()));
}

/// Appends a `PendingGameEnded` record to the log.
pub fn emit_pending_game_ended(log: &mut Vec<GameEvent>, data: &PendingGameEndedData)
    ensures
        final(log)@ == old(log)@.push(GameEvent::PendingGameEnded(*data)),
{
    log.push(GameEvent::PendingGameEnded(*data));
}

} // verus!
