//! The game record, its settings record, and the identities that act on them.
use vstd::prelude::*;

use crate::types::GameStatus;

verus! {

/// A participant's address, as the text that names it on the ledger.
///
/// Two identities are the same exactly when their texts are equal.
#[derive(Debug)]
pub struct Identity {
    pub address: String,
}

impl View for Identity {
    type V = Seq<char>;

    open spec fn view(&self) -> Seq<char> {
        self.address@
    }
}

impl Identity {
    pub fn new(address: String) -> (r: Identity)
        ensures
            r.address == address,
    {
        Identity { address }
    }

    /// Identity equality: the two texts are equal, character for character.
    pub fn same_as(&self, other: &Identity) -> (r: bool)
        ensures
            r == (self@ == other@),
    {
        self.address == other.address
    }
}

impl Clone for Identity {
    fn clone(&self) -> (r: Self)
        ensures
            r == *self,
    {
        Identity { address: self.address.clone() }
    }
}

impl PartialEq for Identity {
    fn eq(&self, other: &Identity) -> (r: bool) {
        self.address == other.address
    }
}

impl vstd::std_specs::cmp::PartialEqSpecImpl for Identity {
    open spec fn obeys_eq_spec() -> bool {
        true
    }

    open spec fn eq_spec(&self, other: &Identity) -> bool {
        self@ == other@
    }
}

impl Eq for Identity {
}

/// Who may discover a game.
#[derive(Clone, Copy, Debug, PartialEq, Eq, Structural)]
pub enum GameMode {
    Public,
    Private,
}

/// A game session: its membership, phase and escrow bookkeeping.
#[derive(Debug)]
pub struct Game {
    pub id: u64,
    pub code: String,
    pub creator: Identity,
    pub status: GameStatus,
    pub winner: Option<Identity>,
    pub number_of_players: u32,
    pub joined_players: Vec<Identity>,
    pub mode: GameMode,
    pub ai: bool,
    pub stake_per_player: u128,
    pub total_staked: u128,
    pub created_at: u64,
    pub ended_at: u64,
}

/// The mathematical content of a [`Game`]: identities are their texts and
/// the membership is a sequence.
pub struct GameView {
    pub id: u64,
    pub code: Seq<char>,
    pub creator: Seq<char>,
    pub status: GameStatus,
    pub winner: Option<Seq<char>>,
    pub number_of_players: u32,
    pub joined_players: Seq<Seq<char>>,
    pub mode: GameMode,
    pub ai: bool,
    pub stake_per_player: u128,
    pub total_staked: u128,
    pub created_at: u64,
    pub ended_at: u64,
}

pub open spec fn members_view(v: Seq<Identity>) -> Seq<Seq<char>> {
    v.map_values(|i: Identity| i@)
}

pub open spec fn winner_view(w: Option<Identity>) -> Option<Seq<char>> {
    match w {
        Some(i) => Some(i@),
        None => None,
    }
}

impl View for Game {
    type V = GameView;

    open spec fn view(&self) -> GameView {
        GameView {
            id: self.id,
            code: self.code@,
            creator: self.creator@,
            status: self.status,
            winner: winner_view(self.winner),
            number_of_players: self.number_of_players,
            joined_players: members_view(self.joined_players@),
            mode: self.mode,
            ai: self.ai,
            stake_per_player: self.stake_per_player,
            total_staked: self.total_staked,
            created_at: self.created_at,
            ended_at: self.ended_at,
        }
    }
}

/// The escrow invariant of a pending game: the pool holds exactly one
/// stake for each member.
pub open spec fn stake_balanced(g: GameView) -> bool {
    g.status == GameStatus::Pending ==> g.total_staked == g.stake_per_player * g.joined_players.len()
}

/// Copies a membership list, keeping every entry and its position.
pub fn clone_members(v: &Vec<Identity>) -> (r: Vec<Identity>)
    ensures
        r@ == v@,
{
    let mut r: Vec<Identity> = Vec::new();
    let mut i: usize = 0;
    while i < v.len()
        invariant
            i <= v.len(),
            r@ == v@.subrange(0, i as int),
        decreases v.len() - i,
    {
        r.push(v[i].clone());
        i = i + 1;
    }
    assert(r@ =~= v@);
    r
}

impl Clone for Game {
    fn clone(&self) -> (r: Self)
        ensures
            r@ == self@,
            r.joined_players@ == self.joined_players@,
    {
        let winner = match &self.winner {
            Some(w) => Some(w.clone()),
            None => None,
        };
        Game {
            id: self.id,
            code: self.code.clone(),
            creator: self.creator.clone(),
            status: self.status,
            winner,
            number_of_players: self.number_of_players,
            joined_players: clone_members(&self.joined_players),
            mode: self.mode,
            ai: self.ai,
            stake_per_player: self.stake_per_player,
            total_staked: self.total_staked,
            created_at: self.created_at,
            ended_at: self.ended_at,
        }
    }
}

/// Configuration of a game that plays no part in escrow: stored and read
/// on its own, under the same id as the game.
#[derive(Debug)]
pub struct GameSettings {
    pub max_players: u32,
    pub auction: bool,
    pub starting_cash: u32,
    pub private_room_code: String,
}

impl Clone for GameSettings {
    fn clone(&self) -> (r: Self)
        ensures
            r == *self,
    {
        GameSettings {
            max_players: self.max_players,
            auction: self.auction,
            starting_cash: self.starting_cash,
            private_room_code: self.private_room_code.clone(),
        }
    }
}

} // verus!
