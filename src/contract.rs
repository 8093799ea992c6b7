//! The game contract: its record store (games, settings, the administrative
//! slots and the id counter), the one-time setup, leaving a pending game,
//! and the read-only views.
use vstd::prelude::*;

use std::collections::HashMap;

use crate::events::GameEvent;
use crate::game::{Game, GameSettings, GameView, Identity};
use crate::session::{
    after_leave, first_index, leave_error, leave_events, lemma_first_index_unique, plan_leave,
    GameError, LeavePlan,
};

verus! {

broadcast use vstd::std_specs::hash::group_hash_axioms;

/// One allocation of a game id took `before` to `after` and handed out `id`:
/// the counter moved up by one and `id` is its new value.
pub open spec fn id_allocated(before: TycoonMainGame, after: TycoonMainGame, id: u64) -> bool {
    &&& after.counter_spec() == before.counter_spec() + 1
    &&& id == after.counter_spec()
}

/// The id that follows `last`, or `None` once the ids are used up.
pub fn next_id(last: u64) -> (r: Option<u64>)
    ensures
        last < u64::MAX ==> r == Some((last + 1) as u64),
        last == u64::MAX ==> r is None,
{
    last.checked_add(1)
}

/// Why the one-time setup is refused, if it is: it ran already, or the
/// proposed owner did not prove its identity.
pub fn setup_refusal(initialized: bool, authorized: bool) -> (r: Option<GameError>)
    ensures
        initialized ==> r == Some(GameError::AlreadyInitialized),
        !initialized && !authorized ==> r == Some(GameError::Unauthorized),
        !initialized && authorized ==> r is None,
{
    if initialized {
        Some(GameError::AlreadyInitialized)
    } else if !authorized {
        Some(GameError::Unauthorized)
    } else {
        None
    }
}

/// What a read of a game hands back, as a view.
pub open spec fn game_read_view(r: Option<Game>) -> Option<GameView> {
    match r {
        Some(g) => Some(g@),
        None => None,
    }
}

/// Ids handed out by successive allocations, starting from a fresh counter
/// and with any other operations in between that leave the counter alone,
/// are 1, 2, 3, ...: each is larger than the one before and none comes
/// twice.
pub proof fn lemma_ids_increase(
    before: Seq<TycoonMainGame>,
    after: Seq<TycoonMainGame>,
    ids: Seq<u64>,
)
    requires
        before.len() == ids.len(),
        after.len() == ids.len(),
        ids.len() > 0 ==> before[0].counter_spec() == 0,
        forall|i: int| 0 <= i < ids.len() ==> id_allocated(before[i], after[i], #[trigger] ids[i]),
        forall|i: int|
            0 <= i < ids.len() - 1 ==> #[trigger] before[i + 1].counter_spec()
                == after[i].counter_spec(),
    ensures
        forall|i: int| 0 <= i < ids.len() ==> #[trigger] ids[i] == i + 1,
        forall|i: int, j: int| 0 <= i < j < ids.len() ==> ids[i] < ids[j],
{
    assert forall|i: int| 0 <= i < ids.len() implies #[trigger] ids[i] == i + 1 by {
        lemma_id_at(before, after, ids, i);
    }
}

proof fn lemma_id_at(before: Seq<TycoonMainGame>, after: Seq<TycoonMainGame>, ids: Seq<u64>, i: int)
    requires
        before.len() == ids.len(),
        after.len() == ids.len(),
        ids.len() > 0 ==> before[0].counter_spec() == 0,
        forall|i: int| 0 <= i < ids.len() ==> id_allocated(before[i], after[i], #[trigger] ids[i]),
        forall|i: int|
            0 <= i < ids.len() - 1 ==> #[trigger] before[i + 1].counter_spec()
                == after[i].counter_spec(),
        0 <= i < ids.len(),
    ensures
        ids[i] == i + 1,
        after[i].counter_spec() == i + 1,
    decreases i,
{
    assert(id_allocated(before[i], after[i], ids[i]));
    if i > 0 {
        lemma_id_at(before, after, ids, i - 1);
        assert(before[(i - 1) + 1].counter_spec() == after[i - 1].counter_spec());
    }
}

/// Reading a game twice from one state gives the same record, and so does
/// reading its settings twice.
pub proof fn lemma_reads_repeat(
    s: TycoonMainGame,
    game_id: u64,
    first: Option<Game>,
    second: Option<Game>,
    first_settings: Option<GameSettings>,
    second_settings: Option<GameSettings>,
)
    requires
        game_read_view(first) == s.read_game(game_id),
        game_read_view(second) == s.read_game(game_id),
        first_settings == s.read_settings(game_id),
        second_settings == s.read_settings(game_id),
    ensures
        game_read_view(first) == game_read_view(second),
        first_settings == second_settings,
{
}

/// The state of the game contract.
#[derive(Debug)]
pub struct TycoonMainGame {
    initialized: bool,
    owner: Option<Identity>,
    reward_system: Option<Identity>,
    usdc_token: Option<Identity>,
    registered: Vec<Identity>,
    games: HashMap<u64, Game>,
    settings: HashMap<u64, GameSettings>,
    game_counter: u64,
    events: Vec<GameEvent>,
}

impl TycoonMainGame {
    /// Whether the one-time setup has run.
    pub closed spec fn initialized_spec(&self) -> bool {
        self.initialized
    }

    /// The administrative owner, once set up.
    pub closed spec fn owner_spec(&self) -> Option<Identity> {
        self.owner
    }

    /// The reward subsystem's address, once set up.
    pub closed spec fn reward_system_spec(&self) -> Option<Identity> {
        self.reward_system
    }

    /// The escrow token's address, once set up.
    pub closed spec fn usdc_token_spec(&self) -> Option<Identity> {
        self.usdc_token
    }

    /// The registered players.
    pub closed spec fn registered_spec(&self) -> Seq<Seq<char>> {
        crate::game::members_view(self.registered@)
    }

    /// The stored games, by id.
    pub closed spec fn game_records(&self) -> Map<u64, GameView> {
        Map::new(|k: u64| self.games@.contains_key(k), |k: u64| self.games@[k]@)
    }

    /// The stored settings, by game id.
    pub closed spec fn settings_records(&self) -> Map<u64, GameSettings> {
        self.settings@
    }

    /// The last id handed out; zero before the first.
    pub closed spec fn counter_spec(&self) -> u64 {
        self.game_counter
    }

    /// The event log, oldest first.
    pub closed spec fn log(&self) -> Seq<GameEvent> {
        self.events@
    }

    /// Each game is stored under its own id, and a contract that is set up
    /// holds its three addresses.
    pub closed spec fn wf(&self) -> bool {
        &&& forall|k: u64| #[trigger] self.games@.contains_key(k) ==> self.games@[k].id == k
        &&& self.initialized ==> self.owner is Some && self.reward_system is Some
            && self.usdc_token is Some
    }

    /// The game stored under `game_id`, if any.
    pub open spec fn read_game(&self, game_id: u64) -> Option<GameView> {
        if self.game_records().contains_key(game_id) {
            Some(self.game_records()[game_id])
        } else {
            None
        }
    }

    /// The settings stored under `game_id`, if any.
    pub open spec fn read_settings(&self, game_id: u64) -> Option<GameSettings> {
        if self.settings_records().contains_key(game_id) {
            Some(self.settings_records()[game_id])
        } else {
            None
        }
    }

    /// Which refusal, if any, leaving game `game_id` as `player` meets.
    pub open spec fn leave_refusal(&self, game_id: u64, player: Seq<char>, authorized: bool) -> Option<
        GameError,
    > {
        if !self.initialized_spec() {
            Some(GameError::NotInitialized)
        } else if !self.game_records().contains_key(game_id) {
            Some(GameError::NotFound)
        } else if !authorized {
            Some(GameError::Unauthorized)
        } else {
            leave_error(self.game_records()[game_id], player)
        }
    }

    /// A contract that has not been set up, with no records and no events.
    pub fn new() -> (r: TycoonMainGame)
        ensures
            r.wf(),
            !r.initialized_spec(),
            r.owner_spec() is None,
            r.reward_system_spec() is None,
            r.usdc_token_spec() is None,
            r.registered_spec().len() == 0,
            r.game_records() == Map::<u64, GameView>::empty(),
            r.settings_records() == Map::<u64, GameSettings>::empty(),
            r.counter_spec() == 0,
            r.log().len() == 0,
    {
        let r = TycoonMainGame {
            initialized: false,
            owner: None,
            reward_system: None,
            usdc_token: None,
            registered: Vec::new(),
            games: HashMap::new(),
            settings: HashMap::new(),
            game_counter: 0,
            events: Vec::new(),
        };
        assert(r.game_records() =~= Map::<u64, GameView>::empty());
        assert(r.registered_spec() =~= Seq::<Seq<char>>::empty());
        r
    }

    /// `player` leaves the pending game `game_id` at time `now`;
    /// `authorized` says whether the player proved its own identity.
    ///
    /// Refusals come in this order: the contract is not set up
    /// (`NotInitialized`), there is no such game (`NotFound`), the proof
    /// failed (`Unauthorized`), the game is not pending (`InvalidPhase`),
    /// the player is not a member (`NotAMember`); each leaves the state as
    /// it was. Otherwise the player's first entry is removed and the others
    /// keep their order, one stake leaves `total_staked` (floored at zero),
    /// an emptied lobby ends at `now` with no winner, the updated game is
    /// stored, and a `PlayerLeftPending` event is logged, followed by a
    /// `PendingGameEnded` event when nobody is left.
    ///
    /// The result is the stake owed back to the player. The host pays it
    /// through the escrow token before it commits this state, and discards
    /// the state if the payment fails.
    pub fn leave_pending_game(&mut self, game_id: u64, player: &Identity, authorized: bool, now: u64) -> (r: Result<u128, GameError>)
        requires
            old(self).wf(),
        ensures
            final(self).wf(),
            r is Ok <==> old(self).leave_refusal(game_id, player@, authorized) is None,
            r matches Err(e) ==> old(self).leave_refusal(game_id, player@, authorized) == Some(e)
                && *final(self) == *old(self),
            r matches Ok(refund) ==> {
                let g = old(self).game_records()[game_id];
                let left = after_leave(g, first_index(g.joined_players, player@), now);
                &&& refund == g.stake_per_player
                &&& final(self).game_records() == old(self).game_records().insert(game_id, left)
                &&& final(self).log() == old(self).log() + leave_events(
                    game_id,
                    *player,
                    g.stake_per_player,
                    left.joined_players.len(),
                )
                &&& final(self).settings_records() == old(self).settings_records()
                &&& final(self).counter_spec() == old(self).counter_spec()
                &&& final(self).initialized_spec() == old(self).initialized_spec()
                &&& final(self).owner_spec() == old(self).owner_spec()
                &&& final(self).reward_system_spec() == old(self).reward_system_spec()
                &&& final(self).usdc_token_spec() == old(self).usdc_token_spec()
                &&& final(self).registered_spec() == old(self).registered_spec()
            },
    {
        if !self.initialized {
            return Err(GameError::NotInitialized);
        }
        let plan = match self.games.get(&game_id) {
            None => {
                return Err(GameError::NotFound);
            },
            Some(g) => {
                if !authorized {
                    return Err(GameError::Unauthorized);
                }
                match plan_leave(g, player, now) {
                    Err(e) => {
                        return Err(e);
                    },
                    Ok(p) => p,
                }
            },
        };
        let ghost old_games = self.games@;
        let ghost g = self.game_records()[game_id];
        proof {
            lemma_first_index_unique(g.joined_players, player@, plan.index as int);
        }
        let LeavePlan { game, refund, mut events, .. } = plan;
        self.games.insert(game_id, game);
        self.events.append(&mut events);
        assert(self.game_records() =~= old(self).game_records().insert(game_id, after_leave(g, first_index(g.joined_players, player@), now)));
        Ok(refund)
    }

    /// One-time setup: records the owner, the reward subsystem and the escrow
    /// token; `authorized` says whether the proposed owner proved its
    /// identity.
    ///
    /// A second call fails with `AlreadyInitialized`, a failed proof with
    /// `Unauthorized`; either leaves the state as it was.
    pub fn initialize(&mut self, owner: Identity, reward_system: Identity, usdc_token: Identity, authorized: bool) -> (r: Result<(), GameError>)
        requires
            old(self).wf(),
        ensures
            final(self).wf(),
            old(self).initialized_spec() ==> r == Err::<(), GameError>(GameError::AlreadyInitialized),
            !old(self).initialized_spec() && !authorized ==> r == Err::<(), GameError>(GameError::Unauthorized),
            r is Err ==> *final(self) == *old(self),
            !old(self).initialized_spec() && authorized ==> {
                &&& r is Ok
                &&& final(self).initialized_spec()
                &&& final(self).owner_spec() == Some(owner)
                &&& final(self).reward_system_spec() == Some(reward_system)
                &&& final(self).usdc_token_spec() == Some(usdc_token)
                &&& final(self).game_records() == old(self).game_records()
                &&& final(self).settings_records() == old(self).settings_records()
                &&& final(self).counter_spec() == old(self).counter_spec()
                &&& final(self).log() == old(self).log()
                &&& final(self).registered_spec() == old(self).registered_spec()
            },
    {
        if let Some(e) = setup_refusal(self.initialized, authorized) {
            return Err(e);
        }
        self.owner = Some(owner);
        self.reward_system = Some(reward_system);
        self.usdc_token = Some(usdc_token);
        self.initialized = true;
        Ok(())
    }

    /// Whether the one-time setup has run.
    pub fn is_initialized(&self) -> (r: bool)
        ensures
            r == self.initialized_spec(),
    {
        self.initialized
    }

    /// The owner recorded at setup.
    pub fn get_owner(&self) -> (r: Identity)
        requires
            self.wf(),
            self.initialized_spec(),
        ensures
            Some(r) == self.owner_spec(),
    {
        self.owner.as_ref().unwrap().clone()
    }

    /// The reward subsystem's address recorded at setup.
    pub fn get_reward_system(&self) -> (r: Identity)
        requires
            self.wf(),
            self.initialized_spec(),
        ensures
            Some(r) == self.reward_system_spec(),
    {
        self.reward_system.as_ref().unwrap().clone()
    }

    /// The escrow token's address recorded at setup.
    pub fn get_usdc_token(&self) -> (r: Identity)
        requires
            self.wf(),
            self.initialized_spec(),
        ensures
            Some(r) == self.usdc_token_spec(),
    {
        self.usdc_token.as_ref().unwrap().clone()
    }

    /// Whether `address` is a registered player.
    pub fn is_registered(&self, address: &Identity) -> (r: bool)
        ensures
            r == self.registered_spec().contains(address@),
    {
        crate::session::find_member(&self.registered, address).is_some()
    }

    /// The game stored under `game_id`, if any.
    pub fn get_game(&self, game_id: u64) -> (r: Option<Game>)
        ensures
            game_read_view(r) == self.read_game(game_id),
    {
        match self.games.get(&game_id) {
            Some(g) => Some(g.clone()),
            None => None,
        }
    }

    /// The settings stored under `game_id`, if any.
    pub fn get_game_settings(&self, game_id: u64) -> (r: Option<GameSettings>)
        ensures
            r == self.read_settings(game_id),
    {
        match self.settings.get(&game_id) {
            Some(s) => Some(s.clone()),
            None => None,
        }
    }

    /// Stores `game` under its own id, replacing any game stored there.
    pub fn set_game(&mut self, game: Game)
        requires
            old(self).wf(),
        ensures
            final(self).wf(),
            final(self).game_records() == old(self).game_records().insert(game.id, game@),
            final(self).settings_records() == old(self).settings_records(),
            final(self).counter_spec() == old(self).counter_spec(),
            final(self).log() == old(self).log(),
            final(self).initialized_spec() == old(self).initialized_spec(),
            final(self).owner_spec() == old(self).owner_spec(),
            final(self).reward_system_spec() == old(self).reward_system_spec(),
            final(self).usdc_token_spec() == old(self).usdc_token_spec(),
            final(self).registered_spec() == old(self).registered_spec(),
    {
        let ghost v = game@;
        let id = game.id;
        self.games.insert(id, game);
        assert(self.game_records() =~= old(self).game_records().insert(id, v));
    }

    /// Stores `settings` under `game_id`, replacing any settings stored there.
    pub fn set_game_settings(&mut self, game_id: u64, settings: GameSettings)
        requires
            old(self).wf(),
        ensures
            final(self).wf(),
            final(self).settings_records() == old(self).settings_records().insert(game_id, settings),
            final(self).game_records() == old(self).game_records(),
            final(self).counter_spec() == old(self).counter_spec(),
            final(self).log() == old(self).log(),
            final(self).initialized_spec() == old(self).initialized_spec(),
            final(self).owner_spec() == old(self).owner_spec(),
            final(self).reward_system_spec() == old(self).reward_system_spec(),
            final(self).usdc_token_spec() == old(self).usdc_token_spec(),
            final(self).registered_spec() == old(self).registered_spec(),
    {
        self.settings.insert(game_id, settings);
        assert(self.game_records() =~= old(self).game_records());
    }

    /// The last id handed out; zero before the first.
    pub fn game_counter(&self) -> (r: u64)
        ensures
            r == self.counter_spec(),
    {
        self.game_counter
    }

    /// Hands out the next game id: one more than the last, starting at 1.
    pub fn next_game_id(&mut self) -> (r: u64)
        requires
            old(self).wf(),
            old(self).counter_spec() < u64::MAX,
        ensures
            final(self).wf(),
            id_allocated(*old(self), *final(self), r),
            final(self).game_records() == old(self).game_records(),
            final(self).settings_records() == old(self).settings_records(),
            final(self).log() == old(self).log(),
            final(self).initialized_spec() == old(self).initialized_spec(),
            final(self).owner_spec() == old(self).owner_spec(),
            final(self).reward_system_spec() == old(self).reward_system_spec(),
            final(self).usdc_token_spec() == old(self).usdc_token_spec(),
            final(self).registered_spec() == old(self).registered_spec(),
    {
        self.game_counter = match next_id(self.game_counter) {
            Some(id) => id,
            None => self.game_counter,
        };
        assert(self.game_records() =~= old(self).game_records());
        self.game_counter
    }

    /// The event log, oldest first.
    pub fn events(&self) -> (r: &Vec<GameEvent>)
        ensures
            r@ == self.log(),
    {
        &self.events
    }
}

} // verus!
