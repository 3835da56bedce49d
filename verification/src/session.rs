//! Sessions: one full turn of a game against the engine, and the registry
//! that holds the games in progress under their identifiers.
//!
//! The registry is a plain value. A server shares it behind a lock and holds
//! the lock for the whole of each call, so that no request sees half a turn.

use crate::board::{
    accept_move, consistent, initial_view, try_move, GameState, GameStatus, GameView, MoveError,
    Player, PlayerMove,
};
use crate::draw::lemma_initial_game_is_a_draw;
use crate::solver::{
    do_optimal_move, game_value, lemma_best_move_is_optimal, lemma_engine_turn_succeeds,
    lemma_finished_value, optimal_reply, reply_value, Error, SolverError,
};
use std::collections::HashMap;
use vstd::prelude::*;

verus! {

broadcast use vstd::std_specs::hash::group_hash_axioms;

/// Why a request to the registry failed.
#[derive(Clone, Copy, Debug, PartialEq, Eq, Structural)]
pub enum RegistryError {
    /// No game is registered under the identifier.
    SessionNotFound,
    /// The human's move was rejected.
    Move(MoveError),
    /// The engine found no move.
    Solver(SolverError),
}

impl RegistryError {
    /// The registry's error for a failed turn.
    pub open spec fn of_turn(e: Error) -> RegistryError {
        match e {
            Error::Move(m) => RegistryError::Move(m),
            Error::Solver(s) => RegistryError::Solver(s),
        }
    }

    /// Converts the error of a failed turn.
    pub fn from_turn(e: Error) -> (converted: RegistryError)
        ensures
            converted == Self::of_turn(e),
    {
        match e {
            Error::Move(m) => RegistryError::Move(m),
            Error::Solver(s) => RegistryError::Solver(s),
        }
    }
}

/// What one full turn does to a game: the human's move for `X` and then,
/// if the game is still in progress, the engine's turn.
pub open spec fn turn_outcome(game: GameView, player_move: PlayerMove) -> Result<GameView, Error> {
    match accept_move(game, Player::X, player_move) {
        Err(e) => Err(Error::Move(e)),
        Ok(after_human) => optimal_reply(after_human),
    }
}

/// Plays one full turn: `player_move` for `X`, then the engine's answer
/// unless the human's move has ended the game. A turn that fails at either
/// step leaves the game as it was.
pub fn play_turn(game_state: &mut GameState, player_move: PlayerMove) -> (result: Result<(), Error>)
    ensures
        match turn_outcome(old(game_state)@, player_move) {
            Ok(next) => result is Ok && final(game_state)@ == next,
            Err(e) => result == Err::<(), Error>(e) && *final(game_state) == *old(game_state),
        },
{
    let mut next = *game_state;
    match try_move(&mut next, Player::X, player_move) {
        Ok(()) => {},
        Err(e) => {
            return Err(Error::Move(e));
        },
    }
    if next.status == GameStatus::InProgress {
        match do_optimal_move(&mut next) {
            Ok(()) => {},
            Err(e) => {
                return Err(e);
            },
        }
    }
    *game_state = next;
    Ok(())
}

/// A game that the registry may hold: in progress, with the status that its
/// board has, waiting for the human, and not lost for the engine (`X` cannot
/// force a win).
pub open spec fn awaits_human(game: GameView) -> bool {
    &&& consistent(game)
    &&& game.status == GameStatus::InProgress
    &&& game.to_play == Player::X
    &&& game_value(game.cells, Player::X) <= 0
}

/// The initial game may be registered.
pub proof fn lemma_initial_game_awaits_human()
    ensures
        awaits_human(initial_view()),
{
    lemma_initial_game_is_a_draw();
    assert(initial_view().cells[0] is Empty);
}

/// The human cannot win against the engine: after a full turn in a game
/// that awaits the human, `X` has not won, the status is that of the board,
/// and a game that goes on awaits the human again. Such a turn fails only
/// when the human's move is out of bounds or aims at an occupied square.
pub proof fn lemma_engine_holds_its_ground(game: GameView, player_move: PlayerMove)
    requires
        awaits_human(game),
    ensures
        match turn_outcome(game, player_move) {
            Ok(next) => {
                &&& consistent(next)
                &&& next.status != GameStatus::Win(Player::X)
                &&& next.status == GameStatus::InProgress ==> awaits_human(next)
            },
            Err(e) => e == Error::Move(MoveError::OutOfBounds) || e == Error::Move(
                MoveError::CellOccupied,
            ),
        },
{
    match accept_move(game, Player::X, player_move) {
        Ok(after_human) => {
            let i = player_move.index();
            lemma_best_move_is_optimal(game.cells, Player::X);
            assert(game_value(after_human.cells, Player::O) == reply_value(
                game.cells,
                Player::X,
                i,
            ));
            if after_human.status == GameStatus::InProgress {
                lemma_engine_turn_succeeds(after_human);
                let next = optimal_reply(after_human)->Ok_0;
                if next.status != GameStatus::InProgress {
                    lemma_finished_value(next.cells, Player::X);
                }
            } else {
                lemma_finished_value(after_human.cells, Player::O);
            }
        },
        Err(_) => {},
    }
}

/// What a move request does to the registry's games, and what it returns.
pub open spec fn registry_step(
    games: Map<u128, GameView>,
    id: u128,
    player_move: PlayerMove,
) -> (Map<u128, GameView>, Result<GameView, RegistryError>) {
    if !games.contains_key(id) {
        (games, Err(RegistryError::SessionNotFound))
    } else {
        match turn_outcome(games[id], player_move) {
            Err(e) => (games, Err(RegistryError::of_turn(e))),
            Ok(next) => if next.status != GameStatus::InProgress {
                (games.remove(id), Ok(next))
            } else {
                (games.insert(id, next), Ok(next))
            },
        }
    }
}

/// A game that a request has finished is gone from the registry: the next
/// request for it finds no session.
pub proof fn lemma_finished_game_is_evicted(
    games: Map<u128, GameView>,
    id: u128,
    player_move: PlayerMove,
    later_move: PlayerMove,
)
    requires
        registry_step(games, id, player_move).1 is Ok,
        registry_step(games, id, player_move).1->Ok_0.status != GameStatus::InProgress,
    ensures
        !registry_step(games, id, player_move).0.contains_key(id),
        registry_step(registry_step(games, id, player_move).0, id, later_move).1 == Err::<
            GameView,
            RegistryError,
        >(RegistryError::SessionNotFound),
{
}

/// A request touches no session but its own, and a registry in which every
/// game awaits the human is left as such a registry.
pub proof fn lemma_registry_step_is_local(
    games: Map<u128, GameView>,
    id: u128,
    player_move: PlayerMove,
)
    requires
        forall|k: u128| #[trigger] games.contains_key(k) ==> awaits_human(games[k]),
    ensures
        forall|k: u128|
            k != id ==> (#[trigger] registry_step(games, id, player_move).0.contains_key(k)
                <==> games.contains_key(k)),
        forall|k: u128|
            k != id && games.contains_key(k) ==> #[trigger] registry_step(
                games,
                id,
                player_move,
            ).0[k] == games[k],
        forall|k: u128| #[trigger]
            registry_step(games, id, player_move).0.contains_key(k) ==> awaits_human(
                registry_step(games, id, player_move).0[k],
            ),
{
    if games.contains_key(id) {
        lemma_engine_holds_its_ground(games[id], player_move);
    }
}

/// The games in progress, each under its session identifier.
pub struct SessionRegistry {
    games: HashMap<u128, GameState>,
}

impl View for SessionRegistry {
    type V = Map<u128, GameView>;

    closed spec fn view(&self) -> Map<u128, GameView> {
        Map::new(|id: u128| self.games@.contains_key(id), |id: u128| self.games@[id]@)
    }
}

/// Whether `id` has the shape of a random (version 4) UUID: the version
/// field holds 4 and the variant field holds the bits `10`.
pub open spec fn is_random_uuid(id: u128) -> bool {
    (id >> 76) & 0xf == 4 && (id >> 62) & 0x3 == 2
}

/// Draws a random version-4 UUID with `uuid::Uuid::new_v4` and returns it as
/// the 128-bit number that `Uuid::as_u128` gives. Nothing is claimed of the
/// random bits, so two calls may return anything, even the same number; what
/// is claimed is the version and the variant, which `new_v4` sets by
/// masking. `new_v4` panics when the operating system supplies no random
/// bytes.
#[verifier::external_body]
fn fresh_session_id() -> (id: u128)
    ensures
        is_random_uuid(id),
{
    uuid::Uuid::new_v4().as_u128()
}

impl SessionRegistry {
    #[verifier::type_invariant]
    spec fn every_game_awaits_human(self) -> bool {
        forall|id: u128| #[trigger] self.games@.contains_key(id) ==> awaits_human(self.games@[id]@)
    }

    /// Takes the games out and leaves the registry empty, so that a panic
    /// while the map is being changed cannot leave a half-changed registry.
    fn take_games(&mut self) -> (games: HashMap<u128, GameState>)
        ensures
            games == old(self).games,
            final(self).games@ == Map::<u128, GameState>::empty(),
            forall|id: u128| #[trigger] games@.contains_key(id) ==> awaits_human(games@[id]@),
    {
        proof {
            use_type_invariant(&*self);
        }
        let mut games: HashMap<u128, GameState> = HashMap::new();
        std::mem::swap(&mut self.games, &mut games);
        games
    }

    /// Puts the games back.
    fn put_games(&mut self, games: HashMap<u128, GameState>)
        requires
            forall|id: u128| #[trigger] games@.contains_key(id) ==> awaits_human(games@[id]@),
        ensures
            final(self).games == games,
    {
        let mut games = games;
        std::mem::swap(&mut self.games, &mut games);
    }

    /// An empty registry.
    pub fn new() -> (registry: SessionRegistry)
        ensures
            registry@ == Map::<u128, GameView>::empty(),
    {
        let registry = SessionRegistry { games: HashMap::new() };
        assert(registry@ =~= Map::<u128, GameView>::empty());
        registry
    }

    /// The number of games in progress.
    pub fn len(&self) -> (count: usize)
        ensures
            count == self@.len(),
    {
        assert(self@.dom() =~= self.games@.dom());
        self.games.len()
    }

    /// Registers a new game under `id` and returns it. A game that was
    /// registered under `id` before is replaced.
    pub fn open_session(&mut self, id: u128) -> (game: GameState)
        ensures
            game@ == initial_view(),
            final(self)@ == old(self)@.insert(id, initial_view()),
    {
        let game = GameState::default();
        proof {
            lemma_initial_game_awaits_human();
        }
        let mut games = self.take_games();
        games.insert(id, game);
        self.put_games(games);
        assert(self@ =~= old(self)@.insert(id, initial_view()));
        game
    }

    /// Registers a new game under a random identifier, drawn as a version-4
    /// UUID, and returns both. The identifier is as unique as chance makes
    /// it: should it be in use, the game registered under it is replaced.
    pub fn new_game(&mut self) -> (created: (u128, GameState))
        ensures
            is_random_uuid(created.0),
            created.1@ == initial_view(),
            final(self)@ == old(self)@.insert(created.0, initial_view()),
    {
        let id = fresh_session_id();
        let game = self.open_session(id);
        (id, game)
    }

    /// The game registered under `id`.
    pub fn lookup(&self, id: u128) -> (found: Result<GameState, RegistryError>)
        ensures
            match found {
                Ok(game) => self@.contains_key(id) && self@[id] == game@ && awaits_human(game@),
                Err(e) => !self@.contains_key(id) && e == RegistryError::SessionNotFound,
            },
    {
        proof {
            use_type_invariant(self);
        }
        match self.games.get(&id) {
            Some(game) => Ok(*game),
            None => Err(RegistryError::SessionNotFound),
        }
    }

    /// Plays one full turn in the game registered under `id`: the human's
    /// move, then the engine's answer. The game that results is returned;
    /// it replaces the registered game while it is in progress and leaves the
    /// registry once it is finished. A failed request changes nothing.
    ///
    /// Every registered game awaits the human, so the human never wins, and
    /// a request fails only when no game is registered under `id`, when the
    /// square lies off the board or when it is taken.
    pub fn update_game_state(&mut self, id: u128, player_move: PlayerMove) -> (result: Result<
        GameState,
        RegistryError,
    >)
        ensures
            final(self)@ == registry_step(old(self)@, id, player_move).0,
            match registry_step(old(self)@, id, player_move).1 {
                Ok(next) => result is Ok && result->Ok_0@ == next,
                Err(e) => result == Err::<GameState, RegistryError>(e),
            },
            result matches Ok(game) ==> game.status != GameStatus::Win(Player::X),
            result matches Err(e) ==> e == RegistryError::SessionNotFound || e
                == RegistryError::Move(MoveError::OutOfBounds) || e == RegistryError::Move(
                MoveError::CellOccupied,
            ),
    {
        proof {
            use_type_invariant(&*self);
        }
        let mut game_state = match self.games.get(&id) {
            Some(game) => *game,
            None => {
                return Err(RegistryError::SessionNotFound);
            },
        };
        proof {
            lemma_engine_holds_its_ground(game_state@, player_move);
        }
        match play_turn(&mut game_state, player_move) {
            Ok(()) => {},
            Err(e) => {
                return Err(RegistryError::from_turn(e));
            },
        }
        let mut games = self.take_games();
        if game_state.status != GameStatus::InProgress {
            games.remove(&id);
        } else {
            games.insert(id, game_state);
        }
        self.put_games(games);
        assert(self@ =~= registry_step(old(self)@, id, player_move).0);
        Ok(game_state)
    }
}

} // verus!
