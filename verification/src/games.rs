//! The table of games in progress, and what the actions of a block do to
//! it.

use crate::bytes::append_bytes;
use crate::errors::Error;
use crate::ids::Address;
use crate::rules::{
    fen_after, fen_allows, fen_side_to_move, initial_fen, ChessMove, Color, Position,
};
use core::hash::Hasher;
use std::collections::hash_map::DefaultHasher;
use std::collections::HashMap;
use vstd::prelude::*;
use vstd::std_specs::hash::DefaultHasherAdditionalSpecFns;

verus! {

/// One game of chess between two players.
pub struct GameState {
    game: Position,
    white: Address,
    black: Address,
}

/// What a [`GameState`] holds: the text of the position in Forsyth-Edwards
/// notation and the two players.
pub struct GameStateView {
    pub board: Seq<char>,
    pub white: Seq<u8>,
    pub black: Seq<u8>,
}

impl View for GameState {
    type V = GameStateView;

    closed spec fn view(&self) -> GameStateView {
        GameStateView { board: self.game@, white: self.white@, black: self.black@ }
    }
}

impl GameStateView {
    /// The player of the side `turn`.
    pub open spec fn player_of(self, turn: Color) -> Seq<u8> {
        match turn {
            Color::White => self.white,
            Color::Black => self.black,
        }
    }

    /// The player whose turn it is.
    pub open spec fn mover(self) -> Seq<u8> {
        self.player_of(fen_side_to_move(self.board))
    }
}

/// What a move comes to in a game, from what the rules engine answered: the
/// side to move, whether the move is legal, and the position after it. A
/// move by anyone but the player of the side to move fails. A move that is
/// not legal is accepted and changes nothing. A legal move gives the game
/// at the position after it.
pub open spec fn spec_decide_move(
    game: GameStateView,
    player: Seq<u8>,
    turn: Color,
    legal: bool,
    next: Option<Seq<char>>,
) -> Result<Option<GameStateView>, Error> {
    if player != game.player_of(turn) {
        Err(Error::NotPlayersTurn)
    } else if !legal {
        Ok(None)
    } else {
        match next {
            Some(board) => Ok(Some(GameStateView { board, white: game.white, black: game.black })),
            None => Err(Error::MoveFailed),
        }
    }
}

/// What a decision on a move holds.
pub open spec fn decision_view(r: Result<Option<GameState>, Error>) -> Result<
    Option<GameStateView>,
    Error,
> {
    match r {
        Ok(Some(game)) => Ok(Some(game@)),
        Ok(None) => Ok(None),
        Err(e) => Err(e),
    }
}

/// What a position that may be there holds.
pub open spec fn opt_board(next: Option<Position>) -> Option<Seq<char>> {
    match next {
        Some(pos) => Some(pos@),
        None => None,
    }
}

impl GameState {
    /// A game at the initial position.
    pub fn new(white: Address, black: Address) -> (game: GameState)
        ensures
            game@ == (GameStateView { board: initial_fen(), white: white@, black: black@ }),
            fen_side_to_move(initial_fen()) == Color::White,
            game@.mover() == white@,
    {
        GameState { game: Position::new(), white, black }
    }

    /// Decides what the move of `player` comes to in this game, from what
    /// the rules engine answered: the side to move, whether the move is
    /// legal, and the position after it. The answer is the game after the
    /// move, or nothing where the game stays as it is.
    pub fn decide_move(
        &self,
        player: Address,
        turn: Color,
        legal: bool,
        next: Option<Position>,
    ) -> (r: Result<Option<GameState>, Error>)
        ensures
            decision_view(r) == spec_decide_move(self@, player@, turn, legal, opt_board(next)),
    {
        let mover = match turn {
            Color::White => self.white,
            Color::Black => self.black,
        };
        if player != mover {
            return Err(Error::NotPlayersTurn);
        }
        if !legal {
            return Ok(None);
        }
        match next {
            Some(game) => Ok(Some(GameState { game, white: self.white, black: self.black })),
            None => Err(Error::MoveFailed),
        }
    }

    /// The position of the game.
    pub fn game(&self) -> (pos: &Position)
        ensures
            pos@ == self@.board,
    {
        &self.game
    }

    /// The player of the white pieces.
    pub fn white(&self) -> (white: Address)
        ensures
            white@ == self@.white,
    {
        self.white
    }

    /// The player of the black pieces.
    pub fn black(&self) -> (black: Address)
        ensures
            black@ == self@.black,
    {
        self.black
    }
}

impl Clone for GameState {
    fn clone(&self) -> (copy: GameState)
        ensures
            copy@ == self@,
    {
        GameState { game: self.game.clone(), white: self.white, black: self.black }
    }
}

/// The length of two addresses, as the eight little-endian bytes that slice
/// hashing writes before the bytes themselves.
pub open spec fn game_id_length_prefix() -> Seq<u8> {
    seq![40u8, 0u8, 0u8, 0u8, 0u8, 0u8, 0u8, 0u8]
}

/// The identifier of the game between `white` and `black`: what the standard
/// hasher makes of the two addresses, white first.
pub open spec fn spec_game_id(white: Seq<u8>, black: Seq<u8>) -> u64 {
    DefaultHasher::spec_finish(seq![game_id_length_prefix(), white + black])
}

/// The identifier of the game between `white` and `black`. It depends on the
/// two addresses and their order, and on nothing else.
pub fn calculate_game_id(white: Address, black: Address) -> (id: u64)
    ensures
        id == spec_game_id(white@, black@),
{
    let mut combined_addresses: Vec<u8> = Vec::new();
    append_bytes(&mut combined_addresses, white.as_slice());
    append_bytes(&mut combined_addresses, black.as_slice());
    assert(combined_addresses@ =~= white@ + black@);

    let prefix: [u8; 8] = [40, 0, 0, 0, 0, 0, 0, 0];
    assert(prefix@ =~= game_id_length_prefix());
    let mut hasher = DefaultHasher::new();
    hasher.write(prefix.as_slice());
    hasher.write(combined_addresses.as_slice());
    assert(hasher@ =~= seq![game_id_length_prefix(), white@ + black@]);
    hasher.finish()
}

/// The games in progress, each under its identifier.
pub struct GameTable {
    games: HashMap<u64, GameState>,
}

/// The table of games after a game between `white` and `black` was started.
pub open spec fn spec_create_game(
    games: Map<u64, GameStateView>,
    white: Seq<u8>,
    black: Seq<u8>,
) -> Map<u64, GameStateView> {
    games.insert(spec_game_id(white, black), GameStateView { board: initial_fen(), white, black })
}

/// What ending a game does to a table of games: the answer and the table
/// afterwards.
pub open spec fn spec_end_game(games: Map<u64, GameStateView>, game_id: u64) -> (
    Result<(), Error>,
    Map<u64, GameStateView>,
) {
    if games.contains_key(game_id) {
        (Ok(()), games.remove(game_id))
    } else {
        (Err(Error::GameNotFound), games)
    }
}

/// What checking the turn gives: the game must exist, and `player` must be
/// the player whose turn it is.
pub open spec fn spec_check_turn(
    games: Map<u64, GameStateView>,
    player: Seq<u8>,
    game_id: u64,
) -> Result<(), Error> {
    if !games.contains_key(game_id) {
        Err(Error::GameNotFound)
    } else if player != games[game_id].mover() {
        Err(Error::NotPlayersTurn)
    } else {
        Ok(())
    }
}

/// What making a move does to a table of games: the answer and the table
/// afterwards. The game must exist; the rest is decided from what the
/// rules engine answers about the game's position and the move.
pub open spec fn spec_make_move(
    games: Map<u64, GameStateView>,
    player: Seq<u8>,
    game_id: u64,
    mv: ChessMove,
) -> (Result<(), Error>, Map<u64, GameStateView>) {
    if !games.contains_key(game_id) {
        (Err(Error::GameNotFound), games)
    } else {
        let board = games[game_id].board;
        match spec_decide_move(
            games[game_id],
            player,
            fen_side_to_move(board),
            fen_allows(board, mv),
            if fen_allows(board, mv) {
                Some(fen_after(board, mv))
            } else {
                None
            },
        ) {
            Err(e) => (Err(e), games),
            Ok(None) => (Ok(()), games),
            Ok(Some(game)) => (Ok(()), games.insert(game_id, game)),
        }
    }
}

/// Turn enforcement: in a game that exists, a move on behalf of anyone but
/// the player whose turn it is fails and changes nothing, and a move on
/// behalf of that player is accepted.
pub proof fn lemma_turn_enforcement(
    games: Map<u64, GameStateView>,
    player: Seq<u8>,
    game_id: u64,
    mv: ChessMove,
)
    requires
        games.contains_key(game_id),
    ensures
        player != games[game_id].mover() ==> spec_make_move(games, player, game_id, mv) == (
            Err::<(), Error>(Error::NotPlayersTurn),
            games,
        ),
        player == games[game_id].mover() ==> spec_make_move(games, player, game_id, mv).0 is Ok,
{
}

/// A move that the rules do not allow, made by the player whose turn it is,
/// is accepted and leaves every game as it was.
pub proof fn lemma_illegal_move_changes_nothing(
    games: Map<u64, GameStateView>,
    player: Seq<u8>,
    game_id: u64,
    mv: ChessMove,
)
    requires
        games.contains_key(game_id),
    ensures
        player == games[game_id].mover() && !fen_allows(games[game_id].board, mv)
            ==> spec_make_move(games, player, game_id, mv) == (Ok::<(), Error>(()), games),
{
}

/// A move changes at most the game it is made in, and of that game at most
/// the position.
pub proof fn lemma_move_touches_one_game(
    games: Map<u64, GameStateView>,
    player: Seq<u8>,
    game_id: u64,
    mv: ChessMove,
)
    ensures
        ({
            let after = spec_make_move(games, player, game_id, mv).1;
            &&& after.dom() == games.dom()
            &&& forall|other: u64| other != game_id && games.contains_key(other) ==> after[other]
                == games[other]
            &&& games.contains_key(game_id) ==> after[game_id].white == games[game_id].white
                && after[game_id].black == games[game_id].black
        }),
{
    let after = spec_make_move(games, player, game_id, mv).1;
    assert(after.dom() =~= games.dom());
}

/// One legal and one illegal move by the player whose turn it is, in either
/// order: where the two players differ and the turn passes with the legal
/// move, the table is in both orders the one that the legal move alone
/// leaves. Made first, the illegal move changes nothing; made second, it
/// fails, because it is no longer the player's turn.
pub proof fn lemma_one_mutation(
    games: Map<u64, GameStateView>,
    player: Seq<u8>,
    legal: ChessMove,
    illegal: ChessMove,
    game_id: u64,
)
    requires
        games.contains_key(game_id),
    ensures
        ({
            let game = games[game_id];
            let once = spec_make_move(games, player, game_id, legal).1;
            let illegal_first = spec_make_move(games, player, game_id, illegal).1;
            (game.white != game.black && player == game.mover() && fen_allows(game.board, legal)
                && !fen_allows(game.board, illegal) && fen_side_to_move(
                fen_after(game.board, legal),
            ) != fen_side_to_move(game.board)) ==> {
                &&& spec_make_move(illegal_first, player, game_id, legal).1 == once
                &&& spec_make_move(once, player, game_id, illegal) == (
                    Err::<(), Error>(Error::NotPlayersTurn),
                    once,
                )
            }
        }),
{
}

impl View for GameTable {
    type V = Map<u64, GameStateView>;

    closed spec fn view(&self) -> Map<u64, GameStateView> {
        Map::new(|id: u64| self.games@.contains_key(id), |id: u64| self.games@[id]@)
    }
}

impl GameTable {
    /// A table without games.
    pub fn new() -> (table: GameTable)
        ensures
            table@ == Map::<u64, GameStateView>::empty(),
    {
        let table = GameTable { games: HashMap::new() };
        assert(table@ =~= Map::<u64, GameStateView>::empty());
        table
    }

    /// Starts a game between `white` and `black` at the initial position and
    /// returns its identifier. A game already kept under that identifier is
    /// replaced.
    pub fn create_new_game(&mut self, white: Address, black: Address) -> (game_id: u64)
        ensures
            game_id == spec_game_id(white@, black@),
            final(self)@ == spec_create_game(old(self)@, white@, black@),
            fen_side_to_move(initial_fen()) == Color::White,
            final(self)@[game_id].mover() == white@,
    {
        let new_game_state = GameState::new(white, black);
        let game_id = calculate_game_id(white, black);
        self.games.insert(game_id, new_game_state);
        assert(self@ =~= spec_create_game(old(self)@, white@, black@));
        game_id
    }

    /// Checks that the game `game_id` exists and that it is the turn of
    /// `player` in it.
    pub fn check_turn(&self, player: Address, game_id: u64) -> (r: Result<(), Error>)
        ensures
            r == spec_check_turn(self@, player@, game_id),
    {
        let game = match self.games.get(&game_id) {
            None => {
                return Err(Error::GameNotFound);
            },
            Some(game) => game,
        };
        let mover = match game.game.turn() {
            Color::White => game.white,
            Color::Black => game.black,
        };
        if player != mover {
            return Err(Error::NotPlayersTurn);
        }
        Ok(())
    }

    /// Makes a move in the game `game_id` on behalf of `player`. A move that
    /// the rules do not allow is accepted and changes nothing. With a move
    /// that is made the turn passes to the other side.
    pub fn make_move(&mut self, player: Address, game_id: u64, mv: &ChessMove) -> (r: Result<
        (),
        Error,
    >)
        ensures
            r == spec_make_move(old(self)@, player@, game_id, *mv).0,
            final(self)@ == spec_make_move(old(self)@, player@, game_id, *mv).1,
            r != Err::<(), Error>(Error::MoveFailed),
            old(self)@.contains_key(game_id) && player@ == old(self)@[game_id].mover() && fen_allows(
                old(self)@[game_id].board,
                *mv,
            ) ==> fen_side_to_move(final(self)@[game_id].board) != fen_side_to_move(
                old(self)@[game_id].board,
            ),
    {
        let decision = match self.games.get(&game_id) {
            None => {
                return Err(Error::GameNotFound);
            },
            Some(game) => {
                let turn = game.game.turn();
                let legal = game.game.is_legal(mv);
                let next = game.game.play(mv);
                game.decide_move(player, turn, legal, next)
            },
        };
        match decision {
            Err(e) => Err(e),
            Ok(None) => Ok(()),
            Ok(Some(updated)) => {
                self.games.insert(game_id, updated);
                assert(self@ =~= spec_make_move(old(self)@, player@, game_id, *mv).1);
                Ok(())
            },
        }
    }

    /// Ends the game `game_id` and returns its last position.
    pub fn end_game(&mut self, game_id: u64) -> (r: Result<Position, Error>)
        ensures
            old(self)@.contains_key(game_id) ==> r is Ok && r.unwrap()@ == old(self)@[game_id].board
                && final(self)@ == old(self)@.remove(game_id),
            !old(self)@.contains_key(game_id) ==> r == Err::<Position, Error>(Error::GameNotFound)
                && final(self)@ == old(self)@,
    {
        match self.games.remove(&game_id) {
            Some(game) => {
                assert(self@ =~= old(self)@.remove(game_id));
                Ok(game.game)
            },
            None => {
                assert(self@ =~= old(self)@);
                Err(Error::GameNotFound)
            },
        }
    }

    /// The position of the game `game_id`, if there is such a game.
    pub fn get_game(&self, game_id: u64) -> (r: Option<Position>)
        ensures
            r is Some <==> self@.contains_key(game_id),
            r is Some ==> r.unwrap()@ == self@[game_id].board,
    {
        match self.games.get(&game_id) {
            Some(game) => Some(game.game.clone()),
            None => None,
        }
    }

    /// Whether there is a game `game_id`.
    pub fn game_exists(&self, game_id: u64) -> (exists: bool)
        ensures
            exists == self@.contains_key(game_id),
    {
        self.games.contains_key(&game_id)
    }
}

} // verus!
