//! Transactions: the actions a block carries, and their execution against the
//! table of games.

use crate::api::{opt_text, MoveEnum, MoveEnumView};
use crate::errors::Error;
use crate::ids::{Address, Id};
use crate::games::{
    spec_check_turn, spec_create_game, spec_end_game, spec_make_move, GameStateView,
};
use crate::rules::{ChessMove, MoveKind, Role, Square};
use crate::state::State;
use crate::store::Database;
use vstd::prelude::*;
use vstd::string::*;
use vstd::utf8::encode_utf8;

verus! {

/// The piece that a text names: the one its first character stands for.
pub open spec fn spec_role(text: Seq<char>) -> Option<Role> {
    if text.len() > 0 {
        Role::spec_from_char(text[0])
    } else {
        None
    }
}

/// The square that a text names.
pub open spec fn spec_square(text: Seq<char>) -> Option<Square> {
    Square::spec_from_ascii(encode_utf8(text))
}

/// The piece that an optional text names, or the error of a text that names
/// none.
pub open spec fn spec_opt_role(text: Option<Seq<char>>) -> Result<Option<Role>, Error> {
    match text {
        None => Ok(None),
        Some(t) => match spec_role(t) {
            Some(r) => Ok(Some(r)),
            None => Err(Error::InvalidRole),
        },
    }
}

/// The move of the rules engine that a normal move in text stands for. The
/// captured and the promoted piece are read first, then the moving piece and
/// the two squares.
pub open spec fn spec_convert_normal_move(
    role: Seq<char>,
    from: Seq<char>,
    capture: Option<Seq<char>>,
    to: Seq<char>,
    promotion: Option<Seq<char>>,
) -> Result<ChessMove, Error> {
    if spec_opt_role(capture) is Err || spec_opt_role(promotion) is Err || spec_role(role) is None {
        Err(Error::InvalidRole)
    } else if spec_square(from) is None || spec_square(to) is None {
        Err(Error::InvalidSquare)
    } else {
        Ok(
            ChessMove {
                from: spec_square(from).unwrap(),
                to: spec_square(to).unwrap(),
                kind: MoveKind::Normal {
                    role: spec_role(role).unwrap(),
                    capture: spec_opt_role(capture).unwrap(),
                    promotion: spec_opt_role(promotion).unwrap(),
                },
            },
        )
    }
}

/// The two squares that two texts name.
pub open spec fn spec_square_pair(a: Seq<char>, b: Seq<char>) -> Result<(Square, Square), Error> {
    if spec_square(a) is None || spec_square(b) is None {
        Err(Error::InvalidSquare)
    } else {
        Ok((spec_square(a).unwrap(), spec_square(b).unwrap()))
    }
}

/// The move of the rules engine that a move in text stands for.
pub open spec fn spec_convert_move(mv: MoveEnumView) -> Result<ChessMove, Error> {
    match mv {
        MoveEnumView::Normal { role, from, capture, to, promotion } => spec_convert_normal_move(
            role,
            from,
            capture,
            to,
            promotion,
        ),
        MoveEnumView::EnPassant { from, to } => match spec_square_pair(from, to) {
            Ok((from, to)) => Ok(ChessMove { from, to, kind: MoveKind::EnPassant }),
            Err(e) => Err(e),
        },
        MoveEnumView::Castle { king, rook } => match spec_square_pair(king, rook) {
            Ok((king, rook)) => Ok(ChessMove { from: king, to: rook, kind: MoveKind::Castle }),
            Err(e) => Err(e),
        },
    }
}

fn string_to_role(role: &str) -> (r: Result<Role, Error>)
    ensures
        r == (match spec_role(role@) {
            Some(role) => Ok::<Role, Error>(role),
            None => Err(Error::InvalidRole),
        }),
{
    if role.is_empty() {
        return Err(Error::InvalidRole);
    }
    match Role::from_char(role.get_char(0)) {
        Some(r) => Ok(r),
        None => Err(Error::InvalidRole),
    }
}

fn string_to_square(square: &str) -> (r: Result<Square, Error>)
    ensures
        r == (match spec_square(square@) {
            Some(square) => Ok::<Square, Error>(square),
            None => Err(Error::InvalidSquare),
        }),
{
    match Square::from_ascii(square.as_bytes()) {
        Some(s) => Ok(s),
        None => Err(Error::InvalidSquare),
    }
}

fn opt_string_to_role(role: &Option<String>) -> (r: Result<Option<Role>, Error>)
    ensures
        r == spec_opt_role(opt_text(*role)),
{
    match role {
        Some(s) => match string_to_role(s.as_str()) {
            Ok(r) => Ok(Some(r)),
            Err(e) => Err(e),
        },
        None => Ok(None),
    }
}

fn convert_normal_move(
    role: &String,
    from: &String,
    capture: &Option<String>,
    to: &String,
    promotion: &Option<String>,
) -> (r: Result<ChessMove, Error>)
    ensures
        r == spec_convert_normal_move(role@, from@, opt_text(*capture), to@, opt_text(*promotion)),
{
    let capture_real = match opt_string_to_role(capture) {
        Ok(c) => c,
        Err(e) => { return Err(e); },
    };
    let promotion_real = match opt_string_to_role(promotion) {
        Ok(p) => p,
        Err(e) => { return Err(e); },
    };
    let role = match string_to_role(role.as_str()) {
        Ok(r) => r,
        Err(e) => { return Err(e); },
    };
    let from = match string_to_square(from.as_str()) {
        Ok(s) => s,
        Err(e) => { return Err(e); },
    };
    let to = match string_to_square(to.as_str()) {
        Ok(s) => s,
        Err(e) => { return Err(e); },
    };
    Ok(
        ChessMove {
            from,
            to,
            kind: MoveKind::Normal { role, capture: capture_real, promotion: promotion_real },
        },
    )
}

fn convert_enpassant_move(from: &String, to: &String) -> (r: Result<ChessMove, Error>)
    ensures
        r == spec_convert_move(MoveEnumView::EnPassant { from: from@, to: to@ }),
{
    let from = match string_to_square(from.as_str()) {
        Ok(s) => s,
        Err(e) => { return Err(e); },
    };
    let to = match string_to_square(to.as_str()) {
        Ok(s) => s,
        Err(e) => { return Err(e); },
    };
    Ok(ChessMove { from, to, kind: MoveKind::EnPassant })
}

fn convert_castle_move(king: &String, rook: &String) -> (r: Result<ChessMove, Error>)
    ensures
        r == spec_convert_move(MoveEnumView::Castle { king: king@, rook: rook@ }),
{
    let king = match string_to_square(king.as_str()) {
        Ok(s) => s,
        Err(e) => { return Err(e); },
    };
    let rook = match string_to_square(rook.as_str()) {
        Ok(s) => s,
        Err(e) => { return Err(e); },
    };
    Ok(ChessMove { from: king, to: rook, kind: MoveKind::Castle })
}

/// Reads a move written as text into a move of the rules engine: each piece
/// from the first letter of its text, each square from its two-character
/// name.
pub fn convert_move(mv: &MoveEnum) -> (r: Result<ChessMove, Error>)
    ensures
        r == spec_convert_move(mv@),
{
    match mv {
        MoveEnum::Normal { role, from, capture, to, promotion } => convert_normal_move(
            role,
            from,
            capture,
            to,
            promotion,
        ),
        MoveEnum::EnPassant { from, to } => convert_enpassant_move(from, to),
        MoveEnum::Castle { king, rook } => convert_castle_move(king, rook),
    }
}

/// What a transaction asks for.
#[derive(Debug)]
pub enum ActionType {
    CreateGame { white: Address, black: Address, block_id: Id },
    EndGame { game_id: u64, block_id: Id },
    MakeMove { player: Address, game_id: u64, mv: MoveEnum, block_id: Id },
    Unknown,
}

/// What an [`ActionType`] holds.
pub enum ActionView {
    CreateGame { white: Seq<u8>, black: Seq<u8>, block_id: Seq<u8> },
    EndGame { game_id: u64, block_id: Seq<u8> },
    MakeMove { player: Seq<u8>, game_id: u64, mv: MoveEnumView, block_id: Seq<u8> },
    Unknown,
}

impl View for ActionType {
    type V = ActionView;

    open spec fn view(&self) -> ActionView {
        match *self {
            ActionType::CreateGame { white, black, block_id } => ActionView::CreateGame {
                white: white@,
                black: black@,
                block_id: block_id@,
            },
            ActionType::EndGame { game_id, block_id } => ActionView::EndGame {
                game_id,
                block_id: block_id@,
            },
            ActionType::MakeMove { player, game_id, mv, block_id } => ActionView::MakeMove {
                player: player@,
                game_id,
                mv: mv@,
                block_id: block_id@,
            },
            ActionType::Unknown => ActionView::Unknown,
        }
    }
}

impl Clone for ActionType {
    fn clone(&self) -> (copy: ActionType)
        ensures
            copy@ == self@,
    {
        match self {
            ActionType::CreateGame { white, black, block_id } => ActionType::CreateGame {
                white: *white,
                black: *black,
                block_id: *block_id,
            },
            ActionType::EndGame { game_id, block_id } => ActionType::EndGame {
                game_id: *game_id,
                block_id: *block_id,
            },
            ActionType::MakeMove { player, game_id, mv, block_id } => ActionType::MakeMove {
                player: *player,
                game_id: *game_id,
                mv: mv.clone(),
                block_id: *block_id,
            },
            ActionType::Unknown => ActionType::Unknown,
        }
    }
}

/// What surrounds the execution of a transaction.
#[derive(Clone, Copy, Debug)]
pub struct TransactionContext {
    pub block_time: u64,
    pub tx_id: Id,
    pub sender: Address,
}

/// One request to change the world state, carried by a block. Only the
/// action is part of the block's canonical bytes.
#[derive(Debug)]
pub struct Transaction {
    pub action: ActionType,
    pub bytes: Vec<u8>,
    pub id: Id,
    pub size: u64,
    pub sender: Address,
}

/// What a [`Transaction`] holds.
pub struct TransactionView {
    pub action: ActionView,
    pub bytes: Seq<u8>,
    pub id: Seq<u8>,
    pub size: u64,
    pub sender: Seq<u8>,
}

impl View for Transaction {
    type V = TransactionView;

    open spec fn view(&self) -> TransactionView {
        TransactionView {
            action: self.action@,
            bytes: self.bytes@,
            id: self.id@,
            size: self.size,
            sender: self.sender@,
        }
    }
}

impl Clone for Transaction {
    fn clone(&self) -> (copy: Transaction)
        ensures
            copy@ == self@,
    {
        Transaction {
            action: self.action.clone(),
            bytes: crate::bytes::copy_bytes(self.bytes.as_slice()),
            id: self.id,
            size: self.size,
            sender: self.sender,
        }
    }
}

/// What each of a list of transactions holds.
pub open spec fn views(txs: Seq<Transaction>) -> Seq<TransactionView> {
    Seq::new(txs.len(), |i: int| txs[i]@)
}

/// A copy of a list of transactions.
pub fn clone_transactions(txs: &Vec<Transaction>) -> (copy: Vec<Transaction>)
    ensures
        views(copy@) == views(txs@),
{
    let mut copy: Vec<Transaction> = Vec::new();
    let mut i: usize = 0;
    while i < txs.len()
        invariant
            i <= txs@.len(),
            copy@.len() == i,
            forall|j: int| 0 <= j < i ==> copy@[j]@ == txs@[j]@,
        decreases txs@.len() - i,
    {
        copy.push(txs[i].clone());
        i += 1;
    }
    assert(views(copy@) =~= views(txs@));
    copy
}

/// What executing an action does to a table of games: the answer and the
/// table afterwards. For a move, the game is looked up first, then the turn
/// is checked, then the move is read from its text, and only then is the
/// rules engine asked; whatever fails leaves the table as it was.
pub open spec fn spec_execute(games: Map<u64, GameStateView>, action: ActionView) -> (
    Result<(), Error>,
    Map<u64, GameStateView>,
) {
    match action {
        ActionView::Unknown => (Ok(()), games),
        ActionView::CreateGame { white, black, block_id } => (
            Ok(()),
            spec_create_game(games, white, black),
        ),
        ActionView::EndGame { game_id, block_id } => spec_end_game(games, game_id),
        ActionView::MakeMove { player, game_id, mv, block_id } => match spec_check_turn(
            games,
            player,
            game_id,
        ) {
            Err(e) => (Err(e), games),
            Ok(_) => match spec_convert_move(mv) {
                Ok(m) => spec_make_move(games, player, game_id, m),
                Err(e) => (Err(e), games),
            },
        },
    }
}

/// What executing transactions in order does to a table of games. The first
/// failure ends the execution; what was done before it stays done.
pub open spec fn spec_execute_all(games: Map<u64, GameStateView>, txs: Seq<TransactionView>) -> (
    Result<(), Error>,
    Map<u64, GameStateView>,
)
    decreases txs.len(),
{
    if txs.len() == 0 {
        (Ok(()), games)
    } else {
        let first = spec_execute(games, txs[0].action);
        if first.0 is Err {
            first
        } else {
            spec_execute_all(first.1, txs.skip(1))
        }
    }
}

/// Executing transactions fails only with the errors of their actions: it
/// never says that a block was decided before.
pub proof fn lemma_execution_never_says_decided(
    games: Map<u64, GameStateView>,
    txs: Seq<TransactionView>,
)
    ensures
        spec_execute_all(games, txs).0 != Err::<(), Error>(Error::AlreadyDecided),
    decreases txs.len(),
{
    if txs.len() > 0 {
        let first = spec_execute(games, txs[0].action);
        if first.0 is Ok {
            lemma_execution_never_says_decided(first.1, txs.skip(1));
        }
    }
}

/// Starts a game between `white` and `black`.
pub fn create_game<D: Database>(
    state: &mut State<D>,
    tx_context: &TransactionContext,
    white: Address,
    black: Address,
) -> (r: Result<(), Error>)
    ensures
        r == Ok::<(), Error>(()),
        final(state).games() == spec_create_game(old(state).games(), white@, black@),
        final(state).verified() == old(state).verified(),
        final(state).store() == old(state).store(),
        final(state).reliable() == old(state).reliable(),
{
    match state.create_new_game(white, black) {
        Ok(_) => Ok(()),
        Err(e) => Err(e),
    }
}

/// Ends the game `game_id`.
pub fn end_game<D: Database>(
    state: &mut State<D>,
    tx_context: &TransactionContext,
    game_id: u64,
) -> (r: Result<(), Error>)
    ensures
        r == spec_end_game(old(state).games(), game_id).0,
        final(state).games() == spec_end_game(old(state).games(), game_id).1,
        final(state).verified() == old(state).verified(),
        final(state).store() == old(state).store(),
        final(state).reliable() == old(state).reliable(),
{
    match state.end_game(game_id) {
        Ok(_) => Ok(()),
        Err(e) => Err(e),
    }
}

/// Makes the move that `mv` describes in the game `game_id` on behalf of
/// `player`: looks the game up, checks that it is the player's turn, reads
/// the move from its text, and makes it if the rules allow it.
pub fn make_move<D: Database>(
    state: &mut State<D>,
    tx_context: &TransactionContext,
    player: Address,
    game_id: u64,
    mv: &MoveEnum,
) -> (r: Result<(), Error>)
    ensures
        r == spec_execute(
            old(state).games(),
            ActionView::MakeMove { player: player@, game_id, mv: mv@, block_id: Seq::empty() },
        ).0,
        final(state).games() == spec_execute(
            old(state).games(),
            ActionView::MakeMove { player: player@, game_id, mv: mv@, block_id: Seq::empty() },
        ).1,
        final(state).verified() == old(state).verified(),
        final(state).store() == old(state).store(),
        final(state).reliable() == old(state).reliable(),
{
    match state.check_turn(player, game_id) {
        Ok(_) => {},
        Err(e) => {
            return Err(e);
        },
    }
    let mv = match convert_move(mv) {
        Ok(mv) => mv,
        Err(e) => {
            return Err(e);
        },
    };
    state.make_move(player, game_id, &mv)
}

impl Transaction {
    /// The block that the action names, or the empty identifier where it
    /// names none.
    pub fn get_block_id(&self) -> (id: Id)
        ensures
            id@ == (match self@.action {
                ActionView::Unknown => Seq::new(32, |i: int| 0u8),
                ActionView::EndGame { game_id, block_id } => block_id,
                ActionView::MakeMove { player, game_id, mv, block_id } => block_id,
                ActionView::CreateGame { white, black, block_id } => block_id,
            }),
    {
        match &self.action {
            ActionType::Unknown => Id::empty(),
            ActionType::EndGame { game_id, block_id } => *block_id,
            ActionType::MakeMove { player, game_id, mv, block_id } => *block_id,
            ActionType::CreateGame { white, black, block_id } => *block_id,
        }
    }

    /// Names `id` as the block of the action, where the action names one.
    pub fn set_block_id(&mut self, id: Id)
        ensures
            final(self)@ == (TransactionView {
                action: match old(self)@.action {
                    ActionView::Unknown => ActionView::Unknown,
                    ActionView::EndGame { game_id, block_id } => ActionView::EndGame {
                        game_id,
                        block_id: id@,
                    },
                    ActionView::MakeMove { player, game_id, mv, block_id } => ActionView::MakeMove {
                        player,
                        game_id,
                        mv,
                        block_id: id@,
                    },
                    ActionView::CreateGame { white, black, block_id } => ActionView::CreateGame {
                        white,
                        black,
                        block_id: id@,
                    },
                },
                ..old(self)@
            }),
    {
        let action = match &self.action {
            ActionType::CreateGame { white, black, block_id } => ActionType::CreateGame {
                white: *white,
                black: *black,
                block_id: id,
            },
            ActionType::EndGame { game_id, block_id } => ActionType::EndGame {
                game_id: *game_id,
                block_id: id,
            },
            ActionType::MakeMove { player, game_id, mv, block_id } => ActionType::MakeMove {
                player: *player,
                game_id: *game_id,
                mv: mv.clone(),
                block_id: id,
            },
            ActionType::Unknown => ActionType::Unknown,
        };
        self.action = action;
    }

    /// Executes the action against the table of games.
    pub fn execute<D: Database>(&self, state: &mut State<D>, tx_context: &TransactionContext) -> (r:
        Result<(), Error>)
        ensures
            r == spec_execute(old(state).games(), self@.action).0,
            final(state).games() == spec_execute(old(state).games(), self@.action).1,
            final(state).verified() == old(state).verified(),
            final(state).store() == old(state).store(),
            final(state).reliable() == old(state).reliable(),
    {
        match &self.action {
            ActionType::Unknown => Ok(()),
            ActionType::CreateGame { white, black, block_id } => create_game(
                state,
                tx_context,
                *white,
                *black,
            ),
            ActionType::EndGame { game_id, block_id } => end_game(state, tx_context, *game_id),
            ActionType::MakeMove { player, game_id, mv, block_id } => make_move(
                state,
                tx_context,
                *player,
                *game_id,
                mv,
            ),
        }
    }

    /// A copy of the action.
    pub fn typ(&self) -> (action: ActionType)
        ensures
            action@ == self@.action,
    {
        self.action.clone()
    }
}

} // verus!
