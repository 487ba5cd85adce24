//! Requests and responses of the chain's query surface, and the
//! transactions that its write requests stand for.

use crate::block::Block;
use crate::ids::{Address, Id};
use crate::games::{calculate_game_id, spec_game_id};
use crate::tx::{ActionType, ActionView, Transaction, TransactionView};
use vstd::prelude::*;

verus! {

/// A move as a client writes it: piece letters and square names as text.
#[derive(Debug)]
pub enum MoveEnum {
    Normal { role: String, from: String, capture: Option<String>, to: String, promotion: Option<String> },
    EnPassant { from: String, to: String },
    Castle { king: String, rook: String },
}

/// What a [`MoveEnum`] holds.
pub enum MoveEnumView {
    Normal {
        role: Seq<char>,
        from: Seq<char>,
        capture: Option<Seq<char>>,
        to: Seq<char>,
        promotion: Option<Seq<char>>,
    },
    EnPassant { from: Seq<char>, to: Seq<char> },
    Castle { king: Seq<char>, rook: Seq<char> },
}

/// What an optional text holds.
pub open spec fn opt_text(text: Option<String>) -> Option<Seq<char>> {
    match text {
        Some(t) => Some(t@),
        None => None,
    }
}

/// A copy of an optional text.
pub fn clone_opt_text(text: &Option<String>) -> (copy: Option<String>)
    ensures
        opt_text(copy) == opt_text(*text),
{
    match text {
        Some(t) => Some(t.clone()),
        None => None,
    }
}

impl View for MoveEnum {
    type V = MoveEnumView;

    open spec fn view(&self) -> MoveEnumView {
        match *self {
            MoveEnum::Normal { role, from, capture, to, promotion } => MoveEnumView::Normal {
                role: role@,
                from: from@,
                capture: opt_text(capture),
                to: to@,
                promotion: opt_text(promotion),
            },
            MoveEnum::EnPassant { from, to } => MoveEnumView::EnPassant { from: from@, to: to@ },
            MoveEnum::Castle { king, rook } => MoveEnumView::Castle { king: king@, rook: rook@ },
        }
    }
}

impl Clone for MoveEnum {
    fn clone(&self) -> (copy: MoveEnum)
        ensures
            copy@ == self@,
    {
        match self {
            MoveEnum::Normal { role, from, capture, to, promotion } => MoveEnum::Normal {
                role: role.clone(),
                from: from.clone(),
                capture: clone_opt_text(capture),
                to: to.clone(),
                promotion: clone_opt_text(promotion),
            },
            MoveEnum::EnPassant { from, to } => MoveEnum::EnPassant {
                from: from.clone(),
                to: to.clone(),
            },
            MoveEnum::Castle { king, rook } => MoveEnum::Castle {
                king: king.clone(),
                rook: rook.clone(),
            },
        }
    }
}

/// The answer to a ping.
#[derive(Clone, Debug)]
pub struct PingResponse {
    pub success: bool,
}

#[derive(Clone, Debug)]
pub struct LastAcceptedResponse {
    pub id: Id,
}

#[derive(Clone, Debug)]
pub struct GetBlockArgs {
    pub id: String,
}

#[derive(Debug)]
pub struct GetBlockResponse {
    pub block: Block,
}

#[derive(Clone, Debug)]
pub struct CreateGameArgs {
    pub white: Address,
    pub black: Address,
}

#[derive(Debug)]
pub struct MakeMoveArgs {
    pub player: Address,
    pub game_id: String,
    pub mv: MoveEnum,
}

#[derive(Clone, Debug)]
pub struct CreateGameResponse {
    pub game_id: u64,
}

#[derive(Clone, Debug)]
pub struct MakeMoveResponse {
    pub status: bool,
}

#[derive(Clone, Debug)]
pub struct EndGameArgs {
    pub game_id: u64,
}

#[derive(Clone, Debug)]
pub struct EndGameResponse {
    pub status: bool,
}

#[derive(Clone, Debug)]
pub struct GetGameArgs {
    pub game_id: String,
}

#[derive(Clone, Debug)]
pub struct GetGameResponse {
    pub game: String,
}

#[derive(Clone, Debug)]
pub struct ExistsArgs {
    pub game_id: String,
}

#[derive(Clone, Debug)]
pub struct ExistsResponse {
    pub exists: bool,
}

/// Serves the chain's queries on behalf of the machine `vm`.
#[derive(Clone)]
pub struct ChainService<A> {
    pub vm: A,
}

impl<A> ChainService<A> {
    pub fn new(vm: A) -> (service: Self)
        ensures
            service.vm == vm,
    {
        Self { vm }
    }
}

/// The transaction that a freshly submitted request stands for: it has no
/// bytes and no size yet, and names no block and no identifier of its own.
pub open spec fn submitted(action: ActionView, sender: Seq<u8>) -> TransactionView {
    TransactionView {
        action,
        bytes: Seq::empty(),
        id: Seq::new(32, |i: int| 0u8),
        size: 0,
        sender,
    }
}

/// The transaction that a request to create a game stands for. The white
/// player is its sender.
pub fn create_game_transaction(args: &CreateGameArgs) -> (tx: Transaction)
    ensures
        tx@ == submitted(
            ActionView::CreateGame {
                white: args.white@,
                black: args.black@,
                block_id: Seq::new(32, |i: int| 0u8),
            },
            args.white@,
        ),
{
    let tx = Transaction {
        action: ActionType::CreateGame {
            white: args.white,
            black: args.black,
            block_id: Id::empty(),
        },
        bytes: Vec::new(),
        id: Id::empty(),
        size: 0,
        sender: args.white,
    };
    assert(tx@.bytes =~= Seq::<u8>::empty());
    tx
}

/// The answer to a request to create a game: the identifier under which the
/// game will be kept.
pub fn create_game_response(args: &CreateGameArgs) -> (response: CreateGameResponse)
    ensures
        response.game_id == spec_game_id(args.white@, args.black@),
{
    CreateGameResponse { game_id: calculate_game_id(args.white, args.black) }
}

/// The transaction that a request to make a move in the game `game_id`
/// stands for. The player is its sender.
pub fn make_move_transaction(player: Address, game_id: u64, mv: MoveEnum) -> (tx: Transaction)
    ensures
        tx@ == submitted(
            ActionView::MakeMove {
                player: player@,
                game_id,
                mv: mv@,
                block_id: Seq::new(32, |i: int| 0u8),
            },
            player@,
        ),
{
    let tx = Transaction {
        action: ActionType::MakeMove { player, game_id, mv, block_id: Id::empty() },
        bytes: Vec::new(),
        id: Id::empty(),
        size: 0,
        sender: player,
    };
    assert(tx@.bytes =~= Seq::<u8>::empty());
    tx
}

/// The transaction that a request to end a game stands for. Its sender is
/// the zero address.
pub fn end_game_transaction(args: &EndGameArgs) -> (tx: Transaction)
    ensures
        tx@ == submitted(
            ActionView::EndGame { game_id: args.game_id, block_id: Seq::new(32, |i: int| 0u8) },
            Seq::new(20, |i: int| 0u8),
        ),
{
    let tx = Transaction {
        action: ActionType::EndGame { game_id: args.game_id, block_id: Id::empty() },
        bytes: Vec::new(),
        id: Id::empty(),
        size: 0,
        sender: Address::zero(),
    };
    assert(tx@.bytes =~= Seq::<u8>::empty());
    tx
}

} // verus!
