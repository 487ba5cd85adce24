//! The chess rules engine as this library sees it: plain descriptions of
//! pieces, squares and moves, and a position that is asked for its side to
//! move, tested for the legality of a move, and advanced by a move. What
//! the engine answers is named as a function of the position's text in
//! Forsyth-Edwards notation.

use shakmaty::fen::Fen;
use shakmaty::EnPassantMode::Legal;
use shakmaty::{CastlingMode, Chess, Move, Position as _};
use vstd::prelude::*;

verus! {

/// One of the two sides of a game.
#[derive(Clone, Copy, Debug, PartialEq, Eq, Structural)]
pub enum Color {
    White,
    Black,
}

/// A kind of piece.
#[derive(Clone, Copy, Debug, PartialEq, Eq, Structural)]
pub enum Role {
    Pawn,
    Knight,
    Bishop,
    Rook,
    Queen,
    King,
}

/// A square of the board: file `index % 8` (a to h), rank `index / 8` (1 to 8).
#[derive(Clone, Copy, Debug, PartialEq, Eq, Structural)]
pub struct Square {
    index: u32,
}

/// What kind of move a move is, with the parts that only a normal move has.
#[derive(Clone, Copy, Debug, PartialEq, Eq, Structural)]
pub enum MoveKind {
    /// A piece goes from one square to another, capturing or promoting as
    /// stated.
    Normal { role: Role, capture: Option<Role>, promotion: Option<Role> },
    /// A pawn captures en passant.
    EnPassant,
    /// The king castles; `from` is the king's square and `to` the rook's.
    Castle,
}

/// A move in the terms of the rules engine.
#[derive(Clone, Copy, Debug, PartialEq, Eq, Structural)]
pub struct ChessMove {
    pub from: Square,
    pub to: Square,
    pub kind: MoveKind,
}

/// `shakmaty::Chess`, a position of standard chess as the rules engine
/// holds it. Nothing inside it is seen here; it is kept in a [`Position`]
/// and handed back to the engine.
#[verifier::external_type_specification]
#[verifier::external_body]
pub struct ExChess(shakmaty::Chess);

/// Whether the text `fen` describes a position in Forsyth-Edwards notation.
pub uninterp spec fn fen_is_position(fen: Seq<char>) -> bool;

/// The side to move in the position that the text `fen` describes.
pub uninterp spec fn fen_side_to_move(fen: Seq<char>) -> Color;

/// Whether `mv` is legal in the position that `fen` describes.
pub uninterp spec fn fen_allows(fen: Seq<char>, mv: ChessMove) -> bool;

/// The position, again in Forsyth-Edwards notation, that the legal move
/// `mv` leads to from the position that `fen` describes.
pub uninterp spec fn fen_after(fen: Seq<char>, mv: ChessMove) -> Seq<char>;

/// The initial position of a game of chess.
pub open spec fn initial_fen() -> Seq<char> {
    "rnbqkbnr/pppppppp/8/8/8/8/PPPPPPPP/RNBQKBNR w KQkq - 0 1"@
}

impl Role {
    /// The piece that a letter stands for, in either case.
    pub open spec fn spec_from_char(ch: char) -> Option<Role> {
        if ch == 'P' || ch == 'p' {
            Some(Role::Pawn)
        } else if ch == 'N' || ch == 'n' {
            Some(Role::Knight)
        } else if ch == 'B' || ch == 'b' {
            Some(Role::Bishop)
        } else if ch == 'R' || ch == 'r' {
            Some(Role::Rook)
        } else if ch == 'Q' || ch == 'q' {
            Some(Role::Queen)
        } else if ch == 'K' || ch == 'k' {
            Some(Role::King)
        } else {
            None
        }
    }

    /// Calls `shakmaty::Role::from_char`, which maps the English letter of a
    /// piece, upper or lower case, to the piece and any other character to
    /// nothing.
    #[verifier::external_body]
    pub(crate) fn from_char(ch: char) -> (role: Option<Role>)
        ensures
            role == Role::spec_from_char(ch),
    {
        match shakmaty::Role::from_char(ch)? {
            shakmaty::Role::Pawn => Some(Role::Pawn),
            shakmaty::Role::Knight => Some(Role::Knight),
            shakmaty::Role::Bishop => Some(Role::Bishop),
            shakmaty::Role::Rook => Some(Role::Rook),
            shakmaty::Role::Queen => Some(Role::Queen),
            shakmaty::Role::King => Some(Role::King),
        }
    }
}

impl Square {
    #[verifier::type_invariant]
    spec fn on_board(self) -> bool {
        self.index < 64
    }

    /// The square with the given number, from 0 (a1) along the ranks to 63
    /// (h8).
    pub closed spec fn spec_at(index: u8) -> Square {
        Square { index: index as u32 }
    }

    /// The number of the square, from 0 (a1) along the ranks to 63 (h8).
    pub closed spec fn spec_index(self) -> u8 {
        self.index as u8
    }

    /// The number of the square, from 0 (a1) along the ranks to 63 (h8).
    #[verifier::when_used_as_spec(spec_index)]
    pub fn index(self) -> (index: u8)
        ensures
            index == self.spec_index(),
            self == Square::spec_at(index),
            index < 64,
    {
        proof {
            use_type_invariant(&self);
        }
        self.index as u8
    }

    /// The square with the given number, where there is one.
    pub fn new(index: u8) -> (square: Option<Square>)
        ensures
            square == (if index < 64 {
                Some(Square::spec_at(index))
            } else {
                None
            }),
    {
        if index < 64 {
            Some(Square { index: index as u32 })
        } else {
            None
        }
    }

    /// The square that a name of two lower-case ASCII characters denotes: a
    /// file from `a` to `h`, then a rank from `1` to `8`.
    pub open spec fn spec_from_ascii(name: Seq<u8>) -> Option<Square> {
        if name.len() == 2 && 0x61 <= name[0] <= 0x68 && 0x31 <= name[1] <= 0x38 {
            Some(Square::spec_at(((name[0] - 0x61) + 8 * (name[1] - 0x31)) as u8))
        } else {
            None
        }
    }

    /// Calls `shakmaty::Square::from_ascii`, which accepts exactly the names
    /// of two bytes made of a file letter `a` to `h` and a rank digit `1` to
    /// `8`, and numbers the squares from a1 along the ranks.
    #[verifier::external_body]
    pub(crate) fn from_ascii(name: &[u8]) -> (square: Option<Square>)
        ensures
            square == Square::spec_from_ascii(name@),
    {
        let square = shakmaty::Square::from_ascii(name).ok()?;
        Some(Square { index: u32::from(square) })
    }
}

/// A chess position: the position as the rules engine holds it, and beside
/// it the text that describes it in Forsyth-Edwards notation. The two are
/// made together, by the rules engine, and never apart: every value is the
/// initial position, a position read from its text, the position after a
/// legal move, or a copy of one of these.
pub struct Position {
    fen: String,
    inner: Chess,
}

impl View for Position {
    type V = Seq<char>;

    /// The text of the position.
    closed spec fn view(&self) -> Seq<char> {
        self.fen@
    }
}

/// `shakmaty::Chess::default`, the initial position of a game of chess, in
/// which White is to move, and its text as `shakmaty::fen::Fen` writes it.
#[verifier::external_body]
fn rules_initial() -> (pos: Position)
    ensures
        pos@ == initial_fen(),
        fen_side_to_move(pos@) == Color::White,
{
    let inner = Chess::default();
    Position { fen: Fen::from_position(inner.clone(), Legal).to_string(), inner }
}

/// Reads the text with `shakmaty::fen::Fen::from_ascii` and
/// `into_position`, which give a position of standard chess where the text
/// is well formed and the position it describes is valid. The contract
/// names the texts that are read.
#[verifier::external_body]
fn rules_read(fen: String) -> (pos: Option<Position>)
    ensures
        pos is Some <==> fen_is_position(fen@),
        pos is Some ==> pos.unwrap()@ == fen@,
{
    let inner = Fen::from_ascii(fen.as_bytes()).ok()?.into_position(CastlingMode::Standard).ok()?;
    Some(Position { fen, inner })
}

/// `Clone::clone` of the text and of `shakmaty::Chess`, whose derived impl
/// copies every field: the copy is the same position with the same text.
#[verifier::external_body]
fn rules_copy(pos: &Position) -> (copy: Position)
    ensures
        copy@ == pos@,
{
    Position { fen: pos.fen.clone(), inner: pos.inner.clone() }
}

/// Calls `shakmaty::Position::turn`, the side to move. The text states it,
/// so the contract names it as a function of the text.
#[verifier::external_body]
fn rules_turn(pos: &Position) -> (turn: Color)
    ensures
        turn == fen_side_to_move(pos@),
{
    match pos.inner.turn() {
        shakmaty::Color::White => Color::White,
        shakmaty::Color::Black => Color::Black,
    }
}

/// Calls `shakmaty::Position::is_legal`, which tests whether the move is
/// among the legal moves of the position. Those follow from the board, the
/// side to move, the castling rights and the en passant square, all of
/// which the text states, so the contract names the answer as a function
/// of the text and the move.
#[verifier::external_body]
fn rules_is_legal(pos: &Position, mv: &ChessMove) -> (legal: bool)
    ensures
        legal == fen_allows(pos@, *mv),
{
    let ro = |r: Role| shakmaty::Role::ALL[r as usize];
    let (from, to) = (shakmaty::Square::new(mv.from.index), shakmaty::Square::new(mv.to.index));
    let m = match mv.kind {
        MoveKind::Normal { role, capture, promotion } => Move::Normal {
            role: ro(role), from, capture: capture.map(ro), to, promotion: promotion.map(ro),
        },
        MoveKind::EnPassant => Move::EnPassant { from, to },
        MoveKind::Castle => Move::Castle { king: from, rook: to },
    };
    pos.inner.is_legal(&m)
}

/// Calls `shakmaty::Position::play`, which fails exactly when the move is
/// not legal and otherwise makes the move and passes the turn to the other
/// side, and writes the text of the position after the move with
/// `shakmaty::fen::Fen`, the en passant square given only where a legal
/// capture exists. The contract names that text.
#[verifier::external_body]
fn rules_play(pos: &Position, mv: &ChessMove) -> (next: Option<Position>)
    ensures
        next is Some <==> fen_allows(pos@, *mv),
        next is Some ==> next.unwrap()@ == fen_after(pos@, *mv),
        next is Some ==> fen_side_to_move(next.unwrap()@) != fen_side_to_move(pos@),
{
    let ro = |r: Role| shakmaty::Role::ALL[r as usize];
    let (from, to) = (shakmaty::Square::new(mv.from.index), shakmaty::Square::new(mv.to.index));
    let m = match mv.kind {
        MoveKind::Normal { role, capture, promotion } => Move::Normal {
            role: ro(role), from, capture: capture.map(ro), to, promotion: promotion.map(ro),
        },
        MoveKind::EnPassant => Move::EnPassant { from, to },
        MoveKind::Castle => Move::Castle { king: from, rook: to },
    };
    let inner = pos.inner.clone().play(&m).ok()?;
    Some(Position { fen: Fen::from_position(inner.clone(), Legal).to_string(), inner })
}

impl Position {
    /// The initial position of a game of chess, in which White is to move.
    pub fn new() -> (pos: Position)
        ensures
            pos@ == initial_fen(),
            fen_side_to_move(pos@) == Color::White,
    {
        rules_initial()
    }

    /// The position that `fen` describes, if it describes one.
    pub fn from_fen(fen: String) -> (pos: Option<Position>)
        ensures
            pos is Some <==> fen_is_position(fen@),
            pos is Some ==> pos.unwrap()@ == fen@,
    {
        rules_read(fen)
    }

    /// The text of the position.
    pub fn fen(&self) -> (fen: String)
        ensures
            fen@ == self@,
    {
        self.fen.clone()
    }

    /// The side to move.
    pub fn turn(&self) -> (turn: Color)
        ensures
            turn == fen_side_to_move(self@),
    {
        rules_turn(self)
    }

    /// Whether `mv` is legal in this position.
    pub fn is_legal(&self, mv: &ChessMove) -> (legal: bool)
        ensures
            legal == fen_allows(self@, *mv),
    {
        rules_is_legal(self, mv)
    }

    /// The position after `mv`, where `mv` is legal. The turn has then
    /// passed to the other side.
    pub fn play(&self, mv: &ChessMove) -> (next: Option<Position>)
        ensures
            next is Some <==> fen_allows(self@, *mv),
            next is Some ==> next.unwrap()@ == fen_after(self@, *mv),
            next is Some ==> fen_side_to_move(next.unwrap()@) != fen_side_to_move(self@),
    {
        rules_play(self, mv)
    }
}

impl Clone for Position {
    fn clone(&self) -> (copy: Position)
        ensures
            copy@ == self@,
    {
        rules_copy(self)
    }
}

} // verus!
