use chessvm::api::MoveEnum;
use chessvm::errors::Error;
use chessvm::ids::{Address, Id};
use chessvm::games::GameState;
use chessvm::rules::{ChessMove, Color, MoveKind, Position, Role, Square};
use chessvm::state::{calculate_game_id, State};
use chessvm::store::MemDb;
use chessvm::tx::{convert_move, ActionType, Transaction, TransactionContext};
use std::collections::hash_map::DefaultHasher;
use std::hash::{Hash, Hasher};

const START: &str = "rnbqkbnr/pppppppp/8/8/8/8/PPPPPPPP/RNBQKBNR w KQkq - 0 1";
const AFTER_E4: &str = "rnbqkbnr/pppppppp/8/8/4P3/8/PPPP1PPP/RNBQKBNR b KQkq - 0 1";

fn address(byte: u8) -> Address {
    Address { bytes: [byte; 20] }
}

fn normal(role: &str, from: &str, to: &str) -> MoveEnum {
    MoveEnum::Normal {
        role: String::from(role),
        from: String::from(from),
        capture: None,
        to: String::from(to),
        promotion: None,
    }
}

fn tx(action: ActionType) -> Transaction {
    Transaction { action, bytes: Vec::new(), id: Id::default(), size: 0, sender: Address::default() }
}

fn context() -> TransactionContext {
    TransactionContext { block_time: 0, tx_id: Id::default(), sender: Address::default() }
}

#[test]
fn initial_position_is_whites_turn() {
    let pos = Position::new();
    assert_eq!(pos.turn(), Color::White);
    assert_eq!(pos.fen(), START);
    assert_eq!(pos.clone().fen(), START);
}

#[test]
fn sha256_of_abc() {
    let id = Id::sha256(b"abc");
    let expected: [u8; 32] = [
        0xba, 0x78, 0x16, 0xbf, 0x8f, 0x01, 0xcf, 0xea, 0x41, 0x41, 0x40, 0xde, 0x5d, 0xae, 0x22,
        0x23, 0xb0, 0x03, 0x61, 0xa3, 0x96, 0x17, 0x7a, 0x9c, 0xb4, 0x10, 0xff, 0x61, 0xf2, 0x00,
        0x15, 0xad,
    ];
    assert_eq!(id.bytes, expected);
}

#[test]
fn identifiers_from_slices() {
    assert_eq!(Id::empty().bytes, [0u8; 32]);
    assert_eq!(Id::default(), Id::empty());
    let id = Id::from_slice(&[1, 2, 3]);
    assert_eq!(id.bytes[..4], [1, 2, 3, 0]);
    assert_eq!(id.to_vec().len(), 32);
    assert_eq!(Id::from_slice(&id.to_vec()), id);
    assert_eq!(Address::from_slice(&[9]).as_slice()[..2], [9, 0]);
    assert_eq!(Address::default(), Address::zero());
    assert_ne!(address(1), address(2));
}

#[test]
fn game_id_depends_on_the_order_of_the_players() {
    let white = address(0);
    let black = address(1);
    assert_ne!(calculate_game_id(white, black), calculate_game_id(black, white));
    assert_eq!(calculate_game_id(white, black), calculate_game_id(white, black));
}

#[test]
fn game_id_is_the_standard_hash_of_the_two_addresses() {
    let white = address(7);
    let black = address(9);
    let mut combined: Vec<u8> = Vec::new();
    combined.extend_from_slice(white.as_slice());
    combined.extend_from_slice(black.as_slice());
    let mut hasher = DefaultHasher::new();
    combined.hash(&mut hasher);
    assert_eq!(calculate_game_id(white, black), hasher.finish());
}

#[test]
fn convert_move_reads_pieces_and_squares() {
    let mv = convert_move(&normal("P", "e2", "e4")).unwrap();
    assert_eq!(
        mv,
        ChessMove {
            from: Square::new(12).unwrap(),
            to: Square::new(28).unwrap(),
            kind: MoveKind::Normal { role: Role::Pawn, capture: None, promotion: None },
        }
    );
    let capture = MoveEnum::Normal {
        role: String::from("queen"),
        from: String::from("a1"),
        capture: Some(String::from("n")),
        to: String::from("h8"),
        promotion: Some(String::from("Q")),
    };
    assert_eq!(
        convert_move(&capture).unwrap(),
        ChessMove {
            from: Square::new(0).unwrap(),
            to: Square::new(63).unwrap(),
            kind: MoveKind::Normal {
                role: Role::Queen,
                capture: Some(Role::Knight),
                promotion: Some(Role::Queen),
            },
        }
    );
    let ep = MoveEnum::EnPassant { from: String::from("e5"), to: String::from("d6") };
    assert_eq!(
        convert_move(&ep).unwrap(),
        ChessMove {
            from: Square::new(36).unwrap(),
            to: Square::new(43).unwrap(),
            kind: MoveKind::EnPassant,
        }
    );
    let castle = MoveEnum::Castle { king: String::from("e1"), rook: String::from("h1") };
    assert_eq!(
        convert_move(&castle).unwrap(),
        ChessMove {
            from: Square::new(4).unwrap(),
            to: Square::new(7).unwrap(),
            kind: MoveKind::Castle,
        }
    );
}

#[test]
fn convert_move_refuses_bad_text() {
    assert_eq!(convert_move(&normal("", "e2", "e4")), Err(Error::InvalidRole));
    assert_eq!(convert_move(&normal("x", "e2", "e4")), Err(Error::InvalidRole));
    assert_eq!(convert_move(&normal("P", "e9", "e4")), Err(Error::InvalidSquare));
    assert_eq!(convert_move(&normal("P", "e2", "i4")), Err(Error::InvalidSquare));
    assert_eq!(convert_move(&normal("P", "E2", "e4")), Err(Error::InvalidSquare));
    assert_eq!(convert_move(&normal("P", "e2x", "e4")), Err(Error::InvalidSquare));
    let bad_capture = MoveEnum::Normal {
        role: String::from("P"),
        from: String::from("zz"),
        capture: Some(String::from("?")),
        to: String::from("e4"),
        promotion: None,
    };
    assert_eq!(convert_move(&bad_capture), Err(Error::InvalidRole));
    let ep = MoveEnum::EnPassant { from: String::from("e5"), to: String::from("") };
    assert_eq!(convert_move(&ep), Err(Error::InvalidSquare));
    let castle = MoveEnum::Castle { king: String::from("é1"), rook: String::from("h1") };
    assert_eq!(convert_move(&castle), Err(Error::InvalidSquare));
}

#[test]
fn squares_have_numbers_up_to_63() {
    assert!(Square::new(64).is_none());
    assert_eq!(Square::new(63).unwrap().index(), 63);
}

#[test]
fn position_plays_legal_moves_only() {
    let pos = Position::new();
    let e4 = convert_move(&normal("P", "e2", "e4")).unwrap();
    let e5 = convert_move(&normal("P", "e2", "e5")).unwrap();
    assert!(pos.is_legal(&e4));
    assert!(!pos.is_legal(&e5));
    assert!(pos.clone().play(&e5).is_none());
    let next = pos.play(&e4).unwrap();
    assert_eq!(pos.fen(), START);
    assert_eq!(next.fen(), AFTER_E4);
    assert_eq!(next.turn(), Color::Black);
}

#[test]
fn turn_enforcement() {
    let mut state: State<MemDb> = State::default();
    let a = address(0xaa);
    let b = address(0xbb);
    let game_id = state.create_new_game(a, b).unwrap();
    assert_eq!(game_id, calculate_game_id(a, b));
    let mv = convert_move(&normal("P", "e2", "e4")).unwrap();
    assert_eq!(state.make_move(b, game_id, &mv), Err(Error::NotPlayersTurn));
    assert_eq!(state.get_game(game_id).unwrap().fen(), START);
    assert_eq!(state.make_move(a, game_id, &mv), Ok(()));
    assert_eq!(state.get_game(game_id).unwrap().fen(), AFTER_E4);
    assert_eq!(state.make_move(a, game_id, &mv), Err(Error::NotPlayersTurn));
}

#[test]
fn illegal_move_is_accepted_and_changes_nothing() {
    let mut state: State<MemDb> = State::default();
    let a = address(0xaa);
    let b = address(0xbb);
    let game_id = state.create_new_game(a, b).unwrap();
    let before = state.get_game(game_id).unwrap().fen();
    let four_squares = convert_move(&normal("P", "e2", "e6")).unwrap();
    assert_eq!(state.make_move(a, game_id, &four_squares), Ok(()));
    assert_eq!(state.get_game(game_id).unwrap().fen(), before);
    assert_eq!(state.get_game(game_id).unwrap().turn(), Color::White);
}

#[test]
fn make_move_needs_a_game() {
    let mut state: State<MemDb> = State::default();
    let mv = convert_move(&normal("P", "e2", "e4")).unwrap();
    assert_eq!(state.make_move(address(1), 5, &mv), Err(Error::GameNotFound));
    assert!(state.get_game(5).is_none());
    assert!(!state.game_exists(5));
    assert_eq!(state.end_game(5).err(), Some(Error::GameNotFound));
}

#[test]
fn end_to_end_game() {
    let mut state: State<MemDb> = State::default();
    let white = address(0x00);
    let black = address(0x01);
    let game_id = calculate_game_id(white, black);
    let ctx = context();

    tx(ActionType::CreateGame { white, black, block_id: Id::default() })
        .execute(&mut state, &ctx)
        .unwrap();
    assert!(state.game_exists(game_id));

    tx(ActionType::MakeMove {
        player: white,
        game_id,
        mv: normal("P", "e2", "e4"),
        block_id: Id::default(),
    })
    .execute(&mut state, &ctx)
    .unwrap();
    let game = state.get_game(game_id).unwrap();
    assert_eq!(game.fen(), AFTER_E4);
    assert_eq!(game.turn(), Color::Black);

    tx(ActionType::EndGame { game_id, block_id: Id::default() }).execute(&mut state, &ctx).unwrap();
    assert!(state.get_game(game_id).is_none());
    assert!(!state.game_exists(game_id));
}

#[test]
fn execute_dispatches_on_the_action() {
    let mut state: State<MemDb> = State::default();
    let ctx = context();
    assert_eq!(tx(ActionType::Unknown).execute(&mut state, &ctx), Ok(()));
    assert_eq!(
        tx(ActionType::EndGame { game_id: 1, block_id: Id::default() }).execute(&mut state, &ctx),
        Err(Error::GameNotFound)
    );
    let bad = ActionType::MakeMove {
        player: address(1),
        game_id: 1,
        mv: normal("?", "e2", "e4"),
        block_id: Id::default(),
    };
    assert_eq!(tx(bad).execute(&mut state, &ctx), Err(Error::GameNotFound));
    let missing = ActionType::MakeMove {
        player: address(1),
        game_id: 1,
        mv: normal("P", "e2", "e4"),
        block_id: Id::default(),
    };
    assert_eq!(tx(missing).execute(&mut state, &ctx), Err(Error::GameNotFound));
}

#[test]
fn create_game_replaces_a_game_in_progress() {
    let mut state: State<MemDb> = State::default();
    let a = address(1);
    let b = address(2);
    let game_id = state.create_new_game(a, b).unwrap();
    let mv = convert_move(&normal("P", "e2", "e4")).unwrap();
    state.make_move(a, game_id, &mv).unwrap();
    assert_eq!(state.create_new_game(a, b).unwrap(), game_id);
    assert_eq!(state.get_game(game_id).unwrap().fen(), START);
}

#[test]
fn end_game_returns_the_last_position() {
    let mut state: State<MemDb> = State::default();
    let a = address(1);
    let b = address(2);
    let game_id = state.create_new_game(a, b).unwrap();
    let mv = convert_move(&normal("P", "e2", "e4")).unwrap();
    state.make_move(a, game_id, &mv).unwrap();
    assert_eq!(state.end_game(game_id).unwrap().fen(), AFTER_E4);
    assert!(!state.game_exists(game_id));
}

#[test]
fn one_legal_and_one_illegal_move_in_either_order() {
    let a = address(1);
    let b = address(2);
    let legal = convert_move(&normal("P", "e2", "e4")).unwrap();
    let illegal = convert_move(&normal("P", "e2", "e6")).unwrap();

    let mut first: State<MemDb> = State::default();
    let game_id = first.create_new_game(a, b).unwrap();
    assert_eq!(first.make_move(a, game_id, &illegal), Ok(()));
    assert_eq!(first.make_move(a, game_id, &legal), Ok(()));

    let mut second: State<MemDb> = State::default();
    second.create_new_game(a, b).unwrap();
    assert_eq!(second.make_move(a, game_id, &legal), Ok(()));
    assert_eq!(second.make_move(a, game_id, &illegal), Err(Error::NotPlayersTurn));

    assert_eq!(first.get_game(game_id).unwrap().fen(), AFTER_E4);
    assert_eq!(second.get_game(game_id).unwrap().fen(), AFTER_E4);
}

#[test]
fn block_identifier_of_a_transaction() {
    let id = Id::sha256(b"block");
    let mut t = tx(ActionType::EndGame { game_id: 1, block_id: Id::default() });
    assert_eq!(t.get_block_id(), Id::empty());
    t.set_block_id(id);
    assert_eq!(t.get_block_id(), id);
    let mut unknown = tx(ActionType::Unknown);
    unknown.set_block_id(id);
    assert_eq!(unknown.get_block_id(), Id::empty());
    let mut create = tx(ActionType::CreateGame { white: address(1), black: address(2), block_id: Id::default() });
    create.set_block_id(id);
    assert_eq!(create.get_block_id(), id);
    assert!(matches!(create.typ(), ActionType::CreateGame { .. }));
}

#[test]
fn text_that_is_no_position() {
    for text in ["", "garbage", "8/8/8/8/8/8/8/8 w - - 0 1", "rnbqkbnr/pppppppp w"] {
        assert!(Position::from_fen(String::from(text)).is_none());
    }
    assert_eq!(Position::from_fen(String::from(START)).unwrap().fen(), START);
}

#[test]
fn positions_from_text() {
    let castle = convert_move(&MoveEnum::Castle {
        king: String::from("e1"),
        rook: String::from("h1"),
    })
    .unwrap();
    let pos = Position::from_fen(String::from("r3k2r/8/8/8/8/8/8/R3K2R w KQkq - 0 1")).unwrap();
    assert_eq!(pos.turn(), Color::White);
    assert!(pos.is_legal(&castle));
    assert_eq!(pos.play(&castle).unwrap().fen(), "r3k2r/8/8/8/8/8/8/R4RK1 b kq - 1 1");
    assert_eq!(pos.play(&castle).unwrap().turn(), Color::Black);

    let ep = convert_move(&MoveEnum::EnPassant { from: String::from("e5"), to: String::from("d6") })
        .unwrap();
    let pos = Position::from_fen(String::from(
        "rnbqkbnr/ppp1pppp/8/3pP3/8/8/PPPP1PPP/RNBQKBNR w KQkq d6 0 3",
    ))
    .unwrap();
    assert!(pos.is_legal(&ep));
    assert_eq!(
        pos.play(&ep).unwrap().fen(),
        "rnbqkbnr/ppp1pppp/3P4/8/8/8/PPPP1PPP/RNBQKBNR b KQkq - 0 3"
    );

    let black = Position::from_fen(String::from(AFTER_E4)).unwrap();
    assert_eq!(black.turn(), Color::Black);
    let reply = convert_move(&normal("p", "e7", "e5")).unwrap();
    let capture = MoveEnum::Normal {
        role: String::from("P"),
        from: String::from("e4"),
        capture: Some(String::from("p")),
        to: String::from("d5"),
        promotion: None,
    };
    assert!(black.is_legal(&reply));
    assert!(!black.is_legal(&convert_move(&capture).unwrap()));
    let after = Position::from_fen(String::from(
        "rnbqkbnr/ppp1pppp/8/3p4/4P3/8/PPPP1PPP/RNBQKBNR w KQkq - 0 2",
    ))
    .unwrap();
    assert!(!after.is_legal(&convert_move(&normal("P", "e4", "d5")).unwrap()));
    assert_eq!(
        after.play(&convert_move(&capture).unwrap()).unwrap().fen(),
        "rnbqkbnr/ppp1pppp/8/3P4/8/8/PPPP1PPP/RNBQKBNR b KQkq - 0 2"
    );
}

#[test]
fn test_chess() {
    let game = Position::new();
    let game_string = game.fen();
    assert!(game_string.starts_with("rnbqkbnr/pppppppp/8/8/8/8/PPPPPPPP/RNBQKBNR"));
    println!("{}", game_string);
}

#[test]
fn a_move_is_looked_at_in_order() {
    let mut state: State<MemDb> = State::default();
    let ctx = context();
    let a = address(0xaa);
    let b = address(0xbb);
    let game_id = state.create_new_game(a, b).unwrap();
    let make = |player: Address, game_id: u64, mv: MoveEnum| {
        tx(ActionType::MakeMove { player, game_id, mv, block_id: Id::default() })
    };

    // No such game: the game is missed before the turn and the text are looked at.
    assert_eq!(
        make(b, game_id + 1, normal("?", "z9", "e4")).execute(&mut state, &ctx),
        Err(Error::GameNotFound)
    );
    // Not the player's turn: said before the text is read.
    assert_eq!(
        make(b, game_id, normal("?", "z9", "e4")).execute(&mut state, &ctx),
        Err(Error::NotPlayersTurn)
    );
    assert_eq!(
        make(b, game_id, normal("P", "e2", "e4")).execute(&mut state, &ctx),
        Err(Error::NotPlayersTurn)
    );
    // The player's turn: now the text is read, piece before squares.
    assert_eq!(
        make(a, game_id, normal("?", "z9", "e4")).execute(&mut state, &ctx),
        Err(Error::InvalidRole)
    );
    assert_eq!(
        make(a, game_id, normal("P", "z9", "e4")).execute(&mut state, &ctx),
        Err(Error::InvalidSquare)
    );
    assert_eq!(state.get_game(game_id).unwrap().fen(), START);
    // A move that reads and is not legal is accepted and changes nothing.
    assert_eq!(make(a, game_id, normal("P", "e2", "e6")).execute(&mut state, &ctx), Ok(()));
    assert_eq!(state.get_game(game_id).unwrap().fen(), START);
    assert_eq!(make(a, game_id, normal("P", "e2", "e4")).execute(&mut state, &ctx), Ok(()));
    assert_eq!(state.get_game(game_id).unwrap().fen(), AFTER_E4);
}

#[test]
fn check_turn_names_the_game_and_the_player() {
    let mut state: State<MemDb> = State::default();
    let a = address(0xaa);
    let b = address(0xbb);
    let game_id = state.create_new_game(a, b).unwrap();
    assert_eq!(state.check_turn(a, game_id), Ok(()));
    assert_eq!(state.check_turn(b, game_id), Err(Error::NotPlayersTurn));
    assert_eq!(state.check_turn(a, game_id + 1), Err(Error::GameNotFound));
    let mv = convert_move(&normal("P", "e2", "e4")).unwrap();
    state.make_move(a, game_id, &mv).unwrap();
    assert_eq!(state.check_turn(a, game_id), Err(Error::NotPlayersTurn));
    assert_eq!(state.check_turn(b, game_id), Ok(()));
}

#[test]
fn one_player_on_both_sides() {
    let mut state: State<MemDb> = State::default();
    let a = address(0xaa);
    let game_id = state.create_new_game(a, a).unwrap();
    assert_eq!(state.get_game(game_id).unwrap().turn(), Color::White);
    let e4 = convert_move(&normal("P", "e2", "e4")).unwrap();
    let e5 = convert_move(&normal("P", "e7", "e5")).unwrap();
    assert_eq!(state.make_move(a, game_id, &e4), Ok(()));
    assert_eq!(state.get_game(game_id).unwrap().turn(), Color::Black);
    assert_eq!(state.make_move(a, game_id, &e5), Ok(()));
    assert_eq!(state.get_game(game_id).unwrap().turn(), Color::White);
}

#[test]
fn a_move_is_decided_from_what_the_rules_answered() {
    let a = address(0xaa);
    let b = address(0xbb);
    let game = GameState::new(a, b);
    let next = || Position::from_fen(String::from(AFTER_E4));

    assert_eq!(game.decide_move(b, Color::White, true, next()).err(), Some(Error::NotPlayersTurn));
    assert_eq!(game.decide_move(a, Color::Black, true, next()).err(), Some(Error::NotPlayersTurn));
    assert!(matches!(game.decide_move(a, Color::White, false, next()), Ok(None)));
    assert!(matches!(game.decide_move(b, Color::Black, false, None), Ok(None)));
    assert_eq!(game.decide_move(a, Color::White, true, None).err(), Some(Error::MoveFailed));
    let moved = game.decide_move(a, Color::White, true, next()).ok().flatten().unwrap();
    assert_eq!(moved.game().fen(), AFTER_E4);
    assert_eq!(moved.white(), a);
    assert_eq!(moved.black(), b);
    assert_eq!(game.game().fen(), START);
}
