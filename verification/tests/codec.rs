use chessvm::api::{
    create_game_response, create_game_transaction, end_game_transaction, make_move_transaction,
    ChainService, CreateGameArgs, EndGameArgs, MoveEnum,
};
use chessvm::block::{Block, Status};
use chessvm::codec::tx::{read_action, write_action};
use chessvm::ids::{Address, Id};
use chessvm::state::calculate_game_id;
use chessvm::tx::{ActionType, Transaction};

fn address(byte: u8) -> Address {
    Address { bytes: [byte; 20] }
}

fn tx(action: ActionType) -> Transaction {
    Transaction { action, bytes: vec![1, 2, 3], id: Id::sha256(b"tx"), size: 3, sender: address(9) }
}

fn moves() -> Vec<MoveEnum> {
    vec![
        MoveEnum::Normal {
            role: String::from("P"),
            from: String::from("e2"),
            capture: None,
            to: String::from("e4"),
            promotion: None,
        },
        MoveEnum::Normal {
            role: String::from("P"),
            from: String::from("e7"),
            capture: Some(String::from("r")),
            to: String::from("d8"),
            promotion: Some(String::from("Q")),
        },
        MoveEnum::EnPassant { from: String::from("e5"), to: String::from("d6") },
        MoveEnum::Castle { king: String::from("e1"), rook: String::from("h1") },
        MoveEnum::Castle { king: String::from("κ"), rook: String::new() },
    ]
}

#[test]
fn block_with_every_kind_of_action_reads_back() {
    let block_id = Id::sha256(b"b");
    let mut txs = vec![
        tx(ActionType::Unknown),
        tx(ActionType::CreateGame { white: address(1), black: address(2), block_id }),
        tx(ActionType::EndGame { game_id: u64::MAX, block_id }),
    ];
    for mv in moves() {
        txs.push(tx(ActionType::MakeMove { player: address(3), game_id: 77, mv, block_id }));
    }
    let n = txs.len();
    let blk = Block::try_new(
        Id::sha256(b"parent"),
        u64::MAX,
        12345,
        String::from("all of them: ✓"),
        txs,
        Status::Unknown,
    )
    .unwrap();
    let bytes = blk.to_vec().unwrap();
    let read = Block::from_slice(&bytes).unwrap();
    assert_eq!(read, blk.clone());
    assert_eq!(read.get_num_of_transactions(), n);
    assert_eq!(read.to_vec().unwrap(), bytes);
    assert_eq!(read.id(), blk.id());
    assert_eq!(read.parent(), Id::sha256(b"parent"));
    assert_eq!(read.height(), u64::MAX);
    assert_eq!(read.timestamp(), 12345);
}

#[test]
fn only_the_action_of_a_transaction_is_written() {
    let plain = Transaction {
        action: ActionType::EndGame { game_id: 1, block_id: Id::empty() },
        bytes: Vec::new(),
        id: Id::empty(),
        size: 0,
        sender: Address::zero(),
    };
    let decorated = tx(ActionType::EndGame { game_id: 1, block_id: Id::empty() });
    let a = Block::try_new(Id::empty(), 0, 1, String::new(), vec![plain], Status::Unknown).unwrap();
    let b = Block::try_new(Id::empty(), 0, 1, String::new(), vec![decorated], Status::Unknown)
        .unwrap();
    assert_eq!(a.id(), b.id());
    assert_eq!(a.to_vec().unwrap(), b.to_vec().unwrap());
}

#[test]
fn written_form_of_actions() {
    let mut out = vec![0xee];
    assert!(write_action(&mut out, &ActionType::Unknown));
    assert_eq!(out, vec![0xee, 3]);

    let mut out = Vec::new();
    assert!(write_action(&mut out, &ActionType::EndGame { game_id: 0x0102, block_id: Id::empty() }));
    let mut expected = vec![1, 2, 1, 0, 0, 0, 0, 0, 0];
    expected.extend_from_slice(&[0; 32]);
    assert_eq!(out, expected);

    let mut out = Vec::new();
    let mv = MoveEnum::Normal {
        role: String::from("P"),
        from: String::from("e2"),
        capture: None,
        to: String::from("e4"),
        promotion: Some(String::from("q")),
    };
    let action = ActionType::MakeMove { player: address(5), game_id: 1, mv, block_id: Id::empty() };
    assert!(write_action(&mut out, &action));
    let mut expected = vec![2];
    expected.extend_from_slice(&[5; 20]);
    expected.extend_from_slice(&[1, 0, 0, 0, 0, 0, 0, 0]);
    expected.extend_from_slice(&[0, 1, 0, 0, 0, b'P', 2, 0, 0, 0, b'e', b'2', 0]);
    expected.extend_from_slice(&[2, 0, 0, 0, b'e', b'4', 1, 1, 0, 0, 0, b'q']);
    expected.extend_from_slice(&[0; 32]);
    assert_eq!(out, expected);

    let (read, end) = read_action(&out, 0).unwrap();
    assert_eq!(end, out.len());
    let mut again = Vec::new();
    assert!(write_action(&mut again, &read));
    assert_eq!(again, out);

    assert!(read_action(&out[..out.len() - 1], 0).is_none());
    assert!(read_action(&[4], 0).is_none());
    assert!(read_action(&[], 0).is_none());
    assert!(read_action(&[2, 0], 2).is_none());
}

#[test]
fn requests_become_transactions() {
    let white = address(1);
    let black = address(2);
    let args = CreateGameArgs { white, black };
    let tx = create_game_transaction(&args);
    assert!(matches!(
        tx.action,
        ActionType::CreateGame { white: w, black: b, block_id } if w == white && b == black && block_id == Id::empty()
    ));
    assert_eq!(tx.sender, white);
    assert_eq!(tx.size, 0);
    assert!(tx.bytes.is_empty());
    assert_eq!(tx.id, Id::empty());
    assert_eq!(create_game_response(&args).game_id, calculate_game_id(white, black));

    let mv = MoveEnum::EnPassant { from: String::from("e5"), to: String::from("d6") };
    let tx = make_move_transaction(black, 9, mv);
    assert!(matches!(
        tx.action,
        ActionType::MakeMove { player, game_id: 9, mv: MoveEnum::EnPassant { .. }, .. } if player == black
    ));
    assert_eq!(tx.sender, black);

    let tx = end_game_transaction(&EndGameArgs { game_id: 4 });
    assert!(matches!(tx.action, ActionType::EndGame { game_id: 4, .. }));
    assert_eq!(tx.sender, Address::zero());

    let service = ChainService::new(17u8);
    assert_eq!(service.vm, 17);
}
