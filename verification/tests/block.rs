use chessvm::block::{Block, Status};
use chessvm::errors::Error;
use chessvm::ids::{Address, Id};
use chessvm::state::{calculate_game_id, State};
use chessvm::store::MemDb;
use chessvm::tx::{ActionType, Transaction};

fn address(byte: u8) -> Address {
    Address { bytes: [byte; 20] }
}

fn create_game_tx(white: Address, black: Address) -> Transaction {
    Transaction {
        action: ActionType::CreateGame { white, black, block_id: Id::default() },
        bytes: Vec::new(),
        id: Id::default(),
        size: 0,
        sender: Address::default(),
    }
}

fn genesis(timestamp: u64) -> Block {
    Block::try_new(
        Id::empty(),
        0,
        timestamp,
        String::from("Genesis Block!"),
        Vec::new(),
        Status::default(),
    )
    .unwrap()
}

#[test]
fn test_block() {
    let mut genesis_blk = genesis(1_700_000_000);

    let serialized = genesis_blk.to_vec().unwrap();
    let deserialized = Block::from_slice(&serialized).unwrap();
    assert_eq!(genesis_blk, deserialized);

    let mut state: State<MemDb> = State::default();
    assert!(!state.has_last_accepted_block().unwrap());

    genesis_blk.verify(&mut state).unwrap();
    assert!(state.has_verified(&genesis_blk.id()));

    genesis_blk.accept(&mut state).unwrap();
    assert_eq!(genesis_blk.status(), Status::Accepted);
    assert!(state.has_last_accepted_block().unwrap());
    assert!(!state.has_verified(&genesis_blk.id()));

    let last_accepted_blk_id = state.get_last_accepted_block_id().unwrap();
    assert_eq!(last_accepted_blk_id, genesis_blk.id());

    let read_blk = state.get_block(&genesis_blk.id()).unwrap();
    assert_eq!(genesis_blk, read_blk);

    let blk_tx = create_game_tx(Address::zero(), Address::default());
    let blk1 = Block::try_new(
        genesis_blk.id(),
        genesis_blk.height() + 1,
        genesis_blk.timestamp() + 1,
        String::from("first block!"),
        vec![blk_tx],
        Status::default(),
    )
    .unwrap();

    let serialized_blk1 = blk1.to_vec().unwrap();
    let deserialized_blk1 = Block::from_slice(&serialized_blk1).unwrap();
    assert_eq!(blk1, deserialized_blk1);
    assert_eq!(deserialized_blk1.get_num_of_transactions(), 1);
}

#[test]
fn last_accepted_is_empty_before_any_block() {
    let state: State<MemDb> = State::default();
    assert_eq!(state.get_last_accepted_block_id().unwrap(), Id::empty());
}

#[test]
fn identifier_is_the_digest_of_the_bytes() {
    let blk = genesis(7);
    assert_eq!(blk.id(), Id::sha256(blk.bytes()));
    assert_eq!(blk.bytes(), blk.to_vec().unwrap().as_slice());
}

#[test]
fn blocks_of_the_same_content_share_their_identifier() {
    let a = genesis(7);
    let b = genesis(7);
    let c = genesis(8);
    assert_eq!(a.id(), b.id());
    assert_ne!(a.id(), c.id());
}

#[test]
fn canonical_bytes_of_a_genesis_block() {
    let blk = Block::try_new(Id::empty(), 0, 2, String::from("hi"), Vec::new(), Status::Processing)
        .unwrap();
    let mut expected = vec![0u8; 32];
    expected.extend_from_slice(&[0, 0, 0, 0, 0, 0, 0, 0]);
    expected.extend_from_slice(&[2, 0, 0, 0, 0, 0, 0, 0]);
    expected.extend_from_slice(&[2, 0, 0, 0, b'h', b'i']);
    expected.extend_from_slice(&[0, 0, 0, 0]);
    assert_eq!(blk.to_vec().unwrap(), expected);
}

#[test]
fn from_slice_refuses_what_is_not_canonical() {
    let blk = genesis(7);
    let bytes = blk.to_vec().unwrap();

    let truncated = &bytes[..bytes.len() - 1];
    assert_eq!(Block::from_slice(truncated).unwrap_err(), Error::Malformed);

    let mut longer = bytes.clone();
    longer.push(0);
    assert_eq!(Block::from_slice(&longer).unwrap_err(), Error::Malformed);

    assert_eq!(Block::from_slice(&[]).unwrap_err(), Error::Malformed);

    let mut bad_text = vec![0u8; 48];
    bad_text.extend_from_slice(&[1, 0, 0, 0, 0xff]);
    bad_text.extend_from_slice(&[0, 0, 0, 0]);
    assert_eq!(Block::from_slice(&bad_text).unwrap_err(), Error::Malformed);
}

#[test]
fn from_slice_sets_unknown_status() {
    let blk = Block::try_new(Id::empty(), 0, 2, String::new(), Vec::new(), Status::Accepted).unwrap();
    let read = Block::from_slice(&blk.to_vec().unwrap()).unwrap();
    assert_eq!(read.status(), Status::Unknown);
    assert_eq!(read.id(), blk.id());
    assert_eq!(read.height(), 0);
    assert_eq!(read.timestamp(), 2);
    assert_eq!(read.parent(), Id::empty());
}

#[test]
fn verify_accepts_a_child_that_follows_its_parent() {
    let mut state: State<MemDb> = State::default();
    let mut parent = genesis(1000);
    parent.verify_at(&mut state, 1000).unwrap();
    parent.accept(&mut state).unwrap();

    let child = Block::try_new(parent.id(), 1, 1000, String::new(), Vec::new(), Status::Processing)
        .unwrap();
    assert_eq!(child.verify_at(&mut state, 1000), Ok(()));
    assert!(state.has_verified(&child.id()));
    assert_eq!(state.get_block(&child.id()).unwrap(), child);

    assert_eq!(child.verify_at(&mut state, 1000), Ok(()));
    assert!(state.has_verified(&child.id()));
}

#[test]
fn verify_finds_the_parent_among_the_verified_blocks() {
    let mut state: State<MemDb> = State::default();
    let parent = genesis(1000);
    parent.verify_at(&mut state, 1000).unwrap();
    let child = Block::try_new(parent.id(), 1, 1001, String::new(), Vec::new(), Status::Processing)
        .unwrap();
    assert_eq!(child.verify_at(&mut state, 1000), Ok(()));
}

#[test]
fn verify_refuses_an_unknown_parent() {
    let mut state: State<MemDb> = State::default();
    let child = Block::try_new(Id::sha256(b"nobody"), 1, 1000, String::new(), Vec::new(), Status::Processing)
        .unwrap();
    assert_eq!(child.verify_at(&mut state, 1000), Err(Error::BlockNotFound));
    assert!(!state.has_verified(&child.id()));
    assert_eq!(state.get_block(&child.id()).unwrap_err(), Error::BlockNotFound);
}

#[test]
fn verify_refuses_a_wrong_height() {
    let mut state: State<MemDb> = State::default();
    let parent = genesis(1000);
    parent.verify_at(&mut state, 1000).unwrap();

    let skipping = Block::try_new(parent.id(), 2, 1000, String::new(), Vec::new(), Status::Processing)
        .unwrap();
    assert_eq!(
        skipping.verify_at(&mut state, 1000),
        Err(Error::HeightMismatch { parent: 0, block: 2 })
    );
    assert!(!state.has_verified(&skipping.id()));

    let level = Block::try_new(parent.id(), 0, 1000, String::new(), Vec::new(), Status::Processing)
        .unwrap();
    assert_eq!(
        level.verify_at(&mut state, 1000),
        Err(Error::HeightMismatch { parent: 0, block: 0 })
    );
}

#[test]
fn verify_refuses_a_timestamp_before_the_parent() {
    let mut state: State<MemDb> = State::default();
    let parent = genesis(1000);
    parent.verify_at(&mut state, 1000).unwrap();
    let child = Block::try_new(parent.id(), 1, 999, String::new(), Vec::new(), Status::Processing)
        .unwrap();
    assert_eq!(
        child.verify_at(&mut state, 1000),
        Err(Error::TimestampBeforeParent { parent: 1000, block: 999 })
    );
    assert!(!state.has_verified(&child.id()));
}

#[test]
fn verify_refuses_a_timestamp_an_hour_ahead() {
    let mut state: State<MemDb> = State::default();
    let parent = genesis(1000);
    parent.verify_at(&mut state, 1000).unwrap();

    let at_bound = Block::try_new(parent.id(), 1, 4600, String::new(), Vec::new(), Status::Processing)
        .unwrap();
    assert_eq!(
        at_bound.verify_at(&mut state, 1000),
        Err(Error::TimestampTooFarAhead { block: 4600 })
    );
    assert!(!state.has_verified(&at_bound.id()));

    let below = Block::try_new(parent.id(), 1, 4599, String::new(), Vec::new(), Status::Processing)
        .unwrap();
    assert_eq!(below.verify_at(&mut state, 1000), Ok(()));

    let before_epoch = Block::try_new(parent.id(), 1, 1000, String::from("x"), Vec::new(), Status::Processing)
        .unwrap();
    assert_eq!(
        before_epoch.verify_at(&mut state, -3600),
        Err(Error::TimestampTooFarAhead { block: 1000 })
    );
}

#[test]
fn verify_by_the_local_clock() {
    let mut state: State<MemDb> = State::default();
    let parent = genesis(1000);
    parent.verify(&mut state).unwrap();
    let far = Block::try_new(parent.id(), 1, u64::MAX, String::new(), Vec::new(), Status::Processing)
        .unwrap();
    assert_eq!(far.verify(&mut state), Err(Error::TimestampTooFarAhead { block: u64::MAX }));
    let near = Block::try_new(parent.id(), 1, 1000, String::new(), Vec::new(), Status::Processing)
        .unwrap();
    assert_eq!(near.verify(&mut state), Ok(()));
}

#[test]
fn verify_passes_a_decided_block_without_keeping_it() {
    let mut state: State<MemDb> = State::default();
    let mut parent = genesis(1000);
    parent.verify_at(&mut state, 1000).unwrap();
    parent.accept(&mut state).unwrap();
    let mut child = Block::try_new(parent.id(), 1, 1000, String::new(), Vec::new(), Status::Processing)
        .unwrap();
    child.verify_at(&mut state, 1000).unwrap();
    child.reject(&mut state).unwrap();
    assert!(!state.has_verified(&child.id()));

    assert_eq!(child.verify_at(&mut state, 1_000_000), Ok(()));
    assert!(!state.has_verified(&child.id()));
}

#[test]
fn accept_executes_the_transactions_in_order() {
    let mut state: State<MemDb> = State::default();
    let white = address(0);
    let black = address(1);
    let game_id = calculate_game_id(white, black);
    let end = Transaction {
        action: ActionType::EndGame { game_id, block_id: Id::default() },
        bytes: Vec::new(),
        id: Id::default(),
        size: 0,
        sender: Address::default(),
    };
    let mut blk = Block::try_new(
        Id::empty(),
        0,
        1,
        String::new(),
        vec![create_game_tx(white, black), end, create_game_tx(black, white)],
        Status::Processing,
    )
    .unwrap();
    blk.accept(&mut state).unwrap();
    assert!(!state.game_exists(game_id));
    assert!(state.game_exists(calculate_game_id(black, white)));
    assert_eq!(state.get_last_accepted_block_id().unwrap(), blk.id());
}

#[test]
fn accept_stops_at_the_first_failure() {
    let mut state: State<MemDb> = State::default();
    let white = address(0);
    let black = address(1);
    let end_missing = Transaction {
        action: ActionType::EndGame { game_id: 42, block_id: Id::default() },
        bytes: Vec::new(),
        id: Id::default(),
        size: 0,
        sender: Address::default(),
    };
    let mut blk = Block::try_new(
        Id::empty(),
        0,
        1,
        String::new(),
        vec![create_game_tx(white, black), end_missing, create_game_tx(black, white)],
        Status::Processing,
    )
    .unwrap();
    blk.verify_at(&mut state, 1).unwrap();
    assert_eq!(blk.accept(&mut state), Err(Error::GameNotFound));
    assert_eq!(blk.status(), Status::Accepted);
    assert!(state.game_exists(calculate_game_id(white, black)));
    assert!(!state.game_exists(calculate_game_id(black, white)));
    assert!(!state.has_last_accepted_block().unwrap());
    assert!(state.has_verified(&blk.id()));
}

#[test]
fn accept_marks_the_block_decided() {
    let mut state: State<MemDb> = State::default();
    let mut blk = genesis(1);
    assert!(!blk.status().decided());
    blk.accept(&mut state).unwrap();
    assert!(blk.status().decided());
    let stored = state.get_block(&blk.id()).unwrap();
    assert_eq!(stored.status(), Status::Accepted);
    assert!(stored.status().decided());
}

#[test]
fn reject_stores_the_block_and_executes_nothing() {
    let mut state: State<MemDb> = State::default();
    let white = address(0);
    let black = address(1);
    let mut blk = Block::try_new(
        Id::empty(),
        0,
        1,
        String::new(),
        vec![create_game_tx(white, black)],
        Status::Processing,
    )
    .unwrap();
    blk.verify_at(&mut state, 1).unwrap();
    blk.reject(&mut state).unwrap();
    assert_eq!(blk.status(), Status::Rejected);
    assert!(!state.has_verified(&blk.id()));
    assert!(!state.game_exists(calculate_game_id(white, black)));
    assert!(!state.has_last_accepted_block().unwrap());
    let stored = state.get_block(&blk.id()).unwrap();
    assert_eq!(stored.status(), Status::Rejected);
    assert_eq!(stored, blk);
}

#[test]
fn set_status_changes_only_the_status() {
    let mut blk = genesis(1);
    let id = blk.id();
    blk.set_status(Status::Processing);
    assert_eq!(blk.status(), Status::Processing);
    assert_eq!(blk.id(), id);
}

#[test]
fn accepting_again_executes_again() {
    let mut state: State<MemDb> = State::default();
    let white = address(0);
    let black = address(1);
    let game_id = calculate_game_id(white, black);
    let mut blk = Block::try_new(
        Id::empty(),
        0,
        1,
        String::from("once"),
        vec![create_game_tx(white, black)],
        Status::Processing,
    )
    .unwrap();
    assert_eq!(blk.message(), "once");
    assert_eq!(blk.transactions().len(), 1);
    blk.accept(&mut state).unwrap();
    assert!(blk.status().decided());
    state.end_game(game_id).unwrap();
    assert!(!state.game_exists(game_id));

    blk.accept(&mut state).unwrap();
    assert!(state.game_exists(game_id));
    assert_eq!(state.get_last_accepted_block_id().unwrap(), blk.id());
}

#[test]
fn a_block_is_accepted_once() {
    let mut state: State<MemDb> = State::default();
    let white = address(0);
    let black = address(1);
    let game_id = calculate_game_id(white, black);
    let mut blk = Block::try_new(
        Id::empty(),
        0,
        1,
        String::new(),
        vec![create_game_tx(white, black)],
        Status::Processing,
    )
    .unwrap();
    assert_eq!(blk.accept_once(&mut state), Ok(()));
    assert_eq!(blk.status(), Status::Accepted);
    assert!(state.game_exists(game_id));

    // The game is ended; had the block been executed again, it would be back.
    state.end_game(game_id).unwrap();
    assert_eq!(blk.accept_once(&mut state), Err(Error::AlreadyDecided));
    assert!(!state.game_exists(game_id));
    assert_eq!(blk.reject_once(&mut state), Err(Error::AlreadyDecided));
    assert_eq!(blk.status(), Status::Accepted);
    assert_eq!(state.get_block(&blk.id()).unwrap().status(), Status::Accepted);
}

#[test]
fn a_block_is_rejected_once() {
    let mut state: State<MemDb> = State::default();
    let white = address(0);
    let black = address(1);
    let mut blk = Block::try_new(
        Id::empty(),
        0,
        1,
        String::new(),
        vec![create_game_tx(white, black)],
        Status::Processing,
    )
    .unwrap();
    assert_eq!(blk.reject_once(&mut state), Ok(()));
    assert_eq!(blk.status(), Status::Rejected);
    assert_eq!(blk.accept_once(&mut state), Err(Error::AlreadyDecided));
    assert!(!state.game_exists(calculate_game_id(white, black)));
    assert!(!state.has_last_accepted_block().unwrap());
    assert_eq!(state.get_block(&blk.id()).unwrap().status(), Status::Rejected);
}

#[test]
fn a_block_that_failed_in_accept_is_not_tried_again() {
    let mut state: State<MemDb> = State::default();
    let end_missing = Transaction {
        action: ActionType::EndGame { game_id: 42, block_id: Id::default() },
        bytes: Vec::new(),
        id: Id::default(),
        size: 0,
        sender: Address::default(),
    };
    let mut blk =
        Block::try_new(Id::empty(), 0, 1, String::new(), vec![end_missing], Status::Processing)
            .unwrap();
    assert_eq!(blk.accept_once(&mut state), Err(Error::GameNotFound));
    assert_eq!(blk.accept_once(&mut state), Err(Error::AlreadyDecided));
}
