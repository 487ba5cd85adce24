//! The state manager: the persistent store, the blocks that were verified
//! and not decided yet, and the table of games in progress.

pub use crate::games::{calculate_game_id, GameState};

use crate::block::{Block, BlockView};
use crate::bytes::append_bytes;
use crate::codec::block::dec_block;
use crate::codec::record::{dec_record, enc_record, BlockWithStatus};
use crate::errors::Error;
use crate::games::{
    spec_check_turn, spec_create_game, spec_end_game, spec_game_id, spec_make_move, GameStateView,
    GameTable,
};
use crate::rules::{fen_allows, fen_side_to_move, initial_fen, Color};
use crate::ids::{sha256_digest, Address, Id};
use crate::rules::{ChessMove, Position};
use crate::store::{Database, MemDb, StoreError};
use crate::table::Table;
use vstd::prelude::*;

verus! {

/// The key under which the store keeps the identifier of the block that
/// was accepted last: the ASCII text `last_accepted_block`.
pub open spec fn spec_last_accepted_key() -> Seq<u8> {
    seq![
        0x6cu8, 0x61u8, 0x73u8, 0x74u8, 0x5fu8, 0x61u8, 0x63u8, 0x63u8, 0x65u8, 0x70u8, 0x74u8,
        0x65u8, 0x64u8, 0x5fu8, 0x62u8, 0x6cu8, 0x6fu8, 0x63u8, 0x6bu8,
    ]
}

/// The key under which the store keeps the block `id`: a zero byte, a slash,
/// and the identifier.
pub open spec fn spec_block_key(id: Seq<u8>) -> Seq<u8> {
    seq![0u8, 0x2fu8] + id
}

/// The key under which the store keeps the identifier of the block that was
/// accepted last.
pub fn last_accepted_block_key() -> (key: Vec<u8>)
    ensures
        key@ == spec_last_accepted_key(),
{
    let raw: [u8; 19] = [
        0x6c, 0x61, 0x73, 0x74, 0x5f, 0x61, 0x63, 0x63, 0x65, 0x70, 0x74, 0x65, 0x64, 0x5f, 0x62,
        0x6c, 0x6f, 0x63, 0x6b,
    ];
    let mut key: Vec<u8> = Vec::new();
    append_bytes(&mut key, raw.as_slice());
    assert(key@ =~= spec_last_accepted_key());
    key
}

/// The key under which the store keeps the block `blk_id`.
pub fn block_with_status_key(blk_id: &Id) -> (key: Vec<u8>)
    ensures
        key@ == spec_block_key(blk_id@),
{
    let mut key: Vec<u8> = Vec::new();
    key.push(0);
    key.push(0x2f);
    append_bytes(&mut key, blk_id.as_slice());
    assert(key@ =~= spec_block_key(blk_id@));
    key
}

/// What a store that does not fail answers when asked for `key`.
pub open spec fn read_of(store: Map<Seq<u8>, Seq<u8>>, key: Seq<u8>) -> Result<
    Seq<u8>,
    StoreError,
> {
    if store.contains_key(key) {
        Ok(store[key])
    } else {
        Err(StoreError::NotFound)
    }
}

/// What an answer of the store holds.
pub open spec fn read_view(read: Result<Vec<u8>, StoreError>) -> Result<Seq<u8>, StoreError> {
    match read {
        Ok(value) => Ok(value@),
        Err(e) => Err(e),
    }
}

/// What a looked-up identifier holds.
pub open spec fn id_answer(r: Result<Id, Error>) -> Result<Seq<u8>, Error> {
    match r {
        Ok(id) => Ok(id@),
        Err(e) => Err(e),
    }
}

/// What a looked-up block holds.
pub open spec fn block_answer(r: Result<Block, Error>) -> Result<BlockView, Error> {
    match r {
        Ok(block) => Ok(block@),
        Err(e) => Err(e),
    }
}

/// The block that an answer of the store stands for: the record is taken
/// apart, the block read from its bytes and given the recorded status, and
/// its identifier computed from the bytes.
pub open spec fn spec_stored_block(read: Result<Seq<u8>, StoreError>) -> Result<BlockView, Error> {
    match read {
        Err(StoreError::NotFound) => Err(Error::BlockNotFound),
        Err(StoreError::Failed) => Err(Error::Storage),
        Ok(raw) => match dec_record(raw) {
            None => Err(Error::Malformed),
            Some((block_bytes, status)) => match dec_block(block_bytes) {
                None => Err(Error::Malformed),
                Some(c) => Ok(
                    BlockView {
                        parent_id: c.parent_id,
                        height: c.height,
                        timestamp: c.timestamp,
                        message: c.message,
                        txs: c.txs,
                        id: sha256_digest(block_bytes),
                        status,
                        bytes: block_bytes,
                    },
                ),
            },
        },
    }
}

/// What looking up the block `id` gives when the store does not fail: the
/// verified block of that identifier, else the stored one.
pub open spec fn lookup_block(
    verified: Map<Seq<u8>, BlockView>,
    store: Map<Seq<u8>, Seq<u8>>,
    id: Seq<u8>,
) -> Result<BlockView, Error> {
    if verified.contains_key(id) {
        Ok(verified[id])
    } else {
        spec_stored_block(read_of(store, spec_block_key(id)))
    }
}

/// The identifier that an answer of the store about the last accepted block
/// stands for. Nothing stored means that no block was accepted yet, which is
/// no error: the answer is then the empty identifier.
pub open spec fn spec_last_accepted(read: Result<Seq<u8>, StoreError>) -> Result<Seq<u8>, Error> {
    match read {
        Err(StoreError::NotFound) => Ok(Seq::new(32, |i: int| 0u8)),
        Err(StoreError::Failed) => Err(Error::Storage),
        Ok(raw) => if raw.len() <= 32 {
            Ok(raw + Seq::new((32 - raw.len()) as nat, |i: int| 0u8))
        } else {
            Err(Error::Malformed)
        },
    }
}

/// Reads a block from what the store answered.
pub fn block_from_record(read: Result<Vec<u8>, StoreError>) -> (r: Result<Block, Error>)
    ensures
        block_answer(r) == spec_stored_block(read_view(read)),
        r is Ok ==> r.unwrap()@.canonical(),
{
    let raw = match read {
        Ok(raw) => raw,
        Err(StoreError::NotFound) => {
            return Err(Error::BlockNotFound);
        },
        Err(StoreError::Failed) => {
            return Err(Error::Storage);
        },
    };
    let record = match BlockWithStatus::from_slice(raw.as_slice()) {
        Some(record) => record,
        None => {
            return Err(Error::Malformed);
        },
    };
    let mut blk = match Block::from_slice(record.block_bytes.as_slice()) {
        Ok(blk) => blk,
        Err(e) => {
            return Err(e);
        },
    };
    blk.set_status(record.status);
    Ok(blk)
}

/// Reads the identifier of the last accepted block from what the store
/// answered.
pub fn last_accepted_from(read: Result<Vec<u8>, StoreError>) -> (r: Result<Id, Error>)
    ensures
        id_answer(r) == spec_last_accepted(read_view(read)),
{
    match read {
        Ok(raw) => {
            if raw.len() <= 32 {
                Ok(Id::from_slice(raw.as_slice()))
            } else {
                Err(Error::Malformed)
            }
        },
        Err(StoreError::NotFound) => Ok(Id::empty()),
        Err(StoreError::Failed) => Err(Error::Storage),
    }
}

/// The blocks that were verified and not decided yet, each under its
/// identifier.
pub struct VerifiedBlocks {
    blocks: Table<Block>,
}

impl View for VerifiedBlocks {
    type V = Map<Seq<u8>, BlockView>;

    closed spec fn view(&self) -> Map<Seq<u8>, BlockView> {
        Map::new(|id: Seq<u8>| self.blocks@.contains_key(id), |id: Seq<u8>| self.blocks@[id]@)
    }
}

impl VerifiedBlocks {
    /// No blocks.
    pub fn new() -> (cache: VerifiedBlocks)
        ensures
            cache@ == Map::<Seq<u8>, BlockView>::empty(),
    {
        let cache = VerifiedBlocks { blocks: Table::new() };
        assert(cache@ =~= Map::<Seq<u8>, BlockView>::empty());
        cache
    }

    /// Keeps a copy of `block` under its identifier.
    pub fn add(&mut self, block: &Block)
        ensures
            final(self)@ == old(self)@.insert(block@.id, block@),
    {
        let id = block.id();
        self.blocks.insert(id.to_vec(), block.clone());
        assert(self@ =~= old(self)@.insert(block@.id, block@));
    }

    /// Forgets the block `blk_id`.
    pub fn remove(&mut self, blk_id: &Id)
        ensures
            final(self)@ == old(self)@.remove(blk_id@),
    {
        self.blocks.remove(blk_id.as_slice());
        assert(self@ =~= old(self)@.remove(blk_id@));
    }

    /// The block `blk_id`, if it is kept.
    pub fn get(&self, blk_id: &Id) -> (r: Option<&Block>)
        ensures
            r is Some <==> self@.contains_key(blk_id@),
            r is Some ==> r.unwrap()@ == self@[blk_id@],
    {
        self.blocks.find(blk_id.as_slice())
    }
}

/// The state manager. It owns the persistent store, the verified blocks and
/// the table of games.
pub struct State<D: Database> {
    db: D,
    verified_blocks: VerifiedBlocks,
    game_states: GameTable,
}

impl<D: Database> State<D> {
    /// What the persistent store holds.
    pub closed spec fn store(&self) -> Map<Seq<u8>, Seq<u8>> {
        self.db.contents()
    }

    /// Whether the persistent store never fails.
    pub closed spec fn reliable(&self) -> bool {
        self.db.reliable()
    }

    /// The blocks that were verified and not decided yet.
    pub closed spec fn verified(&self) -> Map<Seq<u8>, BlockView> {
        self.verified_blocks@
    }

    /// The games in progress.
    pub closed spec fn games(&self) -> Map<u64, GameStateView> {
        self.game_states@
    }

    /// What looking up the block `id` gives when the store does not fail:
    /// the verified block of that identifier, else the stored one.
    pub open spec fn spec_get_block(&self, id: Seq<u8>) -> Result<BlockView, Error> {
        lookup_block(self.verified(), self.store(), id)
    }

    /// Whether the store may answer `read` when asked for `key`. A reliable
    /// store answers from what it holds; of any other store nothing is
    /// known.
    pub open spec fn may_read(&self, key: Seq<u8>, read: Result<Seq<u8>, StoreError>) -> bool {
        self.reliable() ==> read == read_of(self.store(), key)
    }

    /// Whether looking up the block `id` may give `answer`: the verified
    /// block of that identifier if there is one, else the block that
    /// something the store may answer stands for.
    pub open spec fn may_answer(&self, id: Seq<u8>, answer: Result<BlockView, Error>) -> bool {
        if self.verified().contains_key(id) {
            answer == Ok::<BlockView, Error>(self.verified()[id])
        } else {
            exists|read: Result<Seq<u8>, StoreError>|
                self.may_read(spec_block_key(id), read) && answer == #[trigger] spec_stored_block(
                    read,
                )
        }
    }

    /// What looking up a block gives when the store does not fail is among
    /// what it may give; with a reliable store it is all that it may give.
    pub proof fn lemma_may_answer(&self, id: Seq<u8>)
        ensures
            self.may_answer(id, self.spec_get_block(id)),
            self.reliable() ==> forall|answer: Result<BlockView, Error>|
                self.may_answer(id, answer) ==> answer == self.spec_get_block(id),
    {
        let read = read_of(self.store(), spec_block_key(id));
        assert(self.may_read(spec_block_key(id), read));
        assert(self.spec_get_block(id) == lookup_block(self.verified(), self.store(), id));
        if !self.verified().contains_key(id) {
            assert(self.spec_get_block(id) == spec_stored_block(read));
        }
    }

    /// A state manager over `db`, without verified blocks and without games.
    pub fn new(db: D) -> (state: State<D>)
        ensures
            state.store() == db.contents(),
            state.reliable() == db.reliable(),
            state.verified() == Map::<Seq<u8>, BlockView>::empty(),
            state.games() == Map::<u64, GameStateView>::empty(),
    {
        State { db, verified_blocks: VerifiedBlocks::new(), game_states: GameTable::new() }
    }

    /// The persistent store.
    pub fn db(&self) -> (db: &D)
        ensures
            db.contents() == self.store(),
            db.reliable() == self.reliable(),
    {
        &self.db
    }

    /// Records `blk_id` as the block that was accepted last.
    pub fn set_last_accepted_block(&mut self, blk_id: &Id) -> (r: Result<(), Error>)
        ensures
            final(self).verified() == old(self).verified(),
            final(self).games() == old(self).games(),
            final(self).reliable() == old(self).reliable(),
            old(self).reliable() ==> r is Ok && final(self).store() == old(self).store().insert(
                spec_last_accepted_key(),
                blk_id@,
            ),
            r is Err ==> r == Err::<(), Error>(Error::Storage),
    {
        let key = last_accepted_block_key();
        match self.db.put(key.as_slice(), blk_id.as_slice()) {
            Ok(_) => Ok(()),
            Err(_) => Err(Error::Storage),
        }
    }

    /// Whether a block was accepted yet.
    pub fn has_last_accepted_block(&self) -> (r: Result<bool, Error>)
        ensures
            self.reliable() ==> r == Ok::<bool, Error>(
                self.store().contains_key(spec_last_accepted_key()),
            ),
            r is Err ==> r == Err::<bool, Error>(Error::Storage),
    {
        let key = last_accepted_block_key();
        match self.db.has(key.as_slice()) {
            Ok(found) => Ok(found),
            Err(_) => Err(Error::Storage),
        }
    }

    /// The identifier of the block that was accepted last, or the empty
    /// identifier if none was.
    pub fn get_last_accepted_block_id(&self) -> (r: Result<Id, Error>)
        ensures
            exists|read: Result<Seq<u8>, StoreError>|
                self.may_read(spec_last_accepted_key(), read) && id_answer(r)
                    == #[trigger] spec_last_accepted(read),
            self.reliable() ==> id_answer(r) == spec_last_accepted(
                read_of(self.store(), spec_last_accepted_key()),
            ),
    {
        let key = last_accepted_block_key();
        let read = self.db.get(key.as_slice());
        let ghost answered = read_view(read);
        let r = last_accepted_from(read);
        assert(self.may_read(spec_last_accepted_key(), answered));
        assert(id_answer(r) == spec_last_accepted(answered));
        r
    }

    /// Keeps `block` among the verified blocks.
    pub fn add_verified(&mut self, block: &Block)
        ensures
            final(self).verified() == old(self).verified().insert(block@.id, block@),
            final(self).games() == old(self).games(),
            final(self).store() == old(self).store(),
            final(self).reliable() == old(self).reliable(),
    {
        self.verified_blocks.add(block);
    }

    /// Takes the block `blk_id` out of the verified blocks.
    pub fn remove_verified(&mut self, blk_id: &Id)
        ensures
            final(self).verified() == old(self).verified().remove(blk_id@),
            final(self).games() == old(self).games(),
            final(self).store() == old(self).store(),
            final(self).reliable() == old(self).reliable(),
    {
        self.verified_blocks.remove(blk_id);
    }

    /// Whether the block `blk_id` is among the verified blocks.
    pub fn has_verified(&self, blk_id: &Id) -> (found: bool)
        ensures
            found == self.verified().contains_key(blk_id@),
    {
        self.verified_blocks.get(blk_id).is_some()
    }

    /// Stores `block`, bytes and status, under its identifier.
    pub fn write_block(&mut self, block: &Block) -> (r: Result<(), Error>)
        ensures
            final(self).verified() == old(self).verified(),
            final(self).games() == old(self).games(),
            final(self).reliable() == old(self).reliable(),
            old(self).reliable() ==> r is Ok && final(self).store() == old(self).store().insert(
                spec_block_key(block@.id),
                enc_record(block@.bytes, block@.status),
            ),
            r is Err ==> r == Err::<(), Error>(Error::Storage),
    {
        let blk_id = block.id();
        let blk_bytes = match block.to_vec() {
            Ok(bytes) => bytes,
            Err(e) => {
                return Err(e);
            },
        };
        let blk_status = BlockWithStatus { block_bytes: blk_bytes, status: block.status() };
        let blk_status_bytes = blk_status.encode();
        let key = block_with_status_key(&blk_id);
        match self.db.put(key.as_slice(), blk_status_bytes.as_slice()) {
            Ok(_) => Ok(()),
            Err(_) => Err(Error::Storage),
        }
    }

    /// The block `blk_id`: the verified one if there is one, else the
    /// stored one.
    pub fn get_block(&self, blk_id: &Id) -> (r: Result<Block, Error>)
        ensures
            self.may_answer(blk_id@, block_answer(r)),
            r is Ok ==> r.unwrap()@.canonical(),
    {
        if let Some(b) = self.verified_blocks.get(blk_id) {
            return Ok(b.clone());
        }
        let key = block_with_status_key(blk_id);
        let read = self.db.get(key.as_slice());
        let ghost answered = read_view(read);
        let r = block_from_record(read);
        assert(self.may_read(spec_block_key(blk_id@), answered));
        assert(block_answer(r) == spec_stored_block(answered));
        r
    }

    /// Starts a game between `white` and `black` at the initial position and
    /// returns its identifier. A game already kept under that identifier is
    /// replaced.
    pub fn create_new_game(&mut self, white: Address, black: Address) -> (r: Result<u64, Error>)
        ensures
            r == Ok::<u64, Error>(spec_game_id(white@, black@)),
            final(self).games() == spec_create_game(old(self).games(), white@, black@),
            fen_side_to_move(initial_fen()) == Color::White,
            final(self).games()[spec_game_id(white@, black@)].mover() == white@,
            final(self).verified() == old(self).verified(),
            final(self).store() == old(self).store(),
            final(self).reliable() == old(self).reliable(),
    {
        Ok(self.game_states.create_new_game(white, black))
    }

    /// Checks that the game `game_id` exists and that it is the turn of
    /// `player` in it.
    pub fn check_turn(&self, player: Address, game_id: u64) -> (r: Result<(), Error>)
        ensures
            r == spec_check_turn(self.games(), player@, game_id),
    {
        self.game_states.check_turn(player, game_id)
    }

    /// Makes a move in the game `game_id` on behalf of `player`. A move that
    /// the rules do not allow is accepted and changes nothing. With a move
    /// that is made the turn passes to the other side.
    pub fn make_move(&mut self, player: Address, game_id: u64, mv: &ChessMove) -> (r: Result<
        (),
        Error,
    >)
        ensures
            r == spec_make_move(old(self).games(), player@, game_id, *mv).0,
            final(self).games() == spec_make_move(old(self).games(), player@, game_id, *mv).1,
            r != Err::<(), Error>(Error::MoveFailed),
            old(self).games().contains_key(game_id) && player@ == old(self).games()[game_id].mover()
                && fen_allows(old(self).games()[game_id].board, *mv) ==> fen_side_to_move(
                final(self).games()[game_id].board,
            ) != fen_side_to_move(old(self).games()[game_id].board),
            final(self).verified() == old(self).verified(),
            final(self).store() == old(self).store(),
            final(self).reliable() == old(self).reliable(),
    {
        self.game_states.make_move(player, game_id, mv)
    }

    /// Ends the game `game_id` and returns its last position.
    pub fn end_game(&mut self, game_id: u64) -> (r: Result<Position, Error>)
        ensures
            match r {
                Ok(pos) => old(self).games().contains_key(game_id) && pos@ == old(
                    self,
                ).games()[game_id].board,
                Err(e) => !old(self).games().contains_key(game_id) && e == Error::GameNotFound,
            },
            final(self).games() == spec_end_game(old(self).games(), game_id).1,
            final(self).verified() == old(self).verified(),
            final(self).store() == old(self).store(),
            final(self).reliable() == old(self).reliable(),
    {
        self.game_states.end_game(game_id)
    }

    /// The position of the game `game_id`, if there is such a game.
    pub fn get_game(&self, game_id: u64) -> (r: Option<Position>)
        ensures
            r is Some <==> self.games().contains_key(game_id),
            r is Some ==> r.unwrap()@ == self.games()[game_id].board,
    {
        self.game_states.get_game(game_id)
    }

    /// Whether there is a game `game_id`.
    pub fn game_exists(&self, game_id: u64) -> (exists: bool)
        ensures
            exists == self.games().contains_key(game_id),
    {
        self.game_states.game_exists(game_id)
    }
}

impl Default for State<MemDb> {
    fn default() -> (state: State<MemDb>)
        ensures
            state.store() == Map::<Seq<u8>, Seq<u8>>::empty(),
            state.reliable(),
            state.verified() == Map::<Seq<u8>, BlockView>::empty(),
            state.games() == Map::<u64, GameStateView>::empty(),
    {
        State::new(MemDb::new())
    }
}

} // verus!
