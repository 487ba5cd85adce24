//! Blocks: ordered batches of transactions, identified by the digest of
//! their canonical bytes.

use crate::bytes::{copy_bytes, same_bytes};
use crate::codec::block::{
    block_fits, dec_block, decode_block, enc_block, encode_block, lemma_block_round,
    lemma_block_sound, BlockContent,
};
use crate::codec::record::{enc_record, lemma_record_round};
use crate::errors::Error;
use crate::ids::{sha256_digest, Address, Id};
use crate::games::GameStateView;
use crate::state::{
    block_answer, lookup_block, read_of, spec_block_key, spec_last_accepted, spec_last_accepted_key,
    State,
};
use crate::store::Database;
use crate::tx::{
    clone_transactions, spec_execute_all, views, Transaction, TransactionContext, TransactionView,
};
use vstd::prelude::*;
use vstd::std_specs::cmp::PartialEqSpecImpl;

verus! {

/// Where a block stands with the consensus engine.
#[derive(Clone, Copy, Debug, PartialEq, Eq, Structural)]
pub enum Status {
    /// Known, not decided yet.
    Processing,
    /// Rejected, never to be accepted.
    Rejected,
    /// Accepted.
    Accepted,
    /// Not known.
    Unknown,
}

impl Default for Status {
    fn default() -> (status: Status)
        ensures
            status == Status::Unknown,
    {
        Status::Unknown
    }
}

impl Status {
    /// Whether the block has been accepted or rejected.
    pub open spec fn spec_decided(&self) -> bool {
        *self == Status::Accepted || *self == Status::Rejected
    }

    /// Whether the block has been accepted or rejected.
    #[verifier::when_used_as_spec(spec_decided)]
    pub fn decided(&self) -> (decided: bool)
        ensures
            decided == self.spec_decided(),
    {
        match self {
            Status::Accepted | Status::Rejected => true,
            _ => false,
        }
    }
}

/// One unit of the ledger.
#[derive(Debug)]
pub struct Block {
    parent_id: Id,
    height: u64,
    timestamp: u64,
    message: String,
    txs: Vec<Transaction>,
    id: Id,
    status: Status,
    bytes: Vec<u8>,
}

/// What a [`Block`] holds.
pub struct BlockView {
    pub parent_id: Seq<u8>,
    pub height: u64,
    pub timestamp: u64,
    pub message: Seq<char>,
    pub txs: Seq<TransactionView>,
    pub id: Seq<u8>,
    pub status: Status,
    pub bytes: Seq<u8>,
}

impl BlockView {
    /// The part that the canonical bytes state.
    pub open spec fn content(self) -> BlockContent {
        BlockContent {
            parent_id: self.parent_id,
            height: self.height,
            timestamp: self.timestamp,
            message: self.message,
            txs: self.txs,
        }
    }

    /// What holds of every block: its bytes are the canonical form of its
    /// content, and its identifier is their digest.
    pub open spec fn canonical(self) -> bool {
        &&& block_fits(self.content())
        &&& self.bytes == enc_block(self.content())
        &&& self.id == sha256_digest(self.bytes)
    }

    /// The block as it reads back from the store once it was written with
    /// `status`: the same, each transaction reduced to its action.
    pub open spec fn stored(self, status: Status) -> BlockView {
        BlockView { status, txs: self.content().bare().txs, ..self }
    }

    /// Whether the block is a genesis block: at height 0 and without a
    /// parent.
    pub open spec fn is_genesis(self) -> bool {
        self.height == 0 && self.parent_id == Seq::new(32, |i: int| 0u8)
    }
}

impl View for Block {
    type V = BlockView;

    closed spec fn view(&self) -> BlockView {
        BlockView {
            parent_id: self.parent_id@,
            height: self.height,
            timestamp: self.timestamp,
            message: self.message@,
            txs: views(self.txs@),
            id: self.id@,
            status: self.status,
            bytes: self.bytes@,
        }
    }
}

impl Block {
    #[verifier::type_invariant]
    spec fn well_formed(self) -> bool {
        self@.canonical()
    }

    /// Builds a block and computes its canonical bytes and, from them, its
    /// identifier.
    pub fn try_new(
        parent_id: Id,
        height: u64,
        timestamp: u64,
        message: String,
        txs: Vec<Transaction>,
        status: Status,
    ) -> (r: Result<Block, Error>)
        ensures
            ({
                let c = BlockContent {
                    parent_id: parent_id@,
                    height,
                    timestamp,
                    message: message@,
                    txs: views(txs@),
                };
                match r {
                    Ok(block) => block_fits(c) && block@.content() == c && block@.status == status
                        && block@.canonical(),
                    Err(e) => !block_fits(c) && e == Error::NotRepresentable,
                }
            }),
    {
        let bytes = match encode_block(&parent_id, height, timestamp, message.as_str(), &txs) {
            Some(bytes) => bytes,
            None => {
                return Err(Error::NotRepresentable);
            },
        };
        let id = Id::sha256(bytes.as_slice());
        Ok(Block { parent_id, height, timestamp, message, txs, id, status, bytes })
    }

    /// Reads a block from its canonical bytes. Its identifier is computed
    /// from the bytes, its status is unknown, and its transactions hold
    /// their actions and nothing else.
    pub fn from_slice(d: &[u8]) -> (r: Result<Block, Error>)
        ensures
            match dec_block(d@) {
                Some(c) => r is Ok && r.unwrap()@.content() == c && r.unwrap()@.bytes == d@
                    && r.unwrap()@.status == Status::Unknown && r.unwrap()@.canonical(),
                None => r == Err::<Block, Error>(Error::Malformed),
            },
    {
        let decoded = match decode_block(d) {
            Some(decoded) => decoded,
            None => {
                return Err(Error::Malformed);
            },
        };
        proof {
            lemma_block_sound(d@);
        }
        let bytes = copy_bytes(d);
        let id = Id::sha256(bytes.as_slice());
        Ok(
            Block {
                parent_id: decoded.parent_id,
                height: decoded.height,
                timestamp: decoded.timestamp,
                message: decoded.message,
                txs: decoded.txs,
                id,
                status: Status::Unknown,
                bytes,
            },
        )
    }

    /// The canonical bytes of the block.
    pub fn to_vec(&self) -> (r: Result<Vec<u8>, Error>)
        ensures
            r is Ok,
            r.unwrap()@ == self@.bytes,
            self@.canonical(),
    {
        proof {
            use_type_invariant(self);
        }
        match encode_block(
            &self.parent_id,
            self.height,
            self.timestamp,
            self.message.as_str(),
            &self.txs,
        ) {
            Some(bytes) => Ok(bytes),
            None => Err(Error::NotRepresentable),
        }
    }

    /// The canonical bytes of the block.
    pub fn bytes(&self) -> (bytes: &[u8])
        ensures
            bytes@ == self@.bytes,
    {
        self.bytes.as_slice()
    }

    /// The identifier of the block: the digest of its canonical bytes.
    pub fn id(&self) -> (id: Id)
        ensures
            id@ == self@.id,
            self@.canonical(),
    {
        proof {
            use_type_invariant(self);
        }
        self.id
    }

    /// The identifier of the block before this one.
    pub fn parent(&self) -> (id: Id)
        ensures
            id@ == self@.parent_id,
    {
        self.parent_id
    }

    /// The height of the block; a genesis block has height 0.
    pub fn height(&self) -> (height: u64)
        ensures
            height == self@.height,
    {
        self.height
    }

    /// The Unix time at which the block was proposed.
    pub fn timestamp(&self) -> (timestamp: u64)
        ensures
            timestamp == self@.timestamp,
    {
        self.timestamp
    }

    /// The message of the block.
    pub fn message(&self) -> (message: &String)
        ensures
            message@ == self@.message,
    {
        &self.message
    }

    /// The transactions of the block, in the order of their execution.
    pub fn transactions(&self) -> (txs: &Vec<Transaction>)
        ensures
            views(txs@) == self@.txs,
    {
        &self.txs
    }

    /// The number of transactions in the block.
    pub fn get_num_of_transactions(&self) -> (n: usize)
        ensures
            n == self@.txs.len(),
    {
        self.txs.len()
    }

    /// The status of the block.
    pub fn status(&self) -> (status: Status)
        ensures
            status == self@.status,
    {
        self.status
    }

    /// Sets the status of the block and leaves the rest as it is.
    pub fn set_status(&mut self, status: Status)
        ensures
            final(self)@ == (BlockView { status, ..old(self)@ }),
    {
        proof {
            use_type_invariant(&*self);
        }
        self.status = status;
    }
}

impl PartialEq for Block {
    /// Two blocks are equal when they agree in everything but their
    /// transactions.
    fn eq(&self, other: &Block) -> (equal: bool) {
        self.parent_id == other.parent_id && self.height == other.height && self.timestamp
            == other.timestamp && self.message == other.message && self.id == other.id
            && self.status == other.status && same_bytes(
            self.bytes.as_slice(),
            other.bytes.as_slice(),
        )
    }
}

impl PartialEqSpecImpl for Block {
    open spec fn obeys_eq_spec() -> bool {
        true
    }

    open spec fn eq_spec(&self, other: &Block) -> bool {
        &&& self@.parent_id == other@.parent_id
        &&& self@.height == other@.height
        &&& self@.timestamp == other@.timestamp
        &&& self@.message == other@.message
        &&& self@.id == other@.id
        &&& self@.status == other@.status
        &&& self@.bytes == other@.bytes
    }
}

impl Clone for Block {
    fn clone(&self) -> (copy: Block)
        ensures
            copy@ == self@,
            copy@.canonical(),
    {
        proof {
            use_type_invariant(self);
        }
        Block {
            parent_id: self.parent_id,
            height: self.height,
            timestamp: self.timestamp,
            message: self.message.clone(),
            txs: clone_transactions(&self.txs),
            id: self.id,
            status: self.status,
            bytes: copy_bytes(self.bytes.as_slice()),
        }
    }
}

/// The number of seconds by which a block's timestamp must stay below the
/// local clock's time plus this bound.
pub const MAX_CLOCK_SKEW: i64 = 3600;

/// What the checks of a block against its parent and the clock give: the
/// block follows its parent by one, is not older than it, and is less than
/// an hour ahead of `now`.
pub open spec fn spec_check_parent(block: BlockView, parent: BlockView, now: int) -> Result<
    (),
    Error,
> {
    if parent.height + 1 != block.height {
        Err(Error::HeightMismatch { parent: parent.height, block: block.height })
    } else if parent.timestamp > block.timestamp {
        Err(Error::TimestampBeforeParent { parent: parent.timestamp, block: block.timestamp })
    } else if block.timestamp >= now + MAX_CLOCK_SKEW {
        Err(Error::TimestampTooFarAhead { block: block.timestamp })
    } else {
        Ok(())
    }
}

/// What verifying a block gives, from what looking up the block itself and
/// its parent gave: whether the block is to be kept among the verified
/// blocks, or why it is refused. A genesis block is kept unchecked; a block
/// that is already known passes and is not kept again; any other block is
/// checked against its parent.
pub open spec fn spec_verify(
    block: BlockView,
    own: Result<BlockView, Error>,
    parent: Result<BlockView, Error>,
    now: int,
) -> Result<bool, Error> {
    if block.is_genesis() {
        Ok(true)
    } else if own is Ok {
        Ok(false)
    } else {
        match parent {
            Err(e) => Err(e),
            Ok(p) => match spec_check_parent(block, p, now) {
                Ok(_) => Ok(true),
                Err(e) => Err(e),
            },
        }
    }
}

/// What verifying a block does, from what looking up the block itself and
/// its parent gave: the answer and the verified blocks afterwards.
pub open spec fn spec_verify_with(
    verified: Map<Seq<u8>, BlockView>,
    block: BlockView,
    own: Result<BlockView, Error>,
    parent: Result<BlockView, Error>,
    now: int,
) -> (Result<(), Error>, Map<Seq<u8>, BlockView>) {
    match spec_verify(block, own, parent, now) {
        Ok(keep) => (
            Ok(()),
            if keep {
                verified.insert(block.id, block)
            } else {
                verified
            },
        ),
        Err(e) => (Err(e), verified),
    }
}

/// What verifying a block does when the store does not fail: the answer and
/// the verified blocks afterwards.
pub open spec fn spec_verify_outcome(
    verified: Map<Seq<u8>, BlockView>,
    store: Map<Seq<u8>, Seq<u8>>,
    block: BlockView,
    now: int,
) -> (Result<(), Error>, Map<Seq<u8>, BlockView>) {
    spec_verify_with(
        verified,
        block,
        lookup_block(verified, store, block.id),
        lookup_block(verified, store, block.parent_id),
        now,
    )
}

/// What accepting a block comes to, from the games, the store and the
/// verified blocks before and after. The games are those that executing the
/// transactions in order leaves. If a transaction fails, its error is the
/// answer and nothing else changes. Otherwise the block's record and the
/// last accepted identifier are written and the block leaves the verified
/// blocks; a store that is not reliable may fail instead, and then the
/// verified blocks stay. With a reliable store the call succeeds and the
/// block reads back as accepted.
pub open spec fn spec_accepted(
    block: BlockView,
    games: Map<u64, GameStateView>,
    store: Map<Seq<u8>, Seq<u8>>,
    verified: Map<Seq<u8>, BlockView>,
    reliable: bool,
    r: Result<(), Error>,
    games_after: Map<u64, GameStateView>,
    store_after: Map<Seq<u8>, Seq<u8>>,
    verified_after: Map<Seq<u8>, BlockView>,
) -> bool {
    let run = spec_execute_all(games, block.txs);
    &&& games_after == run.1
    &&& run.0 is Err ==> r == run.0 && store_after == store && verified_after == verified
    &&& run.0 is Ok ==> match r {
        Ok(_) => verified_after == verified.remove(block.id),
        Err(e) => e == Error::Storage && !reliable && verified_after == verified,
    }
    &&& run.0 is Ok && reliable ==> {
        &&& r is Ok
        &&& store_after == store.insert(
            spec_block_key(block.id),
            enc_record(block.bytes, Status::Accepted),
        ).insert(spec_last_accepted_key(), block.id)
        &&& lookup_block(verified_after, store_after, block.id) == Ok::<BlockView, Error>(
            block.stored(Status::Accepted),
        )
        &&& spec_last_accepted(read_of(store_after, spec_last_accepted_key())) == Ok::<
            Seq<u8>,
            Error,
        >(block.id)
    }
}

/// What rejecting a block comes to, from the store and the verified blocks
/// before and after. The block's record is written and the block leaves the
/// verified blocks; a store that is not reliable may fail instead, and then
/// the verified blocks stay. With a reliable store the call succeeds and
/// the block reads back as rejected.
pub open spec fn spec_rejected(
    block: BlockView,
    store: Map<Seq<u8>, Seq<u8>>,
    verified: Map<Seq<u8>, BlockView>,
    reliable: bool,
    r: Result<(), Error>,
    store_after: Map<Seq<u8>, Seq<u8>>,
    verified_after: Map<Seq<u8>, BlockView>,
) -> bool {
    &&& match r {
        Ok(_) => verified_after == verified.remove(block.id),
        Err(e) => e == Error::Storage && !reliable && verified_after == verified,
    }
    &&& reliable ==> {
        &&& r is Ok
        &&& store_after == store.insert(
            spec_block_key(block.id),
            enc_record(block.bytes, Status::Rejected),
        )
        &&& lookup_block(verified_after, store_after, block.id) == Ok::<BlockView, Error>(
            block.stored(Status::Rejected),
        )
    }
}

/// Calls `chrono::Utc::now` and `timestamp`: the seconds since the Unix
/// epoch by the local clock. `Utc::now` measures the time since the epoch,
/// so the value is not negative; nothing else is claimed of it. On a
/// machine whose clock stands before the epoch `Utc::now` does not return.
#[verifier::external_body]
fn unix_now() -> (now: i64)
    ensures
        0 <= now,
{
    chrono::Utc::now().timestamp()
}

impl Block {
    /// Checks the block against its parent and the clock.
    pub fn check_parent(&self, parent: &Block, now: i64) -> (r: Result<(), Error>)
        ensures
            r == spec_check_parent(self@, parent@, now as int),
    {
        if self.height == 0 || parent.height != self.height - 1 {
            return Err(Error::HeightMismatch { parent: parent.height, block: self.height });
        }
        if parent.timestamp > self.timestamp {
            return Err(
                Error::TimestampBeforeParent { parent: parent.timestamp, block: self.timestamp },
            );
        }
        let one_hour_from_now: i128 = now as i128 + MAX_CLOCK_SKEW as i128;
        if self.timestamp as i128 >= one_hour_from_now {
            return Err(Error::TimestampTooFarAhead { block: self.timestamp });
        }
        Ok(())
    }

    /// Verifies the block at the time `now`, in seconds since the Unix
    /// epoch, and keeps it among the verified blocks of `state` if it
    /// passes.
    pub fn verify_at<D: Database>(&self, state: &mut State<D>, now: i64) -> (r: Result<(), Error>)
        ensures
            final(state).store() == old(state).store(),
            final(state).reliable() == old(state).reliable(),
            final(state).games() == old(state).games(),
            r is Err ==> final(state).verified() == old(state).verified(),
            r is Ok ==> final(state).verified() == old(state).verified() || final(state).verified()
                == old(state).verified().insert(self@.id, self@),
            exists|own: Result<BlockView, Error>, parent: Result<BlockView, Error>|
                {
                    &&& old(state).may_answer(self@.id, own)
                    &&& old(state).may_answer(self@.parent_id, parent)
                    &&& r == (#[trigger] spec_verify_with(
                        old(state).verified(),
                        self@,
                        own,
                        parent,
                        now as int,
                    )).0
                    &&& final(state).verified() == spec_verify_with(
                        old(state).verified(),
                        self@,
                        own,
                        parent,
                        now as int,
                    ).1
                },
            old(state).reliable() ==> r == spec_verify_outcome(
                old(state).verified(),
                old(state).store(),
                self@,
                now as int,
            ).0 && final(state).verified() == spec_verify_outcome(
                old(state).verified(),
                old(state).store(),
                self@,
                now as int,
            ).1,
            old(state).reliable() && r is Ok ==> final(state).spec_get_block(self@.id) is Ok,
    {
        let ghost before = old(state).verified();
        let ghost known = old(state).spec_get_block(self@.id);
        let ghost known_parent = old(state).spec_get_block(self@.parent_id);
        proof {
            state.lemma_may_answer(self@.id);
            state.lemma_may_answer(self@.parent_id);
        }
        if self.height == 0 && self.parent_id == Id::empty() {
            state.add_verified(self);
            assert(spec_verify_with(before, self@, known, known_parent, now as int).0 is Ok);
            return Ok(());
        }
        let own = state.get_block(&self.id);
        if own.is_ok() {
            assert(spec_verify_with(before, self@, block_answer(own), known_parent, now as int).0
                is Ok);
            return Ok(());
        }
        let parent = state.get_block(&self.parent_id);
        let ghost with = spec_verify_with(
            before,
            self@,
            block_answer(own),
            block_answer(parent),
            now as int,
        );
        let prnt_blk = match parent {
            Ok(blk) => blk,
            Err(e) => {
                assert(with.0 is Err);
                return Err(e);
            },
        };
        match self.check_parent(&prnt_blk, now) {
            Ok(_) => {},
            Err(e) => {
                assert(with.0 is Err);
                return Err(e);
            },
        }
        state.add_verified(self);
        assert(with.0 is Ok);
        Ok(())
    }

    /// Verifies the block by the local clock, which does not stand before
    /// the Unix epoch, and keeps it among the verified blocks of `state` if
    /// it passes.
    pub fn verify<D: Database>(&self, state: &mut State<D>) -> (r: Result<(), Error>)
        ensures
            final(state).store() == old(state).store(),
            final(state).reliable() == old(state).reliable(),
            final(state).games() == old(state).games(),
            r is Err ==> final(state).verified() == old(state).verified(),
            r is Ok ==> final(state).verified() == old(state).verified() || final(state).verified()
                == old(state).verified().insert(self@.id, self@),
            exists|now: i64, own: Result<BlockView, Error>, parent: Result<BlockView, Error>|
                {
                    &&& 0 <= now
                    &&& old(state).may_answer(self@.id, own)
                    &&& old(state).may_answer(self@.parent_id, parent)
                    &&& r == (#[trigger] spec_verify_with(
                        old(state).verified(),
                        self@,
                        own,
                        parent,
                        now as int,
                    )).0
                    &&& final(state).verified() == spec_verify_with(
                        old(state).verified(),
                        self@,
                        own,
                        parent,
                        now as int,
                    ).1
                },
            old(state).reliable() ==> exists|now: i64|
                0 <= now && r == (#[trigger] spec_verify_outcome(
                    old(state).verified(),
                    old(state).store(),
                    self@,
                    now as int,
                )).0 && final(state).verified() == spec_verify_outcome(
                    old(state).verified(),
                    old(state).store(),
                    self@,
                    now as int,
                ).1,
            old(state).reliable() && r is Ok ==> final(state).spec_get_block(self@.id) is Ok,
    {
        let now = unix_now();
        let r = self.verify_at(state, now);
        proof {
            let (own, parent) = choose|own: Result<BlockView, Error>, parent: Result<BlockView, Error>|
                {
                    &&& old(state).may_answer(self@.id, own)
                    &&& old(state).may_answer(self@.parent_id, parent)
                    &&& r == (#[trigger] spec_verify_with(
                        old(state).verified(),
                        self@,
                        own,
                        parent,
                        now as int,
                    )).0
                    &&& state.verified() == spec_verify_with(
                        old(state).verified(),
                        self@,
                        own,
                        parent,
                        now as int,
                    ).1
                };
            assert(r == spec_verify_with(old(state).verified(), self@, own, parent, now as int).0);
            if old(state).reliable() {
                assert(r == spec_verify_outcome(
                    old(state).verified(),
                    old(state).store(),
                    self@,
                    now as int,
                ).0);
            }
        }
        r
    }

    /// Marks the block accepted, executes its transactions in order against
    /// the table of games, stores the block, records it as the last accepted
    /// one, and takes it out of the verified blocks. The first transaction
    /// that fails ends the call: what was executed before it stays executed,
    /// and nothing is stored.
    pub fn accept<D: Database>(&mut self, state: &mut State<D>) -> (r: Result<(), Error>)
        ensures
            final(self)@ == (BlockView { status: Status::Accepted, ..old(self)@ }),
            final(state).reliable() == old(state).reliable(),
            spec_accepted(
                old(self)@,
                old(state).games(),
                old(state).store(),
                old(state).verified(),
                old(state).reliable(),
                r,
                final(state).games(),
                final(state).store(),
                final(state).verified(),
            ),
    {
        self.set_status(Status::Accepted);

        let tx_context = TransactionContext {
            block_time: self.timestamp,
            tx_id: Id::empty(),
            sender: Address::zero(),
        };

        let ghost all = views(self.txs@);
        let mut i: usize = 0;
        assert(all.skip(0) =~= all);
        while i < self.txs.len()
            invariant
                i <= self.txs@.len(),
                all == views(self.txs@),
                all == old(self)@.txs,
                self@ == (BlockView { status: Status::Accepted, ..old(self)@ }),
                state.verified() == old(state).verified(),
                state.store() == old(state).store(),
                state.reliable() == old(state).reliable(),
                spec_execute_all(old(state).games(), all) == spec_execute_all(
                    state.games(),
                    all.skip(i as int),
                ),
            decreases self.txs@.len() - i,
        {
            assert(all.skip(i as int).skip(1) =~= all.skip(i + 1));
            assert(all.skip(i as int)[0] == self.txs@[i as int]@);
            match self.txs[i].execute(state, &tx_context) {
                Ok(_) => {},
                Err(e) => {
                    return Err(e);
                },
            }
            i += 1;
        }

        match state.write_block(self) {
            Ok(_) => {},
            Err(e) => {
                return Err(e);
            },
        }
        let id = self.id();
        match state.set_last_accepted_block(&id) {
            Ok(_) => {},
            Err(e) => {
                return Err(e);
            },
        }
        state.remove_verified(&id);
        proof {
            lemma_stored_block_reads_back(
                state.verified(),
                old(state).store(),
                self@,
                self@.id,
            );
            lemma_last_accepted_reads_back(
                old(state).store().insert(
                    spec_block_key(self@.id),
                    enc_record(self@.bytes, Status::Accepted),
                ),
                self@.id,
            );
        }
        Ok(())
    }

    /// Accepts the block unless it was decided before. A block is decided
    /// once: for one that is accepted or rejected already the call fails,
    /// executes nothing and changes nothing.
    pub fn accept_once<D: Database>(&mut self, state: &mut State<D>) -> (r: Result<(), Error>)
        ensures
            final(state).reliable() == old(state).reliable(),
            old(self)@.status.spec_decided() ==> {
                &&& r == Err::<(), Error>(Error::AlreadyDecided)
                &&& final(self)@ == old(self)@
                &&& final(state).games() == old(state).games()
                &&& final(state).store() == old(state).store()
                &&& final(state).verified() == old(state).verified()
            },
            !old(self)@.status.spec_decided() ==> {
                &&& final(self)@ == (BlockView { status: Status::Accepted, ..old(self)@ })
                &&& r != Err::<(), Error>(Error::AlreadyDecided)
                &&& spec_accepted(
                    old(self)@,
                    old(state).games(),
                    old(state).store(),
                    old(state).verified(),
                    old(state).reliable(),
                    r,
                    final(state).games(),
                    final(state).store(),
                    final(state).verified(),
                )
            },
    {
        if self.status.decided() {
            return Err(Error::AlreadyDecided);
        }
        let r = self.accept(state);
        proof {
            crate::tx::lemma_execution_never_says_decided(old(state).games(), old(self)@.txs);
        }
        r
    }

    /// Rejects the block unless it was decided before. For a block that is
    /// accepted or rejected already the call fails and changes nothing.
    pub fn reject_once<D: Database>(&mut self, state: &mut State<D>) -> (r: Result<(), Error>)
        ensures
            final(state).reliable() == old(state).reliable(),
            final(state).games() == old(state).games(),
            old(self)@.status.spec_decided() ==> {
                &&& r == Err::<(), Error>(Error::AlreadyDecided)
                &&& final(self)@ == old(self)@
                &&& final(state).store() == old(state).store()
                &&& final(state).verified() == old(state).verified()
            },
            !old(self)@.status.spec_decided() ==> {
                &&& final(self)@ == (BlockView { status: Status::Rejected, ..old(self)@ })
                &&& spec_rejected(
                    old(self)@,
                    old(state).store(),
                    old(state).verified(),
                    old(state).reliable(),
                    r,
                    final(state).store(),
                    final(state).verified(),
                )
            },
    {
        if self.status.decided() {
            return Err(Error::AlreadyDecided);
        }
        self.reject(state)
    }

    /// Marks the block rejected, stores it, and takes it out of the verified
    /// blocks. Its transactions are not executed.
    pub fn reject<D: Database>(&mut self, state: &mut State<D>) -> (r: Result<(), Error>)
        ensures
            final(self)@ == (BlockView { status: Status::Rejected, ..old(self)@ }),
            final(state).reliable() == old(state).reliable(),
            final(state).games() == old(state).games(),
            spec_rejected(
                old(self)@,
                old(state).store(),
                old(state).verified(),
                old(state).reliable(),
                r,
                final(state).store(),
                final(state).verified(),
            ),
    {
        self.set_status(Status::Rejected);
        match state.write_block(self) {
            Ok(_) => {},
            Err(e) => {
                return Err(e);
            },
        }
        let id = self.id();
        state.remove_verified(&id);
        proof {
            lemma_stored_block_reads_back(
                state.verified(),
                old(state).store(),
                self@,
                self@.id,
            );
        }
        Ok(())
    }
}

/// Round trip: the canonical bytes of a block read back as the content of
/// the block, each transaction reduced to its action, and so as a block of
/// the same bytes and the same identifier.
pub proof fn lemma_round_trip(block: BlockView)
    requires
        block.canonical(),
    ensures
        dec_block(block.bytes) == Some(block.content().bare()),
        block.id == sha256_digest(enc_block(block.content())),
{
    lemma_block_round(block.content());
}

/// Content addressing: two blocks of the same content have the same bytes
/// and the same identifier.
pub proof fn lemma_content_addressing(a: BlockView, b: BlockView)
    requires
        a.canonical(),
        b.canonical(),
        a.content() == b.content(),
    ensures
        a.bytes == b.bytes,
        a.id == b.id,
{
}

/// A block that passes verification is retrievable afterwards, and is the
/// retrieved block itself unless it was known before; a block that fails is
/// not kept.
pub proof fn lemma_verified_block_is_retrievable(
    verified: Map<Seq<u8>, BlockView>,
    store: Map<Seq<u8>, Seq<u8>>,
    block: BlockView,
    now: int,
)
    ensures
        ({
            let outcome = spec_verify_outcome(verified, store, block, now);
            &&& outcome.0 is Ok ==> lookup_block(outcome.1, store, block.id) is Ok
            &&& outcome.0 is Ok && lookup_block(verified, store, block.id) is Err ==> lookup_block(
                outcome.1,
                store,
                block.id,
            ) == Ok::<BlockView, Error>(block)
            &&& outcome.0 is Err ==> outcome.1 == verified
        }),
{
}

/// Verifying a block again changes nothing: a block that passed is known,
/// and a known block that is no genesis block passes without being kept
/// again.
pub proof fn lemma_verify_is_idempotent(
    verified: Map<Seq<u8>, BlockView>,
    store: Map<Seq<u8>, Seq<u8>>,
    block: BlockView,
    now: int,
    later: int,
)
    requires
        spec_verify_outcome(verified, store, block, now).0 is Ok,
    ensures
        ({
            let once = spec_verify_outcome(verified, store, block, now);
            let twice = spec_verify_outcome(once.1, store, block, later);
            twice.0 is Ok && twice.1 == once.1
        }),
{
    let once = spec_verify_outcome(verified, store, block, now);
    let twice = spec_verify_outcome(once.1, store, block, later);
    assert(twice.1 =~= once.1);
}

/// A decided block reads back from the store: once its record is written,
/// and whatever is recorded as the last accepted block, looking the block
/// up gives it with the recorded status and the identifier computed from
/// its bytes, each transaction reduced to its action.
pub proof fn lemma_stored_block_reads_back(
    verified: Map<Seq<u8>, BlockView>,
    store: Map<Seq<u8>, Seq<u8>>,
    block: BlockView,
    last: Seq<u8>,
)
    requires
        block.canonical(),
        !verified.contains_key(block.id),
    ensures
        ({
            let written = store.insert(spec_block_key(block.id), enc_record(block.bytes, block.status));
            let read = Ok::<BlockView, Error>(block.stored(block.status));
            &&& lookup_block(verified, written, block.id) == read
            &&& lookup_block(verified, written.insert(spec_last_accepted_key(), last), block.id)
                == read
        }),
{
    let key = spec_block_key(block.id);
    assert(key[0] == 0u8);
    assert(spec_last_accepted_key()[0] == 0x6cu8);
    assert(key != spec_last_accepted_key());
    lemma_record_round(block.bytes, block.status);
    lemma_block_round(block.content());
}

/// The block that was accepted last is the one that the store names: once
/// an identifier of 32 bytes is recorded, it is what is read.
pub proof fn lemma_last_accepted_reads_back(store: Map<Seq<u8>, Seq<u8>>, id: Seq<u8>)
    requires
        id.len() == 32,
    ensures
        spec_last_accepted(
            read_of(store.insert(spec_last_accepted_key(), id), spec_last_accepted_key()),
        ) == Ok::<Seq<u8>, Error>(id),
        spec_last_accepted(read_of(Map::empty(), spec_last_accepted_key())) == Ok::<Seq<u8>, Error>(
            Seq::new(32, |i: int| 0u8),
        ),
{
    assert(id + Seq::new(0nat, |i: int| 0u8) =~= id);
}

/// A block is accepted once: after `accept` the block is decided, whatever
/// the call answered, so that `accept_once` and `reject_once` refuse it and
/// execute nothing.
pub proof fn lemma_accepted_block_is_decided(block: BlockView)
    ensures
        (BlockView { status: Status::Accepted, ..block }).status.spec_decided(),
        (BlockView { status: Status::Rejected, ..block }).status.spec_decided(),
{
}

} // verus!
