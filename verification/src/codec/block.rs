//! The canonical form of a block: parent, height, timestamp, message, and
//! the transactions behind their count. A block's identifier is the digest
//! of these bytes.

use crate::bytes::append_bytes;
use crate::codec::primitives::{
    dec_fixed, dec_text, dec_u32, dec_u64, enc_text, enc_u32, enc_u64, lemma_fixed_round,
    lemma_fixed_sound, lemma_text_round, lemma_text_sound, lemma_u32_round, lemma_u32_sound,
    lemma_u64_round, lemma_u64_sound, read_id, read_text, read_u32, read_u64, text_fits,
    write_text, write_u32, write_u64, MAX_LEN,
};
use crate::codec::tx::{
    bare_list, dec_list, enc_list, lemma_list_round, lemma_list_sound, list_fits, read_list,
    write_list,
};
use crate::ids::Id;
use crate::tx::{views, Transaction, TransactionView};
use vstd::prelude::*;

verus! {

/// The part of a block that its canonical bytes state.
pub struct BlockContent {
    pub parent_id: Seq<u8>,
    pub height: u64,
    pub timestamp: u64,
    pub message: Seq<char>,
    pub txs: Seq<TransactionView>,
}

impl BlockContent {
    /// The content as reading its bytes gives it back: the same, with each
    /// transaction reduced to its action.
    pub open spec fn bare(self) -> BlockContent {
        BlockContent { txs: bare_list(self.txs), ..self }
    }
}

/// Whether the content can be written.
pub open spec fn block_fits(c: BlockContent) -> bool {
    c.parent_id.len() == 32 && text_fits(c.message) && c.txs.len() <= MAX_LEN && list_fits(c.txs)
}

/// The canonical bytes of a block's content.
#[verifier::opaque]
pub open spec fn enc_block(c: BlockContent) -> Seq<u8> {
    c.parent_id + enc_u64(c.height) + enc_u64(c.timestamp) + enc_text(c.message) + enc_u32(
        c.txs.len() as u32,
    ) + enc_list(c.txs)
}

/// Reads a block's content from the head of `b`.
#[verifier::opaque]
pub open spec fn dec_block_head(b: Seq<u8>) -> Option<(BlockContent, Seq<u8>)> {
    match dec_fixed(b, 32) {
        Some((parent_id, r1)) => match dec_u64(r1) {
            Some((height, r2)) => match dec_u64(r2) {
                Some((timestamp, r3)) => match dec_text(r3) {
                    Some((message, r4)) => match dec_u32(r4) {
                        Some((n, r5)) => match dec_list(r5, n as nat) {
                            Some((txs, r6)) => Some(
                                (BlockContent { parent_id, height, timestamp, message, txs }, r6),
                            ),
                            None => None,
                        },
                        None => None,
                    },
                    None => None,
                },
                None => None,
            },
            None => None,
        },
        None => None,
    }
}

/// The content that `b` is the canonical form of, if it is that of any.
pub open spec fn dec_block(b: Seq<u8>) -> Option<BlockContent> {
    match dec_block_head(b) {
        Some((c, rest)) => if rest.len() == 0 {
            Some(c)
        } else {
            None
        },
        None => None,
    }
}

/// Reading what was written gives the content back, each transaction
/// reduced to its action.
pub proof fn lemma_block_round(c: BlockContent)
    requires
        block_fits(c),
    ensures
        dec_block(enc_block(c)) == Some(c.bare()),
{
    reveal(enc_block);
    reveal(dec_block_head);
    let e = Seq::<u8>::empty();
    let t5 = enc_list(c.txs) + e;
    let t4 = enc_u32(c.txs.len() as u32) + t5;
    let t3 = enc_text(c.message) + t4;
    let t2 = enc_u64(c.timestamp) + t3;
    let t1 = enc_u64(c.height) + t2;
    lemma_fixed_round(c.parent_id, t1);
    lemma_u64_round(c.height, t2);
    lemma_u64_round(c.timestamp, t3);
    lemma_text_round(c.message, t4);
    lemma_u32_round(c.txs.len() as u32, t5);
    lemma_list_round(c.txs, e);
    assert(enc_block(c) =~= c.parent_id + t1);
}

/// Only canonical bytes are read, and they are the canonical bytes of what
/// is read.
pub proof fn lemma_block_sound(b: Seq<u8>)
    ensures
        dec_block(b) matches Some(c) ==> b == enc_block(c) && block_fits(c) && c.bare() == c,
{
    reveal(enc_block);
    reveal(dec_block_head);
    lemma_fixed_sound(b, 32);
    if let Some((parent_id, r1)) = dec_fixed(b, 32) {
        lemma_u64_sound(r1);
        if let Some((height, r2)) = dec_u64(r1) {
            lemma_u64_sound(r2);
            if let Some((timestamp, r3)) = dec_u64(r2) {
                lemma_text_sound(r3);
                if let Some((message, r4)) = dec_text(r3) {
                    lemma_u32_sound(r4);
                    if let Some((n, r5)) = dec_u32(r4) {
                        lemma_list_sound(r5, n as nat);
                        if let Some((txs, r6)) = dec_list(r5, n as nat) {
                            if r6.len() == 0 {
                                let c = BlockContent { parent_id, height, timestamp, message, txs };
                                assert(txs.len() as u32 == n);
                                assert(b =~= enc_block(c));
                            }
                        }
                    }
                }
            }
        }
    }
}

/// Two contents with the same canonical bytes are the same but for what
/// their transactions hold beside the action.
pub proof fn lemma_block_injective(a: BlockContent, b: BlockContent)
    requires
        block_fits(a),
        block_fits(b),
        enc_block(a) == enc_block(b),
    ensures
        a.bare() == b.bare(),
{
    lemma_block_round(a);
    lemma_block_round(b);
}

/// Writes the canonical bytes of a block's content, where it has any.
pub fn encode_block(
    parent_id: &Id,
    height: u64,
    timestamp: u64,
    message: &str,
    txs: &Vec<Transaction>,
) -> (r: Option<Vec<u8>>)
    ensures
        ({
            let c = BlockContent {
                parent_id: parent_id@,
                height,
                timestamp,
                message: message@,
                txs: views(txs@),
            };
            &&& r is Some <==> block_fits(c)
            &&& r is Some ==> r.unwrap()@ == enc_block(c)
        }),
{
    proof {
        reveal(enc_block);
    }
    let mut out: Vec<u8> = Vec::new();
    append_bytes(&mut out, parent_id.as_slice());
    write_u64(&mut out, height);
    write_u64(&mut out, timestamp);
    if !write_text(&mut out, message) {
        return None;
    }
    if txs.len() > MAX_LEN {
        return None;
    }
    write_u32(&mut out, txs.len() as u32);
    if !write_list(&mut out, txs) {
        return None;
    }
    let ghost c = BlockContent {
        parent_id: parent_id@,
        height,
        timestamp,
        message: message@,
        txs: views(txs@),
    };
    assert(out@ =~= enc_block(c));
    Some(out)
}

/// What reading a block's bytes gives.
pub struct DecodedBlock {
    pub parent_id: Id,
    pub height: u64,
    pub timestamp: u64,
    pub message: String,
    pub txs: Vec<Transaction>,
}

impl View for DecodedBlock {
    type V = BlockContent;

    open spec fn view(&self) -> BlockContent {
        BlockContent {
            parent_id: self.parent_id@,
            height: self.height,
            timestamp: self.timestamp,
            message: self.message@,
            txs: views(self.txs@),
        }
    }
}

/// Reads a block's content from its canonical bytes.
pub fn decode_block(b: &[u8]) -> (r: Option<DecodedBlock>)
    ensures
        match dec_block(b@) {
            Some(c) => r is Some && r.unwrap()@ == c,
            None => r is None,
        },
{
    proof {
        reveal(dec_block_head);
    }
    assert(b@.skip(0) =~= b@);
    let (parent_id, at_a) = match read_id(b, 0) {
        Some(r) => r,
        None => {
            return None;
        },
    };
    let (height, at_b) = match read_u64(b, at_a) {
        Some(r) => r,
        None => {
            return None;
        },
    };
    let (timestamp, at_c) = match read_u64(b, at_b) {
        Some(r) => r,
        None => {
            return None;
        },
    };
    let (message, at_d) = match read_text(b, at_c) {
        Some(r) => r,
        None => {
            return None;
        },
    };
    let (n, at_e) = match read_u32(b, at_d) {
        Some(r) => r,
        None => {
            return None;
        },
    };
    let (txs, at_f) = match read_list(b, at_e, n) {
        Some(r) => r,
        None => {
            return None;
        },
    };
    if at_f != b.len() {
        return None;
    }
    Some(DecodedBlock { parent_id, height, timestamp, message, txs })
}

} // verus!
