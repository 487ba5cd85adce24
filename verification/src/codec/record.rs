//! The form in which a decided block is stored: one byte for its status,
//! then its canonical bytes.

use crate::block::Status;
use crate::bytes::append_bytes;
use vstd::prelude::*;

verus! {

/// The byte that stands for a status.
pub open spec fn status_code(status: Status) -> u8 {
    match status {
        Status::Unknown => 0,
        Status::Processing => 1,
        Status::Rejected => 2,
        Status::Accepted => 3,
    }
}

/// The stored form of a block's bytes and status.
pub open spec fn enc_record(block_bytes: Seq<u8>, status: Status) -> Seq<u8> {
    seq![status_code(status)] + block_bytes
}

/// The block bytes and the status that `b` is the stored form of, if it is
/// that of any.
pub open spec fn dec_record(b: Seq<u8>) -> Option<(Seq<u8>, Status)> {
    if b.len() == 0 {
        None
    } else if b[0] == 0 {
        Some((b.skip(1), Status::Unknown))
    } else if b[0] == 1 {
        Some((b.skip(1), Status::Processing))
    } else if b[0] == 2 {
        Some((b.skip(1), Status::Rejected))
    } else if b[0] == 3 {
        Some((b.skip(1), Status::Accepted))
    } else {
        None
    }
}

/// Reading a record that was written gives its parts back.
pub proof fn lemma_record_round(block_bytes: Seq<u8>, status: Status)
    ensures
        dec_record(enc_record(block_bytes, status)) == Some((block_bytes, status)),
{
    assert(enc_record(block_bytes, status).skip(1) =~= block_bytes);
}

/// Only records are read, and they are the record of what is read.
pub proof fn lemma_record_sound(b: Seq<u8>)
    ensures
        dec_record(b) matches Some((block_bytes, status)) ==> b == enc_record(block_bytes, status),
{
    if b.len() > 0 {
        assert(b =~= seq![b[0]] + b.skip(1));
    }
}

/// A block's bytes together with its status: what the store keeps of a
/// decided block.
pub struct BlockWithStatus {
    pub block_bytes: Vec<u8>,
    pub status: Status,
}

impl BlockWithStatus {
    /// The stored form of the record.
    pub fn encode(&self) -> (out: Vec<u8>)
        ensures
            out@ == enc_record(self.block_bytes@, self.status),
    {
        let code: u8 = match self.status {
            Status::Unknown => 0,
            Status::Processing => 1,
            Status::Rejected => 2,
            Status::Accepted => 3,
        };
        let mut out: Vec<u8> = Vec::new();
        out.push(code);
        append_bytes(&mut out, self.block_bytes.as_slice());
        assert(out@ =~= enc_record(self.block_bytes@, self.status));
        out
    }

    /// Reads a record from its stored form.
    pub fn from_slice(d: &[u8]) -> (r: Option<BlockWithStatus>)
        ensures
            match dec_record(d@) {
                Some((block_bytes, status)) => r is Some && r.unwrap().block_bytes@ == block_bytes
                    && r.unwrap().status == status,
                None => r is None,
            },
    {
        if d.len() == 0 {
            return None;
        }
        let status = match d[0] {
            0 => Status::Unknown,
            1 => Status::Processing,
            2 => Status::Rejected,
            3 => Status::Accepted,
            _ => {
                return None;
            },
        };
        let rest = vstd::slice::slice_subrange(d, 1, d.len());
        assert(rest@ =~= d@.skip(1));
        Some(BlockWithStatus { block_bytes: crate::bytes::copy_bytes(rest), status })
    }
}

} // verus!
