//! Integers, fixed-width byte strings and texts.

use crate::bytes::{append_bytes, copy_bytes};
use crate::ids::{Address, Id};
use vstd::bytes::*;
use vstd::prelude::*;
use vstd::slice::*;
use vstd::utf8::*;

verus! {

/// The largest length that the canonical form can state.
pub const MAX_LEN: usize = 0xffff_ffff;

/// Whether the reader's result `end` leaves exactly `rest` unread.
pub open spec fn leaves(b: Seq<u8>, end: usize, rest: Seq<u8>) -> bool {
    end <= b.len() && b.skip(end as int) == rest
}

/// The four little-endian bytes of `x`.
pub open spec fn enc_u32(x: u32) -> Seq<u8> {
    spec_u32_to_le_bytes(x)
}

/// Reads a 32-bit integer from the head of `b`.
#[verifier::opaque]
pub open spec fn dec_u32(b: Seq<u8>) -> Option<(u32, Seq<u8>)> {
    if b.len() >= 4 {
        Some((spec_u32_from_le_bytes(b.take(4)), b.skip(4)))
    } else {
        None
    }
}

/// Reading a written 32-bit integer gives it back and leaves what follows.
pub proof fn lemma_u32_round(x: u32, rest: Seq<u8>)
    ensures
        enc_u32(x).len() == 4,
        dec_u32(enc_u32(x) + rest) == Some((x, rest)),
{
    reveal(dec_u32);
    lemma_auto_spec_u32_to_from_le_bytes();
    let b = enc_u32(x) + rest;
    assert(b.take(4) =~= enc_u32(x));
    assert(b.skip(4) =~= rest);
}

/// What a 32-bit integer is read from starts with its written form.
pub proof fn lemma_u32_sound(b: Seq<u8>)
    ensures
        dec_u32(b) matches Some((x, rest)) ==> b == enc_u32(x) + rest,
{
    reveal(dec_u32);
    lemma_auto_spec_u32_to_from_le_bytes();
    if b.len() >= 4 {
        assert(b =~= b.take(4) + b.skip(4));
    }
}

/// The eight little-endian bytes of `x`.
pub open spec fn enc_u64(x: u64) -> Seq<u8> {
    spec_u64_to_le_bytes(x)
}

/// Reads a 64-bit integer from the head of `b`.
#[verifier::opaque]
pub open spec fn dec_u64(b: Seq<u8>) -> Option<(u64, Seq<u8>)> {
    if b.len() >= 8 {
        Some((spec_u64_from_le_bytes(b.take(8)), b.skip(8)))
    } else {
        None
    }
}

/// Reading a written 64-bit integer gives it back and leaves what follows.
pub proof fn lemma_u64_round(x: u64, rest: Seq<u8>)
    ensures
        enc_u64(x).len() == 8,
        dec_u64(enc_u64(x) + rest) == Some((x, rest)),
{
    reveal(dec_u64);
    lemma_auto_spec_u64_to_from_le_bytes();
    let b = enc_u64(x) + rest;
    assert(b.take(8) =~= enc_u64(x));
    assert(b.skip(8) =~= rest);
}

/// What a 64-bit integer is read from starts with its written form.
pub proof fn lemma_u64_sound(b: Seq<u8>)
    ensures
        dec_u64(b) matches Some((x, rest)) ==> b == enc_u64(x) + rest,
{
    reveal(dec_u64);
    lemma_auto_spec_u64_to_from_le_bytes();
    if b.len() >= 8 {
        assert(b =~= b.take(8) + b.skip(8));
    }
}

/// Reads `n` bytes as they are.
#[verifier::opaque]
pub open spec fn dec_fixed(b: Seq<u8>, n: nat) -> Option<(Seq<u8>, Seq<u8>)> {
    if b.len() >= n {
        Some((b.take(n as int), b.skip(n as int)))
    } else {
        None
    }
}

/// Reading as many bytes as were written gives them back and leaves what
/// follows.
pub proof fn lemma_fixed_round(x: Seq<u8>, rest: Seq<u8>)
    ensures
        dec_fixed(x + rest, x.len()) == Some((x, rest)),
{
    reveal(dec_fixed);
    let b = x + rest;
    assert(b.take(x.len() as int) =~= x);
    assert(b.skip(x.len() as int) =~= rest);
}

/// What `n` bytes are read from starts with them.
pub proof fn lemma_fixed_sound(b: Seq<u8>, n: nat)
    ensures
        dec_fixed(b, n) matches Some((x, rest)) ==> b == x + rest && x.len() == n,
{
    reveal(dec_fixed);
    if b.len() >= n {
        assert(b =~= b.take(n as int) + b.skip(n as int));
    }
}

/// Whether a text is short enough for the canonical form.
pub open spec fn text_fits(s: Seq<char>) -> bool {
    encode_utf8(s).len() <= MAX_LEN
}

/// The written form of a text: the length of its UTF-8 bytes, then the
/// bytes.
#[verifier::opaque]
pub open spec fn enc_text(s: Seq<char>) -> Seq<u8> {
    enc_u32(encode_utf8(s).len() as u32) + encode_utf8(s)
}

/// Reads a text from the head of `b`. Bytes that are not valid UTF-8 are no
/// text.
#[verifier::opaque]
pub open spec fn dec_text(b: Seq<u8>) -> Option<(Seq<char>, Seq<u8>)> {
    match dec_u32(b) {
        Some((n, r)) => if r.len() >= n && valid_utf8(r.take(n as int)) {
            Some((decode_utf8(r.take(n as int)), r.skip(n as int)))
        } else {
            None
        },
        None => None,
    }
}

/// Reading a written text gives it back and leaves what follows.
pub proof fn lemma_text_round(s: Seq<char>, rest: Seq<u8>)
    requires
        text_fits(s),
    ensures
        dec_text(enc_text(s) + rest) == Some((s, rest)),
{
    reveal(enc_text);
    reveal(dec_text);
    let raw = encode_utf8(s);
    lemma_u32_round(raw.len() as u32, raw + rest);
    assert(enc_text(s) + rest =~= enc_u32(raw.len() as u32) + (raw + rest));
    assert((raw + rest).take(raw.len() as int) =~= raw);
    assert((raw + rest).skip(raw.len() as int) =~= rest);
    encode_utf8_valid_utf8(s);
    encode_utf8_decode_utf8(s);
}

/// What a text is read from starts with its written form.
pub proof fn lemma_text_sound(b: Seq<u8>)
    ensures
        dec_text(b) matches Some((s, rest)) ==> b == enc_text(s) + rest && text_fits(s),
{
    reveal(enc_text);
    reveal(dec_text);
    lemma_u32_sound(b);
    if let Some((n, r)) = dec_u32(b) {
        if r.len() >= n && valid_utf8(r.take(n as int)) {
            let raw = r.take(n as int);
            decode_utf8_encode_utf8(raw);
            assert(r =~= raw + r.skip(n as int));
            assert(b =~= enc_text(decode_utf8(raw)) + r.skip(n as int));
        }
    }
}

/// Whether an optional text is short enough for the canonical form.
pub open spec fn opt_text_fits(s: Option<Seq<char>>) -> bool {
    match s {
        Some(t) => text_fits(t),
        None => true,
    }
}

/// The written form of an optional text: a zero byte for none, a one and
/// the text for one.
#[verifier::opaque]
pub open spec fn enc_opt_text(s: Option<Seq<char>>) -> Seq<u8> {
    match s {
        Some(t) => seq![1u8] + enc_text(t),
        None => seq![0u8],
    }
}

/// Reads an optional text from the head of `b`.
#[verifier::opaque]
pub open spec fn dec_opt_text(b: Seq<u8>) -> Option<(Option<Seq<char>>, Seq<u8>)> {
    if b.len() == 0 {
        None
    } else if b[0] == 0 {
        Some((None, b.skip(1)))
    } else if b[0] == 1 {
        match dec_text(b.skip(1)) {
            Some((t, r)) => Some((Some(t), r)),
            None => None,
        }
    } else {
        None
    }
}

/// Reading a written optional text gives it back and leaves what follows.
pub proof fn lemma_opt_text_round(s: Option<Seq<char>>, rest: Seq<u8>)
    requires
        opt_text_fits(s),
    ensures
        dec_opt_text(enc_opt_text(s) + rest) == Some((s, rest)),
{
    reveal(enc_opt_text);
    reveal(dec_opt_text);
    let b = enc_opt_text(s) + rest;
    match s {
        Some(t) => {
            lemma_text_round(t, rest);
            assert(b.skip(1) =~= enc_text(t) + rest);
        },
        None => {
            assert(b.skip(1) =~= rest);
        },
    }
}

/// What an optional text is read from starts with its written form.
pub proof fn lemma_opt_text_sound(b: Seq<u8>)
    ensures
        dec_opt_text(b) matches Some((s, rest)) ==> b == enc_opt_text(s) + rest && opt_text_fits(s),
{
    reveal(enc_opt_text);
    reveal(dec_opt_text);
    if b.len() > 0 {
        assert(b =~= seq![b[0]] + b.skip(1));
        if b[0] == 1 {
            lemma_text_sound(b.skip(1));
            if let Some((t, r)) = dec_text(b.skip(1)) {
                assert(b =~= seq![1u8] + enc_text(t) + r);
            }
        }
    }
}

/// `String::from_utf8` of the standard library: it succeeds exactly on
/// valid UTF-8, and the text it gives is the one those bytes encode.
#[verifier::external_body]
fn text_from_utf8(bytes: Vec<u8>) -> (text: Option<String>)
    ensures
        text is Some <==> valid_utf8(bytes@),
        text is Some ==> text.unwrap()@ == decode_utf8(bytes@),
{
    String::from_utf8(bytes).ok()
}

/// Appends one byte.
pub fn write_u8(out: &mut Vec<u8>, x: u8)
    ensures
        final(out)@ == old(out)@ + seq![x],
{
    out.push(x);
    assert(out@ =~= old(out)@ + seq![x]);
}

/// Appends a 32-bit integer.
pub fn write_u32(out: &mut Vec<u8>, x: u32)
    ensures
        final(out)@ == old(out)@ + enc_u32(x),
{
    let raw = u32_to_le_bytes(x);
    append_bytes(out, raw.as_slice());
}

/// Appends a 64-bit integer.
pub fn write_u64(out: &mut Vec<u8>, x: u64)
    ensures
        final(out)@ == old(out)@ + enc_u64(x),
{
    let raw = u64_to_le_bytes(x);
    append_bytes(out, raw.as_slice());
}

/// Appends a text, if it is short enough.
pub fn write_text(out: &mut Vec<u8>, s: &str) -> (ok: bool)
    ensures
        ok == text_fits(s@),
        ok ==> final(out)@ == old(out)@ + enc_text(s@),
        !ok ==> final(out)@ == old(out)@,
{
    proof {
        reveal(enc_text);
    }
    let raw = s.as_bytes();
    if raw.len() > MAX_LEN {
        return false;
    }
    write_u32(out, raw.len() as u32);
    append_bytes(out, raw);
    assert(out@ =~= old(out)@ + enc_text(s@));
    true
}

/// Appends an optional text, if it is short enough.
pub fn write_opt_text(out: &mut Vec<u8>, s: &Option<String>) -> (ok: bool)
    ensures
        ok == opt_text_fits(crate::api::opt_text(*s)),
        ok ==> final(out)@ == old(out)@ + enc_opt_text(crate::api::opt_text(*s)),
        !ok ==> final(out)@ == old(out)@,
{
    proof {
        reveal(enc_opt_text);
    }
    match s {
        Some(t) => {
            let raw = t.as_str().as_bytes();
            if raw.len() > MAX_LEN {
                return false;
            }
            write_u8(out, 1);
            let ok = write_text(out, t.as_str());
            assert(out@ =~= old(out)@ + enc_opt_text(crate::api::opt_text(*s)));
            true
        },
        None => {
            write_u8(out, 0);
            true
        },
    }
}

/// Reads the byte at `pos`.
pub fn read_u8(b: &[u8], pos: usize) -> (r: Option<(u8, usize)>)
    requires
        pos <= b@.len(),
    ensures
        r is Some <==> pos < b@.len(),
        r is Some ==> r.unwrap().0 == b@[pos as int] && r.unwrap().1 == pos + 1,
{
    if pos < b.len() {
        Some((b[pos], pos + 1))
    } else {
        None
    }
}

/// Reads a 32-bit integer at `pos`.
pub fn read_u32(b: &[u8], pos: usize) -> (r: Option<(u32, usize)>)
    requires
        pos <= b@.len(),
    ensures
        match dec_u32(b@.skip(pos as int)) {
            Some((x, rest)) => r is Some && r.unwrap().0 == x && leaves(b@, r.unwrap().1, rest)
                && r.unwrap().1 == pos + 4,
            None => r is None,
        },
{
    proof {
        reveal(dec_u32);
    }
    if b.len() - pos < 4 {
        return None;
    }
    let raw = slice_subrange(b, pos, pos + 4);
    assert(raw@ =~= b@.skip(pos as int).take(4));
    assert(b@.skip(pos + 4) =~= b@.skip(pos as int).skip(4));
    Some((u32_from_le_bytes(raw), pos + 4))
}

/// Reads a 64-bit integer at `pos`.
pub fn read_u64(b: &[u8], pos: usize) -> (r: Option<(u64, usize)>)
    requires
        pos <= b@.len(),
    ensures
        match dec_u64(b@.skip(pos as int)) {
            Some((x, rest)) => r is Some && r.unwrap().0 == x && leaves(b@, r.unwrap().1, rest)
                && r.unwrap().1 == pos + 8,
            None => r is None,
        },
{
    proof {
        reveal(dec_u64);
    }
    if b.len() - pos < 8 {
        return None;
    }
    let raw = slice_subrange(b, pos, pos + 8);
    assert(raw@ =~= b@.skip(pos as int).take(8));
    assert(b@.skip(pos + 8) =~= b@.skip(pos as int).skip(8));
    Some((u64_from_le_bytes(raw), pos + 8))
}

/// Reads an identifier at `pos`.
pub fn read_id(b: &[u8], pos: usize) -> (r: Option<(Id, usize)>)
    requires
        pos <= b@.len(),
    ensures
        match dec_fixed(b@.skip(pos as int), 32) {
            Some((x, rest)) => r is Some && r.unwrap().0@ == x && leaves(b@, r.unwrap().1, rest),
            None => r is None,
        },
{
    proof {
        reveal(dec_fixed);
    }
    if b.len() - pos < 32 {
        return None;
    }
    let raw = slice_subrange(b, pos, pos + 32);
    assert(raw@ =~= b@.skip(pos as int).take(32));
    assert(b@.skip(pos + 32) =~= b@.skip(pos as int).skip(32));
    let id = Id::from_slice(raw);
    assert(id@ =~= raw@);
    Some((id, pos + 32))
}

/// Reads an address at `pos`.
pub fn read_address(b: &[u8], pos: usize) -> (r: Option<(Address, usize)>)
    requires
        pos <= b@.len(),
    ensures
        match dec_fixed(b@.skip(pos as int), 20) {
            Some((x, rest)) => r is Some && r.unwrap().0@ == x && leaves(b@, r.unwrap().1, rest),
            None => r is None,
        },
{
    proof {
        reveal(dec_fixed);
    }
    if b.len() - pos < 20 {
        return None;
    }
    let raw = slice_subrange(b, pos, pos + 20);
    assert(raw@ =~= b@.skip(pos as int).take(20));
    assert(b@.skip(pos + 20) =~= b@.skip(pos as int).skip(20));
    let address = Address::from_slice(raw);
    assert(address@ =~= raw@);
    Some((address, pos + 20))
}

/// Reads a text at `pos`.
pub fn read_text(b: &[u8], pos: usize) -> (r: Option<(String, usize)>)
    requires
        pos <= b@.len(),
    ensures
        match dec_text(b@.skip(pos as int)) {
            Some((x, rest)) => r is Some && r.unwrap().0@ == x && leaves(b@, r.unwrap().1, rest),
            None => r is None,
        },
{
    proof {
        reveal(dec_text);
    }
    let (n, start) = match read_u32(b, pos) {
        Some(r) => r,
        None => {
            return None;
        },
    };
    if b.len() - start < n as usize {
        return None;
    }
    let end = start + n as usize;
    let raw = slice_subrange(b, start, end);
    assert(raw@ =~= b@.skip(start as int).take(n as int));
    assert(b@.skip(end as int) =~= b@.skip(start as int).skip(n as int));
    match text_from_utf8(copy_bytes(raw)) {
        Some(text) => Some((text, end)),
        None => None,
    }
}

/// Reads an optional text at `pos`.
pub fn read_opt_text(b: &[u8], pos: usize) -> (r: Option<(Option<String>, usize)>)
    requires
        pos <= b@.len(),
    ensures
        match dec_opt_text(b@.skip(pos as int)) {
            Some((x, rest)) => r is Some && crate::api::opt_text(r.unwrap().0) == x && leaves(
                b@,
                r.unwrap().1,
                rest,
            ),
            None => r is None,
        },
{
    proof {
        reveal(dec_opt_text);
    }
    if pos >= b.len() {
        return None;
    }
    let tag = b[pos];
    assert(b@.skip(pos as int)[0] == b@[pos as int]);
    assert(b@.skip(pos + 1) =~= b@.skip(pos as int).skip(1));
    if tag == 0 {
        Some((None, pos + 1))
    } else if tag == 1 {
        match read_text(b, pos + 1) {
            Some((text, end)) => Some((Some(text), end)),
            None => None,
        }
    } else {
        None
    }
}

} // verus!
