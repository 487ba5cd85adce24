//! The canonical form of transactions. Of a transaction only its action is
//! written; a transaction that is read has no bytes, size 0, and the zero
//! identifier and sender.

use crate::api::{MoveEnum, MoveEnumView};
use crate::codec::primitives::{
    dec_fixed, dec_opt_text, dec_text, dec_u64, enc_opt_text, enc_text, enc_u64, lemma_fixed_round,
    lemma_fixed_sound, lemma_opt_text_round, lemma_opt_text_sound, lemma_text_round,
    lemma_text_sound, lemma_u64_round, lemma_u64_sound, leaves, opt_text_fits, read_address,
    read_id, read_opt_text, read_text, read_u64, text_fits, write_opt_text, write_text, write_u64,
    write_u8,
};
use crate::bytes::append_bytes;
use crate::ids::{Address, Id};
use crate::tx::{views, ActionType, ActionView, Transaction, TransactionView};
use vstd::prelude::*;

verus! {

/// Whether every text of a move is short enough for the canonical form.
pub open spec fn move_fits(mv: MoveEnumView) -> bool {
    match mv {
        MoveEnumView::Normal { role, from, capture, to, promotion } => text_fits(role) && text_fits(
            from,
        ) && opt_text_fits(capture) && text_fits(to) && opt_text_fits(promotion),
        MoveEnumView::EnPassant { from, to } => text_fits(from) && text_fits(to),
        MoveEnumView::Castle { king, rook } => text_fits(king) && text_fits(rook),
    }
}

/// The written form of a move in text: a tag for its kind, then its texts.
#[verifier::opaque]
pub open spec fn enc_move(mv: MoveEnumView) -> Seq<u8> {
    match mv {
        MoveEnumView::Normal { role, from, capture, to, promotion } => seq![0u8] + enc_text(role)
            + enc_text(from) + enc_opt_text(capture) + enc_text(to) + enc_opt_text(promotion),
        MoveEnumView::EnPassant { from, to } => seq![1u8] + enc_text(from) + enc_text(to),
        MoveEnumView::Castle { king, rook } => seq![2u8] + enc_text(king) + enc_text(rook),
    }
}

/// Reads two texts, one after the other.
#[verifier::opaque]
pub open spec fn dec_two_texts(b: Seq<u8>) -> Option<((Seq<char>, Seq<char>), Seq<u8>)> {
    match dec_text(b) {
        Some((first, r1)) => match dec_text(r1) {
            Some((second, r2)) => Some(((first, second), r2)),
            None => None,
        },
        None => None,
    }
}

/// Reads the texts of a normal move.
#[verifier::opaque]
pub open spec fn dec_normal(b: Seq<u8>) -> Option<(MoveEnumView, Seq<u8>)> {
    match dec_two_texts(b) {
        Some(((role, from), r2)) => match dec_opt_text(r2) {
            Some((capture, r3)) => match dec_text(r3) {
                Some((to, r4)) => match dec_opt_text(r4) {
                    Some((promotion, r5)) => Some(
                        (MoveEnumView::Normal { role, from, capture, to, promotion }, r5),
                    ),
                    None => None,
                },
                None => None,
            },
            None => None,
        },
        None => None,
    }
}

/// Reads a move in text from the head of `b`.
#[verifier::opaque]
pub open spec fn dec_move(b: Seq<u8>) -> Option<(MoveEnumView, Seq<u8>)> {
    if b.len() == 0 {
        None
    } else if b[0] == 0 {
        dec_normal(b.skip(1))
    } else if b[0] == 1 {
        match dec_two_texts(b.skip(1)) {
            Some(((from, to), r)) => Some((MoveEnumView::EnPassant { from, to }, r)),
            None => None,
        }
    } else if b[0] == 2 {
        match dec_two_texts(b.skip(1)) {
            Some(((king, rook), r)) => Some((MoveEnumView::Castle { king, rook }, r)),
            None => None,
        }
    } else {
        None
    }
}

/// Reading two written texts gives them back and leaves what follows.
pub proof fn lemma_two_texts_round(first: Seq<char>, second: Seq<char>, rest: Seq<u8>)
    requires
        text_fits(first),
        text_fits(second),
    ensures
        dec_two_texts(enc_text(first) + enc_text(second) + rest) == Some(((first, second), rest)),
{
    reveal(dec_two_texts);
    lemma_text_round(first, enc_text(second) + rest);
    lemma_text_round(second, rest);
    assert(enc_text(first) + enc_text(second) + rest =~= enc_text(first) + (enc_text(second)
        + rest));
}

/// What two texts are read from starts with their written forms.
pub proof fn lemma_two_texts_sound(b: Seq<u8>)
    ensures
        dec_two_texts(b) matches Some(((first, second), rest)) ==> b == enc_text(first) + enc_text(
            second,
        ) + rest && text_fits(first) && text_fits(second),
{
    reveal(dec_two_texts);
    lemma_text_sound(b);
    if let Some((first, r1)) = dec_text(b) {
        lemma_text_sound(r1);
        if let Some((second, r2)) = dec_text(r1) {
            assert(b =~= enc_text(first) + enc_text(second) + r2);
        }
    }
}

/// Reading a written move gives it back and leaves what follows.
pub proof fn lemma_move_round(mv: MoveEnumView, rest: Seq<u8>)
    requires
        move_fits(mv),
    ensures
        dec_move(enc_move(mv) + rest) == Some((mv, rest)),
{
    reveal(enc_move);
    reveal(dec_move);
    reveal(dec_normal);
    let b = enc_move(mv) + rest;
    match mv {
        MoveEnumView::Normal { role, from, capture, to, promotion } => {
            let t4 = enc_opt_text(promotion) + rest;
            let t3 = enc_text(to) + t4;
            let t2 = enc_opt_text(capture) + t3;
            lemma_two_texts_round(role, from, t2);
            lemma_opt_text_round(capture, t3);
            lemma_text_round(to, t4);
            lemma_opt_text_round(promotion, rest);
            assert(b.skip(1) =~= enc_text(role) + enc_text(from) + t2);
        },
        MoveEnumView::EnPassant { from, to } => {
            lemma_two_texts_round(from, to, rest);
            assert(b.skip(1) =~= enc_text(from) + enc_text(to) + rest);
        },
        MoveEnumView::Castle { king, rook } => {
            lemma_two_texts_round(king, rook, rest);
            assert(b.skip(1) =~= enc_text(king) + enc_text(rook) + rest);
        },
    }
}

/// What a move is read from starts with its written form.
pub proof fn lemma_move_sound(b: Seq<u8>)
    ensures
        dec_move(b) matches Some((mv, rest)) ==> b == enc_move(mv) + rest && move_fits(mv),
{
    reveal(enc_move);
    reveal(dec_move);
    reveal(dec_normal);
    if b.len() > 0 {
        let t = b.skip(1);
        assert(b =~= seq![b[0]] + t);
        lemma_two_texts_sound(t);
        if b[0] == 0 {
            if let Some(((role, from), r2)) = dec_two_texts(t) {
                lemma_opt_text_sound(r2);
                if let Some((capture, r3)) = dec_opt_text(r2) {
                    lemma_text_sound(r3);
                    if let Some((to, r4)) = dec_text(r3) {
                        lemma_opt_text_sound(r4);
                        if let Some((promotion, r5)) = dec_opt_text(r4) {
                            let mv = MoveEnumView::Normal { role, from, capture, to, promotion };
                            assert(b =~= enc_move(mv) + r5);
                        }
                    }
                }
            }
        } else if b[0] == 1 {
            if let Some(((from, to), r)) = dec_two_texts(t) {
                assert(b =~= enc_move(MoveEnumView::EnPassant { from, to }) + r);
            }
        } else if b[0] == 2 {
            if let Some(((king, rook), r)) = dec_two_texts(t) {
                assert(b =~= enc_move(MoveEnumView::Castle { king, rook }) + r);
            }
        }
    }
}

/// Whether an action can be written: its identifiers and addresses have
/// their widths and its texts are short enough.
pub open spec fn action_fits(a: ActionView) -> bool {
    match a {
        ActionView::CreateGame { white, black, block_id } => white.len() == 20 && black.len() == 20
            && block_id.len() == 32,
        ActionView::EndGame { game_id, block_id } => block_id.len() == 32,
        ActionView::MakeMove { player, game_id, mv, block_id } => player.len() == 20 && move_fits(
            mv,
        ) && block_id.len() == 32,
        ActionView::Unknown => true,
    }
}

/// The written form of an action: a tag for its kind, then its parts.
#[verifier::opaque]
pub open spec fn enc_action(a: ActionView) -> Seq<u8> {
    match a {
        ActionView::CreateGame { white, black, block_id } => seq![0u8] + white + black + block_id,
        ActionView::EndGame { game_id, block_id } => seq![1u8] + enc_u64(game_id) + block_id,
        ActionView::MakeMove { player, game_id, mv, block_id } => seq![2u8] + player + enc_u64(
            game_id,
        ) + enc_move(mv) + block_id,
        ActionView::Unknown => seq![3u8],
    }
}

/// Reads the parts of a request to create a game.
#[verifier::opaque]
pub open spec fn dec_create_game(b: Seq<u8>) -> Option<(ActionView, Seq<u8>)> {
    match dec_fixed(b, 20) {
        Some((white, r1)) => match dec_fixed(r1, 20) {
            Some((black, r2)) => match dec_fixed(r2, 32) {
                Some((block_id, r3)) => Some((ActionView::CreateGame { white, black, block_id }, r3)),
                None => None,
            },
            None => None,
        },
        None => None,
    }
}

/// Reads the parts of a request to end a game.
#[verifier::opaque]
pub open spec fn dec_end_game(b: Seq<u8>) -> Option<(ActionView, Seq<u8>)> {
    match dec_u64(b) {
        Some((game_id, r1)) => match dec_fixed(r1, 32) {
            Some((block_id, r2)) => Some((ActionView::EndGame { game_id, block_id }, r2)),
            None => None,
        },
        None => None,
    }
}

/// Reads the parts of a request to make a move.
#[verifier::opaque]
pub open spec fn dec_make_move(b: Seq<u8>) -> Option<(ActionView, Seq<u8>)> {
    match dec_fixed(b, 20) {
        Some((player, r1)) => match dec_u64(r1) {
            Some((game_id, r2)) => match dec_move(r2) {
                Some((mv, r3)) => match dec_fixed(r3, 32) {
                    Some((block_id, r4)) => Some(
                        (ActionView::MakeMove { player, game_id, mv, block_id }, r4),
                    ),
                    None => None,
                },
                None => None,
            },
            None => None,
        },
        None => None,
    }
}

/// Reads an action from the head of `b`.
#[verifier::opaque]
pub open spec fn dec_action(b: Seq<u8>) -> Option<(ActionView, Seq<u8>)> {
    if b.len() == 0 {
        None
    } else if b[0] == 0 {
        dec_create_game(b.skip(1))
    } else if b[0] == 1 {
        dec_end_game(b.skip(1))
    } else if b[0] == 2 {
        dec_make_move(b.skip(1))
    } else if b[0] == 3 {
        Some((ActionView::Unknown, b.skip(1)))
    } else {
        None
    }
}

/// Reading a written action gives it back and leaves what follows.
pub proof fn lemma_action_round(a: ActionView, rest: Seq<u8>)
    requires
        action_fits(a),
    ensures
        dec_action(enc_action(a) + rest) == Some((a, rest)),
{
    reveal(enc_action);
    reveal(dec_action);
    reveal(dec_create_game);
    reveal(dec_end_game);
    reveal(dec_make_move);
    let b = enc_action(a) + rest;
    match a {
        ActionView::CreateGame { white, black, block_id } => {
            lemma_fixed_round(white, black + (block_id + rest));
            lemma_fixed_round(black, block_id + rest);
            lemma_fixed_round(block_id, rest);
            assert(b.skip(1) =~= white + (black + (block_id + rest)));
        },
        ActionView::EndGame { game_id, block_id } => {
            lemma_u64_round(game_id, block_id + rest);
            lemma_fixed_round(block_id, rest);
            assert(b.skip(1) =~= enc_u64(game_id) + (block_id + rest));
        },
        ActionView::MakeMove { player, game_id, mv, block_id } => {
            let t3 = block_id + rest;
            let t2 = enc_move(mv) + t3;
            let t1 = enc_u64(game_id) + t2;
            lemma_fixed_round(player, t1);
            lemma_u64_round(game_id, t2);
            lemma_move_round(mv, t3);
            lemma_fixed_round(block_id, rest);
            assert(b.skip(1) =~= player + t1);
        },
        ActionView::Unknown => {
            assert(b.skip(1) =~= rest);
        },
    }
}

/// What an action is read from starts with its written form.
pub proof fn lemma_action_sound(b: Seq<u8>)
    ensures
        dec_action(b) matches Some((a, rest)) ==> b == enc_action(a) + rest && action_fits(a),
{
    reveal(enc_action);
    reveal(dec_action);
    reveal(dec_create_game);
    reveal(dec_end_game);
    reveal(dec_make_move);
    if b.len() > 0 {
        let t = b.skip(1);
        assert(b =~= seq![b[0]] + t);
        if b[0] == 0 {
            lemma_fixed_sound(t, 20);
            if let Some((white, r1)) = dec_fixed(t, 20) {
                lemma_fixed_sound(r1, 20);
                if let Some((black, r2)) = dec_fixed(r1, 20) {
                    lemma_fixed_sound(r2, 32);
                    if let Some((block_id, r3)) = dec_fixed(r2, 32) {
                        let a = ActionView::CreateGame { white, black, block_id };
                        assert(b =~= enc_action(a) + r3);
                    }
                }
            }
        } else if b[0] == 1 {
            lemma_u64_sound(t);
            if let Some((game_id, r1)) = dec_u64(t) {
                lemma_fixed_sound(r1, 32);
                if let Some((block_id, r2)) = dec_fixed(r1, 32) {
                    let a = ActionView::EndGame { game_id, block_id };
                    assert(b =~= enc_action(a) + r2);
                }
            }
        } else if b[0] == 2 {
            lemma_fixed_sound(t, 20);
            if let Some((player, r1)) = dec_fixed(t, 20) {
                lemma_u64_sound(r1);
                if let Some((game_id, r2)) = dec_u64(r1) {
                    lemma_move_sound(r2);
                    if let Some((mv, r3)) = dec_move(r2) {
                        lemma_fixed_sound(r3, 32);
                        if let Some((block_id, r4)) = dec_fixed(r3, 32) {
                            let a = ActionView::MakeMove { player, game_id, mv, block_id };
                            assert(b =~= enc_action(a) + r4);
                        }
                    }
                }
            }
        } else if b[0] == 3 {
            assert(b =~= enc_action(ActionView::Unknown) + t);
        }
    }
}

/// The transaction that the bytes of `action` alone stand for.
pub open spec fn bare(action: ActionView) -> TransactionView {
    TransactionView {
        action,
        bytes: Seq::empty(),
        id: Seq::new(32, |i: int| 0u8),
        size: 0,
        sender: Seq::new(20, |i: int| 0u8),
    }
}

/// Whether every transaction of the list can be written.
pub open spec fn list_fits(txs: Seq<TransactionView>) -> bool {
    forall|i: int| 0 <= i < txs.len() ==> action_fits(#[trigger] txs[i].action)
}

/// The actions of the transactions, one after the other.
pub open spec fn enc_list(txs: Seq<TransactionView>) -> Seq<u8>
    decreases txs.len(),
{
    if txs.len() == 0 {
        Seq::empty()
    } else {
        enc_action(txs[0].action) + enc_list(txs.skip(1))
    }
}

/// Reads `n` transactions.
pub open spec fn dec_list(b: Seq<u8>, n: nat) -> Option<(Seq<TransactionView>, Seq<u8>)>
    decreases n,
{
    if n == 0 {
        Some((Seq::empty(), b))
    } else {
        match dec_action(b) {
            Some((a, r)) => match dec_list(r, (n - 1) as nat) {
                Some((txs, r2)) => Some((seq![bare(a)] + txs, r2)),
                None => None,
            },
            None => None,
        }
    }
}

/// The transactions as reading their bytes gives them back.
pub open spec fn bare_list(txs: Seq<TransactionView>) -> Seq<TransactionView> {
    Seq::new(txs.len(), |i: int| bare(txs[i].action))
}

/// Reading written transactions gives them back, each reduced to its
/// action, and leaves what follows.
pub proof fn lemma_list_round(txs: Seq<TransactionView>, rest: Seq<u8>)
    requires
        list_fits(txs),
    ensures
        dec_list(enc_list(txs) + rest, txs.len()) == Some((bare_list(txs), rest)),
    decreases txs.len(),
{
    if txs.len() == 0 {
        assert(enc_list(txs) + rest =~= rest);
        assert(bare_list(txs) =~= Seq::empty());
    } else {
        let tail = txs.skip(1);
        assert(list_fits(tail)) by {
            assert forall|i: int| 0 <= i < tail.len() implies action_fits(
                #[trigger] tail[i].action,
            ) by {
                assert(tail[i] == txs[i + 1]);
            }
        }
        lemma_action_round(txs[0].action, enc_list(tail) + rest);
        lemma_list_round(tail, rest);
        assert(enc_list(txs) + rest =~= enc_action(txs[0].action) + (enc_list(tail) + rest));
        assert(seq![bare(txs[0].action)] + bare_list(tail) =~= bare_list(txs));
    }
}

/// What transactions are read from starts with their written form, and
/// they hold their actions and nothing else.
pub proof fn lemma_list_sound(b: Seq<u8>, n: nat)
    ensures
        dec_list(b, n) matches Some((txs, rest)) ==> b == enc_list(txs) + rest && list_fits(txs)
            && txs.len() == n && bare_list(txs) == txs,
    decreases n,
{
    if n == 0 {
        assert(b =~= enc_list(Seq::empty()) + b);
        assert(bare_list(Seq::<TransactionView>::empty()) =~= Seq::empty());
    } else {
        lemma_action_sound(b);
        if let Some((a, r)) = dec_action(b) {
            lemma_list_sound(r, (n - 1) as nat);
            if let Some((tail, r2)) = dec_list(r, (n - 1) as nat) {
                let txs = seq![bare(a)] + tail;
                assert(txs.skip(1) =~= tail);
                assert(b =~= enc_list(txs) + r2);
                assert(bare_list(txs) =~= txs) by {
                    assert forall|i: int| 0 <= i < txs.len() implies bare_list(txs)[i] == txs[i] by {
                        if i > 0 {
                            assert(txs[i] == tail[i - 1]);
                            assert(bare_list(tail)[i - 1] == tail[i - 1]);
                        }
                    }
                }
                assert(list_fits(txs)) by {
                    assert forall|i: int| 0 <= i < txs.len() implies action_fits(
                        #[trigger] txs[i].action,
                    ) by {
                        if i > 0 {
                            assert(txs[i] == tail[i - 1]);
                        }
                    }
                }
            }
        }
    }
}

/// Appends a move in text, if its texts are short enough.
pub fn write_move(out: &mut Vec<u8>, mv: &MoveEnum) -> (ok: bool)
    ensures
        ok == move_fits(mv@),
        ok ==> final(out)@ == old(out)@ + enc_move(mv@),
{
    proof {
        reveal(enc_move);
    }
    match mv {
        MoveEnum::Normal { role, from, capture, to, promotion } => {
            write_u8(out, 0);
            if !write_text(out, role.as_str()) {
                return false;
            }
            if !write_text(out, from.as_str()) {
                return false;
            }
            if !write_opt_text(out, capture) {
                return false;
            }
            if !write_text(out, to.as_str()) {
                return false;
            }
            if !write_opt_text(out, promotion) {
                return false;
            }
            assert(out@ =~= old(out)@ + enc_move(mv@));
            true
        },
        MoveEnum::EnPassant { from, to } => {
            write_u8(out, 1);
            if !write_text(out, from.as_str()) {
                return false;
            }
            if !write_text(out, to.as_str()) {
                return false;
            }
            assert(out@ =~= old(out)@ + enc_move(mv@));
            true
        },
        MoveEnum::Castle { king, rook } => {
            write_u8(out, 2);
            if !write_text(out, king.as_str()) {
                return false;
            }
            if !write_text(out, rook.as_str()) {
                return false;
            }
            assert(out@ =~= old(out)@ + enc_move(mv@));
            true
        },
    }
}

fn read_two_texts(b: &[u8], pos: usize) -> (r: Option<(String, String, usize)>)
    requires
        pos <= b@.len(),
    ensures
        match dec_two_texts(b@.skip(pos as int)) {
            Some(((first, second), rest)) => r is Some && r.unwrap().0@ == first && r.unwrap().1@
                == second && leaves(b@, r.unwrap().2, rest),
            None => r is None,
        },
{
    proof {
        reveal(dec_two_texts);
    }
    let (first, at_a) = match read_text(b, pos) {
        Some(r) => r,
        None => {
            return None;
        },
    };
    let (second, at_b) = match read_text(b, at_a) {
        Some(r) => r,
        None => {
            return None;
        },
    };
    Some((first, second, at_b))
}

fn read_normal(b: &[u8], pos: usize) -> (r: Option<(MoveEnum, usize)>)
    requires
        pos <= b@.len(),
    ensures
        match dec_normal(b@.skip(pos as int)) {
            Some((mv, rest)) => r is Some && r.unwrap().0@ == mv && leaves(b@, r.unwrap().1, rest),
            None => r is None,
        },
{
    proof {
        reveal(dec_normal);
    }
    let (role, from, at_b) = match read_two_texts(b, pos) {
        Some(r) => r,
        None => {
            return None;
        },
    };
    let (capture, at_c) = match read_opt_text(b, at_b) {
        Some(r) => r,
        None => {
            return None;
        },
    };
    let (to, at_d) = match read_text(b, at_c) {
        Some(r) => r,
        None => {
            return None;
        },
    };
    let (promotion, at_e) = match read_opt_text(b, at_d) {
        Some(r) => r,
        None => {
            return None;
        },
    };
    Some((MoveEnum::Normal { role, from, capture, to, promotion }, at_e))
}

/// Reads a move in text at `pos`.
pub fn read_move(b: &[u8], pos: usize) -> (r: Option<(MoveEnum, usize)>)
    requires
        pos <= b@.len(),
    ensures
        match dec_move(b@.skip(pos as int)) {
            Some((mv, rest)) => r is Some && r.unwrap().0@ == mv && leaves(b@, r.unwrap().1, rest),
            None => r is None,
        },
{
    proof {
        reveal(dec_move);
    }
    if pos >= b.len() {
        return None;
    }
    let tag = b[pos];
    assert(b@.skip(pos as int)[0] == b@[pos as int]);
    assert(b@.skip(pos + 1) =~= b@.skip(pos as int).skip(1));
    if tag == 0 {
        read_normal(b, pos + 1)
    } else if tag == 1 {
        match read_two_texts(b, pos + 1) {
            Some((from, to, end)) => Some((MoveEnum::EnPassant { from, to }, end)),
            None => None,
        }
    } else if tag == 2 {
        match read_two_texts(b, pos + 1) {
            Some((king, rook, end)) => Some((MoveEnum::Castle { king, rook }, end)),
            None => None,
        }
    } else {
        None
    }
}

/// Appends an action, if it can be written.
pub fn write_action(out: &mut Vec<u8>, action: &ActionType) -> (ok: bool)
    ensures
        ok == action_fits(action@),
        ok ==> final(out)@ == old(out)@ + enc_action(action@),
{
    proof {
        reveal(enc_action);
    }
    match action {
        ActionType::CreateGame { white, black, block_id } => {
            write_u8(out, 0);
            append_bytes(out, white.as_slice());
            append_bytes(out, black.as_slice());
            append_bytes(out, block_id.as_slice());
            assert(out@ =~= old(out)@ + enc_action(action@));
            true
        },
        ActionType::EndGame { game_id, block_id } => {
            write_u8(out, 1);
            write_u64(out, *game_id);
            append_bytes(out, block_id.as_slice());
            assert(out@ =~= old(out)@ + enc_action(action@));
            true
        },
        ActionType::MakeMove { player, game_id, mv, block_id } => {
            write_u8(out, 2);
            append_bytes(out, player.as_slice());
            write_u64(out, *game_id);
            if !write_move(out, mv) {
                return false;
            }
            append_bytes(out, block_id.as_slice());
            assert(out@ =~= old(out)@ + enc_action(action@));
            true
        },
        ActionType::Unknown => {
            write_u8(out, 3);
            true
        },
    }
}

fn read_create_game(b: &[u8], pos: usize) -> (r: Option<(ActionType, usize)>)
    requires
        pos <= b@.len(),
    ensures
        match dec_create_game(b@.skip(pos as int)) {
            Some((a, rest)) => r is Some && r.unwrap().0@ == a && leaves(b@, r.unwrap().1, rest),
            None => r is None,
        },
{
    proof {
        reveal(dec_create_game);
    }
    let (white, at_a) = match read_address(b, pos) {
        Some(r) => r,
        None => {
            return None;
        },
    };
    let (black, at_b) = match read_address(b, at_a) {
        Some(r) => r,
        None => {
            return None;
        },
    };
    let (block_id, at_c) = match read_id(b, at_b) {
        Some(r) => r,
        None => {
            return None;
        },
    };
    Some((ActionType::CreateGame { white, black, block_id }, at_c))
}

fn read_end_game(b: &[u8], pos: usize) -> (r: Option<(ActionType, usize)>)
    requires
        pos <= b@.len(),
    ensures
        match dec_end_game(b@.skip(pos as int)) {
            Some((a, rest)) => r is Some && r.unwrap().0@ == a && leaves(b@, r.unwrap().1, rest),
            None => r is None,
        },
{
    proof {
        reveal(dec_end_game);
    }
    let (game_id, at_a) = match read_u64(b, pos) {
        Some(r) => r,
        None => {
            return None;
        },
    };
    let (block_id, at_b) = match read_id(b, at_a) {
        Some(r) => r,
        None => {
            return None;
        },
    };
    Some((ActionType::EndGame { game_id, block_id }, at_b))
}

fn read_make_move(b: &[u8], pos: usize) -> (r: Option<(ActionType, usize)>)
    requires
        pos <= b@.len(),
    ensures
        match dec_make_move(b@.skip(pos as int)) {
            Some((a, rest)) => r is Some && r.unwrap().0@ == a && leaves(b@, r.unwrap().1, rest),
            None => r is None,
        },
{
    proof {
        reveal(dec_make_move);
    }
    let (player, at_a) = match read_address(b, pos) {
        Some(r) => r,
        None => {
            return None;
        },
    };
    let (game_id, at_b) = match read_u64(b, at_a) {
        Some(r) => r,
        None => {
            return None;
        },
    };
    let (mv, at_c) = match read_move(b, at_b) {
        Some(r) => r,
        None => {
            return None;
        },
    };
    let (block_id, at_d) = match read_id(b, at_c) {
        Some(r) => r,
        None => {
            return None;
        },
    };
    Some((ActionType::MakeMove { player, game_id, mv, block_id }, at_d))
}

/// Reads an action at `pos`.
pub fn read_action(b: &[u8], pos: usize) -> (r: Option<(ActionType, usize)>)
    requires
        pos <= b@.len(),
    ensures
        match dec_action(b@.skip(pos as int)) {
            Some((a, rest)) => r is Some && r.unwrap().0@ == a && leaves(b@, r.unwrap().1, rest),
            None => r is None,
        },
{
    proof {
        reveal(dec_action);
    }
    if pos >= b.len() {
        return None;
    }
    let tag = b[pos];
    assert(b@.skip(pos as int)[0] == b@[pos as int]);
    assert(b@.skip(pos + 1) =~= b@.skip(pos as int).skip(1));
    if tag == 0 {
        read_create_game(b, pos + 1)
    } else if tag == 1 {
        read_end_game(b, pos + 1)
    } else if tag == 2 {
        read_make_move(b, pos + 1)
    } else if tag == 3 {
        Some((ActionType::Unknown, pos + 1))
    } else {
        None
    }
}

/// Appends the actions of the transactions, if all can be written.
pub fn write_list(out: &mut Vec<u8>, txs: &Vec<Transaction>) -> (ok: bool)
    ensures
        ok == list_fits(views(txs@)),
        ok ==> final(out)@ == old(out)@ + enc_list(views(txs@)),
{
    let ghost all = views(txs@);
    let mut i: usize = 0;
    assert(all.skip(0) =~= all);
    while i < txs.len()
        invariant
            i <= txs@.len(),
            all == views(txs@),
            forall|j: int| 0 <= j < i ==> action_fits(#[trigger] all[j].action),
            out@ + enc_list(all.skip(i as int)) == old(out)@ + enc_list(all),
        decreases txs@.len() - i,
    {
        let ghost before = out@;
        assert(all.skip(i as int).skip(1) =~= all.skip(i + 1));
        assert(all.skip(i as int)[0] == all[i as int]);
        if !write_action(out, &txs[i].action) {
            assert(!action_fits(all[i as int].action));
            return false;
        }
        assert(out@ + enc_list(all.skip(i + 1)) =~= before + enc_list(all.skip(i as int)));
        i += 1;
    }
    assert(enc_list(all.skip(i as int)) =~= Seq::<u8>::empty());
    assert(out@ =~= out@ + enc_list(all.skip(i as int)));
    true
}

/// Reads `n` transactions at `pos`.
pub fn read_list(b: &[u8], pos: usize, n: u32) -> (r: Option<(Vec<Transaction>, usize)>)
    requires
        pos <= b@.len(),
    ensures
        match dec_list(b@.skip(pos as int), n as nat) {
            Some((txs, rest)) => r is Some && views(r.unwrap().0@) == txs && leaves(
                b@,
                r.unwrap().1,
                rest,
            ),
            None => r is None,
        },
{
    let ghost whole = dec_list(b@.skip(pos as int), n as nat);
    let mut txs: Vec<Transaction> = Vec::new();
    let mut at: usize = pos;
    let mut i: u32 = 0;
    assert(views(txs@) =~= Seq::<TransactionView>::empty());
    while i < n
        invariant
            i <= n,
            at <= b@.len(),
            whole == dec_list(b@.skip(pos as int), n as nat),
            whole == (match dec_list(b@.skip(at as int), (n - i) as nat) {
                Some((more, rest)) => Some((views(txs@) + more, rest)),
                None => None,
            }),
        decreases n - i,
    {
        let ghost done = views(txs@);
        match read_action(b, at) {
            None => {
                return None;
            },
            Some((action, next)) => {
                let tx = Transaction {
                    action,
                    bytes: Vec::new(),
                    id: Id::empty(),
                    size: 0,
                    sender: Address::zero(),
                };
                assert(tx@ == bare(action@)) by {
                    assert(tx@.bytes =~= Seq::<u8>::empty());
                }
                txs.push(tx);
                assert(views(txs@) =~= done + seq![bare(action@)]);
                proof {
                    match dec_list(b@.skip(next as int), (n - i - 1) as nat) {
                        Some((more, rest)) => {
                            assert(done + (seq![bare(action@)] + more) =~= views(txs@) + more);
                        },
                        None => {},
                    }
                }
                at = next;
                i += 1;
            },
        }
    }
    assert(views(txs@) + Seq::<TransactionView>::empty() =~= views(txs@));
    Some((txs, at))
}

} // verus!
