//! The canonical byte encoding is one-to-one: two signed blocks with the same
//! bytes have the same content, so any change of content changes what is
//! hashed.
use vstd::prelude::*;
use crate::block::{block_bytes, signed_block_bytes, transaction_encoder, HashedBlock, SignedBlock};
use crate::codec::{
    joined, lemma_joined_prefix, lemma_len_prefixed_prefix, lemma_split_equal, lemma_u64_be_prefix,
    len_prefixed, prefix_free, u64_be,
};
use crate::crypto::sha256_of;
use crate::tx::{
    commit_bytes, optional_bytes, signature_entry_bytes, signature_entry_encoder, transaction_bytes,
    transfer_bytes, transfer_encoder, Commit, DetachedSignature, Transaction, Transfer,
};

verus! {

/// The content of a transfer: index, source, destination, tokens.
pub open spec fn transfer_model(t: Transfer) -> (u32, Seq<u8>, Seq<u8>, u64) {
    (t.op_index, t.source_pk@, t.destination_pk@, t.tokens)
}

pub open spec fn optional_model(o: Option<Vec<u8>>) -> Option<Seq<u8>> {
    match o {
        None => None,
        Some(b) => Some(b@),
    }
}

/// The content of a commit.
pub open spec fn commit_model(c: Commit) -> (Seq<(u32, Seq<u8>, Seq<u8>, u64)>, u64, Option<Seq<u8>>) {
    (c.transfers@.map_values(|t: Transfer| transfer_model(t)), c.bounty, optional_model(c.bounty_pk))
}

/// The content of a signature entry: key and signature bytes.
pub open spec fn signature_entry_model(d: DetachedSignature) -> (Seq<u8>, Seq<u8>) {
    (d.public_key@, d.payload@)
}

/// The content of a transaction.
pub open spec fn transaction_model(t: Transaction) -> (
    (Seq<(u32, Seq<u8>, Seq<u8>, u64)>, u64, Option<Seq<u8>>),
    Seq<(Seq<u8>, Seq<u8>)>,
) {
    (
        commit_model(t.commit),
        t.signatures@.map_values(|d: DetachedSignature| signature_entry_model(d)),
    )
}

/// The content of a signed block: predecessor, timestamp, transactions and
/// signature, with every byte string seen as its bytes.
pub open spec fn signed_block_model(sb: SignedBlock) -> (
    Seq<u8>,
    i64,
    Seq<
        (
            (Seq<(u32, Seq<u8>, Seq<u8>, u64)>, u64, Option<Seq<u8>>),
            Seq<(Seq<u8>, Seq<u8>)>,
        ),
    >,
    Seq<u8>,
) {
    (
        sb.block.previous@,
        sb.block.timestamp,
        sb.block.transactions@.map_values(|t: Transaction| transaction_model(t)),
        sb.signature@,
    )
}

pub open spec fn fits(b: Seq<u8>) -> bool {
    b.len() <= u64::MAX
}

pub open spec fn transfer_fits(t: Transfer) -> bool {
    fits(t.source_pk@) && fits(t.destination_pk@)
}

pub open spec fn commit_fits(c: Commit) -> bool {
    &&& c.transfers@.len() <= u64::MAX
    &&& forall|i: int| 0 <= i < c.transfers@.len() ==> transfer_fits(#[trigger] c.transfers@[i])
    &&& (c.bounty_pk matches Some(b) ==> fits(b@))
}

pub open spec fn signature_entry_fits(d: DetachedSignature) -> bool {
    fits(d.public_key@) && fits(d.payload@)
}

pub open spec fn transaction_fits(t: Transaction) -> bool {
    &&& commit_fits(t.commit)
    &&& t.signatures@.len() <= u64::MAX
    &&& forall|i: int|
        0 <= i < t.signatures@.len() ==> signature_entry_fits(#[trigger] t.signatures@[i])
}

/// Whether every length in a signed block fits in 64 bits, as the length of
/// anything held in memory does.
pub open spec fn signed_block_fits(sb: SignedBlock) -> bool {
    &&& fits(sb.block.previous@)
    &&& fits(sb.signature@)
    &&& sb.block.transactions@.len() <= u64::MAX
    &&& forall|i: int|
        0 <= i < sb.block.transactions@.len() ==> transaction_fits(
            #[trigger] sb.block.transactions@[i],
        )
}

proof fn lemma_transfer_prefix(a: Transfer, b: Transfer, r1: Seq<u8>, r2: Seq<u8>)
    requires
        transfer_fits(a),
        transfer_fits(b),
        transfer_bytes(a) + r1 == transfer_bytes(b) + r2,
    ensures
        transfer_model(a) == transfer_model(b),
        r1 == r2,
{
    let a3 = u64_be(a.tokens) + r1;
    let b3 = u64_be(b.tokens) + r2;
    let a2 = len_prefixed(a.destination_pk@) + a3;
    let b2 = len_prefixed(b.destination_pk@) + b3;
    let a1 = len_prefixed(a.source_pk@) + a2;
    let b1 = len_prefixed(b.source_pk@) + b2;
    assert(transfer_bytes(a) + r1 =~= u64_be(a.op_index as u64) + a1);
    assert(transfer_bytes(b) + r2 =~= u64_be(b.op_index as u64) + b1);
    lemma_u64_be_prefix(a.op_index as u64, b.op_index as u64, a1, b1);
    lemma_len_prefixed_prefix(a.source_pk@, b.source_pk@, a2, b2);
    lemma_len_prefixed_prefix(a.destination_pk@, b.destination_pk@, a3, b3);
    lemma_u64_be_prefix(a.tokens, b.tokens, r1, r2);
}

proof fn lemma_transfer_prefix_free()
    ensures
        prefix_free(
            transfer_encoder(),
            |t: Transfer| transfer_model(t),
            |t: Transfer| transfer_fits(t),
        ),
{
    assert forall|a: Transfer, b: Transfer, q1: Seq<u8>, q2: Seq<u8>|
        transfer_fits(a) && transfer_fits(b) && transfer_bytes(a) + q1 == transfer_bytes(b)
            + q2 implies transfer_model(a) == transfer_model(b) && q1 == q2 by {
        lemma_transfer_prefix(a, b, q1, q2);
    }
}

proof fn lemma_commit_prefix(a: Commit, b: Commit, r1: Seq<u8>, r2: Seq<u8>)
    requires
        commit_fits(a),
        commit_fits(b),
        commit_bytes(a) + r1 == commit_bytes(b) + r2,
    ensures
        commit_model(a) == commit_model(b),
        r1 == r2,
{
    let a3 = optional_bytes(a.bounty_pk) + r1;
    let b3 = optional_bytes(b.bounty_pk) + r2;
    let a2 = u64_be(a.bounty) + a3;
    let b2 = u64_be(b.bounty) + b3;
    let a1 = joined(a.transfers@, transfer_encoder()) + a2;
    let b1 = joined(b.transfers@, transfer_encoder()) + b2;
    assert(commit_bytes(a) + r1 =~= u64_be(a.transfers@.len() as u64) + a1);
    assert(commit_bytes(b) + r2 =~= u64_be(b.transfers@.len() as u64) + b1);
    lemma_u64_be_prefix(a.transfers@.len() as u64, b.transfers@.len() as u64, a1, b1);
    lemma_transfer_prefix_free();
    lemma_joined_prefix(
        a.transfers@,
        b.transfers@,
        a2,
        b2,
        transfer_encoder(),
        |t: Transfer| transfer_model(t),
        |t: Transfer| transfer_fits(t),
    );
    assert(a.transfers@.map_values(|t: Transfer| transfer_model(t)) =~= b.transfers@.map_values(
        |t: Transfer| transfer_model(t),
    ));
    lemma_u64_be_prefix(a.bounty, b.bounty, a3, b3);
    assert(a3[0] == b3[0]);
    match (a.bounty_pk, b.bounty_pk) {
        (Some(x), Some(y)) => {
            assert(a3 =~= seq![1u8] + (len_prefixed(x@) + r1));
            assert(b3 =~= seq![1u8] + (len_prefixed(y@) + r2));
            lemma_split_equal(seq![1u8], len_prefixed(x@) + r1, seq![1u8], len_prefixed(y@) + r2);
            lemma_len_prefixed_prefix(x@, y@, r1, r2);
        },
        (None, None) => {
            assert(a3 =~= seq![0u8] + r1);
            assert(b3 =~= seq![0u8] + r2);
            lemma_split_equal(seq![0u8], r1, seq![0u8], r2);
        },
        _ => {},
    }
}

proof fn lemma_signature_entry_prefix_free()
    ensures
        prefix_free(
            signature_entry_encoder(),
            |d: DetachedSignature| signature_entry_model(d),
            |d: DetachedSignature| signature_entry_fits(d),
        ),
{
    assert forall|a: DetachedSignature, b: DetachedSignature, q1: Seq<u8>, q2: Seq<u8>|
        signature_entry_fits(a) && signature_entry_fits(b) && signature_entry_bytes(a) + q1
            == signature_entry_bytes(b) + q2 implies signature_entry_model(a)
        == signature_entry_model(b) && q1 == q2 by {
        let a1 = len_prefixed(a.payload@) + q1;
        let b1 = len_prefixed(b.payload@) + q2;
        assert(signature_entry_bytes(a) + q1 =~= len_prefixed(a.public_key@) + a1);
        assert(signature_entry_bytes(b) + q2 =~= len_prefixed(b.public_key@) + b1);
        lemma_len_prefixed_prefix(a.public_key@, b.public_key@, a1, b1);
        lemma_len_prefixed_prefix(a.payload@, b.payload@, q1, q2);
    }
}

proof fn lemma_transaction_prefix(a: Transaction, b: Transaction, r1: Seq<u8>, r2: Seq<u8>)
    requires
        transaction_fits(a),
        transaction_fits(b),
        transaction_bytes(a) + r1 == transaction_bytes(b) + r2,
    ensures
        transaction_model(a) == transaction_model(b),
        r1 == r2,
{
    let a2 = joined(a.signatures@, signature_entry_encoder()) + r1;
    let b2 = joined(b.signatures@, signature_entry_encoder()) + r2;
    let a1 = u64_be(a.signatures@.len() as u64) + a2;
    let b1 = u64_be(b.signatures@.len() as u64) + b2;
    assert(transaction_bytes(a) + r1 =~= commit_bytes(a.commit) + a1);
    assert(transaction_bytes(b) + r2 =~= commit_bytes(b.commit) + b1);
    lemma_commit_prefix(a.commit, b.commit, a1, b1);
    lemma_u64_be_prefix(a.signatures@.len() as u64, b.signatures@.len() as u64, a2, b2);
    lemma_signature_entry_prefix_free();
    lemma_joined_prefix(
        a.signatures@,
        b.signatures@,
        r1,
        r2,
        signature_entry_encoder(),
        |d: DetachedSignature| signature_entry_model(d),
        |d: DetachedSignature| signature_entry_fits(d),
    );
    assert(a.signatures@.map_values(|d: DetachedSignature| signature_entry_model(d))
        =~= b.signatures@.map_values(|d: DetachedSignature| signature_entry_model(d)));
}

proof fn lemma_transaction_prefix_free()
    ensures
        prefix_free(
            transaction_encoder(),
            |t: Transaction| transaction_model(t),
            |t: Transaction| transaction_fits(t),
        ),
{
    assert forall|a: Transaction, b: Transaction, q1: Seq<u8>, q2: Seq<u8>|
        transaction_fits(a) && transaction_fits(b) && transaction_bytes(a) + q1
            == transaction_bytes(b) + q2 implies transaction_model(a) == transaction_model(b)
        && q1 == q2 by {
        lemma_transaction_prefix(a, b, q1, q2);
    }
}

/// Two signed blocks with the same canonical bytes have the same content.
pub proof fn lemma_signed_block_bytes_injective(a: SignedBlock, b: SignedBlock)
    requires
        signed_block_fits(a),
        signed_block_fits(b),
        signed_block_bytes(a) == signed_block_bytes(b),
    ensures
        signed_block_model(a) == signed_block_model(b),
{
    let ta = a.block.transactions@;
    let tb = b.block.transactions@;
    let a3 = joined(ta, transaction_encoder()) + len_prefixed(a.signature@);
    let b3 = joined(tb, transaction_encoder()) + len_prefixed(b.signature@);
    let a2 = u64_be(ta.len() as u64) + a3;
    let b2 = u64_be(tb.len() as u64) + b3;
    let a1 = u64_be(a.block.timestamp as u64) + a2;
    let b1 = u64_be(b.block.timestamp as u64) + b2;
    assert(signed_block_bytes(a) =~= len_prefixed(a.block.previous@) + a1);
    assert(signed_block_bytes(b) =~= len_prefixed(b.block.previous@) + b1);
    lemma_len_prefixed_prefix(a.block.previous@, b.block.previous@, a1, b1);
    lemma_u64_be_prefix(a.block.timestamp as u64, b.block.timestamp as u64, a2, b2);
    let (x, y) = (a.block.timestamp, b.block.timestamp);
    assert(x == y) by (bit_vector)
        requires
            x as u64 == y as u64,
    ;
    lemma_u64_be_prefix(ta.len() as u64, tb.len() as u64, a3, b3);
    lemma_transaction_prefix_free();
    lemma_joined_prefix(
        ta,
        tb,
        len_prefixed(a.signature@),
        len_prefixed(b.signature@),
        transaction_encoder(),
        |t: Transaction| transaction_model(t),
        |t: Transaction| transaction_fits(t),
    );
    assert(ta.map_values(|t: Transaction| transaction_model(t)) =~= tb.map_values(
        |t: Transaction| transaction_model(t),
    ));
    assert(len_prefixed(a.signature@) + seq![] == len_prefixed(b.signature@) + seq![]) by {
        assert(len_prefixed(a.signature@) + seq![] =~= len_prefixed(a.signature@));
        assert(len_prefixed(b.signature@) + seq![] =~= len_prefixed(b.signature@));
    }
    lemma_len_prefixed_prefix(a.signature@, b.signature@, seq![], seq![]);
}

/// Changing the content of a hash-consistent block while keeping its stored
/// digest makes the digest check fail, unless the new canonical bytes collide
/// with the old ones under SHA-256.
pub proof fn lemma_tampering_detected(h: HashedBlock, altered: SignedBlock)
    requires
        h.hash_consistent(),
        signed_block_fits(h.signed_block),
        signed_block_fits(altered),
        signed_block_model(altered) != signed_block_model(h.signed_block),
        signed_block_bytes(altered) != signed_block_bytes(h.signed_block) ==> sha256_of(
            signed_block_bytes(altered),
        ) != sha256_of(signed_block_bytes(h.signed_block)),
    ensures
        !(HashedBlock { signed_block: altered, hash: h.hash }).hash_consistent(),
{
    if signed_block_bytes(altered) == signed_block_bytes(h.signed_block) {
        lemma_signed_block_bytes_injective(altered, h.signed_block);
    }
}

} // verus!
