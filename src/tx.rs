use vstd::prelude::*;
use crate::codec::{joined, lemma_joined_push, len_prefixed, put_bytes, put_u64, u64_be};
use crate::crypto::{
    bytes_eq, copy_bytes, ed25519_accepts, ed25519_sign, ed25519_signature_of, ed25519_verify,
    PublicKey, SecretKey, KEY_LEN, SIGNATURE_LEN,
};
use crate::error::BlockError;

verus! {

/// One movement of tokens from a source key to a destination key.
#[derive(Debug, Clone, PartialEq, Eq)]
pub struct Transfer {
    pub op_index: u32,
    pub source_pk: Vec<u8>,
    pub destination_pk: Vec<u8>,
    pub tokens: u64,
}

/// The signed part of a transaction: its transfers and its bounty.
#[derive(Debug, Clone, PartialEq, Eq)]
pub struct Commit {
    pub transfers: Vec<Transfer>,
    pub bounty: u64,
    pub bounty_pk: Option<Vec<u8>>,
}

/// A signature over a commit, with the public key that made it.
#[derive(Debug, Clone, PartialEq, Eq)]
pub struct DetachedSignature {
    pub public_key: Vec<u8>,
    pub payload: Vec<u8>,
}

/// A commit together with the signatures of its source keys.
#[derive(Debug, Clone, PartialEq, Eq)]
pub struct Transaction {
    pub commit: Commit,
    pub signatures: Vec<DetachedSignature>,
}

pub open spec fn transfer_bytes(t: Transfer) -> Seq<u8> {
    u64_be(t.op_index as u64) + len_prefixed(t.source_pk@) + len_prefixed(t.destination_pk@)
        + u64_be(t.tokens)
}

pub open spec fn transfer_encoder() -> spec_fn(Transfer) -> Seq<u8> {
    |t: Transfer| transfer_bytes(t)
}

pub open spec fn optional_bytes(o: Option<Vec<u8>>) -> Seq<u8> {
    match o {
        None => seq![0u8],
        Some(b) => seq![1u8] + len_prefixed(b@),
    }
}

/// The canonical bytes of a commit: what its signatures sign.
pub open spec fn commit_bytes(c: Commit) -> Seq<u8> {
    u64_be(c.transfers@.len() as u64) + joined(c.transfers@, transfer_encoder()) + u64_be(c.bounty)
        + optional_bytes(c.bounty_pk)
}

pub open spec fn signature_entry_bytes(d: DetachedSignature) -> Seq<u8> {
    len_prefixed(d.public_key@) + len_prefixed(d.payload@)
}

pub open spec fn signature_entry_encoder() -> spec_fn(DetachedSignature) -> Seq<u8> {
    |d: DetachedSignature| signature_entry_bytes(d)
}

/// The canonical bytes of a whole transaction.
pub open spec fn transaction_bytes(t: Transaction) -> Seq<u8> {
    commit_bytes(t.commit) + u64_be(t.signatures@.len() as u64) + joined(
        t.signatures@,
        signature_entry_encoder(),
    )
}

/// Whether `sig` is a well-formed signature by `pk` over `m`.
pub open spec fn signature_valid(pk: Seq<u8>, m: Seq<u8>, sig: Seq<u8>) -> bool {
    pk.len() == KEY_LEN && sig.len() == SIGNATURE_LEN && ed25519_accepts(pk, m, sig)
}

/// Whether every transfer of the commit lists operation indices that
/// increase in order of addition.
pub open spec fn op_indices_increasing(s: Seq<Transfer>) -> bool {
    forall|i: int| 1 <= i < s.len() ==> (#[trigger] s[i]).op_index > s[i - 1].op_index
}

fn put_transfer(out: &mut Vec<u8>, t: &Transfer)
    ensures
        final(out)@ == old(out)@ + transfer_bytes(*t),
{
    put_u64(out, t.op_index as u64);
    put_bytes(out, t.source_pk.as_slice());
    put_bytes(out, t.destination_pk.as_slice());
    put_u64(out, t.tokens);
    assert(final(out)@ =~= old(out)@ + transfer_bytes(*t));
}

fn put_commit(out: &mut Vec<u8>, c: &Commit)
    ensures
        final(out)@ == old(out)@ + commit_bytes(*c),
{
    put_u64(out, c.transfers.len() as u64);
    let ghost mid = out@;
    let mut i: usize = 0;
    while i < c.transfers.len()
        invariant
            0 <= i <= c.transfers@.len(),
            out@ == mid + joined(c.transfers@.take(i as int), transfer_encoder()),
        decreases c.transfers@.len() - i,
    {
        put_transfer(out, &c.transfers[i]);
        proof {
            assert(c.transfers@.take(i + 1) =~= c.transfers@.take(i as int).push(c.transfers@[i as int]));
            lemma_joined_push(c.transfers@.take(i as int), transfer_encoder(), c.transfers@[i as int]);
        }
        i = i + 1;
        assert(out@ =~= mid + joined(c.transfers@.take(i as int), transfer_encoder()));
    }
    assert(c.transfers@.take(i as int) =~= c.transfers@);
    put_u64(out, c.bounty);
    match &c.bounty_pk {
        None => {
            out.push(0u8);
        },
        Some(b) => {
            out.push(1u8);
            put_bytes(out, b.as_slice());
        },
    }
    assert(final(out)@ =~= old(out)@ + commit_bytes(*c));
}

/// The canonical bytes of a commit.
pub fn encode_commit(c: &Commit) -> (r: Vec<u8>)
    ensures
        r@ == commit_bytes(*c),
{
    let mut out: Vec<u8> = Vec::new();
    put_commit(&mut out, c);
    assert(out@ =~= commit_bytes(*c));
    out
}

pub(crate) fn put_transaction(out: &mut Vec<u8>, t: &Transaction)
    ensures
        final(out)@ == old(out)@ + transaction_bytes(*t),
{
    put_commit(out, &t.commit);
    put_u64(out, t.signatures.len() as u64);
    let ghost mid = out@;
    let mut i: usize = 0;
    while i < t.signatures.len()
        invariant
            0 <= i <= t.signatures@.len(),
            out@ == mid + joined(t.signatures@.take(i as int), signature_entry_encoder()),
        decreases t.signatures@.len() - i,
    {
        put_bytes(out, t.signatures[i].public_key.as_slice());
        put_bytes(out, t.signatures[i].payload.as_slice());
        proof {
            assert(t.signatures@.take(i + 1) =~= t.signatures@.take(i as int).push(t.signatures@[i as int]));
            lemma_joined_push(t.signatures@.take(i as int), signature_entry_encoder(), t.signatures@[i as int]);
        }
        i = i + 1;
        assert(out@ =~= mid + joined(t.signatures@.take(i as int), signature_entry_encoder()));
    }
    assert(t.signatures@.take(i as int) =~= t.signatures@);
    assert(final(out)@ =~= old(out)@ + transaction_bytes(*t));
}

impl Transaction {
    /// Whether some listed signature by `pk` is valid over the commit.
    pub open spec fn signed_by(self, pk: Seq<u8>) -> bool {
        exists|i: int|
            0 <= i < self.signatures@.len() && (#[trigger] self.signatures@[i]).public_key@ == pk
                && signature_valid(pk, commit_bytes(self.commit), self.signatures@[i].payload@)
    }

    /// Whether the source key of every transfer has signed the commit.
    pub open spec fn signatures_valid(self) -> bool {
        forall|j: int|
            0 <= j < self.commit.transfers@.len() ==> self.signed_by(
                (#[trigger] self.commit.transfers@[j]).source_pk@,
            )
    }

    /// A transaction with no transfers, no bounty and no signatures.
    pub fn new() -> (r: Transaction)
        ensures
            r.commit.transfers@.len() == 0,
            r.commit.bounty == 0,
            r.commit.bounty_pk is None,
            r.signatures@.len() == 0,
    {
        Transaction {
            commit: Commit { transfers: Vec::new(), bounty: 0, bounty_pk: None },
            signatures: Vec::new(),
        }
    }

    /// Removes every signature; the commit is kept.
    pub fn clear_signatures(&mut self)
        ensures
            final(self).commit == old(self).commit,
            final(self).signatures@.len() == 0,
    {
        self.signatures = Vec::new();
    }

    /// Checks that the source key of every transfer has a valid signature
    /// over the commit.
    pub fn verify_signatures(&self) -> (r: Result<(), BlockError>)
        ensures
            r is Ok <==> self.signatures_valid(),
            r matches Err(e) ==> e == BlockError::InvalidSignature,
    {
        let message = encode_commit(&self.commit);
        let mut j: usize = 0;
        while j < self.commit.transfers.len()
            invariant
                0 <= j <= self.commit.transfers@.len(),
                message@ == commit_bytes(self.commit),
                forall|k: int|
                    0 <= k < j ==> self.signed_by((#[trigger] self.commit.transfers@[k]).source_pk@),
            decreases self.commit.transfers@.len() - j,
        {
            let pk = self.commit.transfers[j].source_pk.as_slice();
            let mut found = false;
            let mut i: usize = 0;
            while i < self.signatures.len() && !found
                invariant
                    0 <= i <= self.signatures@.len(),
                    pk@ == self.commit.transfers@[j as int].source_pk@,
                    message@ == commit_bytes(self.commit),
                    found ==> self.signed_by(pk@),
                    !found ==> forall|k: int|
                        0 <= k < i ==> !((#[trigger] self.signatures@[k]).public_key@ == pk@
                            && signature_valid(pk@, message@, self.signatures@[k].payload@)),
                decreases self.signatures@.len() - i,
            {
                let entry = &self.signatures[i];
                if bytes_eq(entry.public_key.as_slice(), pk) && pk.len() == KEY_LEN
                    && entry.payload.len() == SIGNATURE_LEN {
                    if ed25519_verify(pk, message.as_slice(), entry.payload.as_slice()) {
                        found = true;
                    }
                }
                i = i + 1;
            }
            if !found {
                return Err(BlockError::InvalidSignature);
            }
            j = j + 1;
        }
        Ok(())
    }
}

/// Accumulates transfers, each with the secret key of its source, and
/// produces a signed transaction.
pub struct TransactionBuilder {
    transfers: Vec<Transfer>,
    keys: Vec<Vec<u8>>,
}

impl TransactionBuilder {
    /// One secret key of the key length for each transfer.
    pub closed spec fn wf(self) -> bool {
        &&& self.transfers@.len() == self.keys@.len()
        &&& forall|i: int| 0 <= i < self.keys@.len() ==> (#[trigger] self.keys@[i])@.len() == KEY_LEN
    }

    /// The transfers added so far, in order.
    pub closed spec fn transfers(self) -> Seq<Transfer> {
        self.transfers@
    }

    /// The secret key given with the `i`-th transfer.
    pub closed spec fn key_at(self, i: int) -> Seq<u8> {
        self.keys@[i]@
    }

    pub fn new() -> (r: TransactionBuilder)
        ensures
            r.wf(),
            r.transfers().len() == 0,
    {
        TransactionBuilder { transfers: Vec::new(), keys: Vec::new() }
    }

    /// Adds a transfer of `tokens` from `source` to `destination`, to be
    /// signed with `secret_key`.
    pub fn add_transfer(
        &mut self,
        secret_key: &SecretKey,
        source: &PublicKey,
        destination: &PublicKey,
        tokens: u64,
        op_index: u32,
    )
        requires
            old(self).wf(),
        ensures
            final(self).wf(),
            final(self).transfers().len() == old(self).transfers().len() + 1,
            forall|i: int|
                0 <= i < old(self).transfers().len() ==> final(self).transfers()[i] == old(
                    self,
                ).transfers()[i] && final(self).key_at(i) == old(self).key_at(i),
            final(self).transfers().last().op_index == op_index,
            final(self).transfers().last().source_pk@ == source@,
            final(self).transfers().last().destination_pk@ == destination@,
            final(self).transfers().last().tokens == tokens,
            final(self).key_at(old(self).transfers().len() as int) == secret_key@,
    {
        let t = Transfer {
            op_index,
            source_pk: copy_bytes(source.bytes.as_slice()),
            destination_pk: copy_bytes(destination.bytes.as_slice()),
            tokens,
        };
        let key = copy_bytes(secret_key.as_bytes());
        self.transfers.push(t);
        self.keys.push(key);
    }

    /// Signs the commit with the key of every transfer. Fails when the
    /// operation indices do not increase in order of addition.
    pub fn build(self) -> (r: Result<Transaction, BlockError>)
        requires
            self.wf(),
        ensures
            r is Ok <==> op_indices_increasing(self.transfers()),
            r matches Err(e) ==> e == BlockError::OperationOrder,
            r matches Ok(tx) ==> {
                &&& tx.commit.transfers@ == self.transfers()
                &&& tx.commit.bounty == 0
                &&& tx.commit.bounty_pk is None
                &&& tx.signatures@.len() == self.transfers().len()
                &&& forall|i: int|
                    0 <= i < tx.signatures@.len() ==> {
                        &&& (#[trigger] tx.signatures@[i]).public_key@
                            == self.transfers()[i].source_pk@
                        &&& tx.signatures@[i].payload@ == ed25519_signature_of(
                            self.key_at(i),
                            commit_bytes(tx.commit),
                        )
                        &&& tx.signatures@[i].payload@.len() == SIGNATURE_LEN
                    }
            },
    {
        let n = self.transfers.len();
        let mut i: usize = 1;
        while i < n
            invariant
                n == self.transfers@.len(),
                1 <= i,
                forall|k: int|
                    1 <= k < i && k < n ==> (#[trigger] self.transfers@[k]).op_index
                        > self.transfers@[k - 1].op_index,
            decreases n - i,
        {
            if self.transfers[i].op_index <= self.transfers[i - 1].op_index {
                return Err(BlockError::OperationOrder);
            }
            i = i + 1;
        }
        let ghost transfers = self.transfers@;
        let ghost keys = self.keys@;
        let TransactionBuilder { transfers: moved, keys: secret_keys } = self;
        let commit = Commit { transfers: moved, bounty: 0, bounty_pk: None };
        let message = encode_commit(&commit);
        let mut signatures: Vec<DetachedSignature> = Vec::new();
        let mut k: usize = 0;
        while k < n
            invariant
                n == commit.transfers@.len(),
                commit.transfers@ == transfers,
                secret_keys@ == keys,
                keys.len() == n,
                forall|m: int| 0 <= m < n ==> (#[trigger] keys[m])@.len() == KEY_LEN,
                message@ == commit_bytes(commit),
                0 <= k <= n,
                signatures@.len() == k,
                forall|m: int|
                    0 <= m < k ==> {
                        &&& (#[trigger] signatures@[m]).public_key@ == transfers[m].source_pk@
                        &&& signatures@[m].payload@ == ed25519_signature_of(
                            keys[m]@,
                            message@,
                        )
                        &&& signatures@[m].payload@.len() == SIGNATURE_LEN
                    },
            decreases n - k,
        {
            let payload = ed25519_sign(secret_keys[k].as_slice(), message.as_slice());
            let public_key = copy_bytes(commit.transfers[k].source_pk.as_slice());
            signatures.push(DetachedSignature { public_key, payload });
            k = k + 1;
        }
        Ok(Transaction { commit, signatures })
    }
}

} // verus!
