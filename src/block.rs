use vstd::prelude::*;
use crate::codec::{joined, lemma_joined_push, len_prefixed, put_bytes, put_u64, u64_be};
use crate::crypto::{ed25519_sign, ed25519_signature_of, hash, sha256_of, HashDigest, SecretKey, DIGEST_LEN};
use crate::error::BlockError;
use crate::tx::{put_transaction, transaction_bytes, Transaction};

verus! {

/// The unsigned payload of a block.
#[derive(Debug, Clone, PartialEq, Eq)]
pub struct Block {
    /// Digest of the predecessor; all zeros for the first block of a chain.
    pub previous: Vec<u8>,
    /// Seconds since the Unix epoch.
    pub timestamp: i64,
    pub transactions: Vec<Transaction>,
}

/// A block with a signature over its canonical bytes.
#[derive(Debug, Clone, PartialEq, Eq)]
pub struct SignedBlock {
    pub block: Block,
    pub signature: Vec<u8>,
}

/// A signed block with the stored digest of its content.
#[derive(Debug, Clone, PartialEq, Eq)]
pub struct HashedBlock {
    pub signed_block: SignedBlock,
    pub hash: Vec<u8>,
}

/// A change of a block's predecessor pointer, carried apart from any block.
#[derive(Debug, Clone, PartialEq, Eq)]
pub struct BlockPatch {
    pub previous: Vec<u8>,
}

/// The digest that stands for "no predecessor".
pub open spec fn zero_digest() -> Seq<u8> {
    Seq::new(DIGEST_LEN as nat, |i: int| 0u8)
}

pub open spec fn transaction_encoder() -> spec_fn(Transaction) -> Seq<u8> {
    |t: Transaction| transaction_bytes(t)
}

/// The canonical bytes of a block: what a block signature signs.
pub open spec fn block_bytes(b: Block) -> Seq<u8> {
    len_prefixed(b.previous@) + u64_be(b.timestamp as u64) + u64_be(
        b.transactions@.len() as u64,
    ) + joined(b.transactions@, transaction_encoder())
}

/// The canonical bytes of a signed block: what the content digest covers.
pub open spec fn signed_block_bytes(sb: SignedBlock) -> Seq<u8> {
    block_bytes(sb.block) + len_prefixed(sb.signature@)
}

fn put_block(out: &mut Vec<u8>, b: &Block)
    ensures
        final(out)@ == old(out)@ + block_bytes(*b),
{
    put_bytes(out, b.previous.as_slice());
    put_u64(out, b.timestamp as u64);
    put_u64(out, b.transactions.len() as u64);
    let ghost mid = out@;
    let mut i: usize = 0;
    while i < b.transactions.len()
        invariant
            0 <= i <= b.transactions@.len(),
            out@ == mid + joined(b.transactions@.take(i as int), transaction_encoder()),
        decreases b.transactions@.len() - i,
    {
        put_transaction(out, &b.transactions[i]);
        proof {
            assert(b.transactions@.take(i + 1) =~= b.transactions@.take(i as int).push(b.transactions@[i as int]));
            lemma_joined_push(b.transactions@.take(i as int), transaction_encoder(), b.transactions@[i as int]);
        }
        i = i + 1;
        assert(out@ =~= mid + joined(b.transactions@.take(i as int), transaction_encoder()));
    }
    assert(b.transactions@.take(i as int) =~= b.transactions@);
    assert(final(out)@ =~= old(out)@ + block_bytes(*b));
}

/// The canonical bytes of a block.
pub fn encode_block(b: &Block) -> (r: Vec<u8>)
    ensures
        r@ == block_bytes(*b),
{
    let mut out: Vec<u8> = Vec::new();
    put_block(&mut out, b);
    assert(out@ =~= block_bytes(*b));
    out
}

/// The canonical bytes of a signed block.
pub fn encode_signed_block(sb: &SignedBlock) -> (r: Vec<u8>)
    ensures
        r@ == signed_block_bytes(*sb),
{
    let mut out: Vec<u8> = Vec::new();
    put_block(&mut out, &sb.block);
    put_bytes(&mut out, sb.signature.as_slice());
    assert(out@ =~= signed_block_bytes(*sb));
    out
}

impl Block {
    /// A block with no predecessor bytes, timestamp zero and no transactions.
    pub fn new() -> (r: Block)
        ensures
            r.previous@.len() == 0,
            r.timestamp == 0,
            r.transactions@.len() == 0,
    {
        Block { previous: Vec::new(), timestamp: 0, transactions: Vec::new() }
    }
}

impl SignedBlock {
    /// An empty block with an empty signature.
    pub fn new() -> (r: SignedBlock)
        ensures
            r.block.previous@.len() == 0,
            r.block.timestamp == 0,
            r.block.transactions@.len() == 0,
            r.signature@.len() == 0,
    {
        SignedBlock { block: Block::new(), signature: Vec::new() }
    }

    /// Signs the block's canonical bytes with `secret_key` and stores the signature.
    pub fn sign(&mut self, secret_key: &SecretKey)
        ensures
            final(self).block == old(self).block,
            final(self).signature@ == ed25519_signature_of(secret_key@, block_bytes(old(self).block)),
    {
        let message = encode_block(&self.block);
        self.signature = ed25519_sign(secret_key.as_bytes(), message.as_slice());
    }

    /// Checks the block signature. The data model carries no key of an
    /// authorised block producer, so there is nothing to check it against:
    /// every block signature is accepted here, and authorisation is left to
    /// the layer that knows the producers.
    pub fn verify_signature(&self) -> (r: Result<(), BlockError>)
        ensures
            r is Ok,
    {
        Ok(())
    }
}

impl HashedBlock {
    /// The digest of the current content.
    pub open spec fn content_digest(self) -> Seq<u8> {
        sha256_of(signed_block_bytes(self.signed_block))
    }

    /// Whether the stored digest and the predecessor are well-formed and the
    /// stored digest is that of the current content.
    pub open spec fn hash_consistent(self) -> bool {
        &&& self.hash@.len() == DIGEST_LEN
        &&& self.signed_block.block.previous@.len() == DIGEST_LEN
        &&& self.hash@ == self.content_digest()
    }

    /// What the digest check returns when it fails: a malformed stored digest,
    /// else a malformed predecessor, else a mismatch naming both digests.
    pub open spec fn digest_failure(self, r: Result<(), BlockError>) -> bool {
        &&& self.hash@.len() != DIGEST_LEN ==> r == (Err::<(), BlockError>(
            BlockError::MalformedDigest { len: self.hash@.len() as usize },
        ))
        &&& self.hash@.len() == DIGEST_LEN && self.signed_block.block.previous@.len()
            != DIGEST_LEN ==> r == (Err::<(), BlockError>(
            BlockError::MalformedDigest { len: self.signed_block.block.previous@.len() as usize },
        ))
        &&& self.hash@.len() == DIGEST_LEN && self.signed_block.block.previous@.len()
            == DIGEST_LEN && self.hash@ != self.content_digest() ==> (r matches Err(
            BlockError::HashMismatch { stored, computed },
        ) && stored@ == self.hash@ && computed@ == self.content_digest())
    }

    /// Whether the block passes every check: its digest, its signature and
    /// the signatures of each of its transactions.
    pub open spec fn is_valid(self) -> bool {
        &&& self.hash_consistent()
        &&& forall|i: int|
            0 <= i < self.signed_block.block.transactions@.len()
                ==> (#[trigger] self.signed_block.block.transactions@[i]).signatures_valid()
    }

    /// A block with every field empty; no digest has been computed.
    pub fn new() -> (r: HashedBlock)
        ensures
            r.signed_block.block.previous@.len() == 0,
            r.signed_block.block.timestamp == 0,
            r.signed_block.block.transactions@.len() == 0,
            r.signed_block.signature@.len() == 0,
            r.hash@.len() == 0,
    {
        HashedBlock { signed_block: SignedBlock::new(), hash: Vec::new() }
    }

    /// Computes the digest of the signed block, stores it and returns it.
    /// With a well-formed predecessor the block is then hash-consistent.
    pub fn compute_hash(&mut self) -> (r: HashDigest)
        ensures
            final(self).signed_block == old(self).signed_block,
            final(self).hash@ == old(self).content_digest(),
            r@ == old(self).content_digest(),
            old(self).signed_block.block.previous@.len() == DIGEST_LEN ==> final(self).hash_consistent(),
    {
        let bytes = encode_signed_block(&self.signed_block);
        let digest = hash(bytes.as_slice());
        self.hash = digest.to_vec();
        digest
    }

    /// Decodes the stored digest.
    pub fn decode_hash(&self) -> (r: Result<HashDigest, BlockError>)
        ensures
            r is Ok <==> self.hash@.len() == DIGEST_LEN,
            r matches Ok(d) ==> d@ == self.hash@,
            r matches Err(e) ==> e == (BlockError::MalformedDigest { len: self.hash@.len() as usize }),
    {
        HashDigest::from_bytes(self.hash.as_slice())
    }

    /// Decodes the predecessor pointer.
    pub fn decode_previous(&self) -> (r: Result<HashDigest, BlockError>)
        ensures
            r is Ok <==> self.signed_block.block.previous@.len() == DIGEST_LEN,
            r matches Ok(d) ==> d@ == self.signed_block.block.previous@,
            r matches Err(e) ==> e == (BlockError::MalformedDigest {
                len: self.signed_block.block.previous@.len() as usize,
            }),
    {
        HashDigest::from_bytes(self.signed_block.block.previous.as_slice())
    }

    /// The unsigned block.
    pub fn get_block(&self) -> (r: &Block)
        ensures
            *r == self.signed_block.block,
    {
        &self.signed_block.block
    }

    /// Points the block at a new predecessor. The stored digest is left as it
    /// is, so the block is stale until `compute_hash` runs again.
    pub fn set_previous_block(&mut self, block_hash: &HashDigest)
        ensures
            final(self).signed_block.block.previous@ == block_hash@,
            final(self).signed_block.block.timestamp == old(self).signed_block.block.timestamp,
            final(self).signed_block.block.transactions == old(self).signed_block.block.transactions,
            final(self).signed_block.signature == old(self).signed_block.signature,
            final(self).hash == old(self).hash,
    {
        self.signed_block.block.previous = block_hash.to_vec();
    }

    /// Checks that the stored digest and the predecessor are well-formed and
    /// that the stored digest is that of the current content.
    pub fn verify_hash(&self) -> (r: Result<(), BlockError>)
        ensures
            r is Ok <==> self.hash_consistent(),
            self.digest_failure(r),
    {
        let stored = match HashDigest::from_bytes(self.hash.as_slice()) {
            Ok(d) => d,
            Err(e) => {
                return Err(e);
            },
        };
        match HashDigest::from_bytes(self.signed_block.block.previous.as_slice()) {
            Ok(_) => {},
            Err(e) => {
                return Err(e);
            },
        }
        let bytes = encode_signed_block(&self.signed_block);
        let computed = hash(bytes.as_slice());
        if stored.equals(&computed) {
            Ok(())
        } else {
            Err(BlockError::HashMismatch { stored: stored.to_vec(), computed: computed.to_vec() })
        }
    }

    /// Full check: the digest, then the block signature, then the signatures
    /// of each transaction; the first failure is returned.
    pub fn verify(&self) -> (r: Result<(), BlockError>)
        ensures
            r is Ok <==> self.is_valid(),
            self.digest_failure(r),
            self.hash_consistent() && !self.is_valid() ==> r == (Err::<(), BlockError>(
                BlockError::InvalidSignature,
            )),
    {
        match self.verify_hash() {
            Ok(()) => {},
            Err(e) => {
                return Err(e);
            },
        }
        match self.signed_block.verify_signature() {
            Ok(()) => {},
            Err(e) => {
                return Err(e);
            },
        }
        let txs = &self.signed_block.block.transactions;
        let mut i: usize = 0;
        while i < txs.len()
            invariant
                txs == self.signed_block.block.transactions,
                self.hash_consistent(),
                0 <= i <= txs@.len(),
                forall|k: int| 0 <= k < i ==> (#[trigger] txs@[k]).signatures_valid(),
            decreases txs@.len() - i,
        {
            match txs[i].verify_signatures() {
                Ok(()) => {},
                Err(e) => {
                    return Err(e);
                },
            }
            i = i + 1;
        }
        Ok(())
    }
}

impl BlockPatch {
    /// A patch with no predecessor bytes.
    pub fn new() -> (r: BlockPatch)
        ensures
            r.previous@.len() == 0,
    {
        BlockPatch { previous: Vec::new() }
    }

    /// Decodes the carried predecessor pointer.
    pub fn decode_previous(&self) -> (r: Result<HashDigest, BlockError>)
        ensures
            r is Ok <==> self.previous@.len() == DIGEST_LEN,
            r matches Ok(d) ==> d@ == self.previous@,
            r matches Err(e) ==> e == (BlockError::MalformedDigest { len: self.previous@.len() as usize }),
    {
        HashDigest::from_bytes(self.previous.as_slice())
    }

    /// Stores `previous` as the carried predecessor pointer.
    pub fn encode_previous(&mut self, previous: &HashDigest)
        ensures
            final(self).previous@ == previous@,
            final(self).previous@.len() == DIGEST_LEN,
    {
        self.previous = previous.to_vec();
    }
}

} // verus!
