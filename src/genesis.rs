use vstd::prelude::*;
use crate::block::{Block, HashedBlock, SignedBlock, zero_digest};
use crate::crypto::{ed25519_accepts, ed25519_signature_of, gen_keypair, HashDigest, PublicKey};
use crate::error::BlockError;
use crate::tx::{commit_bytes, op_indices_increasing, Transaction, TransactionBuilder};

verus! {

/// Relies on time::now_utc and Tm::to_timespec: the current time in whole
/// seconds since the Unix epoch; nothing is known of its value.
#[verifier::external_body]
fn now_seconds() -> (r: i64) {
    time::now_utc().to_timespec().sec
}

/// Whether a transaction may seed a chain: no bounty and no bounty recipient.
pub open spec fn bounty_free(tx: Transaction) -> bool {
    tx.commit.bounty == 0 && tx.commit.bounty_pk is None
}

/// Whether `h` is a first block holding exactly `tx`, with no predecessor, no
/// block signature, and a stored digest that matches its content.
pub open spec fn is_genesis_of(h: HashedBlock, tx: Transaction) -> bool {
    &&& h.signed_block.block.previous@ == zero_digest()
    &&& h.signed_block.block.transactions@ == seq![tx]
    &&& h.signed_block.signature@.len() == 0
    &&& h.hash_consistent()
}

/// Builds the first block of a chain from its one transaction, stamped with
/// `timestamp`. Fails when the transaction declares a bounty or a bounty
/// recipient, then when its signatures do not verify.
pub fn create_genesis_block_at(tx: Transaction, timestamp: i64) -> (r: Result<HashedBlock, BlockError>)
    ensures
        r is Ok <==> bounty_free(tx) && tx.signatures_valid(),
        !bounty_free(tx) ==> r == (Err::<HashedBlock, BlockError>(BlockError::GenesisBounty)),
        bounty_free(tx) && !tx.signatures_valid() ==> r == (Err::<HashedBlock, BlockError>(
            BlockError::InvalidSignature,
        )),
        r matches Ok(h) ==> is_genesis_of(h, tx) && h.signed_block.block.timestamp == timestamp
            && h.is_valid(),
{
    if tx.commit.bounty != 0 || tx.commit.bounty_pk.is_some() {
        return Err(BlockError::GenesisBounty);
    }
    match tx.verify_signatures() {
        Ok(()) => {},
        Err(e) => {
            return Err(e);
        },
    }
    let ghost seed = tx;
    let mut transactions: Vec<Transaction> = Vec::new();
    transactions.push(tx);
    let mut genesis = HashedBlock {
        signed_block: SignedBlock {
            block: Block { previous: Vec::new(), timestamp, transactions },
            signature: Vec::new(),
        },
        hash: Vec::new(),
    };
    genesis.set_previous_block(&HashDigest::zero());
    genesis.compute_hash();
    assert(genesis.signed_block.block.transactions@ =~= seq![seed]);
    Ok(genesis)
}

/// Builds the first block of a chain from its one transaction, stamped with
/// the current time; see `create_genesis_block_at`.
pub fn create_genesis_block(tx: Transaction) -> (r: Result<HashedBlock, BlockError>)
    ensures
        r is Ok <==> bounty_free(tx) && tx.signatures_valid(),
        !bounty_free(tx) ==> r == (Err::<HashedBlock, BlockError>(BlockError::GenesisBounty)),
        bounty_free(tx) && !tx.signatures_valid() ==> r == (Err::<HashedBlock, BlockError>(
            BlockError::InvalidSignature,
        )),
        r matches Ok(h) ==> is_genesis_of(h, tx) && h.is_valid(),
{
    create_genesis_block_at(tx, now_seconds())
}

/// The initial allocations of a chain, turned into its first block by
/// `build`.
pub struct GenesisBuilder {
    transfers: Vec<(PublicKey, u64)>,
}

impl GenesisBuilder {
    /// The allocations added so far, in order: destination key and tokens.
    pub closed spec fn allocations(self) -> Seq<(PublicKey, u64)> {
        self.transfers@
    }

    pub fn new() -> (r: GenesisBuilder)
        ensures
            r.allocations().len() == 0,
    {
        GenesisBuilder { transfers: Vec::new() }
    }

    /// Adds an allocation of `tokens` to `destination`.
    pub fn add_transfer(&mut self, destination: PublicKey, tokens: u64)
        ensures
            final(self).allocations() == old(self).allocations().push((destination, tokens)),
    {
        self.transfers.push((destination, tokens));
    }

    /// Mints the allocations with a fresh single-use key: one transfer per
    /// allocation, in order, with operation indices 0, 1, ..., all from that
    /// key and signed by it, in the one transaction of a new first block.
    pub fn build(self) -> (r: HashedBlock)
        requires
            self.allocations().len() <= u32::MAX + 1,
        ensures
            r.signed_block.block.previous@ == zero_digest(),
            r.signed_block.block.transactions@.len() == 1,
            r.is_valid(),
            ({
                let tx = r.signed_block.block.transactions@[0];
                let ts = tx.commit.transfers@;
                &&& bounty_free(tx)
                &&& ts.len() == self.allocations().len()
                &&& forall|i: int|
                    0 <= i < ts.len() ==> {
                        &&& (#[trigger] ts[i]).op_index == i
                        &&& ts[i].destination_pk@ == self.allocations()[i].0@
                        &&& ts[i].tokens == self.allocations()[i].1
                        &&& ts[i].source_pk@ == ts[0].source_pk@
                    }
                &&& tx.signatures_valid()
            }),
    {
        let (public_key, secret_key) = gen_keypair();
        let mut tx_builder = TransactionBuilder::new();
        let n = self.transfers.len();
        let mut op_num: usize = 0;
        while op_num < n
            invariant
                n == self.transfers@.len(),
                n <= u32::MAX + 1,
                0 <= op_num <= n,
                tx_builder.wf(),
                tx_builder.transfers().len() == op_num,
                forall|i: int|
                    0 <= i < op_num ==> {
                        &&& (#[trigger] tx_builder.transfers()[i]).op_index == i
                        &&& tx_builder.transfers()[i].destination_pk@ == self.transfers@[i].0@
                        &&& tx_builder.transfers()[i].tokens == self.transfers@[i].1
                        &&& tx_builder.transfers()[i].source_pk@ == public_key@
                        &&& tx_builder.key_at(i) == secret_key@
                    },
            decreases n - op_num,
        {
            let (destination, tokens) = &self.transfers[op_num];
            let ghost before = tx_builder;
            tx_builder.add_transfer(&secret_key, &public_key, destination, *tokens, op_num as u32);
            assert forall|i: int| 0 <= i < op_num implies {
                &&& (#[trigger] tx_builder.transfers()[i]).op_index == i
                &&& tx_builder.transfers()[i].destination_pk@ == self.transfers@[i].0@
                &&& tx_builder.transfers()[i].tokens == self.transfers@[i].1
                &&& tx_builder.transfers()[i].source_pk@ == public_key@
                &&& tx_builder.key_at(i) == secret_key@
            } by {
                assert(tx_builder.transfers()[i] == before.transfers()[i]);
            }
            op_num = op_num + 1;
        }
        let ghost added = tx_builder.transfers();
        assert(op_indices_increasing(added));
        let genesis_tx = tx_builder.build().unwrap();
        proof {
            let m = commit_bytes(genesis_tx.commit);
            assert(ed25519_accepts(public_key@, m, ed25519_signature_of(secret_key@, m)));
            assert forall|j: int| 0 <= j < genesis_tx.commit.transfers@.len() implies genesis_tx.signed_by(
                (#[trigger] genesis_tx.commit.transfers@[j]).source_pk@,
            ) by {
                assert(genesis_tx.signatures@[j].public_key@ == public_key@);
            }
        }
        create_genesis_block(genesis_tx).unwrap()
    }
}

} // verus!
