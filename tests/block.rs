use simples_block::block::{encode_block, BlockPatch, HashedBlock, SignedBlock};
use simples_block::crypto::{gen_keypair, hash, HashDigest, PublicKey};
use simples_block::error::BlockError;
use simples_block::genesis::{create_genesis_block, create_genesis_block_at, GenesisBuilder};
use simples_block::tx::{encode_commit, Transaction, TransactionBuilder};

#[test]
fn test_create_genesis_empty() {
    let tx = Transaction::new();
    let maybe_genesis = create_genesis_block(tx);
    assert!(maybe_genesis.is_ok());
}

#[test]
fn test_create_genesis_with_invalid_tx() {
    let (pk1, sk1) = gen_keypair();
    let (pk2, _sk2) = gen_keypair();

    let mut tx_builder = TransactionBuilder::new();
    tx_builder.add_transfer(&sk1, &pk1, &pk2, 10, 0);
    let maybe_tx = tx_builder.build();
    assert!(maybe_tx.is_ok());
    let mut tx = maybe_tx.unwrap();
    assert!(create_genesis_block(tx.clone()).is_ok());
    tx.clear_signatures();
    assert!(create_genesis_block(tx).is_err());
}

#[test]
fn test_hashed_block_get_block() {
    let mut hashed_block = HashedBlock::new();
    hashed_block.signed_block.block.previous = hash(b"test1").to_vec();
    assert!(hashed_block.signed_block.block == *hashed_block.get_block());
}

#[test]
fn test_hashed_block_hash_integrity() {
    let mut hashed_block = HashedBlock::new();
    hashed_block.signed_block.block.previous = hash(b"test123").to_vec();
    assert!(hashed_block.verify_hash().is_err());
    hashed_block.compute_hash();
    assert!(hashed_block.verify_hash().is_ok());

    hashed_block.signed_block.block.previous = hash(b"test123.").to_vec();
    assert!(hashed_block.verify_hash().is_err());
    hashed_block.compute_hash();
    assert!(hashed_block.verify_hash().is_ok());
}

#[test]
fn set_previous_then_recompute() {
    let mut hashed_block = HashedBlock::new();
    hashed_block.set_previous_block(&hash(b"test1"));
    assert!(hashed_block.verify_hash().is_err());
    let digest = hashed_block.compute_hash();
    assert_eq!(digest.to_vec(), hashed_block.hash);
    assert!(hashed_block.verify_hash().is_ok());
    hashed_block.set_previous_block(&hash(b"test2"));
    assert!(hashed_block.verify_hash().is_err());
    hashed_block.compute_hash();
    assert!(hashed_block.verify_hash().is_ok());
    assert_eq!(hashed_block.decode_previous().unwrap().to_vec(), hash(b"test2").to_vec());
}

#[test]
fn compute_then_verify_with_transactions() {
    let (pk1, sk1) = gen_keypair();
    let (pk2, _sk2) = gen_keypair();
    let mut tx_builder = TransactionBuilder::new();
    tx_builder.add_transfer(&sk1, &pk1, &pk2, 3, 0);
    tx_builder.add_transfer(&sk1, &pk1, &pk2, 4, 1);
    let tx = tx_builder.build().unwrap();
    let mut hashed_block = HashedBlock::new();
    hashed_block.signed_block.block.transactions.push(tx);
    hashed_block.signed_block.block.timestamp = 1_400_000_000;
    hashed_block.set_previous_block(&hash(b"parent"));
    hashed_block.signed_block.sign(&sk1);
    hashed_block.compute_hash();
    assert!(hashed_block.verify_hash().is_ok());
    assert!(hashed_block.verify().is_ok());
}

#[test]
fn altering_any_field_breaks_the_hash() {
    let (pk1, sk1) = gen_keypair();
    let (pk2, _sk2) = gen_keypair();
    let mut tx_builder = TransactionBuilder::new();
    tx_builder.add_transfer(&sk1, &pk1, &pk2, 10, 0);
    let tx = tx_builder.build().unwrap();
    let mut original = HashedBlock::new();
    original.signed_block.block.transactions.push(tx);
    original.set_previous_block(&hash(b"parent"));
    original.signed_block.sign(&sk1);
    original.compute_hash();
    assert!(original.verify_hash().is_ok());

    let mut h = original.clone();
    h.signed_block.block.timestamp += 1;
    assert!(h.verify_hash().is_err());

    let mut h = original.clone();
    h.signed_block.signature[0] ^= 1;
    assert!(h.verify_hash().is_err());

    let mut h = original.clone();
    h.signed_block.block.transactions[0].commit.transfers[0].tokens = 11;
    assert!(h.verify_hash().is_err());

    let mut h = original.clone();
    h.signed_block.block.previous[31] ^= 0x80;
    assert!(h.verify_hash().is_err());

    let mut h = original.clone();
    h.signed_block.block.transactions.clear();
    assert!(h.verify_hash().is_err());
}

#[test]
fn verify_hash_reports_malformed_stored_hash() {
    let mut hashed_block = HashedBlock::new();
    hashed_block.set_previous_block(&hash(b"x"));
    hashed_block.hash = vec![1, 2, 3];
    assert_eq!(hashed_block.verify_hash(), Err(BlockError::MalformedDigest { len: 3 }));
}

#[test]
fn verify_hash_reports_malformed_previous() {
    let mut hashed_block = HashedBlock::new();
    hashed_block.signed_block.block.previous = vec![0; 31];
    hashed_block.compute_hash();
    assert_eq!(hashed_block.verify_hash(), Err(BlockError::MalformedDigest { len: 31 }));
}

#[test]
fn verify_hash_reports_both_digests_on_mismatch() {
    let mut hashed_block = HashedBlock::new();
    hashed_block.set_previous_block(&hash(b"a"));
    let computed = hashed_block.compute_hash();
    let stored = hash(b"not the content").to_vec();
    hashed_block.hash = stored.clone();
    assert_eq!(
        hashed_block.verify_hash(),
        Err(BlockError::HashMismatch { stored, computed: computed.to_vec() })
    );
}

#[test]
fn verify_rejects_transaction_without_signatures() {
    let (pk1, sk1) = gen_keypair();
    let (pk2, _sk2) = gen_keypair();
    let mut tx_builder = TransactionBuilder::new();
    tx_builder.add_transfer(&sk1, &pk1, &pk2, 10, 0);
    let mut tx = tx_builder.build().unwrap();
    tx.clear_signatures();
    let mut hashed_block = HashedBlock::new();
    hashed_block.signed_block.block.transactions.push(tx);
    hashed_block.set_previous_block(&HashDigest::zero());
    hashed_block.compute_hash();
    assert!(hashed_block.verify_hash().is_ok());
    assert_eq!(hashed_block.verify(), Err(BlockError::InvalidSignature));
}

#[test]
fn verify_checks_hash_first() {
    let hashed_block = HashedBlock::new();
    assert_eq!(hashed_block.verify(), Err(BlockError::MalformedDigest { len: 0 }));
}

#[test]
fn digest_decode_lengths() {
    assert_eq!(HashDigest::from_bytes(&[]).unwrap_err(), BlockError::MalformedDigest { len: 0 });
    assert_eq!(HashDigest::from_bytes(&[7; 31]).unwrap_err(), BlockError::MalformedDigest { len: 31 });
    assert_eq!(HashDigest::from_bytes(&[7; 33]).unwrap_err(), BlockError::MalformedDigest { len: 33 });
    let bytes: Vec<u8> = (0..32).collect();
    let d = HashDigest::from_bytes(&bytes).unwrap();
    assert_eq!(d.to_vec(), bytes);
}

#[test]
fn decode_hash_and_previous() {
    let mut hashed_block = HashedBlock::new();
    assert!(hashed_block.decode_hash().is_err());
    assert!(hashed_block.decode_previous().is_err());
    hashed_block.set_previous_block(&hash(b"p"));
    let d = hashed_block.compute_hash();
    assert!(hashed_block.decode_hash().unwrap().equals(&d));
    assert!(hashed_block.decode_previous().unwrap().equals(&hash(b"p")));
}

#[test]
fn block_patch_round_trip() {
    let mut patch = BlockPatch { previous: vec![1, 2] };
    assert_eq!(patch.decode_previous().unwrap_err(), BlockError::MalformedDigest { len: 2 });
    let d = hash(b"parent");
    patch.encode_previous(&d);
    assert_eq!(patch.previous, d.to_vec());
    assert!(patch.decode_previous().unwrap().equals(&d));
}

#[test]
fn sha256_known_value() {
    let d = hash(b"abc");
    let expected: Vec<u8> = vec![
        0xba, 0x78, 0x16, 0xbf, 0x8f, 0x01, 0xcf, 0xea, 0x41, 0x41, 0x40, 0xde, 0x5d, 0xae, 0x22,
        0x23, 0xb0, 0x03, 0x61, 0xa3, 0x96, 0x17, 0x7a, 0x9c, 0xb4, 0x10, 0xff, 0x61, 0xf2, 0x00,
        0x15, 0xad,
    ];
    assert_eq!(d.to_vec(), expected);
}

#[test]
fn zero_digest_is_all_zero() {
    assert_eq!(HashDigest::zero().to_vec(), vec![0u8; 32]);
}

#[test]
fn digest_equality_is_byte_exact() {
    assert!(hash(b"a").equals(&hash(b"a")));
    assert!(!hash(b"a").equals(&hash(b"b")));
}

#[test]
fn empty_commit_encoding() {
    let tx = Transaction::new();
    let mut expected = vec![0u8; 16];
    expected.push(0);
    assert_eq!(encode_commit(&tx.commit), expected);
}

#[test]
fn commit_encoding_is_big_endian_and_length_prefixed() {
    let mut tx = Transaction::new();
    tx.commit.bounty = 0x0102030405060708;
    tx.commit.bounty_pk = Some(vec![9, 9]);
    let mut expected = vec![0u8; 8];
    expected.extend_from_slice(&[1, 2, 3, 4, 5, 6, 7, 8]);
    expected.push(1);
    expected.extend_from_slice(&[0, 0, 0, 0, 0, 0, 0, 2, 9, 9]);
    assert_eq!(encode_commit(&tx.commit), expected);
}

#[test]
fn empty_block_encoding() {
    let hashed_block = HashedBlock::new();
    assert_eq!(encode_block(hashed_block.get_block()), vec![0u8; 24]);
}

#[test]
fn sign_sets_a_verifying_signature() {
    let (_pk, sk) = gen_keypair();
    let mut signed = SignedBlock::new();
    assert!(signed.signature.is_empty());
    signed.sign(&sk);
    assert_eq!(signed.signature.len(), 64);
    let first = signed.signature.clone();
    signed.sign(&sk);
    assert_eq!(signed.signature, first);
    assert!(signed.verify_signature().is_ok());
}

#[test]
fn genesis_rejects_bounty() {
    let mut tx = Transaction::new();
    tx.commit.bounty = 5;
    assert_eq!(create_genesis_block(tx).unwrap_err(), BlockError::GenesisBounty);
}

#[test]
fn genesis_rejects_bounty_recipient() {
    let (pk, _sk) = gen_keypair();
    let mut tx = Transaction::new();
    tx.commit.bounty_pk = Some(pk.bytes);
    assert_eq!(create_genesis_block(tx).unwrap_err(), BlockError::GenesisBounty);
}

#[test]
fn genesis_bounty_checked_before_signatures() {
    let (pk1, sk1) = gen_keypair();
    let (pk2, _sk2) = gen_keypair();
    let mut tx_builder = TransactionBuilder::new();
    tx_builder.add_transfer(&sk1, &pk1, &pk2, 10, 0);
    let mut tx = tx_builder.build().unwrap();
    tx.clear_signatures();
    tx.commit.bounty = 1;
    assert_eq!(create_genesis_block(tx).unwrap_err(), BlockError::GenesisBounty);
}

#[test]
fn genesis_unsigned_transfer_is_invalid_signature() {
    let (pk1, sk1) = gen_keypair();
    let (pk2, _sk2) = gen_keypair();
    let mut tx_builder = TransactionBuilder::new();
    tx_builder.add_transfer(&sk1, &pk1, &pk2, 10, 0);
    let mut tx = tx_builder.build().unwrap();
    tx.clear_signatures();
    assert_eq!(create_genesis_block(tx).unwrap_err(), BlockError::InvalidSignature);
}

#[test]
fn genesis_block_shape() {
    let tx = Transaction::new();
    let genesis = create_genesis_block_at(tx.clone(), 1_234_567).unwrap();
    let block = genesis.get_block();
    assert_eq!(block.previous, vec![0u8; 32]);
    assert_eq!(block.timestamp, 1_234_567);
    assert_eq!(block.transactions, vec![tx]);
    assert!(genesis.signed_block.signature.is_empty());
    assert!(genesis.verify().is_ok());
}

#[test]
fn signature_by_wrong_key_is_rejected() {
    let (pk1, _sk1) = gen_keypair();
    let (pk2, sk2) = gen_keypair();
    let mut tx_builder = TransactionBuilder::new();
    tx_builder.add_transfer(&sk2, &pk1, &pk2, 10, 0);
    let tx = tx_builder.build().unwrap();
    assert_eq!(tx.verify_signatures(), Err(BlockError::InvalidSignature));
}

#[test]
fn builder_rejects_unordered_operations() {
    let (pk1, sk1) = gen_keypair();
    let (pk2, _sk2) = gen_keypair();
    let mut tx_builder = TransactionBuilder::new();
    tx_builder.add_transfer(&sk1, &pk1, &pk2, 1, 1);
    tx_builder.add_transfer(&sk1, &pk1, &pk2, 1, 1);
    assert_eq!(tx_builder.build().unwrap_err(), BlockError::OperationOrder);
}

#[test]
fn genesis_builder_mints_in_order() {
    let (a, _) = gen_keypair();
    let (b, _) = gen_keypair();
    let (c, _) = gen_keypair();
    let mut builder = GenesisBuilder::new();
    builder.add_transfer(a.clone(), 100);
    builder.add_transfer(b.clone(), 200);
    builder.add_transfer(c.clone(), 300);
    let genesis = builder.build();
    assert!(genesis.verify().is_ok());
    assert_eq!(genesis.decode_previous().unwrap().to_vec(), vec![0u8; 32]);
    let txs = &genesis.get_block().transactions;
    assert_eq!(txs.len(), 1);
    let transfers = &txs[0].commit.transfers;
    assert_eq!(transfers.len(), 3);
    let expected: Vec<(PublicKey, u64)> = vec![(a, 100), (b, 200), (c, 300)];
    for (i, t) in transfers.iter().enumerate() {
        assert_eq!(t.op_index as usize, i);
        assert_eq!(t.destination_pk, expected[i].0.bytes);
        assert_eq!(t.tokens, expected[i].1);
        assert_eq!(t.source_pk, transfers[0].source_pk);
    }
    assert_eq!(txs[0].commit.bounty, 0);
    assert!(txs[0].commit.bounty_pk.is_none());
    assert!(txs[0].verify_signatures().is_ok());
}

#[test]
fn genesis_builder_with_no_transfers() {
    let genesis = GenesisBuilder::new().build();
    assert!(genesis.verify().is_ok());
    assert!(genesis.get_block().transactions[0].commit.transfers.is_empty());
}

#[test]
fn genesis_builders_use_distinct_minting_keys() {
    let (a, _) = gen_keypair();
    let mut first = GenesisBuilder::new();
    first.add_transfer(a.clone(), 1);
    let mut second = GenesisBuilder::new();
    second.add_transfer(a, 1);
    let g1 = first.build();
    let g2 = second.build();
    assert_ne!(
        g1.get_block().transactions[0].commit.transfers[0].source_pk,
        g2.get_block().transactions[0].commit.transfers[0].source_pk
    );
}
