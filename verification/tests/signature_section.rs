use std::collections::BTreeMap;

use tx_signature::construct_signature_section;
use tx_signature::key::{PublicKey, Signature};
use tx_signature::tx::{
    CompressedAuthorization, ExpandError, Section, SectionHash, Signer, Transaction,
};
use tx_signature::SignatureMsg;

/// A canonical Ed25519 public-key encoding: tag 0 plus 32 payload bytes.
fn ed25519_pubkey_bytes() -> Vec<u8> {
    let mut v = vec![7u8; 33];
    v[0] = 0;
    v
}

/// A canonical Secp256k1 public-key encoding: tag 1 plus 33 payload bytes.
fn secp256k1_pubkey_bytes() -> Vec<u8> {
    let mut v = vec![9u8; 34];
    v[0] = 1;
    v
}

/// A canonical Ed25519 signature encoding: tag 0 plus 64 payload bytes.
fn ed25519_signature_bytes() -> Vec<u8> {
    let mut v = vec![5u8; 65];
    v[0] = 0;
    v
}

/// A canonical Secp256k1 signature encoding: tag 1 plus 65 payload bytes.
fn secp256k1_signature_bytes() -> Vec<u8> {
    let mut v = vec![6u8; 66];
    v[0] = 1;
    v
}

fn three_section_tx() -> (Transaction, Vec<Vec<u8>>) {
    let h0 = vec![0xa0u8; 32];
    let h1 = vec![0xa1u8; 32];
    let h2 = vec![0xa2u8; 32];
    let tx = Transaction::new(vec![
        SectionHash(h0.clone()),
        SectionHash(h1.clone()),
        SectionHash(h2.clone()),
    ]);
    (tx, vec![h0, h1, h2])
}

#[test]
fn scenario_two_targets_resolved() {
    let (tx, hashes) = three_section_tx();
    let pubkey = ed25519_pubkey_bytes();
    let signature = ed25519_signature_bytes();

    let r = construct_signature_section(&pubkey, &[0, 2], &signature, &tx);
    let section = r.expect("expansion must succeed");
    match section {
        Section::Authorization(a) => {
            assert_eq!(
                a.targets,
                vec![SectionHash(hashes[0].clone()), SectionHash(hashes[2].clone())]
            );
            let expected_signer = Signer::PubKeys(vec![
                PublicKey::try_from_slice(&pubkey).expect("valid key"),
            ]);
            assert_eq!(a.signer, expected_signer);
            let expected_sigs = BTreeMap::from([(
                0u8,
                Signature::try_from_slice(&signature).expect("valid signature"),
            )]);
            assert_eq!(a.signatures, expected_sigs);
        }
        other => panic!("expected an authorization section, got {:?}", other),
    }
}

#[test]
fn scenario_out_of_range_index() {
    let (tx, _) = three_section_tx();
    let pubkey = ed25519_pubkey_bytes();
    let signature = ed25519_signature_bytes();

    let r = construct_signature_section(&pubkey, &[5], &signature, &tx);
    assert_eq!(r, Err(ExpandError::IndexOutOfRange));
}

#[test]
fn index_fidelity_each_single_index() {
    let (tx, hashes) = three_section_tx();
    let pubkey = secp256k1_pubkey_bytes();
    let signature = secp256k1_signature_bytes();

    for i in 0..3u8 {
        let r = construct_signature_section(&pubkey, &[i], &signature, &tx);
        match r.expect("in-range index must resolve") {
            Section::Authorization(a) => {
                assert_eq!(a.targets, vec![SectionHash(hashes[i as usize].clone())]);
            }
            other => panic!("expected an authorization section, got {:?}", other),
        }
    }
}

#[test]
fn bounds_first_index_past_end_fails() {
    let (tx, _) = three_section_tx();
    let pubkey = ed25519_pubkey_bytes();
    let signature = ed25519_signature_bytes();

    // 3 is the first index past the end of a three-section transaction.
    let r = construct_signature_section(&pubkey, &[1, 3], &signature, &tx);
    assert_eq!(r, Err(ExpandError::IndexOutOfRange));
    let r = construct_signature_section(&pubkey, &[255], &signature, &tx);
    assert_eq!(r, Err(ExpandError::IndexOutOfRange));
}

#[test]
fn determinism_identical_inputs_identical_sections() {
    let (tx, _) = three_section_tx();
    let pubkey = ed25519_pubkey_bytes();
    let signature = ed25519_signature_bytes();

    let r1 = construct_signature_section(&pubkey, &[0, 1, 2, 1], &signature, &tx);
    let r2 = construct_signature_section(&pubkey, &[0, 1, 2, 1], &signature, &tx);
    assert_eq!(r1, r2);
    assert!(r1.is_ok());
}

#[test]
fn duplicate_indices_preserved_in_order() {
    let (tx, hashes) = three_section_tx();
    let pubkey = ed25519_pubkey_bytes();
    let signature = ed25519_signature_bytes();

    let r = construct_signature_section(&pubkey, &[1, 1, 0], &signature, &tx);
    match r.expect("duplicates are permitted") {
        Section::Authorization(a) => {
            assert_eq!(
                a.targets,
                vec![
                    SectionHash(hashes[1].clone()),
                    SectionHash(hashes[1].clone()),
                    SectionHash(hashes[0].clone()),
                ]
            );
        }
        other => panic!("expected an authorization section, got {:?}", other),
    }
}

#[test]
fn empty_indices_give_empty_targets() {
    let (tx, _) = three_section_tx();
    let pubkey = ed25519_pubkey_bytes();
    let signature = ed25519_signature_bytes();

    let r = construct_signature_section(&pubkey, &[], &signature, &tx);
    match r.expect("nothing to resolve, nothing to fail") {
        Section::Authorization(a) => assert_eq!(a.targets, Vec::new()),
        other => panic!("expected an authorization section, got {:?}", other),
    }
}

#[test]
fn malformed_pubkey_rejected() {
    let (tx, _) = three_section_tx();
    let signature = ed25519_signature_bytes();

    // Too short, too long, truncated payload, unknown tag, empty.
    for bad in [
        vec![0u8; 32],
        vec![0u8; 40],
        vec![1u8; 33],
        {
            let mut v = vec![0u8; 33];
            v[0] = 2;
            v
        },
        Vec::new(),
    ] {
        let r = construct_signature_section(&bad, &[0], &signature, &tx);
        assert_eq!(r, Err(ExpandError::Deserialization));
    }
}

#[test]
fn malformed_signature_rejected() {
    let (tx, _) = three_section_tx();
    let pubkey = ed25519_pubkey_bytes();

    for bad in [
        vec![0u8; 64],
        vec![0u8; 70],
        vec![1u8; 65],
        {
            let mut v = vec![0u8; 65];
            v[0] = 3;
            v
        },
        Vec::new(),
    ] {
        let r = construct_signature_section(&pubkey, &[0], &bad, &tx);
        assert_eq!(r, Err(ExpandError::Deserialization));
    }
}

#[test]
fn malformed_key_wins_over_bad_index() {
    // Deserialization is checked before any transaction lookup, so a
    // malformed key is reported even when an index is also out of range.
    let (tx, _) = three_section_tx();
    let signature = ed25519_signature_bytes();

    let r = construct_signature_section(&[1, 2, 3], &[200], &signature, &tx);
    assert_eq!(r, Err(ExpandError::Deserialization));
}

#[test]
fn expand_round_trip_preserves_signer_and_signatures() {
    let (tx, hashes) = three_section_tx();
    let pk = PublicKey::try_from_slice(&secp256k1_pubkey_bytes()).expect("valid key");
    let sig = Signature::try_from_slice(&secp256k1_signature_bytes()).expect("valid signature");
    let signer = Signer::PubKeys(vec![pk]);
    let signatures = BTreeMap::from([(0u8, sig)]);

    let compressed = CompressedAuthorization {
        targets: vec![2, 0],
        signer: signer.clone(),
        signatures: signatures.clone(),
    };
    let a = compressed.expand(&tx).expect("in-range indices must resolve");
    assert_eq!(a.signer, signer);
    assert_eq!(a.signatures, signatures);
    assert_eq!(
        a.targets,
        vec![SectionHash(hashes[2].clone()), SectionHash(hashes[0].clone())]
    );
}

#[test]
fn expand_fails_without_partial_result() {
    let (tx, _) = three_section_tx();
    let pk = PublicKey::try_from_slice(&ed25519_pubkey_bytes()).expect("valid key");
    let sig = Signature::try_from_slice(&ed25519_signature_bytes()).expect("valid signature");

    let compressed = CompressedAuthorization {
        // The first two indices resolve; the third does not.
        targets: vec![0, 1, 3],
        signer: Signer::PubKeys(vec![pk]),
        signatures: BTreeMap::from([(0u8, sig)]),
    };
    assert_eq!(compressed.expand(&tx), Err(ExpandError::IndexOutOfRange));
}

#[test]
fn pubkey_parse_and_serialize_round_trip() {
    for bytes in [ed25519_pubkey_bytes(), secp256k1_pubkey_bytes()] {
        let pk = PublicKey::try_from_slice(&bytes).expect("valid key");
        assert_eq!(pk.try_to_vec(), bytes);
    }
}

#[test]
fn signature_parse_and_serialize_round_trip() {
    for bytes in [ed25519_signature_bytes(), secp256k1_signature_bytes()] {
        let sig = Signature::try_from_slice(&bytes).expect("valid signature");
        assert_eq!(sig.try_to_vec(), bytes);
    }
}

#[test]
fn transaction_lookup_and_count() {
    let (tx, hashes) = three_section_tx();
    assert_eq!(tx.section_count(), 3);
    assert_eq!(tx.section_hash(1), Some(&SectionHash(hashes[1].clone())));
    assert_eq!(tx.section_hash(3), None);
    assert_eq!(tx.section_hash(255), None);

    let empty = Transaction::new(Vec::new());
    assert_eq!(empty.section_count(), 0);
    assert_eq!(empty.section_hash(0), None);
}

#[test]
fn signature_msg_carries_both_layers() {
    let msg = SignatureMsg {
        pubkey: ed25519_pubkey_bytes(),
        raw_indices: vec![0, 2],
        raw_signature: ed25519_signature_bytes(),
        wrapper_indices: vec![1],
        wrapper_signature: secp256k1_signature_bytes(),
    };
    let (tx, _) = three_section_tx();
    let raw = construct_signature_section(&msg.pubkey, &msg.raw_indices, &msg.raw_signature, &tx);
    let wrapper = construct_signature_section(
        &msg.pubkey,
        &msg.wrapper_indices,
        &msg.wrapper_signature,
        &tx,
    );
    assert!(raw.is_ok());
    assert!(wrapper.is_ok());
}
