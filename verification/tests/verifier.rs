use bridge_core::types::{ChainType, CrossChainMessage, MessageType};
use bridge_core::verify::{sign_and_verify, MessageVerifier, VerifierConfig, MAX_MESSAGE_AGE};
use bridge_core::Error;

fn message(nonce: u64, public_key: [u8; 32], payload: Vec<u8>) -> CrossChainMessage {
    CrossChainMessage::new(
        ChainType::Sui,
        ChainType::Rooch,
        MessageType::AssetTransfer,
        nonce,
        public_key,
        payload,
    )
}

#[test]
fn test_message_signing_and_verification() {
    let mut verifier = MessageVerifier::new();
    let message = CrossChainMessage::new(
        ChainType::Sui,
        ChainType::Rooch,
        MessageType::AssetTransfer,
        1,
        verifier.public_key(),
        vec![1, 2, 3],
    );

    let signed_message = verifier.sign_message(message).unwrap();
    assert!(verifier.verify_message(&signed_message).unwrap());
}

#[test]
fn test_invalid_signature() {
    let verifier1 = MessageVerifier::new();
    let mut verifier2 = MessageVerifier::new();

    let message = CrossChainMessage::new(
        ChainType::Sui,
        ChainType::Rooch,
        MessageType::AssetTransfer,
        1,
        verifier1.public_key(),
        vec![1, 2, 3],
    );
    let signed_message = verifier1.sign_message(message).unwrap();

    assert!(!verifier2.verify_message(&signed_message).unwrap());
}

#[test]
fn test_batch_operations() {
    let mut verifier = MessageVerifier::new();
    let messages: Vec<_> = (1..=3)
        .map(|i| {
            CrossChainMessage::new(
                ChainType::Sui,
                ChainType::Rooch,
                MessageType::AssetTransfer,
                i as u64,
                verifier.public_key(),
                vec![i as u8],
            )
        })
        .collect();

    let signed_messages: Vec<_> = verifier
        .sign_messages(messages)
        .into_iter()
        .filter_map(Result::ok)
        .collect();

    let verification_results = verifier.verify_messages(signed_messages);
    assert!(verification_results
        .iter()
        .all(|r| r.as_ref().unwrap_or(&false) == &true));
}

#[test]
fn test_verifier_config() {
    let mut config = VerifierConfig::default();
    config.allowed_source_chains = vec![ChainType::Sui];
    config.allowed_target_chains = vec![ChainType::Rooch];

    let verifier = MessageVerifier::from_keypair(&[1u8; 32], Some(config.clone())).unwrap();

    let valid_message = CrossChainMessage::new(
        ChainType::Sui,
        ChainType::Rooch,
        MessageType::AssetTransfer,
        1,
        verifier.public_key(),
        vec![1, 2, 3],
    );
    assert!(verifier.sign_message(valid_message).is_ok());

    let invalid_message = CrossChainMessage::new(
        ChainType::Rooch,
        ChainType::Sui,
        MessageType::AssetTransfer,
        2,
        verifier.public_key(),
        vec![1, 2, 3],
    );
    assert!(verifier.sign_message(invalid_message).is_err());
}

#[test]
fn test_nonce_validation() {
    let mut verifier = MessageVerifier::new();

    for i in 1..=5 {
        let message = CrossChainMessage::new(
            ChainType::Sui,
            ChainType::Rooch,
            MessageType::AssetTransfer,
            i,
            verifier.public_key(),
            vec![1, 2, 3],
        );
        let signed = verifier.sign_message(message).unwrap();
        assert!(verifier.verify_message(&signed).unwrap());
    }

    let message = CrossChainMessage::new(
        ChainType::Sui,
        ChainType::Rooch,
        MessageType::AssetTransfer,
        3,
        verifier.public_key(),
        vec![1, 2, 3],
    );
    assert!(verifier.sign_message(message).is_err());
}

#[test]
fn sign_rejects_nonce_zero() {
    let verifier = MessageVerifier::from_keypair(&[1u8; 32], None).unwrap();
    let msg = message(0, verifier.public_key(), vec![1]);
    assert!(matches!(verifier.sign_message(msg), Err(Error::Validation)));
}

#[test]
fn from_keypair_rejects_bad_key_length() {
    assert!(matches!(
        MessageVerifier::from_keypair(&[1u8; 31], None),
        Err(Error::Validation)
    ));
    assert!(matches!(
        MessageVerifier::from_keypair(&[], None),
        Err(Error::Validation)
    ));
}

#[test]
fn public_key_is_derived_not_copied() {
    let verifier = MessageVerifier::from_keypair(&[1u8; 32], None).unwrap();
    assert_ne!(verifier.public_key(), [1u8; 32]);
    let again = MessageVerifier::from_keypair(&[1u8; 32], None).unwrap();
    assert_eq!(verifier.public_key(), again.public_key());
}

#[test]
fn round_trip_advances_watermark() {
    let mut verifier = MessageVerifier::from_keypair(&[2u8; 32], None).unwrap();
    let msg = message(7, verifier.public_key(), vec![4, 5]);
    assert!(sign_and_verify(&mut verifier, msg, 1000));

    // The watermark now sits at 7: re-signing nonce 7 must fail.
    let stale = message(7, verifier.public_key(), vec![4, 5]);
    assert!(matches!(verifier.sign_message(stale), Err(Error::Validation)));
}

#[test]
fn expiry_boundary() {
    let mut verifier = MessageVerifier::from_keypair(&[7u8; 32], None).unwrap();
    let msg = message(1, verifier.public_key(), vec![9]);
    let signed = verifier.sign_message_at(msg, 1_000_000).unwrap();

    let expired = 1_000_000 + MAX_MESSAGE_AGE + 1;
    assert_eq!(verifier.verify_message_at(&signed, expired), Ok(false));

    let just_fresh = 1_000_000 + MAX_MESSAGE_AGE - 1;
    assert_eq!(verifier.verify_message_at(&signed, just_fresh), Ok(true));
}

#[test]
fn exactly_max_age_still_verifies() {
    let mut verifier = MessageVerifier::from_keypair(&[7u8; 32], None).unwrap();
    let msg = message(1, verifier.public_key(), vec![9]);
    let signed = verifier.sign_message_at(msg, 5000).unwrap();
    assert_eq!(
        verifier.verify_message_at(&signed, 5000 + MAX_MESSAGE_AGE),
        Ok(true)
    );
}

#[test]
fn future_timestamp_verifies_false() {
    let mut verifier = MessageVerifier::from_keypair(&[8u8; 32], None).unwrap();
    let msg = message(1, verifier.public_key(), vec![1]);
    let signed = verifier.sign_message_at(msg, 10_000).unwrap();
    assert_eq!(verifier.verify_message_at(&signed, 9_999), Ok(false));
}

#[test]
fn tampered_payload_never_verifies() {
    let mut verifier = MessageVerifier::from_keypair(&[9u8; 32], None).unwrap();
    let msg = message(1, verifier.public_key(), vec![10, 20, 30, 40]);
    let signed = verifier.sign_message_at(msg, 500).unwrap();

    for i in 0..signed.message.payload.len() {
        let mut tampered = signed.clone();
        tampered.message.payload[i] ^= 0xff;
        assert_eq!(verifier.verify_message_at(&tampered, 500), Ok(false));
    }

    assert_eq!(verifier.verify_message_at(&signed, 500), Ok(true));
}

#[test]
fn malformed_signature_is_a_validation_error() {
    let mut verifier = MessageVerifier::from_keypair(&[4u8; 32], None).unwrap();
    let msg = message(1, verifier.public_key(), vec![5, 6]);
    let signed = verifier.sign_message_at(msg, 300).unwrap();

    // Not 64 bytes: too short and too long.
    let mut short = signed.clone();
    short.signature.pop();
    assert_eq!(verifier.verify_message_at(&short, 300), Err(Error::Validation));
    let mut long = signed.clone();
    long.signature.push(0);
    assert_eq!(verifier.verify_message_at(&long, 300), Err(Error::Validation));

    // 64 bytes, but the scalar half is unreduced (top bits of the last byte
    // set).
    let mut unreduced = signed.clone();
    unreduced.signature[63] |= 0xe0;
    assert_eq!(
        verifier.verify_message_at(&unreduced, 300),
        Err(Error::Validation)
    );

    // The untouched signature still verifies.
    assert_eq!(verifier.verify_message_at(&signed, 300), Ok(true));
}

#[test]
fn from_keypair_defaults_allow_every_known_chain() {
    let verifier = MessageVerifier::from_keypair(&[6u8; 32], None).unwrap();
    let exported = verifier.export_config();
    assert_eq!(exported.max_message_age, MAX_MESSAGE_AGE);
    assert_eq!(
        exported.allowed_source_chains,
        vec![ChainType::Sui, ChainType::Rooch]
    );
    assert_eq!(
        exported.allowed_target_chains,
        vec![ChainType::Sui, ChainType::Rooch]
    );
}

#[test]
fn batch_verification_threads_the_watermark() {
    let mut verifier = MessageVerifier::from_keypair(&[5u8; 32], None).unwrap();
    let first = verifier
        .sign_message(message(1, verifier.public_key(), vec![1]))
        .unwrap();
    let second = verifier
        .sign_message(message(2, verifier.public_key(), vec![2]))
        .unwrap();

    // first, second, then first again: the replay must fail against the
    // watermark advanced by the elements before it.
    let results = verifier.verify_messages(vec![first.clone(), second, first]);
    assert_eq!(results[0], Ok(true));
    assert_eq!(results[1], Ok(true));
    assert_eq!(results[2], Err(Error::Validation));
}

#[test]
fn verify_rejects_reused_nonce_and_accepts_increasing() {
    let mut verifier = MessageVerifier::from_keypair(&[3u8; 32], None).unwrap();

    let first = verifier
        .sign_message_at(message(1, verifier.public_key(), vec![1]), 100)
        .unwrap();
    let second = verifier
        .sign_message_at(message(2, verifier.public_key(), vec![2]), 100)
        .unwrap();

    assert_eq!(verifier.verify_message_at(&first, 100), Ok(true));
    assert_eq!(verifier.verify_message_at(&second, 100), Ok(true));
    assert_eq!(
        verifier.verify_message_at(&first, 100),
        Err(Error::Validation)
    );
}

#[test]
fn export_and_update_config() {
    let mut verifier = MessageVerifier::new();
    let exported = verifier.export_config();
    assert_eq!(exported.max_message_age, MAX_MESSAGE_AGE);
    assert_eq!(
        exported.allowed_source_chains,
        vec![ChainType::Sui, ChainType::Rooch]
    );
    assert_eq!(
        exported.allowed_target_chains,
        vec![ChainType::Sui, ChainType::Rooch]
    );

    let mut narrowed = VerifierConfig::default();
    narrowed.max_message_age = 60;
    narrowed.allowed_source_chains = vec![ChainType::Rooch];
    verifier.update_config(narrowed);
    let exported = verifier.export_config();
    assert_eq!(exported.max_message_age, 60);
    assert_eq!(exported.allowed_source_chains, vec![ChainType::Rooch]);
}
