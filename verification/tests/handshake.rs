use iroh_willow::handshake::{
    encode_initial_message, initial_message, receive_initial_transmission, their_max_payload_size,
    AccessChallenge, ChallengeHash, HandshakeError, CHALLENGE_HASH_LENGTH, INITIAL_TRANSMISSION_LENGTH,
    MAX_PAYLOAD_SIZE_POWER,
};

fn nonce(b: u8) -> AccessChallenge {
    AccessChallenge::from_bytes([b; 32])
}

#[test]
fn challenge_hash_is_blake3_of_the_nonce() {
    let n = AccessChallenge::from_bytes([7u8; 32]);
    let h = n.hash();
    let expected = iroh_base::hash::Hash::new([7u8; 32]);
    assert_eq!(h.as_bytes(), expected.as_bytes());
    assert_ne!(h.as_bytes(), &n.to_bytes());
    // the digest of the empty input is the well-known blake3 constant
    assert_eq!(iroh_base::hash::Hash::new([]).as_bytes(), iroh_base::hash::Hash::EMPTY.as_bytes());
}

#[test]
fn initial_message_layout() {
    let h = ChallengeHash::from_bytes([0xab; 32]);
    let msg = encode_initial_message(&h);
    assert_eq!(msg.len(), INITIAL_TRANSMISSION_LENGTH);
    assert_eq!(msg[0], MAX_PAYLOAD_SIZE_POWER);
    assert_eq!(msg[0], 18);
    assert_eq!(&msg[1..], &[0xab; 32][..]);
    assert_eq!(msg.len(), 1 + CHALLENGE_HASH_LENGTH);
}

#[test]
fn initial_message_commits_to_the_hash_of_the_nonce() {
    let n = nonce(3);
    let msg = initial_message(&n);
    assert_eq!(msg[0], 18);
    assert_eq!(&msg[1..], iroh_base::hash::Hash::new([3u8; 32]).as_bytes());
    assert_ne!(&msg[1..], &[3u8; 32][..]);
}

#[test]
fn max_payload_size_is_two_to_the_power() {
    assert_eq!(their_max_payload_size(0), Ok(1));
    assert_eq!(their_max_payload_size(1), Ok(2));
    assert_eq!(their_max_payload_size(18), Ok(262144));
    assert_eq!(their_max_payload_size(63), Ok(1u64 << 63));
}

#[test]
fn max_payload_size_above_64_is_refused() {
    assert_eq!(their_max_payload_size(65), Err(HandshakeError::MaxPayloadSizeTooLarge));
    assert_eq!(their_max_payload_size(255), Err(HandshakeError::MaxPayloadSizeTooLarge));
}

#[test]
fn transmission_roundtrip_between_two_peers() {
    let alfie = nonce(1);
    let betty = nonce(2);
    let from_alfie = initial_message(&alfie);
    let from_betty = initial_message(&betty);
    let at_betty = receive_initial_transmission(betty, &from_alfie).unwrap();
    let at_alfie = receive_initial_transmission(alfie, &from_betty).unwrap();
    assert_eq!(at_betty.their_max_payload_size, 1 << 18);
    assert_eq!(at_alfie.their_max_payload_size, 1 << 18);
    assert_eq!(at_betty.received_commitment.as_bytes(), alfie.hash().as_bytes());
    assert_eq!(at_alfie.received_commitment.as_bytes(), betty.hash().as_bytes());
    assert_eq!(at_betty.our_nonce.to_bytes(), [2u8; 32]);
    assert_eq!(at_alfie.our_nonce.to_bytes(), [1u8; 32]);
}

#[test]
fn receive_reads_power_and_commitment() {
    let mut bytes = vec![5u8];
    bytes.extend((0..32u8).collect::<Vec<_>>());
    bytes.push(99); // trailing byte, not read
    let t = receive_initial_transmission(nonce(9), &bytes).unwrap();
    assert_eq!(t.their_max_payload_size, 32);
    let expected: Vec<u8> = (0..32u8).collect();
    assert_eq!(&t.received_commitment.as_bytes()[..], &expected[..]);
}

#[test]
fn receive_refuses_short_or_oversized_transmissions() {
    assert_eq!(receive_initial_transmission(nonce(0), &[]).unwrap_err(), HandshakeError::UnexpectedEnd);
    assert_eq!(receive_initial_transmission(nonce(0), &[18]).unwrap_err(), HandshakeError::UnexpectedEnd);
    assert_eq!(
        receive_initial_transmission(nonce(0), &[18; 32]).unwrap_err(),
        HandshakeError::UnexpectedEnd
    );
    // the power is checked before the commitment is read
    assert_eq!(
        receive_initial_transmission(nonce(0), &[65]).unwrap_err(),
        HandshakeError::MaxPayloadSizeTooLarge
    );
    assert_eq!(
        receive_initial_transmission(nonce(0), &[200; 40]).unwrap_err(),
        HandshakeError::MaxPayloadSizeTooLarge
    );
}
