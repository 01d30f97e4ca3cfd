//! The initial transmission: right after connecting, each peer sends, on a
//! stream of its own, one byte with the power of two that bounds the payloads
//! it accepts inline, then the hash of a fresh nonce. Each peer reads the
//! other's transmission and keeps the other's commitment and payload limit.

use vstd::prelude::*;
use vstd::arithmetic::power2::{pow2, lemma_pow2_unfold, lemma_pow2_strictly_increases, lemma2_to64, lemma2_to64_rest};

verus! {

/// Length in bytes of an access challenge (a nonce).
pub const CHALLENGE_LENGTH: usize = 32;

/// Length in bytes of the hash of an access challenge.
pub const CHALLENGE_HASH_LENGTH: usize = 32;

/// The power of two that bounds the size of payloads this peer accepts
/// inline: 2^18 bytes, 256 KiB.
pub const MAX_PAYLOAD_SIZE_POWER: u8 = 18;

/// Length in bytes of an initial transmission on the wire.
pub const INITIAL_TRANSMISSION_LENGTH: usize = 33;

/// Which side of a connection a peer is on.
#[derive(Debug, Clone, Copy, PartialEq, Eq, Structural)]
pub enum Role {
    /// The peer that initiated the connection.
    Alfie,
    /// The peer that accepted the connection.
    Betty,
}

/// A nonce that a peer commits to at the start of a session.
#[derive(Debug, Clone, Copy)]
pub struct AccessChallenge(pub [u8; 32]);

/// The hash of an access challenge.
#[derive(Debug, Clone, Copy)]
pub struct ChallengeHash(pub [u8; 32]);

impl View for AccessChallenge {
    type V = Seq<u8>;

    open spec fn view(&self) -> Seq<u8> {
        self.0@
    }
}

impl View for ChallengeHash {
    type V = Seq<u8>;

    open spec fn view(&self) -> Seq<u8> {
        self.0@
    }
}

/// What a peer knows after the initial transmissions: its own nonce, the
/// other peer's commitment, and the payload limit the other peer announced.
#[derive(Debug, Clone, Copy)]
pub struct InitialTransmission {
    pub our_nonce: AccessChallenge,
    pub received_commitment: ChallengeHash,
    pub their_max_payload_size: u64,
}

/// Why an initial transmission was refused.
#[derive(Debug, Clone, Copy, PartialEq, Eq, Structural)]
pub enum HandshakeError {
    /// The announced power of two is above 64.
    MaxPayloadSizeTooLarge,
    /// The transmission ended before all its bytes were read.
    UnexpectedEnd,
}

/// The BLAKE3 digest of the given bytes, as iroh-base computes it.
pub uninterp spec fn blake3_digest(data: Seq<u8>) -> Seq<u8>;

/// Calls `iroh_base::hash::Hash::new`, which hashes the bytes with BLAKE3,
/// and returns the 32 bytes of the digest. The contract claims only that the
/// digest is a function of the bytes hashed; what that function is, is not
/// stated.
#[verifier::external_body]
fn blake3_hash(data: &[u8]) -> (r: [u8; 32])
    ensures
        r@ == blake3_digest(data@),
{
    *iroh_base::hash::Hash::new(data).as_bytes()
}

impl AccessChallenge {
    /// The challenge made of the given bytes.
    pub fn from_bytes(bytes: [u8; 32]) -> (r: AccessChallenge)
        ensures
            r@ == bytes@,
    {
        AccessChallenge(bytes)
    }

    /// The bytes of the challenge.
    pub fn to_bytes(&self) -> (r: [u8; 32])
        ensures
            r@ == self@,
    {
        self.0
    }

    /// The hash of the challenge: the BLAKE3 digest of its bytes.
    pub fn hash(&self) -> (r: ChallengeHash)
        ensures
            r@ == blake3_digest(self@),
    {
        let bytes: &[u8] = self.0.as_slice();
        ChallengeHash(blake3_hash(bytes))
    }
}

impl ChallengeHash {
    /// The hash made of the given bytes.
    pub fn from_bytes(bytes: [u8; 32]) -> (r: ChallengeHash)
        ensures
            r@ == bytes@,
    {
        ChallengeHash(bytes)
    }

    /// The bytes of the hash.
    pub fn as_bytes(&self) -> (r: &[u8; 32])
        ensures
            r@ == self@,
    {
        &self.0
    }
}

/// The bytes of an initial transmission that commits to `challenge_hash`:
/// the payload-size power, then the hash.
pub open spec fn spec_initial_message(challenge_hash: Seq<u8>) -> Seq<u8> {
    seq![MAX_PAYLOAD_SIZE_POWER].add(challenge_hash)
}

/// The bytes of the initial transmission that commits to `challenge_hash`.
pub fn encode_initial_message(challenge_hash: &ChallengeHash) -> (r: Vec<u8>)
    ensures
        r@ == spec_initial_message(challenge_hash@),
        r@.len() == INITIAL_TRANSMISSION_LENGTH,
{
    let mut out: Vec<u8> = Vec::new();
    out.push(MAX_PAYLOAD_SIZE_POWER);
    let n = challenge_hash.0.len();
    for i in 0..n
        invariant
            n == challenge_hash@.len(),
            out@ == seq![MAX_PAYLOAD_SIZE_POWER].add(challenge_hash@.subrange(0, i as int)),
    {
        out.push(challenge_hash.0[i]);
        assert(challenge_hash@.subrange(0, i + 1) =~= challenge_hash@.subrange(0, i as int).push(
            challenge_hash@[i as int],
        ));
    }
    assert(challenge_hash@.subrange(0, n as int) =~= challenge_hash@);
    out
}

/// The bytes of the initial transmission that a peer with nonce `our_nonce`
/// sends: the payload-size power, then the hash of the nonce.
pub fn initial_message(our_nonce: &AccessChallenge) -> (r: Vec<u8>)
    ensures
        r@ == spec_initial_message(blake3_digest(our_nonce@)),
        r@.len() == INITIAL_TRANSMISSION_LENGTH,
{
    let challenge_hash = our_nonce.hash();
    encode_initial_message(&challenge_hash)
}

/// 2 to the power of `power`, for a power below 64.
fn two_pow(power: u8) -> (r: u64)
    requires
        power < 64,
    ensures
        r == pow2(power as nat),
{
    proof {
        lemma2_to64();
        lemma2_to64_rest();
    }
    let mut r: u64 = 1;
    let mut i: u8 = 0;
    while i < power
        invariant
            i <= power < 64,
            r == pow2(i as nat),
            pow2(63) == 0x8000_0000_0000_0000,
        decreases power - i,
    {
        proof {
            lemma_pow2_unfold((i + 1) as nat);
            if i + 1 < 63 {
                lemma_pow2_strictly_increases((i + 1) as nat, 63);
            }
        }
        r = r * 2;
        i = i + 1;
    }
    r
}

/// The payload limit that a peer announces with `power`: 2^power bytes; a
/// power above 64 is refused. (A power of exactly 64 overflows the limit's
/// 64 bits and is left out.)
pub fn their_max_payload_size(power: u8) -> (r: Result<u64, HandshakeError>)
    requires
        power != 64,
    ensures
        power > 64 ==> r == Err::<u64, HandshakeError>(HandshakeError::MaxPayloadSizeTooLarge),
        power < 64 ==> (r matches Ok(size) && size == pow2(power as nat)),
{
    if power > 64 {
        Err(HandshakeError::MaxPayloadSizeTooLarge)
    } else {
        Ok(two_pow(power))
    }
}

/// Reads the other peer's initial transmission from `received`, the bytes
/// of its stream: first the power byte, which must not exceed 64, then the
/// 32 bytes of its commitment. Bytes after those are not read.
pub fn receive_initial_transmission(our_nonce: AccessChallenge, received: &[u8]) -> (r: Result<
    InitialTransmission,
    HandshakeError,
>)
    requires
        received@.len() > 0 ==> received@[0] != 64,
    ensures
        received@.len() == 0 ==> r == Err::<InitialTransmission, HandshakeError>(
            HandshakeError::UnexpectedEnd,
        ),
        received@.len() > 0 && received@[0] > 64 ==> r == Err::<InitialTransmission, HandshakeError>(
            HandshakeError::MaxPayloadSizeTooLarge,
        ),
        0 < received@.len() < INITIAL_TRANSMISSION_LENGTH && received@[0] < 64 ==> r == Err::<
            InitialTransmission,
            HandshakeError,
        >(HandshakeError::UnexpectedEnd),
        received@.len() >= INITIAL_TRANSMISSION_LENGTH && received@[0] < 64 <==> r is Ok,
        r matches Ok(t) ==> {
            &&& t.our_nonce == our_nonce
            &&& t.received_commitment@ == received@.subrange(1, INITIAL_TRANSMISSION_LENGTH as int)
            &&& t.their_max_payload_size == pow2(received@[0] as nat)
        },
{
    if received.len() == 0 {
        return Err(HandshakeError::UnexpectedEnd);
    }
    let power = received[0];
    let their_max_payload_size = match their_max_payload_size(power) {
        Ok(size) => size,
        Err(e) => return Err(e),
    };
    if received.len() < INITIAL_TRANSMISSION_LENGTH {
        return Err(HandshakeError::UnexpectedEnd);
    }
    let mut received_commitment = [0u8; 32];
    for i in 0..CHALLENGE_HASH_LENGTH
        invariant
            received@.len() >= INITIAL_TRANSMISSION_LENGTH,
            received_commitment@.len() == 32,
            forall|j: int| 0 <= j < i ==> received_commitment@[j] == received@[j + 1],
    {
        received_commitment[i] = received[i + 1];
    }
    assert(received_commitment@ =~= received@.subrange(1, INITIAL_TRANSMISSION_LENGTH as int));
    Ok(InitialTransmission {
        our_nonce,
        received_commitment: ChallengeHash(received_commitment),
        their_max_payload_size,
    })
}

/// What one peer sends, the other reads back: the initial message built
/// from a hash is accepted by `receive_initial_transmission` (it is long
/// enough and its power is below 64), the commitment read from it is that
/// hash, and the payload limit read from it is 2^MAX_PAYLOAD_SIZE_POWER,
/// 256 KiB.
pub proof fn lemma_initial_transmission_roundtrip(sender_hash: Seq<u8>)
    requires
        sender_hash.len() == CHALLENGE_HASH_LENGTH,
    ensures
        spec_initial_message(sender_hash).len() == INITIAL_TRANSMISSION_LENGTH,
        spec_initial_message(sender_hash)[0] < 64,
        spec_initial_message(sender_hash).subrange(1, INITIAL_TRANSMISSION_LENGTH as int)
            == sender_hash,
        pow2(spec_initial_message(sender_hash)[0] as nat) == 262144,
{
    let m = spec_initial_message(sender_hash);
    assert(m.subrange(1, INITIAL_TRANSMISSION_LENGTH as int) =~= sender_hash);
    lemma2_to64();
}

} // verus!
