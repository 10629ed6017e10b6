use crate::hand::Hand;
use rand::RngCore;
use sha2::Digest;
use vstd::prelude::*;

verus! {

/// Random bytes that hide a committed hand.
pub type Salt = [u8; 16];

/// A SHA-256 digest that binds one hand and one salt.
pub type Commit = [u8; 32];

/// What one party sends to the other.
#[derive(Clone, Copy, PartialEq, Eq, Debug)]
pub enum Message {
    /// The commitment to a hidden hand.
    Commit(Commit),
    /// The hand itself, with the salt it was committed with.
    Hand(Hand, Salt),
}

/// The SHA-256 digest of a byte string.
pub uninterp spec fn sha256_of(data: Seq<u8>) -> Seq<u8>;

/// The bytes that are hashed for a commitment: the hand's byte, then the salt.
pub open spec fn commitment_input(hand: Hand, salt: Seq<u8>) -> Seq<u8> {
    seq![hand.index() as u8] + salt
}

/// The commitment to `hand` under `salt`.
pub open spec fn commitment_of(hand: Hand, salt: Seq<u8>) -> Seq<u8> {
    sha256_of(commitment_input(hand, salt))
}

/// Whether a revealed hand and salt match a commitment.
pub open spec fn accepts(hand: Hand, salt: Seq<u8>, commit: Seq<u8>) -> bool {
    commit == commitment_of(hand, salt)
}

/// Relies on `sha2::Sha256::digest` (trait `sha2::Digest`): the 32-byte SHA-256
/// digest of `data`, which depends on `data` alone.
#[verifier::external_body]
fn sha256(data: &[u8]) -> (r: [u8; 32])
    ensures
        r@ == sha256_of(data@),
{
    sha2::Sha256::digest(data).into()
}

/// Relies on `rand::thread_rng` and `RngCore::fill_bytes`: sixteen bytes from
/// the thread-local cryptographically secure generator, of which nothing is known.
#[verifier::external_body]
fn random_salt() -> (r: Salt) {
    let mut salt: Salt = [0u8; 16];
    rand::thread_rng().fill_bytes(&mut salt);
    salt
}

impl Message {
    /// Commits to `hand` under a fresh random salt; returns the commitment and the salt.
    pub fn commit(hand: Hand) -> (r: (Commit, Salt))
        ensures
            r.0@ == commitment_of(hand, r.1@),
    {
        let salt = random_salt();
        (Self::commit_with_salt(hand, salt), salt)
    }

    /// The commitment to `hand` under the given salt.
    pub fn commit_with_salt(hand: Hand, salt: Salt) -> (r: Commit)
        ensures
            r@ == commitment_of(hand, salt@),
    {
        let mut data: Vec<u8> = Vec::new();
        data.push(hand.to_byte());
        let mut i: usize = 0;
        while i < 16
            invariant
                i <= 16,
                salt@.len() == 16,
                data@ == seq![hand.index() as u8] + salt@.subrange(0, i as int),
            decreases 16 - i,
        {
            data.push(salt[i]);
            i = i + 1;
            assert(salt@.subrange(0, i as int) == salt@.subrange(0, i - 1 as int).push(salt@[i - 1]));
        }
        assert(salt@.subrange(0, 16) == salt@);
        sha256(data.as_slice())
    }

    /// Whether `hand` and `salt` match the commitment `commit`.
    pub fn verify(hand: Hand, salt: Salt, commit: Commit) -> (r: bool)
        ensures
            r == accepts(hand, salt@, commit@),
    {
        let expected = Self::commit_with_salt(hand, salt);
        let mut i: usize = 0;
        while i < 32
            invariant
                i <= 32,
                expected@.len() == 32,
                commit@.len() == 32,
                expected@ == commitment_of(hand, salt@),
                forall|j: int| 0 <= j < i ==> commit@[j] == expected@[j],
            decreases 32 - i,
        {
            if commit[i] != expected[i] {
                return false;
            }
            i = i + 1;
        }
        assert(commit@ == expected@);
        true
    }
}

/// A commitment made under some salt is accepted for the same hand and salt.
pub proof fn lemma_verify_own_commitment(hand: Hand, salt: Salt)
    ensures
        accepts(hand, salt@, commitment_of(hand, salt@)),
{
}

/// For distinct hands under one salt the hashed bytes differ, so a commitment
/// to one hand is accepted for another only where SHA-256 collides.
pub proof fn lemma_commitment_inputs_differ(a: Hand, b: Hand, salt: Salt)
    requires
        a != b,
    ensures
        commitment_input(a, salt@) != commitment_input(b, salt@),
{
    assert(commitment_input(a, salt@)[0] != commitment_input(b, salt@)[0]);
}

} // verus!
