use vstd::prelude::*;
use crate::cipher::{authentic, encryption_of, open_outcome, sealed, well_framed};
use crate::error::ErrorKind;
use crate::kdf::fit_key;
use crate::primitives::{hmac_sha256_of, padded_len, BLOCK_LEN};

verus! {

/// `s` with bit `b` of byte `i` flipped.
pub open spec fn flip_bit(s: Seq<u8>, i: int, b: u8) -> Seq<u8> {
    s.update(i, s[i] ^ (1u8 << b))
}

proof fn lemma_xor_bit_changes(x: u8, b: u8)
    requires
        b < 8,
    ensures
        x ^ (1u8 << b) != x,
{
    assert(x ^ (1u8 << b) != x) by (bit_vector)
        requires
            b < 8,
    ;
}

proof fn lemma_framed_len(n: nat)
    ensures
        BLOCK_LEN + padded_len(n) >= 2 * BLOCK_LEN,
        (BLOCK_LEN + padded_len(n)) % (BLOCK_LEN as int) == 0,
{
    let m = n / 16 + 1;
    assert((16 + 16 * m) % 16 == 0 && 16 + 16 * m >= 32) by (nonlinear_arith)
        requires
            m >= 1,
    ;
}

/// Decrypting what encryption under the key material of a secret produced,
/// with the key material of the same secret, gives back the plaintext.
pub proof fn lemma_round_trip(secret: Seq<u8>, plaintext: Seq<u8>, payload: Seq<u8>, tag: Seq<u8>)
    requires
        encryption_of(fit_key(secret), fit_key(secret), plaintext, payload, tag),
    ensures
        open_outcome(fit_key(secret), fit_key(secret), payload, tag) == Ok::<Seq<u8>, ErrorKind>(
            plaintext,
        ),
{
    lemma_framed_len(plaintext.len());
}

/// An envelope whose tag has any single bit flipped is rejected as a
/// verification failure, before any decryption.
pub proof fn lemma_flipped_tag_rejected(
    cipher_key: Seq<u8>,
    mac_key: Seq<u8>,
    plaintext: Seq<u8>,
    payload: Seq<u8>,
    tag: Seq<u8>,
    i: int,
    b: u8,
)
    requires
        encryption_of(cipher_key, mac_key, plaintext, payload, tag),
        0 <= i < tag.len(),
        b < 8,
    ensures
        open_outcome(cipher_key, mac_key, payload, flip_bit(tag, i, b)) == Err::<
            Seq<u8>,
            ErrorKind,
        >(ErrorKind::VerificationFailure),
{
    lemma_xor_bit_changes(tag[i], b);
    assert(flip_bit(tag, i, b)[i] != tag[i]);
}

/// Opening yields a plaintext only for a payload whose tag is its MAC under
/// the MAC key used to open it; every other tag is a verification failure.
pub proof fn lemma_opened_only_if_authentic(
    cipher_key: Seq<u8>,
    mac_key: Seq<u8>,
    payload: Seq<u8>,
    tag: Seq<u8>,
)
    ensures
        open_outcome(cipher_key, mac_key, payload, tag) is Ok ==> authentic(mac_key, payload, tag),
        !authentic(mac_key, payload, tag) ==> open_outcome(cipher_key, mac_key, payload, tag)
            == Err::<Seq<u8>, ErrorKind>(ErrorKind::VerificationFailure),
{
}

/// An envelope made under the key material of one secret opens under that of
/// another only where both MAC keys give the payload the same tag.
pub proof fn lemma_other_secret_needs_same_mac(
    secret: Seq<u8>,
    other: Seq<u8>,
    plaintext: Seq<u8>,
    payload: Seq<u8>,
    tag: Seq<u8>,
)
    requires
        encryption_of(fit_key(secret), fit_key(secret), plaintext, payload, tag),
    ensures
        open_outcome(fit_key(other), fit_key(other), payload, tag) is Ok ==> hmac_sha256_of(
            fit_key(other),
            payload,
        ) == hmac_sha256_of(fit_key(secret), payload),
{
}

/// With a fixed IV, encrypting the same plaintext under the same keys twice
/// gives the same envelope.
pub proof fn lemma_fixed_iv_deterministic(
    cipher_key: Seq<u8>,
    mac_key: Seq<u8>,
    iv: Seq<u8>,
    plaintext: Seq<u8>,
    payload1: Seq<u8>,
    tag1: Seq<u8>,
    payload2: Seq<u8>,
    tag2: Seq<u8>,
)
    requires
        sealed(cipher_key, mac_key, iv, plaintext, payload1, tag1),
        sealed(cipher_key, mac_key, iv, plaintext, payload2, tag2),
    ensures
        payload1 == payload2,
        tag1 == tag2,
{
}

/// Encrypting the empty plaintext gives an IV and one block of padding, which
/// opens back to the empty plaintext.
pub proof fn lemma_empty_round_trip(
    cipher_key: Seq<u8>,
    mac_key: Seq<u8>,
    payload: Seq<u8>,
    tag: Seq<u8>,
)
    requires
        encryption_of(cipher_key, mac_key, Seq::<u8>::empty(), payload, tag),
    ensures
        payload.len() == 32,
        open_outcome(cipher_key, mac_key, payload, tag) == Ok::<Seq<u8>, ErrorKind>(
            Seq::<u8>::empty(),
        ),
{
    lemma_framed_len(0);
}

} // verus!
