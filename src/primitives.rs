use vstd::prelude::*;
use hmac::{Hmac, Mac};
use openssl::symm::Cipher;
use sha2::Sha256;
use crate::kdf::KEY_LEN;

verus! {

/// Largest buffer, in bytes, that openssl's length arguments (a C `int`) take.
pub const C_INT_MAX: usize = 0x7fff_ffff;

/// Length in bytes of an AES block, and of a CBC initialization vector.
pub const BLOCK_LEN: usize = 16;

/// Length in bytes of an HMAC-SHA256 tag.
pub const TAG_LEN: usize = 32;

/// Error stack of openssl, carried through unread.
#[verifier::external_type_specification]
#[verifier::external_body]
pub struct ExErrorStack(openssl::error::ErrorStack);

/// What AES-256-CBC with PKCS#7 padding makes of `data` under `key` and `iv`.
pub uninterp spec fn aes256_cbc_ciphertext(key: Seq<u8>, iv: Seq<u8>, data: Seq<u8>) -> Seq<u8>;

/// What AES-256-CBC decryption makes of `data` under `key` and `iv` once the
/// padding is removed; `None` where the padding does not validate.
pub uninterp spec fn aes256_cbc_plaintext(key: Seq<u8>, iv: Seq<u8>, data: Seq<u8>) -> Option<Seq<u8>>;

/// HMAC-SHA256 of `msg` under `key`.
pub uninterp spec fn hmac_sha256_of(key: Seq<u8>, msg: Seq<u8>) -> Seq<u8>;

/// Length of AES-CBC output with PKCS#7 padding: at least one byte of
/// padding, up to the next whole block.
pub open spec fn padded_len(n: nat) -> nat {
    BLOCK_LEN as nat * (n / BLOCK_LEN as nat + 1)
}

/// Relies on openssl::symm::encrypt with Cipher::aes_256_cbc (padding on):
/// the ciphertext is a function of key, IV and data, is padded to whole
/// blocks, and decrypts back to `data`. Its output buffer of
/// `data.len() + 16` bytes must fit a C `int`, else openssl panics.
#[verifier::external_body]
pub(crate) fn aes256_cbc_encrypt(key: &[u8], iv: &[u8], data: &[u8]) -> (r: Result<
    Vec<u8>,
    openssl::error::ErrorStack,
>)
    requires
        key@.len() == KEY_LEN,
        iv@.len() == BLOCK_LEN,
        data@.len() + BLOCK_LEN <= C_INT_MAX,
    ensures
        r is Ok ==> r->Ok_0@ == aes256_cbc_ciphertext(key@, iv@, data@),
        r is Ok ==> r->Ok_0@.len() == padded_len(data@.len()),
        r is Ok ==> aes256_cbc_plaintext(key@, iv@, r->Ok_0@) == Some(data@),
{
    openssl::symm::encrypt(Cipher::aes_256_cbc(), key, Some(iv), data)
}

/// Relies on openssl::symm::decrypt with Cipher::aes_256_cbc (padding on):
/// the plaintext is a function of key, IV and data, and a padding that does
/// not validate is an error. Its output buffer of `data.len() + 16` bytes
/// must fit a C `int`, else openssl panics.
#[verifier::external_body]
pub(crate) fn aes256_cbc_decrypt(key: &[u8], iv: &[u8], data: &[u8]) -> (r: Result<
    Vec<u8>,
    openssl::error::ErrorStack,
>)
    requires
        key@.len() == KEY_LEN,
        iv@.len() == BLOCK_LEN,
        data@.len() + BLOCK_LEN <= C_INT_MAX,
    ensures
        r is Ok ==> aes256_cbc_plaintext(key@, iv@, data@) == Some(r->Ok_0@),
        aes256_cbc_plaintext(key@, iv@, data@) is None ==> r is Err,
{
    openssl::symm::decrypt(Cipher::aes_256_cbc(), key, Some(iv), data)
}

/// Relies on hmac's `Hmac<Sha256>` (`new_from_slice`, which takes a key of
/// any length, `update`, `finalize`): the 32-byte HMAC-SHA256 of `msg`.
#[verifier::external_body]
pub(crate) fn hmac_sha256(key: &[u8], msg: &[u8]) -> (r: Vec<u8>)
    ensures
        r@ == hmac_sha256_of(key@, msg@),
        r@.len() == TAG_LEN,
{
    let mut mac = <Hmac<Sha256> as Mac>::new_from_slice(key).expect("HMAC takes a key of any size");
    mac.update(msg);
    mac.finalize().into_bytes().to_vec()
}

/// Relies on hmac's `Hmac<Sha256>` and `Mac::verify_slice`: true exactly
/// when `tag` equals the HMAC-SHA256 of `msg`, compared in constant time.
#[verifier::external_body]
pub(crate) fn hmac_sha256_verify(key: &[u8], msg: &[u8], tag: &[u8]) -> (r: bool)
    ensures
        r == (tag@ == hmac_sha256_of(key@, msg@)),
{
    let mut mac = <Hmac<Sha256> as Mac>::new_from_slice(key).expect("HMAC takes a key of any size");
    mac.update(msg);
    mac.verify_slice(tag).is_ok()
}

/// Relies on openssl::rand::rand_bytes: fills `buf` with random bytes and
/// keeps its length; panics on a buffer longer than a C `int`.
#[verifier::external_body]
pub(crate) fn fill_random(buf: &mut Vec<u8>) -> (r: Result<(), openssl::error::ErrorStack>)
    requires
        old(buf)@.len() <= C_INT_MAX,
    ensures
        final(buf)@.len() == old(buf)@.len(),
{
    openssl::rand::rand_bytes(buf.as_mut_slice())
}

} // verus!
