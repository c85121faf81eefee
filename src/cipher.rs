use vstd::prelude::*;
use crate::error::ErrorKind;
use crate::kdf::{KeyMaterial, KEY_LEN};
use crate::primitives::{
    aes256_cbc_ciphertext, aes256_cbc_decrypt, aes256_cbc_encrypt, aes256_cbc_plaintext,
    fill_random, hmac_sha256, hmac_sha256_of, hmac_sha256_verify, padded_len, BLOCK_LEN,
    C_INT_MAX,
};

verus! {

/// Largest plaintext, in bytes, that `encrypt` takes: the cipher's output
/// buffer, one block longer, must fit a C `int`.
pub const MAX_PLAINTEXT_LEN: usize = 0x7fff_ffef;

/// Largest stored envelope, in bytes, that `decrypt` takes.
pub const MAX_ENVELOPE_LEN: usize = 0x7fff_ffff;

/// The persisted result of an encryption: the authenticated payload
/// `iv || ciphertext`, and its tag.
pub struct Envelope {
    /// The IV followed by the ciphertext.
    pub payload: Vec<u8>,
    /// HMAC-SHA256 of the whole payload.
    pub tag: Vec<u8>,
}

/// The IV at the front of a payload.
pub open spec fn iv_part(payload: Seq<u8>) -> Seq<u8> {
    payload.subrange(0, BLOCK_LEN as int)
}

/// The ciphertext after the IV of a payload.
pub open spec fn body_part(payload: Seq<u8>) -> Seq<u8> {
    payload.subrange(BLOCK_LEN as int, payload.len() as int)
}

/// A payload holds an IV and a ciphertext of one or more whole blocks.
pub open spec fn well_framed(payload: Seq<u8>) -> bool {
    payload.len() >= 2 * BLOCK_LEN && payload.len() % (BLOCK_LEN as nat) == 0
}

/// `tag` is the MAC of `payload` under `mac_key`.
pub open spec fn authentic(mac_key: Seq<u8>, payload: Seq<u8>, tag: Seq<u8>) -> bool {
    tag == hmac_sha256_of(mac_key, payload)
}

/// The envelope that encrypting `plaintext` under the two keys with `iv`
/// yields: the IV, then the AES-256-CBC ciphertext, tagged as a unit.
pub open spec fn sealed(
    cipher_key: Seq<u8>,
    mac_key: Seq<u8>,
    iv: Seq<u8>,
    plaintext: Seq<u8>,
    payload: Seq<u8>,
    tag: Seq<u8>,
) -> bool {
    &&& iv.len() == BLOCK_LEN
    &&& payload == iv + aes256_cbc_ciphertext(cipher_key, iv, plaintext)
    &&& authentic(mac_key, payload, tag)
    &&& payload.len() == BLOCK_LEN + padded_len(plaintext.len())
    &&& aes256_cbc_plaintext(cipher_key, iv, body_part(payload)) == Some(plaintext)
}

/// `payload` and `tag` are an encryption of `plaintext` under the two keys,
/// with the IV that the payload carries.
pub open spec fn encryption_of(
    cipher_key: Seq<u8>,
    mac_key: Seq<u8>,
    plaintext: Seq<u8>,
    payload: Seq<u8>,
    tag: Seq<u8>,
) -> bool {
    payload.len() >= BLOCK_LEN && sealed(
        cipher_key,
        mac_key,
        iv_part(payload),
        plaintext,
        payload,
        tag,
    )
}

/// What opening `payload` with `tag` gives where the cipher itself does not
/// fail: the tag is checked first, then the framing, then the padding.
pub open spec fn open_outcome(
    cipher_key: Seq<u8>,
    mac_key: Seq<u8>,
    payload: Seq<u8>,
    tag: Seq<u8>,
) -> Result<Seq<u8>, ErrorKind> {
    if !authentic(mac_key, payload, tag) {
        Err(ErrorKind::VerificationFailure)
    } else if !well_framed(payload) {
        Err(ErrorKind::FormatError)
    } else {
        match aes256_cbc_plaintext(cipher_key, iv_part(payload), body_part(payload)) {
            Some(p) => Ok(p),
            None => Err(ErrorKind::CryptoError),
        }
    }
}

/// Encrypts `data` with AES-256-CBC under `key` and `iv`, padding it to
/// whole blocks. A failure of the primitive is a `CryptoError`.
pub fn encrypt_data(key: &[u8], iv: &[u8], data: &[u8]) -> (r: Result<Vec<u8>, ErrorKind>)
    requires
        key@.len() == KEY_LEN,
        iv@.len() == BLOCK_LEN,
        data@.len() <= MAX_PLAINTEXT_LEN,
    ensures
        r is Ok ==> r->Ok_0@ == aes256_cbc_ciphertext(key@, iv@, data@),
        r is Ok ==> r->Ok_0@.len() == padded_len(data@.len()),
        r is Ok ==> aes256_cbc_plaintext(key@, iv@, r->Ok_0@) == Some(data@),
        r is Err ==> r->Err_0 == ErrorKind::CryptoError,
{
    match aes256_cbc_encrypt(key, iv, data) {
        Ok(out) => Ok(out),
        Err(_) => Err(ErrorKind::CryptoError),
    }
}

/// Decrypts `data` with AES-256-CBC under `key` and `iv` and removes the
/// padding. A padding that does not validate, or a failure of the
/// primitive, is a `CryptoError`.
pub fn decrypt_data(key: &[u8], iv: &[u8], data: &[u8]) -> (r: Result<Vec<u8>, ErrorKind>)
    requires
        key@.len() == KEY_LEN,
        iv@.len() == BLOCK_LEN,
        data@.len() + BLOCK_LEN <= C_INT_MAX,
    ensures
        r is Ok ==> aes256_cbc_plaintext(key@, iv@, data@) == Some(r->Ok_0@),
        aes256_cbc_plaintext(key@, iv@, data@) is None ==> r is Err,
        r is Err ==> r->Err_0 == ErrorKind::CryptoError,
{
    match aes256_cbc_decrypt(key, iv, data) {
        Ok(out) => Ok(out),
        Err(_) => Err(ErrorKind::CryptoError),
    }
}

/// Encrypts `plaintext` under `keys` with the given IV: the payload is
/// `iv || AES-256-CBC(plaintext)` and the tag is the HMAC of the whole
/// payload. A failure of the cipher is a `CryptoError`.
pub fn encrypt_with_iv(plaintext: &[u8], keys: &KeyMaterial, iv: &[u8]) -> (r: Result<
    Envelope,
    ErrorKind,
>)
    requires
        keys.wf(),
        iv@.len() == BLOCK_LEN,
        plaintext@.len() <= MAX_PLAINTEXT_LEN,
    ensures
        r is Ok ==> sealed(
            keys.cipher_key@,
            keys.mac_key@,
            iv@,
            plaintext@,
            r->Ok_0.payload@,
            r->Ok_0.tag@,
        ),
        r is Err ==> r->Err_0 == ErrorKind::CryptoError,
{
    let ct = match encrypt_data(keys.cipher_key.as_slice(), iv, plaintext) {
        Ok(ct) => ct,
        Err(e) => {
            return Err(e);
        },
    };
    let mut payload: Vec<u8> = Vec::new();
    payload.extend_from_slice(iv);
    payload.extend_from_slice(ct.as_slice());
    assert(payload@ =~= iv@ + ct@);
    assert(body_part(payload@) =~= ct@);
    let tag = hmac_sha256(keys.mac_key.as_slice(), payload.as_slice());
    Ok(Envelope { payload, tag })
}

/// Encrypts `plaintext` under `keys` with a fresh random IV, carried at the
/// front of the payload. A failure of the random source or of the cipher is
/// a `CryptoError`.
pub fn encrypt(plaintext: &[u8], keys: &KeyMaterial) -> (r: Result<Envelope, ErrorKind>)
    requires
        keys.wf(),
        plaintext@.len() <= MAX_PLAINTEXT_LEN,
    ensures
        r is Ok ==> encryption_of(
            keys.cipher_key@,
            keys.mac_key@,
            plaintext@,
            r->Ok_0.payload@,
            r->Ok_0.tag@,
        ),
        r is Err ==> r->Err_0 == ErrorKind::CryptoError,
{
    let mut iv: Vec<u8> = vec![0u8; BLOCK_LEN];
    match fill_random(&mut iv) {
        Ok(()) => {},
        Err(_) => {
            return Err(ErrorKind::CryptoError);
        },
    }
    let r = encrypt_with_iv(plaintext, keys, iv.as_slice());
    proof {
        if r is Ok {
            assert(iv_part(r->Ok_0.payload@) =~= iv@);
        }
    }
    r
}

/// Opens a stored envelope: checks `tag` against the HMAC of the whole
/// payload first, and only then splits off the IV and decrypts. A tag
/// mismatch is a `VerificationFailure`, a payload that is not an IV and
/// whole blocks a `FormatError`, a bad padding or a failed cipher a
/// `CryptoError`.
pub fn decrypt(payload: &[u8], tag: &[u8], keys: &KeyMaterial) -> (r: Result<Vec<u8>, ErrorKind>)
    requires
        keys.wf(),
        payload@.len() <= MAX_ENVELOPE_LEN,
    ensures
        open_outcome(keys.cipher_key@, keys.mac_key@, payload@, tag@) is Err ==> r is Err
            && r->Err_0 == open_outcome(keys.cipher_key@, keys.mac_key@, payload@, tag@)->Err_0,
        r is Ok ==> open_outcome(keys.cipher_key@, keys.mac_key@, payload@, tag@) == Ok::<
            Seq<u8>,
            ErrorKind,
        >(r->Ok_0@),
        r is Err && open_outcome(keys.cipher_key@, keys.mac_key@, payload@, tag@) is Ok
            ==> r->Err_0 == ErrorKind::CryptoError,
{
    if !hmac_sha256_verify(keys.mac_key.as_slice(), payload, tag) {
        return Err(ErrorKind::VerificationFailure);
    }
    if payload.len() < 2 * BLOCK_LEN || payload.len() % BLOCK_LEN != 0 {
        return Err(ErrorKind::FormatError);
    }
    let (iv, body) = payload.split_at(BLOCK_LEN);
    assert(iv@ =~= iv_part(payload@));
    assert(body@ =~= body_part(payload@));
    decrypt_data(keys.cipher_key.as_slice(), iv, body)
}

} // verus!
