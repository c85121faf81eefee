use cryp::cipher::{decrypt, decrypt_data, encrypt, encrypt_data, encrypt_with_iv};
use cryp::error::{exit_code, ErrorKind};
use cryp::kdf::derive_key;
use hmac::{Hmac, Mac};
use openssl::symm::{Cipher, Crypter, Mode};
use sha2::Sha256;

fn hex(s: &str) -> Vec<u8> {
    (0..s.len())
        .step_by(2)
        .map(|i| u8::from_str_radix(&s[i..i + 2], 16).unwrap())
        .collect()
}

fn mac_of(key: &[u8], msg: &[u8]) -> Vec<u8> {
    let mut m = <Hmac<Sha256> as Mac>::new_from_slice(key).unwrap();
    m.update(msg);
    m.finalize().into_bytes().to_vec()
}

#[test]
fn derive_pads_short_secret_with_zeros() {
    let k = derive_key(b"abc");
    let mut want = vec![0u8; 32];
    want[..3].copy_from_slice(b"abc");
    assert_eq!(k.cipher_key, want);
    assert_eq!(k.mac_key, want);
}

#[test]
fn derive_truncates_long_secret() {
    let secret: Vec<u8> = (0u8..40).collect();
    let k = derive_key(&secret);
    assert_eq!(k.cipher_key, secret[..32].to_vec());
    assert_eq!(k.mac_key, secret[..32].to_vec());
}

#[test]
fn derive_empty_secret_is_all_zero() {
    let k = derive_key(b"");
    assert_eq!(k.cipher_key, vec![0u8; 32]);
}

#[test]
fn exit_codes() {
    assert_eq!(exit_code(ErrorKind::VerificationFailure), 1);
    assert_eq!(exit_code(ErrorKind::ArgumentError), 2);
    assert_eq!(exit_code(ErrorKind::KeyError), 2);
    assert_eq!(exit_code(ErrorKind::IoError), 2);
    assert_eq!(exit_code(ErrorKind::FormatError), 2);
    assert_eq!(exit_code(ErrorKind::CryptoError), 2);
}

#[test]
fn aes256_cbc_known_block() {
    let key = hex("603deb1015ca71be2b73aef0857d77811f352c073b6108d72d9810a30914dff4");
    let iv = hex("000102030405060708090a0b0c0d0e0f");
    let pt = hex("6bc1bee22e409f96e93d7e117393172a");
    let ct = encrypt_data(&key, &iv, &pt).unwrap();
    assert_eq!(ct.len(), 32);
    assert_eq!(ct[..16].to_vec(), hex("f58c4c04d6e5f1ba779eabfb5f7bfbd6"));
    assert_eq!(decrypt_data(&key, &iv, &ct).unwrap(), pt);
}

#[test]
fn ciphertext_is_padded_to_whole_blocks() {
    let key = [7u8; 32];
    let iv = [1u8; 16];
    assert_eq!(encrypt_data(&key, &iv, b"").unwrap().len(), 16);
    assert_eq!(encrypt_data(&key, &iv, &[0u8; 15]).unwrap().len(), 16);
    assert_eq!(encrypt_data(&key, &iv, &[0u8; 16]).unwrap().len(), 32);
    assert_eq!(encrypt_data(&key, &iv, &[0u8; 17]).unwrap().len(), 32);
}

#[test]
fn envelope_layout_and_tag() {
    let keys = derive_key(b"secret");
    let iv = [9u8; 16];
    let env = encrypt_with_iv(b"hello world", &keys, &iv).unwrap();
    assert_eq!(env.payload.len(), 32);
    assert_eq!(env.payload[..16].to_vec(), iv.to_vec());
    let ct = encrypt_data(&keys.cipher_key, &iv, b"hello world").unwrap();
    assert_eq!(env.payload[16..].to_vec(), ct);
    assert_eq!(env.tag.len(), 32);
    assert_eq!(env.tag, mac_of(&keys.mac_key, &env.payload));
}

#[test]
fn hmac_known_vector() {
    // HMAC-SHA256 with a 32-byte all-zero key over the payload, compared with
    // the tag that encryption attaches.
    let keys = derive_key(b"");
    let iv = [0u8; 16];
    let env = encrypt_with_iv(b"x", &keys, &iv).unwrap();
    assert_ne!(env.tag, env.payload);
    assert_eq!(env.tag, mac_of(&[0u8; 32], &env.payload));
}

#[test]
fn round_trip_various_lengths() {
    let keys = derive_key(b"shared secret");
    for n in [0usize, 1, 15, 16, 17, 31, 32, 100, 1000] {
        let pt: Vec<u8> = (0..n).map(|i| (i * 7 + 3) as u8).collect();
        let env = encrypt(&pt, &keys).unwrap();
        assert_eq!(decrypt(&env.payload, &env.tag, &keys).unwrap(), pt);
    }
}

#[test]
fn empty_plaintext_round_trip() {
    let keys = derive_key(b"k");
    let env = encrypt(b"", &keys).unwrap();
    assert_eq!(env.payload.len(), 32);
    assert_eq!(decrypt(&env.payload, &env.tag, &keys).unwrap(), Vec::<u8>::new());
}

#[test]
fn flipped_tag_bit_is_rejected() {
    let keys = derive_key(b"k");
    let env = encrypt(b"some plaintext", &keys).unwrap();
    for i in 0..env.tag.len() {
        for b in 0..8 {
            let mut tag = env.tag.clone();
            tag[i] ^= 1 << b;
            assert_eq!(
                decrypt(&env.payload, &tag, &keys),
                Err(ErrorKind::VerificationFailure)
            );
        }
    }
}

#[test]
fn flipped_payload_bit_is_rejected() {
    let keys = derive_key(b"k");
    let env = encrypt(b"some plaintext", &keys).unwrap();
    for i in 0..env.payload.len() {
        for b in 0..8 {
            let mut payload = env.payload.clone();
            payload[i] ^= 1 << b;
            assert_eq!(
                decrypt(&payload, &env.tag, &keys),
                Err(ErrorKind::VerificationFailure)
            );
        }
    }
}

#[test]
fn wrong_secret_is_rejected() {
    let env = encrypt(b"attack at dawn", &derive_key(b"secret-one")).unwrap();
    assert_eq!(
        decrypt(&env.payload, &env.tag, &derive_key(b"secret-two")),
        Err(ErrorKind::VerificationFailure)
    );
}

#[test]
fn random_iv_differs_between_encryptions() {
    let keys = derive_key(b"k");
    let a = encrypt(b"same plaintext", &keys).unwrap();
    let b = encrypt(b"same plaintext", &keys).unwrap();
    assert_ne!(a.payload, b.payload);
    assert_ne!(a.payload[..16].to_vec(), b.payload[..16].to_vec());
}

#[test]
fn fixed_iv_is_deterministic() {
    let keys = derive_key(b"k");
    let iv = [5u8; 16];
    let a = encrypt_with_iv(b"same plaintext", &keys, &iv).unwrap();
    let b = encrypt_with_iv(b"same plaintext", &keys, &iv).unwrap();
    assert_eq!(a.payload, b.payload);
    assert_eq!(a.tag, b.tag);
}

#[test]
fn correct_key_hello_world() {
    let keys = derive_key(b"correct-key");
    let env = encrypt(b"hello world", &keys).unwrap();
    assert_eq!(decrypt(&env.payload, &env.tag, &keys).unwrap(), b"hello world".to_vec());
    let mut tag = env.tag.clone();
    let last = tag.len() - 1;
    tag[last] = tag[last].wrapping_add(1);
    let r = decrypt(&env.payload, &tag, &keys);
    assert_eq!(r, Err(ErrorKind::VerificationFailure));
    assert_eq!(exit_code(r.unwrap_err()), 1);
}

#[test]
fn short_authentic_payload_is_format_error() {
    let keys = derive_key(b"k");
    let payload = vec![1u8; 20];
    let tag = mac_of(&keys.mac_key, &payload);
    assert_eq!(decrypt(&payload, &tag, &keys), Err(ErrorKind::FormatError));
    let payload = vec![1u8; 16];
    let tag = mac_of(&keys.mac_key, &payload);
    assert_eq!(decrypt(&payload, &tag, &keys), Err(ErrorKind::FormatError));
}

#[test]
fn partial_block_payload_is_format_error() {
    let keys = derive_key(b"k");
    let payload = vec![3u8; 40];
    let tag = mac_of(&keys.mac_key, &payload);
    assert_eq!(decrypt(&payload, &tag, &keys), Err(ErrorKind::FormatError));
}

#[test]
fn short_payload_with_wrong_tag_is_verification_failure() {
    let keys = derive_key(b"k");
    assert_eq!(
        decrypt(&[1u8; 5], &[0u8; 32], &keys),
        Err(ErrorKind::VerificationFailure)
    );
}

#[test]
fn bad_padding_is_crypto_error() {
    let keys = derive_key(b"k");
    let iv = [4u8; 16];
    // One block whose last plaintext byte is zero: never a valid padding.
    let mut c = Crypter::new(Cipher::aes_256_cbc(), Mode::Encrypt, &keys.cipher_key, Some(&iv)).unwrap();
    c.pad(false);
    let block = [0u8; 16];
    let mut out = vec![0u8; 32];
    let n = c.update(&block, &mut out).unwrap();
    let m = c.finalize(&mut out[n..]).unwrap();
    out.truncate(n + m);
    let mut payload = iv.to_vec();
    payload.extend_from_slice(&out);
    let tag = mac_of(&keys.mac_key, &payload);
    assert_eq!(decrypt(&payload, &tag, &keys), Err(ErrorKind::CryptoError));
    assert_eq!(decrypt_data(&keys.cipher_key, &iv, &out), Err(ErrorKind::CryptoError));
}
