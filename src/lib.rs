//! Authenticated encryption of a byte string under a shared secret:
//! AES-256-CBC for confidentiality, HMAC-SHA256 over `iv || ciphertext` for
//! integrity, and a decryption path that checks the tag before it touches the
//! ciphertext.
pub mod cipher;
pub mod cli;
pub mod error;
pub mod guarantees;
pub mod kdf;
pub mod primitives;
