use vstd::prelude::*;

verus! {

/// Length in bytes of an AES-256 key.
pub const KEY_LEN: usize = 32;

/// The raw-fit derivation: the secret's first `KEY_LEN` bytes, right-padded
/// with zero bytes when the secret is shorter.
pub open spec fn fit_key(secret: Seq<u8>) -> Seq<u8> {
    Seq::new(KEY_LEN as nat, |i: int| if i < secret.len() { secret[i] } else { 0u8 })
}

/// Key material derived from a shared secret.
pub struct KeyMaterial {
    /// Key of the block cipher.
    pub cipher_key: Vec<u8>,
    /// Key of the message authentication code.
    pub mac_key: Vec<u8>,
}

impl KeyMaterial {
    /// Both keys have the size that AES-256 and the MAC are used with.
    pub open spec fn wf(&self) -> bool {
        self.cipher_key@.len() == KEY_LEN && self.mac_key@.len() == KEY_LEN
    }

    /// The key material that `derive_key` gives for `secret`.
    pub open spec fn derived_from(&self, secret: Seq<u8>) -> bool {
        self.cipher_key@ == fit_key(secret) && self.mac_key@ == fit_key(secret)
    }
}

fn fit_to_key_len(secret: &[u8]) -> (r: Vec<u8>)
    ensures
        r@ == fit_key(secret@),
{
    let mut key: Vec<u8> = Vec::new();
    let mut i: usize = 0;
    while i < KEY_LEN
        invariant
            i <= KEY_LEN,
            key@.len() == i,
            forall|j: int| 0 <= j < i ==> key@[j] == fit_key(secret@)[j],
        decreases KEY_LEN - i,
    {
        if i < secret.len() {
            key.push(secret[i]);
        } else {
            key.push(0u8);
        }
        i = i + 1;
    }
    assert(key@ =~= fit_key(secret@));
    key
}

/// Derives the cipher key and the MAC key from a shared secret of any
/// length, by truncating it or right-padding it with zero bytes to
/// `KEY_LEN` bytes. Both keys are the same bytes.
pub fn derive_key(secret: &[u8]) -> (r: KeyMaterial)
    ensures
        r.wf(),
        r.derived_from(secret@),
{
    let cipher_key = fit_to_key_len(secret);
    let mac_key = fit_to_key_len(secret);
    KeyMaterial { cipher_key, mac_key }
}

} // verus!
