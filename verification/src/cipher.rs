//! The repeating-key byte cipher: every ciphertext byte is the plaintext byte
//! plus the key byte at the same position modulo the key's length, modulo 256.

use vstd::prelude::*;
use vstd::arithmetic::div_mod::lemma_mod_multiples_vanish;

verus! {

/// Number of bytes in a cipher key.
pub const KEY_LEN: usize = 42;

/// The plaintext byte behind ciphertext byte `c` under key byte `k`.
pub open spec fn plain_byte(c: u8, k: u8) -> u8 {
    ((c - k) % 256) as u8
}

/// The ciphertext byte that stands for plaintext byte `p` under key byte `k`.
pub open spec fn cipher_byte(p: u8, k: u8) -> u8 {
    ((p + k) % 256) as u8
}

/// The plaintext of `cipher` under the repeating key `key`.
pub open spec fn decrypted(cipher: Seq<u8>, key: Seq<u8>) -> Seq<u8> {
    Seq::new(cipher.len(), |i: int| plain_byte(cipher[i], key[i % (key.len() as int)]))
}

/// The ciphertext of `plain` under the repeating key `key`.
pub open spec fn encrypted(plain: Seq<u8>, key: Seq<u8>) -> Seq<u8> {
    Seq::new(plain.len(), |i: int| cipher_byte(plain[i], key[i % (key.len() as int)]))
}

/// Decrypts `cipher` with the repeating key `key`, position 0 of the
/// ciphertext meeting position 0 of the key.
pub fn decrypt(cipher: &[u8], key: &[u8; 42]) -> (plain: Vec<u8>)
    ensures
        plain@ == decrypted(cipher@, key@),
{
    let mut plain: Vec<u8> = Vec::new();
    let mut i: usize = 0;
    while i < cipher.len()
        invariant
            i <= cipher.len(),
            plain.len() == i,
            forall|j: int| 0 <= j < i ==> plain[j] == plain_byte(cipher[j], key[j % 42]),
        decreases cipher.len() - i,
    {
        plain.push(cipher[i].wrapping_sub(key[i % KEY_LEN]));
        i += 1;
    }
    plain
}

/// Decrypting undoes encrypting with the same key, whatever the plaintext
/// and the key.
pub proof fn lemma_decrypt_inverts_encrypt(plain: Seq<u8>, key: Seq<u8>)
    ensures
        decrypted(encrypted(plain, key), key) == plain,
{
    assert(decrypted(encrypted(plain, key), key) =~= plain);
}

/// A plaintext byte depends on nothing but the ciphertext byte at its
/// position and the key byte at that position modulo the key's length.
pub proof fn lemma_byte_depends_on_position(
    cipher_a: Seq<u8>,
    key_a: Seq<u8>,
    cipher_b: Seq<u8>,
    key_b: Seq<u8>,
    i: int,
)
    requires
        0 <= i < cipher_a.len(),
        i < cipher_b.len(),
        key_a.len() == key_b.len(),
        key_a.len() > 0,
        cipher_a[i] == cipher_b[i],
        key_a[i % (key_a.len() as int)] == key_b[i % (key_b.len() as int)],
    ensures
        decrypted(cipher_a, key_a)[i] == decrypted(cipher_b, key_b)[i],
{
}

/// The key stream repeats with the key's length: a ciphertext that lost
/// whole key lengths from its front decrypts to the plaintext that lost as
/// many bytes from its front.
pub proof fn lemma_key_stream_repeats(cipher: Seq<u8>, key: Seq<u8>, periods: nat)
    requires
        key.len() > 0,
        periods * key.len() <= cipher.len(),
    ensures
        decrypted(cipher.skip((periods * key.len()) as int), key) == decrypted(
            cipher,
            key,
        ).skip((periods * key.len()) as int),
{
    let n = key.len() as int;
    let shift = periods * n;
    let short = decrypted(cipher.skip(shift), key);
    let long = decrypted(cipher, key).skip(shift);
    assert(short.len() == long.len());
    assert forall|i: int| 0 <= i < short.len() implies short[i] == long[i] by {
        assert(i + shift == n * periods + i) by (nonlinear_arith)
            requires
                shift == periods * n,
        ;
        lemma_mod_multiples_vanish(periods as int, i, n);
    }
    assert(short =~= long);
}

} // verus!
