//! Base64, and the XOR encryption of code on its way to an interpreter.

use base64::Engine;
use rand::Rng;

use vstd::prelude::*;

verus! {

/// The standard base64 text of a sequence of bytes.
pub uninterp spec fn base64_encoded(bytes: Seq<u8>) -> Seq<char>;

/// What decoding a text as standard base64 gives: the bytes, or the decoder's message.
pub uninterp spec fn base64_decoded(text: Seq<char>) -> Result<Seq<u8>, Seq<char>>;

/// Whether a text decodes to these bytes.
pub open spec fn decodes_to(text: Seq<char>, bytes: Seq<u8>) -> bool {
    base64_decoded(text) == Ok::<Seq<u8>, Seq<char>>(bytes)
}

/// The characters that standard base64 uses, padding included.
pub open spec fn is_base64_char(c: char) -> bool {
    'A' <= c <= 'Z' || 'a' <= c <= 'z' || '0' <= c <= '9' || c == '+' || c == '/' || c == '='
}

/// Whether a text holds no other characters than those of base64.
pub open spec fn is_base64_text(text: Seq<char>) -> bool {
    forall|i: int| 0 <= i < text.len() ==> is_base64_char(#[trigger] text[i])
}

/// The length of the base64 text of `n` bytes: four characters for every three bytes
/// begun.
pub open spec fn base64_length(n: nat) -> nat {
    (n + 2) / 3 * 4
}

/// `Engine::encode` of `base64`'s `STANDARD` engine. The text has four characters for
/// every three bytes begun, all of them of the base64 alphabet or padding, and decodes to
/// the bytes. A text longer than `isize::MAX` cannot be allocated.
#[verifier::external_body]
pub(crate) fn base64_encode(bytes: &[u8]) -> (res: String)
    requires
        base64_length(bytes@.len()) <= isize::MAX,
    ensures
        res@ == base64_encoded(bytes@),
        res@.len() == base64_length(bytes@.len()),
        is_base64_text(res@),
        decodes_to(res@, bytes@),
{
    base64::engine::general_purpose::STANDARD.encode(bytes)
}

/// `Engine::decode` of `base64`'s `STANDARD` engine, with the error as its message. The
/// engine takes canonical base64 only (full padding, no stray bits), so a text that
/// decodes is the text of the bytes it decodes to, and as long as that. A `str` is never
/// longer than `isize::MAX` bytes.
#[verifier::external_body]
pub(crate) fn base64_decode(text: &str) -> (res: Result<Vec<u8>, String>)
    ensures
        match res {
            Ok(bytes) => base64_decoded(text@) matches Ok(b) && b == bytes@,
            Err(message) => base64_decoded(text@) matches Err(m) && m == message@,
        },
        res matches Ok(bytes) ==> base64_encoded(bytes@) == text@,
        res matches Ok(bytes) ==> base64_length(bytes@.len()) == text@.len(),
        res matches Ok(bytes) ==> base64_length(bytes@.len()) <= isize::MAX,
        res is Ok ==> is_base64_text(text@),
{
    base64::engine::general_purpose::STANDARD.decode(text).map_err(|e| e.to_string())
}

/// `Rng::fill_bytes` of `rand`'s thread-local generator: overwrites every byte. Nothing is
/// said of the values, nor of a system that cannot seed the generator, where it panics.
#[verifier::external_body]
fn fill_random(bytes: &mut Vec<u8>)
    ensures
        final(bytes)@.len() == old(bytes)@.len(),
{
    rand::rng().fill_bytes(bytes)
}

/// The bytes XORed with the key, which is repeated as often as needed.
pub open spec fn xored(bytes: Seq<u8>, key: Seq<u8>) -> Seq<u8> {
    Seq::new(bytes.len(), |i: int| bytes[i] ^ key[i % key.len() as int])
}

/// XOR-encrypts code bytes with a repeating key and returns the base64 of the ciphertext.
pub fn encrypt_code(code: &[u8], key: &[u8]) -> (res: String)
    requires
        code@.len() > 0 ==> key@.len() > 0,
        base64_length(code@.len()) <= isize::MAX,
    ensures
        res@ == base64_encoded(xored(code@, key@)),
        decodes_to(res@, xored(code@, key@)),
        is_base64_text(res@),
        res@.len() == base64_length(code@.len()),
        base64_decoded(res@) matches Ok(c) && c.len() == code@.len() && forall|i: int|
            0 <= i < c.len() ==> (#[trigger] c[i]) ^ key@[i % key@.len() as int] == code@[i],
{
    let mut encrypted: Vec<u8> = Vec::new();
    let mut i: usize = 0;
    while i < code.len()
        invariant
            i <= code@.len(),
            code@.len() > 0 ==> key@.len() > 0,
            encrypted@ == xored(code@, key@).take(i as int),
        decreases code@.len() - i,
    {
        let b = code[i] ^ key[i % key.len()];
        encrypted.push(b);
        assert(encrypted@ =~= xored(code@, key@).take(i + 1));
        i = i + 1;
    }
    assert(encrypted@ =~= xored(code@, key@));
    proof {
        xor_is_undone_by_the_key(code@, key@);
    }
    base64_encode(encrypted.as_slice())
}

/// Generates a random encryption key of `length` bytes.
pub fn generate_key(length: usize) -> (res: Vec<u8>)
    requires
        length <= isize::MAX,
    ensures
        res@.len() == length,
{
    let mut key: Vec<u8> = vec![0u8; length];
    fill_random(&mut key);
    key
}

/// XORing twice with one key gives the bytes back.
pub proof fn xored_twice(bytes: Seq<u8>, key: Seq<u8>)
    ensures
        xored(xored(bytes, key), key) == bytes,
{
    assert forall|i: int| 0 <= i < bytes.len() implies xored(xored(bytes, key), key)[i]
        == bytes[i] by {
        let b = bytes[i];
        let k = key[i % key.len() as int];
        assert((b ^ k) ^ k == b) by (bit_vector);
    }
    assert(xored(xored(bytes, key), key) =~= bytes);
}

/// Whoever has the key gets the code back: decoding what `encrypt_code` returns and
/// XORing it with the key gives the code.
pub proof fn encryption_is_reversible(text: Seq<char>, code: Seq<u8>, key: Seq<u8>)
    requires
        decodes_to(text, xored(code, key)),
    ensures
        base64_decoded(text) matches Ok(b) && xored(b, key) == code,
{
    xored_twice(code, key);
}

/// Every byte is XORed with the byte of the key at its place, the key repeated; a second
/// XOR with that byte gives it back.
pub proof fn xor_is_undone_by_the_key(bytes: Seq<u8>, key: Seq<u8>)
    ensures
        xored(bytes, key).len() == bytes.len(),
        forall|i: int|
            0 <= i < bytes.len() ==> (#[trigger] xored(bytes, key)[i]) == bytes[i] ^ key[i
                % key.len() as int],
        forall|i: int|
            0 <= i < bytes.len() ==> (#[trigger] xored(bytes, key)[i]) ^ key[i
                % key.len() as int] == bytes[i],
{
    assert forall|i: int| 0 <= i < bytes.len() implies (#[trigger] xored(bytes, key)[i]) ^ key[i
        % key.len() as int] == bytes[i] by {
        let b = bytes[i];
        let k = key[i % key.len() as int];
        assert((b ^ k) ^ k == b) by (bit_vector);
    }
}

/// What `encrypt_code` returns is base64 of as many bytes as the code has, and each of
/// them, XORed with the byte of the repeated key at its place, is that of the code.
pub proof fn encrypted_code_is_decrypted_by_the_key(code: &[u8], key: &[u8], res: String)
    requires
        key@.len() > 0,
        call_ensures(encrypt_code, (code, key), res),
    ensures
        base64_decoded(res@) matches Ok(c) && c.len() == code@.len() && forall|i: int|
            0 <= i < c.len() ==> (#[trigger] c[i]) ^ key@[i % key@.len() as int] == code@[i],
{
}

/// Base64 takes four characters for every three bytes, the last three begun included.
pub proof fn base64_grows_by_a_third(n: nat)
    ensures
        base64_length(n) % 4 == 0,
        3 * base64_length(n) >= 4 * n,
        3 * base64_length(n) < 4 * n + 12,
{
}

/// A key is as long as asked.
pub proof fn keys_are_as_long_as_asked(length: usize, res: Vec<u8>)
    requires
        call_ensures(generate_key, (length,), res),
    ensures
        res@.len() == length,
{
}

} // verus!
