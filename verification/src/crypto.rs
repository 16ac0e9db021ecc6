//! Values that can be encrypted with a key, and a message that is masked
//! with the first byte of its key as an example.

use vstd::prelude::*;
use vstd::string::*;
use crate::text::{decimal, to_decimal};
use vstd::utf8::encode_utf8;

verus! {

/// The text that stands for `count` encoded bytes.
pub open spec fn encoded_text(count: nat) -> Seq<char> {
    "base64_encoded_"@ + decimal(count) + "_bytes"@
}

/// A stand-in for an encoding: the text names the number of bytes and
/// nothing of their content.
pub fn base64_encode(data: &[u8]) -> (r: String)
    ensures
        r@ == encoded_text(data@.len()),
{
    let mut text: String = "base64_encoded_".to_owned();
    text.append(to_decimal(data.len() as u64).as_str());
    text.append("_bytes");
    text
}

/// The text that `String::from_utf8_lossy` makes of bytes.
pub uninterp spec fn lossy_text(bytes: Seq<u8>) -> Seq<char>;

/// Calls `String::from_utf8_lossy`. The UTF-8 bytes of a text give that
/// text back; in other input each invalid part is replaced by U+FFFD, which
/// the contract leaves to the name.
#[verifier::external_body]
fn text_from_utf8_lossy(bytes: &[u8]) -> (r: String)
    ensures
        r@ == lossy_text(bytes@),
        forall|text: Seq<char>| bytes@ == #[trigger] encode_utf8(text) ==> r@ == text,
{
    String::from_utf8_lossy(bytes).to_string()
}

/// The byte that masks a message: the first byte of the key, or zero for
/// an empty key.
pub open spec fn key_byte(key: Seq<u8>) -> u8 {
    if key.len() > 0 {
        key[0]
    } else {
        0
    }
}

/// Every byte combined with `mask` by exclusive or.
pub open spec fn masked(bytes: Seq<u8>, mask: u8) -> Seq<u8> {
    Seq::new(bytes.len(), |i: int| bytes[i] ^ mask)
}

/// Something that can be turned into bytes with a key and back.
pub trait Encryptable: Sized {
    type Key;

    type Error;

    /// True when `result` is what encrypting this value with `key` gives.
    spec fn encrypted(&self, key: &Self::Key, result: Result<Seq<u8>, Self::Error>) -> bool;

    /// True when `result` is what decrypting `data` with `key` gives.
    spec fn decrypted(data: Seq<u8>, key: &Self::Key, result: Result<Self, Self::Error>) -> bool;

    /// Encrypts this value.
    fn encrypt(&self, key: &Self::Key) -> (r: Result<Vec<u8>, Self::Error>)
        ensures
            self.encrypted(
                key,
                match r {
                    Ok(bytes) => Ok(bytes@),
                    Err(e) => Err(e),
                },
            ),
    ;

    /// Decrypts a value.
    fn decrypt(data: &[u8], key: &Self::Key) -> (r: Result<Self, Self::Error>)
        ensures
            Self::decrypted(data@, key, r),
    ;

    /// Encrypts this value and encodes the bytes as text.
    fn encrypt_to_string(&self, key: &Self::Key) -> (r: Result<String, Self::Error>)
        ensures
            match r {
                Ok(text) => exists|bytes: Seq<u8>|
                    #[trigger] self.encrypted(key, Ok(bytes)) && text@ == encoded_text(bytes.len()),
                Err(e) => self.encrypted(key, Err(e)),
            },
    {
        match self.encrypt(key) {
            Ok(bytes) => {
                let text = base64_encode(bytes.as_slice());
                Ok(text)
            },
            Err(e) => Err(e),
        }
    }
}

/// A text message.
#[derive(Debug, Clone)]
pub struct Message(pub String);

/// A key; only its first byte is used.
#[derive(Debug, Clone)]
pub struct SimpleKey(pub String);

/// The error of encrypting or decrypting a message. It never occurs.
#[derive(Debug, Clone, Copy, PartialEq, Eq, Structural)]
pub struct CryptoError;

/// The first byte of a key, or zero.
fn first_byte(key: &SimpleKey) -> (mask: u8)
    ensures
        mask == key_byte(encode_utf8(key.0@)),
{
    let bytes: &[u8] = key.0.as_str().as_bytes();
    if bytes.len() > 0 {
        bytes[0]
    } else {
        0
    }
}

/// Masks every byte.
fn mask_bytes(data: &[u8], mask: u8) -> (out: Vec<u8>)
    ensures
        out@ == masked(data@, mask),
{
    let mut out: Vec<u8> = Vec::new();
    let mut i: usize = 0;
    while i < data.len()
        invariant
            i <= data@.len(),
            out@.len() == i,
            forall|j: int| 0 <= j < i ==> out@[j] == data@[j] ^ mask,
        decreases data@.len() - i,
    {
        out.push(data[i] ^ mask);
        i = i + 1;
    }
    out
}

/// Masking twice with the same byte gives the bytes back.
pub proof fn lemma_mask_twice(bytes: Seq<u8>, mask: u8)
    ensures
        masked(masked(bytes, mask), mask) == bytes,
{
    assert forall|i: int| 0 <= i < bytes.len() implies masked(masked(bytes, mask), mask)[i]
        == bytes[i] by {
        let b = bytes[i];
        assert((b ^ mask) ^ mask == b) by (bit_vector);
    }
    assert(masked(masked(bytes, mask), mask) =~= bytes);
}

impl Encryptable for Message {
    type Key = SimpleKey;

    type Error = CryptoError;

    /// The bytes of the text in UTF-8, masked with the key's byte.
    open spec fn encrypted(&self, key: &SimpleKey, result: Result<Seq<u8>, CryptoError>) -> bool {
        result == Ok::<Seq<u8>, CryptoError>(
            masked(encode_utf8(self.0@), key_byte(encode_utf8(key.0@))),
        )
    }

    /// The text that the unmasked bytes stand for. What `encrypt` made of
    /// a message with the same key is decrypted to that message.
    open spec fn decrypted(data: Seq<u8>, key: &SimpleKey, result: Result<Message, CryptoError>) -> bool {
        &&& result is Ok
        &&& result->Ok_0.0@ == lossy_text(masked(data, key_byte(encode_utf8(key.0@))))
        &&& forall|text: Seq<char>|
            data == masked(#[trigger] encode_utf8(text), key_byte(encode_utf8(key.0@)))
                ==> result->Ok_0.0@ == text
    }

    fn encrypt(&self, key: &SimpleKey) -> (r: Result<Vec<u8>, CryptoError>) {
        let mask: u8 = first_byte(key);
        Ok(mask_bytes(self.0.as_str().as_bytes(), mask))
    }

    fn decrypt(data: &[u8], key: &SimpleKey) -> (r: Result<Message, CryptoError>) {
        let mask: u8 = first_byte(key);
        let plain: Vec<u8> = mask_bytes(data, mask);
        let text: String = text_from_utf8_lossy(plain.as_slice());
        proof {
            assert forall|t: Seq<char>| data@ == masked(#[trigger] encode_utf8(t), mask) implies text@
                == t by {
                lemma_mask_twice(encode_utf8(t), mask);
            }
        }
        Ok(Message(text))
    }
}

} // verus!
