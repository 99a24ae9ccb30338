//! Ethereum personal-message signing: the prefixed preimage of a message and
//! its Keccak-256 digest, the hexadecimal decoding of signatures, and the
//! recovery of the signing address.
use vstd::prelude::*;
use vstd::utf8::encode_utf8;
use crate::text::{append_decimal, decimal};

verus! {

/// Keccak-256 of a byte string, as computed by `web3::signing::keccak256`.
pub uninterp spec fn keccak256_digest(data: Seq<u8>) -> Seq<u8>;

/// `web3::signing::keccak256`: the Keccak-256 digest of `data` (a function of
/// the bytes alone). Nothing about the digest's value is stated.
#[verifier::external_body]
fn keccak256(data: &[u8]) -> (res: [u8; 32])
    ensures
        res@ == keccak256_digest(data@),
{
    web3::signing::keccak256(data)
}

/// The text that is hashed for a personal message: the fixed prefix, the
/// message's length in UTF-8 bytes written in decimal, and the message.
pub open spec fn eth_signed_text(message: Seq<char>) -> Seq<char> {
    "\x19Ethereum Signed Message:\n"@ + decimal(encode_utf8(message).len()) + message
}

/// The digest that an Ethereum wallet signs for `message`: Keccak-256 of the
/// UTF-8 bytes of `eth_signed_text(message)`.
pub fn eth_message(message: String) -> (res: [u8; 32])
    ensures
        res@ == keccak256_digest(encode_utf8(eth_signed_text(message@))),
{
    let mut text = String::new();
    text.append("\x19Ethereum Signed Message:\n");
    let len = message.as_str().as_bytes().len();
    append_decimal(&mut text, len);
    text.append(message.as_str());
    let bytes = text.as_str().as_bytes();
    keccak256(bytes)
}

/// The hashed text of a message ends with the whole message, unchanged,
/// and what precedes it is the fixed prefix followed by the decimal byte
/// length of the whole message in UTF-8.
pub proof fn eth_signed_text_ends_with_message(message: Seq<char>)
    ensures
        eth_signed_text(message).len() >= message.len(),
        eth_signed_text(message).skip(eth_signed_text(message).len() - message.len()) == message,
        eth_signed_text(message).take(eth_signed_text(message).len() - message.len())
            == "\x19Ethereum Signed Message:\n"@ + decimal(encode_utf8(message).len()),
{
    let head = "\x19Ethereum Signed Message:\n"@ + decimal(encode_utf8(message).len());
    let t = eth_signed_text(message);
    assert(t =~= head + message);
    assert(t.skip(head.len() as int) =~= message);
    assert(t.take(head.len() as int) =~= head);
}

/// An ASCII hexadecimal digit of either case.
pub open spec fn is_hex_digit_byte(c: u8) -> bool {
    (48 <= c <= 57) || (65 <= c <= 70) || (97 <= c <= 102)
}

/// The value of an ASCII hexadecimal digit.
pub open spec fn hex_value(c: u8) -> int {
    if c <= 57 {
        c - 48
    } else if c <= 70 {
        c - 55
    } else {
        c - 87
    }
}

/// Hexadecimal decoding: defined on input of even length made of hexadecimal
/// digits only, each pair giving one byte, high digit first.
pub open spec fn hex_decoded(data: Seq<u8>) -> Option<Seq<u8>> {
    if data.len() % 2 == 0 && forall|i: int| 0 <= i < data.len() ==> is_hex_digit_byte(#[trigger] data[i]) {
        Some(Seq::new(data.len() / 2, |i: int| (hex_value(data[2 * i]) * 16 + hex_value(data[2 * i + 1])) as u8))
    } else {
        None
    }
}

/// `hex::decode`: fails with `OddLength` on input of odd length and with
/// `InvalidHexCharacter` when some byte is not a hexadecimal digit (upper or
/// lower case); otherwise returns one byte per pair of digits. The error is
/// handed back as `None`.
#[verifier::external_body]
pub(crate) fn hex_decode(data: &[u8]) -> (res: Option<Vec<u8>>)
    ensures
        match res {
            Some(v) => hex_decoded(data@) == Some(v@),
            None => hex_decoded(data@) is None,
        },
{
    hex::decode(data).ok()
}

/// The address that `web3::signing::recover` recovers from a 32-byte message
/// digest, a 64-byte compact signature and a recovery id, or `None` where it
/// reports an error.
pub uninterp spec fn recovered_address(message: Seq<u8>, signature: Seq<u8>, recovery_id: int) -> Option<Seq<u8>>;

/// `web3::signing::recover`: secp256k1 public-key recovery followed by the
/// Keccak-based address derivation; its result depends on the three arguments
/// alone and is named, not described. An error is handed back as `None`.
#[verifier::external_body]
pub(crate) fn recover_address(message: &[u8], signature: &[u8], recovery_id: i32) -> (res: Option<[u8; 20]>)
    ensures
        match res {
            Some(a) => recovered_address(message@, signature@, recovery_id as int) == Some(a@),
            None => recovered_address(message@, signature@, recovery_id as int) is None,
        },
{
    web3::signing::recover(message, signature, recovery_id).ok().map(|a| a.0)
}

} // verus!
