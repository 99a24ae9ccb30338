//! The data that requests carry and that the database stores. Fixed-size
//! hashes are held as byte arrays and 256-bit integers as four little-endian
//! 64-bit words, as `ethereum_types` lays them out.
use vstd::prelude::*;
use crate::text::{decimal, hex_lower};

verus! {

/// A 256-bit unsigned integer as four 64-bit words, least significant first.
#[derive(Clone, Copy, Debug)]
pub struct U256Value {
    pub limbs: [u64; 4],
}

impl U256Value {
    /// The number the words stand for.
    pub open spec fn value(self) -> nat {
        (self.limbs[0] as nat) + (self.limbs[1] as nat) * 0x1_0000_0000_0000_0000nat
            + (self.limbs[2] as nat) * 0x1_0000_0000_0000_0000_0000_0000_0000_0000nat
            + (self.limbs[3] as nat) * 0x1_0000_0000_0000_0000_0000_0000_0000_0000_0000_0000_0000_0000nat
    }

    /// The integer `n`.
    pub fn from_u64(n: u64) -> (res: U256Value)
        ensures
            res.value() == n,
    {
        U256Value { limbs: [n, 0, 0, 0] }
    }
}

/// `Display` of `ethereum_types::U256`: the decimal digits of the number, and
/// `"0"` for zero.
#[verifier::external_body]
pub(crate) fn u256_decimal(v: &U256Value) -> (res: String)
    ensures
        res@ == decimal(v.value()),
{
    ethereum_types::U256(v.limbs).to_string()
}

/// The short form in which `ethereum_types` hashes display themselves: `0x`,
/// the first two bytes in lower-case hexadecimal, an ellipsis, and the last
/// two bytes.
pub open spec fn short_hex(bytes: Seq<u8>) -> Seq<char> {
    "0x"@ + hex_lower(bytes.take(2)) + "\u{2026}"@ + hex_lower(bytes.skip(bytes.len() - 2))
}

/// The full form in which `ethereum_types` hashes debug-print themselves:
/// `0x` and every byte in lower-case hexadecimal.
pub open spec fn full_hex(bytes: Seq<u8>) -> Seq<char> {
    "0x"@ + hex_lower(bytes)
}

/// `Display` of `ethereum_types::H160` (an address): the short form.
#[verifier::external_body]
pub(crate) fn address_text(bytes: &[u8; 20]) -> (res: String)
    ensures
        res@ == short_hex(bytes@),
{
    ethereum_types::H160(*bytes).to_string()
}

/// `Display` of `ethereum_types::H512` (a public key): the short form.
#[verifier::external_body]
pub(crate) fn public_key_text(bytes: &[u8; 64]) -> (res: String)
    ensures
        res@ == short_hex(bytes@),
{
    ethereum_types::H512(*bytes).to_string()
}

/// `Display` of `ethereum_types::H520` (a signature): the short form.
#[verifier::external_body]
pub(crate) fn signature_text(bytes: &[u8; 65]) -> (res: String)
    ensures
        res@ == short_hex(bytes@),
{
    ethereum_types::H520(*bytes).to_string()
}

/// `{:#?}` of `ethereum_types::H520`: its `Debug` writes `{:#x}` whatever the
/// flags, which is the full form.
#[verifier::external_body]
pub(crate) fn signature_debug_text(bytes: &[u8; 65]) -> (res: String)
    ensures
        res@ == full_hex(bytes@),
{
    format!("{:#?}", ethereum_types::H520(*bytes))
}

/// What a maker signs when placing an order.
#[derive(Debug)]
pub struct MakeOrderContractDataStruct {
    pub is_order_ask: bool,
    pub signer: String,
    pub collection: String,
    pub price: U256Value,
    pub token_id: U256Value,
    pub amount: U256Value,
    pub strategy: String,
    pub currency: String,
    pub nonce: U256Value,
    pub start_time: U256Value,
    pub end_time: U256Value,
    pub min_percentage_to_ask: U256Value,
    pub params: String,
}

/// A maker order as it is submitted: the signature and the signed data.
#[derive(Debug)]
pub struct MakeOrderStorageStruct {
    pub signed_msg: [u8; 65],
    pub order_data: MakeOrderContractDataStruct,
}

/// A user's registration request.
#[derive(Debug)]
pub struct UserAuthenticationSetup {
    pub user_pubkey: [u8; 64],
    pub user_address: [u8; 20],
    pub signature: [u8; 65],
    pub signed_msg: String,
    pub email: Option<String>,
    pub twitter: Option<String>,
}

/// A row of the `orders` table. `makerorder` holds the order data as JSON text.
#[derive(Debug)]
pub struct Orders {
    pub uuid: String,
    pub signer: String,
    pub collection: String,
    pub price: String,
    pub token_id: String,
    pub amount: String,
    pub end_time: String,
    pub is_order_ask: bool,
    pub signed_msg: String,
    pub makerorder: String,
    pub active: bool,
}

/// A row of the `auth` table.
#[derive(Debug)]
pub struct Auth {
    pub user_pubkey: String,
    pub user_address: String,
    pub email: Option<String>,
    pub twitter: Option<String>,
}

} // verus!
