use vstd::prelude::*;
use vstd::string::*;
use vstd::utf8::*;
use crate::error::XnsError;
use crate::parser::{decode_uri, spec_decoded_uri};
use std::collections::HashMap;

verus! {

/// Memo type under which address records are stored.
pub const XNS_ADDRESSES_MEMO_TYPE: &'static str = "XNS_ADDRESSES";

/// An address on another chain.
#[derive(Debug, Clone)]
pub struct AddressRecord {
    /// Chain symbol (BTC, ETH, ...).
    pub symbol: String,
    pub address: String,
    pub label: Option<String>,
}

#[derive(Debug, Clone)]
pub struct TransactionMemo {
    pub memo: MemoData,
}

/// A memo's type and data, both hex-encoded.
#[derive(Debug, Clone)]
pub struct MemoData {
    pub memo_type: String,
    pub memo_data: String,
}

/// An unsigned self-payment of one drop that carries address records in a
/// memo.
#[derive(Debug, Clone)]
pub struct AddressStorageTransaction {
    pub transaction_type: String,
    pub account: String,
    pub destination: String,
    pub amount: String,
    pub memos: Vec<TransactionMemo>,
}

pub open spec fn hex_digit(v: int) -> u8 {
    if v < 10 {
        (48 + v) as u8
    } else {
        (87 + v) as u8
    }
}

/// Lower-case hex of bytes, as bytes of text: two digits per byte, high
/// digit first.
pub open spec fn hex_encoding(b: Seq<u8>) -> Seq<u8> {
    Seq::new(
        2 * b.len(),
        |i: int|
            if i % 2 == 0 {
                hex_digit(b[i / 2] as int / 16)
            } else {
                hex_digit(b[i / 2] as int % 16)
            },
    )
}

/// Relies on hex::encode: two lower-case digits per byte, high digit first.
#[verifier::external_body]
fn encode_hex(text: &str) -> (r: String)
    ensures
        encode_utf8(r@) == hex_encoding(text.spec_bytes()),
{
    hex::encode(text)
}

/// Relies on serde_json::to_string on a string map: the map as a JSON object.
/// It fails only on a failing `Serialize` impl or a map with non-string
/// keys, neither of which a map of strings has. Its key order follows the
/// map's iteration order, so nothing is said of the text.
#[verifier::external_body]
fn addresses_json(addresses: &HashMap<String, String>) -> (r: Result<String, String>)
    ensures
        r is Ok,
{
    serde_json::to_string(addresses).map_err(|e| e.to_string())
}

impl AddressStorageTransaction {
    /// A transaction from `account` to itself carrying `addresses`, as hex
    /// JSON, in one memo of the address-record type.
    pub fn new(account: String, addresses: HashMap<String, String>) -> (r: Result<
        Self,
        XnsError,
    >)
        ensures
            r is Ok,
            r is Ok ==> {
                let tx = r->Ok_0;
                &&& tx.transaction_type@ == "Payment"@
                &&& tx.account@ == account@
                &&& tx.destination@ == account@
                &&& tx.amount@ == "1"@
                &&& tx.memos@.len() == 1
                &&& encode_utf8(tx.memos@[0].memo.memo_type@) == hex_encoding(
                    encode_utf8("XNS_ADDRESSES"@),
                )
                &&& exists|json: Seq<char>|
                    encode_utf8(tx.memos@[0].memo.memo_data@) == hex_encoding(encode_utf8(json))
            },
    {
        let json = addresses_json(&addresses).unwrap();
        let memo_data = encode_hex(json.as_str());
        let memo_type = encode_hex(XNS_ADDRESSES_MEMO_TYPE);
        let mut memos: Vec<TransactionMemo> = Vec::new();
        memos.push(TransactionMemo { memo: MemoData { memo_type, memo_data } });
        let destination = account.clone();
        Ok(AddressStorageTransaction {
            transaction_type: String::from_str("Payment"),
            account,
            destination,
            amount: String::from_str("1"),
            memos,
        })
    }
}

/// Reading of address records stored in memos.
pub struct MemoStorage {}

impl MemoStorage {
    /// The text of a hex-encoded memo.
    pub fn decode_memo(memo_hex: &str) -> (r: Result<String, XnsError>)
        ensures
            spec_decoded_uri(memo_hex.spec_bytes()) is Some ==> r is Ok && r->Ok_0@
                == spec_decoded_uri(memo_hex.spec_bytes())->0,
            spec_decoded_uri(memo_hex.spec_bytes()) is None ==> (r matches Err(
                XnsError::ParseError(_),
            )),
    {
        decode_uri(memo_hex)
    }
}

} // verus!
