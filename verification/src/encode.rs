//! Trusted encodings of cross-contract call arguments.
//!
//! The registry hands a deployed resolver its arguments as JSON and prices a
//! deployment from the Borsh size of those arguments.  The two encoders
//! below are the only outside calls the verified logic makes; each contract
//! states exactly what the encoder returns on the inputs it is used with.

use vstd::prelude::*;

verus! {

/// Characters a JSON string encoder emits verbatim: printable ASCII without
/// the quote and the backslash.  Account names are drawn from a far smaller
/// alphabet, so every argument the registry encodes satisfies this.
pub open spec fn ascii_no_escape(s: Seq<char>) -> bool {
    forall|i: int|
        0 <= i < s.len() ==> 32 <= (#[trigger] s[i]) as int <= 126 && s[i] != '"' && s[i] != '\\'
}

/// The little-endian four-byte image of a length.
pub open spec fn le_bytes32(n: nat) -> Seq<u8> {
    seq![
        (n % 256) as u8,
        ((n / 256) % 256) as u8,
        ((n / 65536) % 256) as u8,
        ((n / 16777216) % 256) as u8,
    ]
}

/// Relies on serde_json's serializer for a one-entry object of strings: on
/// text that needs no escaping it returns `{"owner_id":"<owner>"}` verbatim.
#[verifier::external_body]
pub(crate) fn json_owner_args(owner_id: &String) -> (r: String)
    requires
        ascii_no_escape(owner_id@),
    ensures
        r@ == "{\"owner_id\":\""@ + owner_id@ + "\"}"@,
{
    let mut obj = serde_json::Map::new();
    obj.insert("owner_id".to_string(), serde_json::Value::String(owner_id.clone()));
    serde_json::Value::Object(obj).to_string()
}

/// Relies on borsh's `BorshSerialize` for `String`: a four-byte
/// little-endian length prefix followed by the UTF-8 bytes, which for ASCII
/// text are the characters themselves.
#[verifier::external_body]
pub(crate) fn borsh_owner_args(owner_id: &String) -> (r: Vec<u8>)
    requires
        ascii_no_escape(owner_id@),
        owner_id@.len() <= u32::MAX,
    ensures
        r@ == le_bytes32(owner_id@.len()) + owner_id@.map_values(|c: char| c as u8),
{
    borsh::to_vec(owner_id).unwrap()
}

} // verus!
