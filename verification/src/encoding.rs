//! The texts at the query boundary.
//!
//! Every number of the chain is written as `0x` and its hexadecimal digits,
//! without leading zeros; every hash and byte string as `0x` and two
//! hexadecimal digits for each byte. Texts are written in lower case and read
//! in either case.
//!
//! The chain's own libraries write and read the texts. What they write is
//! stated here digit by digit. What a hash text denotes is stated too; what a
//! number's text denotes is named after the reader, as is the message with
//! which a reader turns a text down.

use vstd::prelude::*;
use vstd::string::*;
use crate::types::{DepType, H256, is_hash_type};

verus! {

/// The lower-case hexadecimal digit of a value below sixteen.
pub open spec fn hex_digit(value: int) -> char {
    seq!['0', '1', '2', '3', '4', '5', '6', '7', '8', '9', 'a', 'b', 'c', 'd', 'e', 'f'][value]
}

/// Two hexadecimal digits for each byte, the high half of the byte first.
pub open spec fn hex_of_bytes(bytes: Seq<u8>) -> Seq<char> {
    Seq::new(
        2 * bytes.len(),
        |i: int|
            if i % 2 == 0 {
                hex_digit(bytes[i / 2] as int / 16)
            } else {
                hex_digit(bytes[i / 2] as int % 16)
            },
    )
}

/// The text of a byte string: `0x`, then its hexadecimal digits.
pub open spec fn bytes_text(bytes: Seq<u8>) -> Seq<char> {
    seq!['0', 'x'] + hex_of_bytes(bytes)
}

/// The hexadecimal digits of a number, without leading zeros (`0` for zero).
pub open spec fn hex_of_number(n: nat) -> Seq<char>
    decreases n,
{
    if n < 16 {
        seq![hex_digit(n as int)]
    } else {
        hex_of_number(n / 16).push(hex_digit((n % 16) as int))
    }
}

/// The text of a number: `0x`, then its hexadecimal digits.
pub open spec fn quantity_text(n: nat) -> Seq<char> {
    seq!['0', 'x'] + hex_of_number(n)
}

/// The decimal digit of a value below ten.
pub open spec fn decimal_digit(value: int) -> char {
    seq!['0', '1', '2', '3', '4', '5', '6', '7', '8', '9'][value]
}

/// The decimal digits of a number, without leading zeros (`0` for zero).
pub open spec fn decimal_text(n: nat) -> Seq<char>
    decreases n,
{
    if n < 10 {
        seq![decimal_digit(n as int)]
    } else {
        decimal_text(n / 10).push(decimal_digit((n % 10) as int))
    }
}

/// The text of a dep type.
pub open spec fn dep_type_text(dep_type: DepType) -> Seq<char> {
    match dep_type {
        DepType::Code => "code"@,
        DepType::DepGroup => "dep_group"@,
    }
}

/// The text of the hash type that a byte stands for: `type` for byte 1,
/// `data` for byte 0, and for another even byte `data` and half of the byte in
/// decimal digits.
pub open spec fn hash_type_text(byte: u8) -> Seq<char> {
    if byte == 1 {
        "type"@
    } else if byte == 0 {
        "data"@
    } else {
        "data"@ + decimal_text((byte / 2) as nat)
    }
}

/// The value of a hexadecimal digit of either case, if the character is one.
pub open spec fn hex_digit_value(c: char) -> Option<int> {
    if '0' <= c && c <= '9' {
        Some(c as int - '0' as int)
    } else if 'a' <= c && c <= 'f' {
        Some(c as int - 'a' as int + 10)
    } else if 'A' <= c && c <= 'F' {
        Some(c as int - 'A' as int + 10)
    } else {
        None
    }
}

/// Whether a text is `0x` followed by exactly 64 hexadecimal digits.
pub open spec fn is_hash_text(text: Seq<char>) -> bool {
    &&& text.len() == 66
    &&& text[0] == '0'
    &&& text[1] == 'x'
    &&& forall|i: int| 2 <= i < 66 ==> (#[trigger] hex_digit_value(text[i])) is Some
}

/// The bytes that a hash text denotes: one for each pair of digits.
pub open spec fn hash_text_bytes(text: Seq<char>) -> Seq<u8> {
    Seq::new(
        32,
        |i: int|
            (hex_digit_value(text[2 + 2 * i]).unwrap() * 16 + hex_digit_value(
                text[3 + 2 * i],
            ).unwrap()) as u8,
    )
}

/// The hash that has the given bytes.
pub open spec fn hash_of(bytes: Seq<u8>) -> H256 {
    choose|hash: H256| hash@ == bytes
}

/// A text between double quotes: the JSON document that holds the text as a
/// string, as far as the text needs no escaping.
pub open spec fn quoted(text: Seq<char>) -> Seq<char> {
    seq!['"'] + text + seq!['"']
}

/// The message with which `serde_plain` turns down a text that is no `H256`.
pub uninterp spec fn hash_rejection(text: Seq<char>) -> Seq<char>;

/// The message with which `serde_plain` turns down a text that is no `Byte32`.
pub uninterp spec fn byte32_rejection(text: Seq<char>) -> Seq<char>;

/// What `serde_json` reads from a document as a `Uint32`: the number, or the
/// message of its error.
pub uninterp spec fn json_uint32(document: Seq<char>) -> Result<u32, Seq<char>>;

/// What `serde_json` reads from a document as a `Uint64`: the number, or the
/// message of its error.
pub uninterp spec fn json_uint64(document: Seq<char>) -> Result<u64, Seq<char>>;

/// What a text denotes as a transaction hash: its bytes where it is a hash
/// text, else the message with which it is turned down as an `H256`.
pub open spec fn hash_from_text(text: Seq<char>) -> Result<H256, Seq<char>> {
    if is_hash_text(text) {
        Ok(hash_of(hash_text_bytes(text)))
    } else {
        Err(hash_rejection(text))
    }
}

/// What a text denotes as a block hash: its bytes where it is a hash text,
/// else the message with which it is turned down as a `Byte32`.
pub open spec fn byte32_from_text(text: Seq<char>) -> Result<H256, Seq<char>> {
    if is_hash_text(text) {
        Ok(hash_of(hash_text_bytes(text)))
    } else {
        Err(byte32_rejection(text))
    }
}

/// What a text denotes as a block number: what is read as a `Uint64` from the
/// text between double quotes.
pub open spec fn number_from_text(text: Seq<char>) -> Result<u64, Seq<char>> {
    json_uint64(quoted(text))
}

/// What a text denotes as an output index: what is read as a `Uint32` from the
/// text between double quotes.
pub open spec fn index_from_text(text: Seq<char>) -> Result<u32, Seq<char>> {
    json_uint32(quoted(text))
}

/// The view of what a reader made of a text.
pub open spec fn parsed_view<T>(parsed: Result<T, String>) -> Result<T, Seq<char>> {
    match parsed {
        Ok(value) => Ok(value),
        Err(message) => Err(message@),
    }
}

/// Calls `serde_plain::to_string` on a `ckb_jsonrpc_types::Uint128`, whose
/// `Serialize` writes `0x{:x}`: the prefix and the lower-case hexadecimal
/// digits of the number, without leading zeros.
#[verifier::external_body]
pub(crate) fn render_quantity(value: u128) -> (text: String)
    ensures
        text@ == quantity_text(value as nat),
{
    serde_plain::to_string(&ckb_jsonrpc_types::Uint128::from(value)).expect("serde")
}

/// Calls `serde_plain::to_string` on a `ckb_jsonrpc_types::JsonBytes`, whose
/// `Serialize` writes `0x` and then `faster_hex::hex_encode` of the bytes: two
/// lower-case digits for each byte.
#[verifier::external_body]
pub(crate) fn render_bytes(bytes: &[u8]) -> (text: String)
    ensures
        text@ == bytes_text(bytes@),
{
    serde_plain::to_string(&ckb_jsonrpc_types::JsonBytes::from_vec(bytes.to_vec())).expect("serde")
}

/// Calls `serde_plain::to_string` on a `ckb_jsonrpc_types::DepType`, whose
/// `Serialize` writes the variant's name in snake case.
#[verifier::external_body]
pub(crate) fn render_dep_type(dep_type: DepType) -> (text: String)
    ensures
        text@ == dep_type_text(dep_type),
{
    let json = match dep_type {
        DepType::Code => ckb_jsonrpc_types::DepType::Code,
        DepType::DepGroup => ckb_jsonrpc_types::DepType::DepGroup,
    };
    serde_plain::to_string(&json).expect("serde")
}

/// Calls `serde_plain::to_string` on the `ckb_jsonrpc_types::ScriptHashType`
/// that a byte stands for, whose `Serialize` writes the variant's name in
/// snake case: `type`, `data`, or `data` and the machine's version. A byte
/// that stands for no hash type is left out: the conversion fails on it.
#[verifier::external_body]
pub(crate) fn render_hash_type(byte: u8) -> (text: String)
    requires
        is_hash_type(byte),
    ensures
        text@ == hash_type_text(byte),
{
    let kind = ckb_types::core::ScriptHashType::try_from(byte).expect("hash type");
    serde_plain::to_string(&ckb_jsonrpc_types::ScriptHashType::from(kind)).expect("serde")
}

/// Calls `serde_plain::from_str` for a `ckb_types::H256`, whose `Deserialize`
/// accepts exactly 66 bytes, `0x` and 64 hexadecimal digits of either case,
/// and reads each pair of digits as one byte. The error is handed out as its
/// message.
#[verifier::external_body]
pub(crate) fn parse_hash(text: &str) -> (parsed: Result<H256, String>)
    ensures
        match parsed {
            Ok(hash) => is_hash_text(text@) && hash@ == hash_text_bytes(text@),
            Err(message) => !is_hash_text(text@) && message@ == hash_rejection(text@),
        },
{
    serde_plain::from_str::<ckb_types::H256>(text).map(|hash| hash.0).map_err(|e| e.to_string())
}

/// Calls `serde_plain::from_str` for a `ckb_jsonrpc_types::Byte32`, whose
/// `Deserialize` accepts exactly 66 bytes, `0x` and 64 hexadecimal digits of
/// either case, and reads each pair of digits as one byte. The error is handed
/// out as its message.
#[verifier::external_body]
pub(crate) fn parse_byte32(text: &str) -> (parsed: Result<H256, String>)
    ensures
        match parsed {
            Ok(hash) => is_hash_text(text@) && hash@ == hash_text_bytes(text@),
            Err(message) => !is_hash_text(text@) && message@ == byte32_rejection(text@),
        },
{
    serde_plain::from_str::<ckb_jsonrpc_types::Byte32>(text).map(|hash| hash.0).map_err(
        |e| e.to_string(),
    )
}

/// Calls `serde_json::from_str` for a `ckb_jsonrpc_types::Uint32`. The error
/// is handed out as its message.
#[verifier::external_body]
pub(crate) fn parse_json_uint32(document: &str) -> (parsed: Result<u32, String>)
    ensures
        parsed_view(parsed) == json_uint32(document@),
{
    serde_json::from_str::<ckb_jsonrpc_types::Uint32>(document).map(|n| n.value()).map_err(
        |e| e.to_string(),
    )
}

/// Calls `serde_json::from_str` for a `ckb_jsonrpc_types::Uint64`. The error
/// is handed out as its message.
#[verifier::external_body]
pub(crate) fn parse_json_uint64(document: &str) -> (parsed: Result<u64, String>)
    ensures
        parsed_view(parsed) == json_uint64(document@),
{
    serde_json::from_str::<ckb_jsonrpc_types::Uint64>(document).map(|n| n.value()).map_err(
        |e| e.to_string(),
    )
}

/// A hash is the hash of its own bytes.
pub proof fn hash_of_own_bytes(hash: H256)
    ensures
        hash_of(hash@) == hash,
{
    assert(hash_of(hash@)@ == hash@);
    assert(hash_of(hash@) =~= hash);
}

/// Puts a text between double quotes.
pub fn quote(text: &str) -> (document: String)
    ensures
        document@ == quoted(text@),
{
    proof {
        reveal_strlit("\"");
    }
    let mut document = String::from_str("\"");
    document.append(text);
    document.append("\"");
    assert(document@ =~= quoted(text@));
    document
}

/// Reads a block number from its text.
pub fn read_number(text: &str) -> (parsed: Result<u64, String>)
    ensures
        parsed_view(parsed) == number_from_text(text@),
{
    let document = quote(text);
    parse_json_uint64(document.as_str())
}

/// Reads an output index from its text.
pub fn read_index(text: &str) -> (parsed: Result<u32, String>)
    ensures
        parsed_view(parsed) == index_from_text(text@),
{
    let document = quote(text);
    parse_json_uint32(document.as_str())
}

/// Reads a transaction hash from its text.
pub fn read_hash(text: &str) -> (parsed: Result<H256, String>)
    ensures
        parsed_view(parsed) == hash_from_text(text@),
{
    let parsed = parse_hash(text);
    proof {
        if let Ok(hash) = parsed {
            hash_of_own_bytes(hash);
        }
    }
    parsed
}

/// Reads a block hash from its text.
pub fn read_byte32(text: &str) -> (parsed: Result<H256, String>)
    ensures
        parsed_view(parsed) == byte32_from_text(text@),
{
    let parsed = parse_byte32(text);
    proof {
        if let Ok(hash) = parsed {
            hash_of_own_bytes(hash);
        }
    }
    parsed
}

/// The text of one decimal digit.
fn digit_str(value: u32) -> (text: &'static str)
    requires
        value < 10,
    ensures
        text@ == seq![decimal_digit(value as int)],
{
    proof {
        reveal_strlit("0");
        reveal_strlit("1");
        reveal_strlit("2");
        reveal_strlit("3");
        reveal_strlit("4");
        reveal_strlit("5");
        reveal_strlit("6");
        reveal_strlit("7");
        reveal_strlit("8");
        reveal_strlit("9");
    }
    let text = if value == 0 {
        "0"
    } else if value == 1 {
        "1"
    } else if value == 2 {
        "2"
    } else if value == 3 {
        "3"
    } else if value == 4 {
        "4"
    } else if value == 5 {
        "5"
    } else if value == 6 {
        "6"
    } else if value == 7 {
        "7"
    } else if value == 8 {
        "8"
    } else {
        "9"
    };
    assert(text@ =~= seq![decimal_digit(value as int)]);
    text
}

/// Writes a number in decimal digits.
pub fn render_decimal(value: u32) -> (text: String)
    ensures
        text@ == decimal_text(value as nat),
    decreases value,
{
    if value < 10 {
        String::from_str(digit_str(value))
    } else {
        let mut text = render_decimal(value / 10);
        text.append(digit_str(value % 10));
        assert(text@ =~= decimal_text(value as nat));
        text
    }
}

/// Whether two hashes are the same.
pub fn same_hash(a: &H256, b: &H256) -> (same: bool)
    ensures
        same == (*a == *b),
{
    let mut i: usize = 0;
    while i < 32
        invariant
            i <= 32,
            forall|j: int| 0 <= j < i ==> a[j] == b[j],
        decreases 32 - i,
    {
        if a[i] != b[i] {
            return false;
        }
        i += 1;
    }
    assert(*a =~= *b);
    true
}

} // verus!
