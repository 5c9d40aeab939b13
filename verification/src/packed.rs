//! What the chain's own libraries compute for this crate: the hashes of cell
//! data and of scripts, the capacity that a cell occupies, and the list of
//! out-points that a dep group's cell data holds.

use vstd::prelude::*;
use ckb_types::prelude::{Builder, Entity, Unpack};
use crate::types::{H256, OutPoint, OutputRecord, OutputRecordView, Script, ScriptView};

verus! {

/// How many shannons one byte of storage costs.
pub const BYTE_SHANNONS: u64 = 100_000_000;

/// The capacity of a number of bytes, in shannons, where `u64` holds it.
pub open spec fn capacity_of_bytes(bytes: nat) -> Option<u64> {
    if bytes * BYTE_SHANNONS <= u64::MAX {
        Some((bytes * BYTE_SHANNONS) as u64)
    } else {
        None
    }
}

/// The bytes that a script occupies: its arguments, 32 bytes of code hash and
/// one of hash type.
pub open spec fn script_bytes(script: ScriptView) -> nat {
    script.args.len() + 33
}

/// The shannons that a cell occupies: 8 bytes for its capacity field, its lock,
/// its type script if it has one, and its data.
pub open spec fn occupied_shannons(output: OutputRecordView, data_capacity: u64) -> int {
    let type_bytes: nat = match output.type_ {
        Some(script) => script_bytes(script),
        None => 0,
    };
    (8 + script_bytes(output.lock) + type_bytes) * BYTE_SHANNONS + data_capacity
}

/// The capacity that a cell occupies, where `u64` holds it.
pub open spec fn occupied_capacity(output: OutputRecordView, data_capacity: u64) -> Option<u64> {
    if occupied_shannons(output, data_capacity) <= u64::MAX {
        Some(occupied_shannons(output, data_capacity) as u64)
    } else {
        None
    }
}

/// The four bytes at a place of a byte string, read as a little-endian number.
pub open spec fn le_u32(data: Seq<u8>, at: int) -> int {
    data[at] as int + data[at + 1] as int * 0x100 + data[at + 2] as int * 0x1_0000 + data[at
        + 3] as int * 0x100_0000
}

/// Whether a byte string is a list of out-points: four bytes that give the
/// number of items, then 36 bytes for each.
pub open spec fn is_out_point_list(data: Seq<u8>) -> bool {
    data.len() >= 4 && data.len() == 4 + 36 * le_u32(data, 0)
}

/// The hash of cell data, as `ckb_types` computes it.
pub uninterp spec fn data_hash(data: Seq<u8>) -> Seq<u8>;

/// The hash of a script, as `ckb_types` computes it from its code hash, the
/// byte of its hash type and its arguments.
pub uninterp spec fn script_hash(code_hash: Seq<u8>, hash_type: u8, args: Seq<u8>) -> Seq<u8>;

/// Calls `ckb_types::packed::CellOutput::calc_data_hash`, which gives the
/// all-zero hash for empty data and the chain's Blake2b hash of the data
/// otherwise.
#[verifier::external_body]
pub(crate) fn calc_data_hash(data: &[u8]) -> (hash: H256)
    ensures
        hash@ == data_hash(data@),
        data@.len() == 0 ==> forall|i: int| 0 <= i < 32 ==> hash[i] == 0,
{
    let hash = ckb_types::packed::CellOutput::calc_data_hash(data);
    Unpack::<ckb_types::H256>::unpack(&hash).0
}

/// Calls `ckb_types::packed::Script::calc_script_hash` on the packed form of a
/// script, which hashes the script's encoding.
#[verifier::external_body]
pub(crate) fn calc_script_hash(script: &Script) -> (hash: H256)
    ensures
        hash@ == script_hash(script@.code_hash@, script@.hash_type, script@.args),
{
    let packed = ckb_types::packed::Script::new_builder()
        .code_hash(ckb_types::H256(script.code_hash))
        .hash_type(script.hash_type.byte)
        .args(ckb_types::bytes::Bytes::from(script.args.clone()))
        .build();
    Unpack::<ckb_types::H256>::unpack(&packed.calc_script_hash()).0
}

/// Calls `ckb_types::core::Capacity::bytes`, which multiplies the number of
/// bytes by the shannons of one byte and fails when `u64` cannot hold the
/// product.
#[verifier::external_body]
pub(crate) fn bytes_capacity(bytes: usize) -> (capacity: Option<u64>)
    ensures
        capacity == capacity_of_bytes(bytes as nat),
{
    ckb_types::core::Capacity::bytes(bytes).ok().map(|capacity| capacity.as_u64())
}

/// Calls `ckb_types::packed::CellOutput::occupied_capacity` on the packed form
/// of an output, which adds up, with checked additions, the capacity of 8
/// bytes, the data capacity given, and that of each script's bytes.
#[verifier::external_body]
pub(crate) fn calc_occupied_capacity(output: &OutputRecord, data_capacity: u64) -> (capacity:
    Option<u64>)
    ensures
        capacity == occupied_capacity(output@, data_capacity),
{
    let pack = |s: &Script| ckb_types::packed::Script::new_builder()
        .code_hash(ckb_types::H256(s.code_hash))
        .hash_type(s.hash_type.byte)
        .args(ckb_types::bytes::Bytes::from(s.args.clone()))
        .build();
    let cell = ckb_types::packed::CellOutput::new_builder()
        .capacity(output.capacity)
        .lock(pack(&output.lock))
        .type_(output.type_.as_ref().map(pack))
        .build();
    let data = ckb_types::core::Capacity::shannons(data_capacity);
    cell.occupied_capacity(data).ok().map(|capacity| capacity.as_u64())
}

/// Calls `ckb_types::packed::OutPointVec::from_slice`, which accepts a byte
/// string that starts with a little-endian item count in four bytes and holds
/// exactly 36 more bytes for each item, and hands out the items in order: 32
/// bytes of transaction hash, then the little-endian index in four bytes.
#[verifier::external_body]
pub(crate) fn decode_out_points(data: &[u8]) -> (decoded: Option<Vec<OutPoint>>)
    ensures
        decoded is Some <==> is_out_point_list(data@),
        decoded matches Some(items) ==> {
            &&& items@.len() == le_u32(data@, 0)
            &&& forall|i: int|
                0 <= i < items@.len() ==> {
                    &&& (#[trigger] items@[i]).tx_hash@ == data@.subrange(4 + 36 * i, 36 + 36 * i)
                    &&& items@[i].index == le_u32(data@, 36 + 36 * i)
                }
        },
{
    let list = ckb_types::packed::OutPointVec::from_slice(data).ok()?;
    Some(list.into_iter().map(|item| {
        let json = ckb_jsonrpc_types::OutPoint::from(item);
        OutPoint { tx_hash: json.tx_hash.0, index: json.index.value() }
    }).collect())
}

} // verus!
