//! The store as the queries see it: point lookups against one immutable
//! snapshot. A lookup never fails; what is not there is absent.

use vstd::prelude::*;
use crate::types::{
    Block, BlockView, H256, Header, OutPoint, OutputRecord, OutputRecordView, Transaction,
    TransactionView,
};

verus! {

/// The view of an optional value.
pub open spec fn option_view<T: View>(value: Option<T>) -> Option<T::V> {
    match value {
        Some(v) => Some(v@),
        None => None,
    }
}

/// What the store keeps of a cell besides its data: the output record and the
/// length of the data.
#[derive(Debug, PartialEq, Eq)]
pub struct CellMeta {
    pub output: OutputRecord,
    pub data_bytes: usize,
}

/// What a `CellMeta` holds, as mathematical values.
pub struct CellMetaView {
    pub output: OutputRecordView,
    pub data_bytes: usize,
}

impl View for CellMeta {
    type V = CellMetaView;

    open spec fn view(&self) -> CellMetaView {
        CellMetaView { output: self.output@, data_bytes: self.data_bytes }
    }
}

impl Clone for CellMeta {
    fn clone(&self) -> (copy: Self)
        ensures
            copy@ == self@,
    {
        CellMeta { output: self.output.clone(), data_bytes: self.data_bytes }
    }
}

/// What the store keeps of a transaction's outputs as a whole: how many it
/// declared, and the block that holds it.
#[derive(Clone, Copy, Debug, PartialEq, Eq)]
pub struct TxMeta {
    pub block_hash: H256,
    pub output_count: u64,
}

/// What one snapshot of the store holds, as mathematical values: for each
/// kind of lookup, the records by their key.
pub struct SnapshotView {
    /// The header of the tip, if the chain has one.
    pub tip_header: Option<Header>,
    /// The blocks by hash.
    pub blocks: Map<H256, BlockView>,
    /// The hashes of the blocks by number.
    pub block_hashes: Map<u64, H256>,
    /// The transactions by hash.
    pub transactions: Map<H256, TransactionView>,
    /// The headers by the hash of their block.
    pub headers: Map<H256, Header>,
    /// The metadata of the cells by out-point.
    pub cell_metas: Map<OutPoint, CellMetaView>,
    /// The data of the cells by out-point.
    pub cell_data: Map<OutPoint, Seq<u8>>,
    /// The metadata of the transactions by hash.
    pub tx_metas: Map<H256, TxMeta>,
}

/// The metadata of the cell at an index of a transaction: the output there and
/// the length of its data, and nothing where the transaction has no output or
/// no data at the index.
pub open spec fn cell_meta_of(transaction: TransactionView, index: u32) -> Option<CellMetaView> {
    if index < transaction.outputs.len() && index < transaction.outputs_data.len() {
        Some(
            CellMetaView {
                output: transaction.outputs[index as int],
                data_bytes: transaction.outputs_data[index as int].len() as usize,
            },
        )
    } else {
        None
    }
}

/// The data of the cell at an index of a transaction, and nothing where the
/// transaction has no output or no data at the index.
pub open spec fn cell_data_of(transaction: TransactionView, index: u32) -> Option<Seq<u8>> {
    if index < transaction.outputs.len() && index < transaction.outputs_data.len() {
        Some(transaction.outputs_data[index as int])
    } else {
        None
    }
}

/// The metadata of the cell at an index of a transaction.
pub fn cell_meta_at(transaction: &Transaction, index: u32) -> (found: Option<CellMeta>)
    ensures
        option_view(found) == cell_meta_of(transaction@, index),
{
    let at = index as usize;
    if at < transaction.outputs.len() && at < transaction.outputs_data.len() {
        Some(
            CellMeta {
                output: transaction.outputs[at].clone(),
                data_bytes: transaction.outputs_data[at].len(),
            },
        )
    } else {
        None
    }
}

/// The data of the cell at an index of a transaction.
pub fn cell_data_at(transaction: &Transaction, index: u32) -> (found: Option<Vec<u8>>)
    ensures
        option_view(found) == cell_data_of(transaction@, index),
{
    let at = index as usize;
    if at < transaction.outputs.len() && at < transaction.outputs_data.len() {
        Some(transaction.outputs_data[at].clone())
    } else {
        None
    }
}

/// The metadata of a transaction that a block holds: the block's hash, and as
/// many declared outputs as the transaction has.
pub fn tx_meta_of(transaction: &Transaction, block_hash: H256) -> (meta: TxMeta)
    ensures
        meta == (TxMeta { block_hash, output_count: transaction@.outputs.len() as u64 }),
{
    TxMeta { block_hash, output_count: transaction.outputs.len() as u64 }
}

impl SnapshotView {
    /// Whether every block is kept under its own hash.
    pub open spec fn blocks_keyed_by_hash(self) -> bool {
        forall|hash: H256| #[trigger]
            self.blocks.contains_key(hash) ==> self.blocks[hash].header.hash == hash
    }

    /// Whether an out-point is an output of a transaction that the snapshot
    /// holds: the transaction is there and has an output at the index.
    pub open spec fn has_output(self, out_point: OutPoint) -> bool {
        self.transactions.get(out_point.tx_hash) matches Some(transaction) && out_point.index
            < transaction.outputs.len()
    }

    /// Whether the snapshot holds cells only for outputs of transactions that
    /// it holds.
    pub open spec fn cells_are_outputs(self) -> bool {
        &&& forall|out_point: OutPoint| #[trigger]
            self.cell_metas.contains_key(out_point) ==> self.has_output(out_point)
        &&& forall|out_point: OutPoint| #[trigger]
            self.cell_data.contains_key(out_point) ==> self.has_output(out_point)
    }
}

/// One snapshot of the store. Its view says what it holds; each lookup returns
/// exactly what the view has under the key, and nothing where it has nothing.
pub trait StoreAccessor {
    /// What the snapshot holds. An accessor that does not say what it holds
    /// holds something that depends on the accessor alone and is not further
    /// known.
    open spec fn view(&self) -> SnapshotView {
        (arbitrary::<spec_fn(&Self) -> SnapshotView>())(self)
    }

    /// The header of the tip.
    fn get_tip_header(&self) -> (found: Option<Header>)
        ensures
            found == self@.tip_header,
    ;

    /// The block with a hash.
    fn get_block(&self, hash: &H256) -> (found: Option<Block>)
        ensures
            option_view(found) == self@.blocks.get(*hash),
    ;

    /// The hash of the block at a number.
    fn get_block_hash(&self, number: u64) -> (found: Option<H256>)
        ensures
            found == self@.block_hashes.get(number),
    ;

    /// The transaction with a hash.
    fn get_transaction(&self, hash: &H256) -> (found: Option<Transaction>)
        ensures
            option_view(found) == self@.transactions.get(*hash),
    ;

    /// The header of the block with a hash.
    fn get_block_header(&self, hash: &H256) -> (found: Option<Header>)
        ensures
            found == self@.headers.get(*hash),
    ;

    /// The metadata of the cell at an out-point.
    fn get_cell_meta(&self, out_point: &OutPoint) -> (found: Option<CellMeta>)
        ensures
            option_view(found) == self@.cell_metas.get(*out_point),
    ;

    /// The data of the cell at an out-point.
    fn get_cell_data(&self, out_point: &OutPoint) -> (found: Option<Vec<u8>>)
        ensures
            option_view(found) == self@.cell_data.get(*out_point),
    ;

    /// The metadata of the transaction with a hash.
    fn get_tx_meta(&self, hash: &H256) -> (found: Option<TxMeta>)
        ensures
            found == self@.tx_metas.get(*hash),
    ;
}

} // verus!
