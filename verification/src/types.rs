//! The projections of ledger records: each holds what was read from the store
//! as plain values, renders its scalar fields as text, and resolves its
//! relationships against a store on demand.

use vstd::prelude::*;
use crate::store::option_view;

verus! {

/// A hash of 32 bytes.
pub type H256 = [u8; 32];

/// The short id of a proposed transaction, of 10 bytes.
pub type ShortId = [u8; 10];

/// The views of the items of a sequence, in order.
pub open spec fn views<T: View>(items: Seq<T>) -> Seq<T::V> {
    Seq::new(items.len(), |i: int| items[i]@)
}

/// How a cell dep is to be resolved.
#[derive(Clone, Copy, Debug, PartialEq, Eq, Structural)]
pub enum DepType {
    /// The dep is the cell itself.
    Code,
    /// The dep's cell data lists the out-points that are meant.
    DepGroup,
}

/// A reference to one output slot of one transaction.
#[derive(Clone, Copy, Debug, PartialEq, Eq)]
pub struct OutPoint {
    pub tx_hash: H256,
    pub index: u32,
}

/// How a script's code hash is to be read: against the data of a cell, for
/// one of the versions of the machine, or against its type script.
///
/// It holds one byte. Byte 1 stands for the type script; an even byte stands
/// for cell data, and half of it is the machine's version. No other byte is a
/// hash type.
#[derive(Clone, Copy, Debug, PartialEq, Eq)]
pub struct ScriptHashType {
    pub(crate) byte: u8,
}

/// Whether a byte stands for a hash type.
pub open spec fn is_hash_type(byte: u8) -> bool {
    byte == 1 || byte % 2 == 0
}

impl ScriptHashType {
    #[verifier::type_invariant]
    spec fn valid(self) -> bool {
        is_hash_type(self.byte)
    }

    /// The byte that stands for this hash type.
    pub closed spec fn spec_byte(self) -> u8 {
        self.byte
    }

    /// The hash type that a byte stands for, if it stands for one.
    pub fn from_byte(byte: u8) -> (made: Option<ScriptHashType>)
        ensures
            made is Some <==> is_hash_type(byte),
            made matches Some(hash_type) ==> hash_type.spec_byte() == byte,
    {
        if byte == 1 || byte % 2 == 0 {
            Some(ScriptHashType { byte })
        } else {
            None
        }
    }

    /// The byte that stands for this hash type.
    #[verifier::when_used_as_spec(spec_byte)]
    pub fn byte(self) -> (byte: u8)
        ensures
            byte == self.spec_byte(),
            is_hash_type(byte),
    {
        proof {
            use_type_invariant(self);
        }
        self.byte
    }
}

/// A script: the hash that locates its code, how that hash is to be read, and
/// its arguments.
#[derive(Debug, PartialEq, Eq)]
pub struct Script {
    pub code_hash: H256,
    pub hash_type: ScriptHashType,
    pub args: Vec<u8>,
}

/// What a `Script` holds, as mathematical values.
pub struct ScriptView {
    pub code_hash: H256,
    pub hash_type: u8,
    pub args: Seq<u8>,
}

impl View for Script {
    type V = ScriptView;

    open spec fn view(&self) -> ScriptView {
        ScriptView {
            code_hash: self.code_hash,
            hash_type: self.hash_type.spec_byte(),
            args: self.args@,
        }
    }
}

impl Clone for Script {
    fn clone(&self) -> (copy: Self)
        ensures
            copy@ == self@,
    {
        Script { code_hash: self.code_hash, hash_type: self.hash_type, args: self.args.clone() }
    }
}

/// The fields of an output cell except its data.
#[derive(Debug, PartialEq, Eq)]
pub struct OutputRecord {
    pub capacity: u64,
    pub lock: Script,
    pub type_: Option<Script>,
}

/// What an `OutputRecord` holds, as mathematical values.
pub struct OutputRecordView {
    pub capacity: u64,
    pub lock: ScriptView,
    pub type_: Option<ScriptView>,
}

impl View for OutputRecord {
    type V = OutputRecordView;

    open spec fn view(&self) -> OutputRecordView {
        OutputRecordView {
            capacity: self.capacity,
            lock: self.lock@,
            type_: option_view(self.type_),
        }
    }
}

impl Clone for OutputRecord {
    fn clone(&self) -> (copy: Self)
        ensures
            copy@ == self@,
    {
        let type_ = match &self.type_ {
            Some(script) => Some(script.clone()),
            None => None,
        };
        OutputRecord { capacity: self.capacity, lock: self.lock.clone(), type_ }
    }
}

/// A cell as a query sees it: the output record, and the capacity that its
/// data takes.
#[derive(Debug, PartialEq, Eq)]
pub struct CellOutput {
    pub output: OutputRecord,
    pub data_capacity: u64,
}

/// What a `CellOutput` holds, as mathematical values.
pub struct CellOutputView {
    pub output: OutputRecordView,
    pub data_capacity: u64,
}

impl View for CellOutput {
    type V = CellOutputView;

    open spec fn view(&self) -> CellOutputView {
        CellOutputView { output: self.output@, data_capacity: self.data_capacity }
    }
}

/// The raw data of a cell.
#[derive(Debug, PartialEq, Eq)]
pub struct Bytes {
    pub data: Vec<u8>,
}

impl View for Bytes {
    type V = Seq<u8>;

    open spec fn view(&self) -> Seq<u8> {
        self.data@
    }
}

/// A block header with its own hash.
#[derive(Clone, Copy, Debug, PartialEq, Eq)]
pub struct Header {
    pub version: u32,
    pub compact_target: u32,
    pub parent_hash: H256,
    pub timestamp: u64,
    pub number: u64,
    pub epoch: u64,
    pub transactions_root: H256,
    pub proposals_hash: H256,
    pub uncles_hash: H256,
    pub dao: H256,
    pub nonce: u128,
    pub hash: H256,
}

/// A header that a transaction declares it depends on, by its hash.
#[derive(Clone, Copy, Debug, PartialEq, Eq)]
pub struct HeaderDep {
    pub hash: H256,
}

/// A cell that a transaction declares it depends on.
#[derive(Clone, Copy, Debug, PartialEq, Eq)]
pub struct CellDep {
    pub out_point: OutPoint,
    pub dep_type: DepType,
}

/// An input of a transaction: the output that it spends, and the condition on
/// when it may.
#[derive(Clone, Copy, Debug, PartialEq, Eq)]
pub struct CellInput {
    pub previous_output: OutPoint,
    pub since: u64,
}

/// A transaction with its own hash. The data of output `i` is `outputs_data[i]`.
#[derive(Debug, PartialEq, Eq)]
pub struct Transaction {
    pub version: u32,
    pub cell_deps: Vec<CellDep>,
    pub header_deps: Vec<H256>,
    pub inputs: Vec<CellInput>,
    pub outputs: Vec<OutputRecord>,
    pub outputs_data: Vec<Vec<u8>>,
    pub witnesses: Vec<Vec<u8>>,
    pub hash: H256,
}

/// What a `Transaction` holds, as mathematical values.
pub struct TransactionView {
    pub version: u32,
    pub cell_deps: Seq<CellDep>,
    pub header_deps: Seq<H256>,
    pub inputs: Seq<CellInput>,
    pub outputs: Seq<OutputRecordView>,
    pub outputs_data: Seq<Seq<u8>>,
    pub witnesses: Seq<Seq<u8>>,
    pub hash: H256,
}

impl View for Transaction {
    type V = TransactionView;

    open spec fn view(&self) -> TransactionView {
        TransactionView {
            version: self.version,
            cell_deps: self.cell_deps@,
            header_deps: self.header_deps@,
            inputs: self.inputs@,
            outputs: views(self.outputs@),
            outputs_data: views(self.outputs_data@),
            witnesses: views(self.witnesses@),
            hash: self.hash,
        }
    }
}

impl TransactionView {
    /// Whether every output has its data.
    pub open spec fn wf(self) -> bool {
        self.outputs.len() == self.outputs_data.len()
    }
}

/// An uncle of a block: its header and the proposals it carried.
#[derive(Debug, PartialEq, Eq)]
pub struct UncleBlock {
    pub header: Header,
    pub proposals: Vec<ShortId>,
}

/// What an `UncleBlock` holds, as mathematical values.
pub struct UncleBlockView {
    pub header: Header,
    pub proposals: Seq<ShortId>,
}

impl View for UncleBlock {
    type V = UncleBlockView;

    open spec fn view(&self) -> UncleBlockView {
        UncleBlockView { header: self.header, proposals: self.proposals@ }
    }
}

/// A block: its header, its uncles, its transactions and its proposals.
#[derive(Debug, PartialEq, Eq)]
pub struct Block {
    pub header: Header,
    pub uncles: Vec<UncleBlock>,
    pub transactions: Vec<Transaction>,
    pub proposals: Vec<ShortId>,
}

/// What a `Block` holds, as mathematical values.
pub struct BlockView {
    pub header: Header,
    pub uncles: Seq<UncleBlockView>,
    pub transactions: Seq<TransactionView>,
    pub proposals: Seq<ShortId>,
}

impl View for Block {
    type V = BlockView;

    open spec fn view(&self) -> BlockView {
        BlockView {
            header: self.header,
            uncles: views(self.uncles@),
            transactions: views(self.transactions@),
            proposals: self.proposals@,
        }
    }
}

/// A copy of a list of plain values.
pub fn copy_list<T: Copy>(items: &Vec<T>) -> (copy: Vec<T>)
    ensures
        copy@ == items@,
{
    let mut copy: Vec<T> = Vec::new();
    let mut i: usize = 0;
    while i < items.len()
        invariant
            i <= items.len(),
            copy@ == items@.take(i as int),
        decreases items.len() - i,
    {
        copy.push(items[i]);
        assert(items@.take(i + 1) == items@.take(i as int).push(items@[i as int]));
        i += 1;
    }
    assert(items@.take(items.len() as int) == items@);
    copy
}

/// A copy of a list whose items copy to items with the same view.
pub(crate) fn copy_items<T: Clone + View>(items: &Vec<T>) -> (copy: Vec<T>)
    requires
        forall|item: T, made: T| #[trigger] cloned::<T>(item, made) ==> made@ == item@,
    ensures
        views(copy@) == views(items@),
{
    let mut copy: Vec<T> = Vec::new();
    let mut i: usize = 0;
    while i < items.len()
        invariant
            i <= items.len(),
            copy@.len() == i,
            forall|item: T, made: T| #[trigger] cloned::<T>(item, made) ==> made@ == item@,
            forall|j: int| 0 <= j < i ==> (#[trigger] copy@[j])@ == items@[j]@,
        decreases items.len() - i,
    {
        let made = items[i].clone();
        assert(cloned::<T>(items@[i as int], made));
        copy.push(made);
        i += 1;
    }
    assert(views(copy@) =~= views(items@));
    copy
}

impl Clone for Transaction {
    fn clone(&self) -> (copy: Self)
        ensures
            copy@ == self@,
    {
        Transaction {
            version: self.version,
            cell_deps: copy_list(&self.cell_deps),
            header_deps: copy_list(&self.header_deps),
            inputs: copy_list(&self.inputs),
            outputs: copy_items(&self.outputs),
            outputs_data: copy_items(&self.outputs_data),
            witnesses: copy_items(&self.witnesses),
            hash: self.hash,
        }
    }
}

impl Clone for UncleBlock {
    fn clone(&self) -> (copy: Self)
        ensures
            copy@ == self@,
    {
        UncleBlock { header: self.header, proposals: copy_list(&self.proposals) }
    }
}

impl Clone for Block {
    fn clone(&self) -> (copy: Self)
        ensures
            copy@ == self@,
    {
        Block {
            header: self.header,
            uncles: copy_items(&self.uncles),
            transactions: copy_items(&self.transactions),
            proposals: copy_list(&self.proposals),
        }
    }
}

} // verus!
