//! The scalar fields of the projections: each is computed from what the
//! projection holds, without a lookup, and rendered as text.

use vstd::prelude::*;
use crate::encoding::{
    bytes_text, dep_type_text, hash_type_text, quantity_text, render_bytes, render_dep_type,
    render_hash_type, render_quantity,
};
use crate::error::{QueryError, QueryErrorView};
use crate::packed::{
    bytes_capacity, calc_data_hash, calc_occupied_capacity, calc_script_hash, capacity_of_bytes,
    data_hash, occupied_capacity, script_hash,
};
use crate::types::{
    Block, Bytes, CellDep, CellInput, CellOutput, CellOutputView, copy_items, copy_list, H256,
    Header, HeaderDep, OutPoint, Script, Transaction, TransactionView, UncleBlock, views,
};

verus! {

/// The texts of a list of byte strings of one length, such as hashes.
pub open spec fn array_texts<const N: usize>(items: Seq<[u8; N]>) -> Seq<Seq<char>> {
    Seq::new(items.len(), |i: int| bytes_text(items[i]@))
}

/// The texts of a list of byte strings.
pub open spec fn byte_string_texts(items: Seq<Seq<u8>>) -> Seq<Seq<char>> {
    Seq::new(items.len(), |i: int| bytes_text(items[i]))
}

/// Renders each byte string of a list of byte strings of one length.
pub fn render_arrays<const N: usize>(items: &Vec<[u8; N]>) -> (texts: Vec<String>)
    ensures
        views(texts@) == array_texts(items@),
{
    let mut texts: Vec<String> = Vec::new();
    let mut i: usize = 0;
    while i < items.len()
        invariant
            i <= items.len(),
            texts@.len() == i,
            forall|j: int| 0 <= j < i ==> (#[trigger] texts@[j])@ == bytes_text(items@[j]@),
        decreases items.len() - i,
    {
        texts.push(render_bytes(items[i].as_slice()));
        i += 1;
    }
    assert(views(texts@) =~= array_texts(items@));
    texts
}

/// Renders each byte string of a list.
pub fn render_byte_strings(items: &Vec<Vec<u8>>) -> (texts: Vec<String>)
    ensures
        views(texts@) == byte_string_texts(views(items@)),
{
    let mut texts: Vec<String> = Vec::new();
    let mut i: usize = 0;
    while i < items.len()
        invariant
            i <= items.len(),
            texts@.len() == i,
            forall|j: int| 0 <= j < i ==> (#[trigger] texts@[j])@ == bytes_text(items@[j]@),
        decreases items.len() - i,
    {
        texts.push(render_bytes(items[i].as_slice()));
        i += 1;
    }
    assert(views(texts@) =~= byte_string_texts(views(items@)));
    texts
}

impl Bytes {
    /// The hash of the data, as text: the hash has 32 bytes, and that of no
    /// data is all zeros.
    pub fn hash(&self) -> (text: String)
        ensures
            text@ == bytes_text(data_hash(self@)),
            data_hash(self@).len() == 32,
            self@.len() == 0 ==> text@ == bytes_text(Seq::new(32, |i: int| 0u8)),
    {
        let hash = calc_data_hash(self.data.as_slice());
        assert(self@.len() == 0 ==> hash@ =~= Seq::new(32, |i: int| 0u8));
        render_bytes(hash.as_slice())
    }

    /// The number of bytes, as text.
    pub fn length(&self) -> (text: String)
        ensures
            text@ == quantity_text(self@.len()),
    {
        render_quantity(self.data.len() as u128)
    }

    /// The data, as text.
    pub fn content(&self) -> (text: String)
        ensures
            text@ == bytes_text(self@),
    {
        render_bytes(self.data.as_slice())
    }
}

impl Header {
    /// The version, as text.
    pub fn version(&self) -> (text: String)
        ensures
            text@ == quantity_text(self.version as nat),
    {
        render_quantity(self.version as u128)
    }

    /// The difficulty target in its compact form, as text.
    pub fn compact_target(&self) -> (text: String)
        ensures
            text@ == quantity_text(self.compact_target as nat),
    {
        render_quantity(self.compact_target as u128)
    }

    /// The hash of the parent block, as text.
    pub fn parent_hash(&self) -> (text: String)
        ensures
            text@ == bytes_text(self.parent_hash@),
    {
        render_bytes(self.parent_hash.as_slice())
    }

    /// The time of the block, as text.
    pub fn timestamp(&self) -> (text: String)
        ensures
            text@ == quantity_text(self.timestamp as nat),
    {
        render_quantity(self.timestamp as u128)
    }

    /// The number of the block, as text.
    pub fn number(&self) -> (text: String)
        ensures
            text@ == quantity_text(self.number as nat),
    {
        render_quantity(self.number as u128)
    }

    /// The epoch of the block, as text.
    pub fn epoch(&self) -> (text: String)
        ensures
            text@ == quantity_text(self.epoch as nat),
    {
        render_quantity(self.epoch as u128)
    }

    /// The root of the transactions, as text.
    pub fn transactions_root(&self) -> (text: String)
        ensures
            text@ == bytes_text(self.transactions_root@),
    {
        render_bytes(self.transactions_root.as_slice())
    }

    /// The hash of the proposals, as text.
    pub fn proposals_hash(&self) -> (text: String)
        ensures
            text@ == bytes_text(self.proposals_hash@),
    {
        render_bytes(self.proposals_hash.as_slice())
    }

    /// The hash of the uncles, as text.
    pub fn uncles_hash(&self) -> (text: String)
        ensures
            text@ == bytes_text(self.uncles_hash@),
    {
        render_bytes(self.uncles_hash.as_slice())
    }

    /// The field of the DAO, as text.
    pub fn dao(&self) -> (text: String)
        ensures
            text@ == bytes_text(self.dao@),
    {
        render_bytes(self.dao.as_slice())
    }

    /// The nonce, as text.
    pub fn nonce(&self) -> (text: String)
        ensures
            text@ == quantity_text(self.nonce as nat),
    {
        render_quantity(self.nonce)
    }

    /// The hash of the header, as text.
    pub fn hash(&self) -> (text: String)
        ensures
            text@ == bytes_text(self.hash@),
    {
        render_bytes(self.hash.as_slice())
    }
}

impl HeaderDep {
    /// The hash of the header that is depended on, as text.
    pub fn hash(&self) -> (text: String)
        ensures
            text@ == bytes_text(self.hash@),
    {
        render_bytes(self.hash.as_slice())
    }
}

/// The cells of a transaction's outputs: output `i` with the capacity of the
/// bytes of its data, for as many outputs as have their data. Where the
/// capacity of some output's data does not fit, there are none.
pub open spec fn cells_of(transaction: TransactionView) -> Result<
    Seq<CellOutputView>,
    QueryErrorView,
> {
    let count = if transaction.outputs.len() <= transaction.outputs_data.len() {
        transaction.outputs.len()
    } else {
        transaction.outputs_data.len()
    };
    if forall|i: int|
        0 <= i < count ==> (#[trigger] capacity_of_bytes(transaction.outputs_data[i].len()))
            is Some {
        Ok(
            Seq::new(
                count,
                |i: int|
                    CellOutputView {
                        output: transaction.outputs[i],
                        data_capacity: capacity_of_bytes(
                            transaction.outputs_data[i].len(),
                        ).unwrap(),
                    },
            ),
        )
    } else {
        Err(QueryErrorView::CapacityOverflow)
    }
}

/// The header deps of a transaction, one for each hash.
pub open spec fn header_deps_of(hashes: Seq<H256>) -> Seq<HeaderDep> {
    Seq::new(hashes.len(), |i: int| HeaderDep { hash: hashes[i] })
}

impl Transaction {
    /// The version, as text.
    pub fn version(&self) -> (text: String)
        ensures
            text@ == quantity_text(self.version as nat),
    {
        render_quantity(self.version as u128)
    }

    /// The cell deps, in order.
    pub fn cell_deps(&self) -> (deps: Vec<CellDep>)
        ensures
            deps@ == self@.cell_deps,
    {
        copy_list(&self.cell_deps)
    }

    /// The hashes of the header deps, as text.
    pub fn header_deps(&self) -> (texts: Vec<String>)
        ensures
            views(texts@) == array_texts(self@.header_deps),
    {
        render_arrays(&self.header_deps)
    }

    /// The header deps, in order, each ready to resolve its header.
    pub fn resolved_header_deps(&self) -> (deps: Vec<HeaderDep>)
        ensures
            deps@ == header_deps_of(self@.header_deps),
    {
        let mut deps: Vec<HeaderDep> = Vec::new();
        let mut i: usize = 0;
        while i < self.header_deps.len()
            invariant
                i <= self.header_deps.len(),
                deps@.len() == i,
                forall|j: int|
                    0 <= j < i ==> deps@[j] == (HeaderDep { hash: self.header_deps@[j] }),
            decreases self.header_deps.len() - i,
        {
            deps.push(HeaderDep { hash: self.header_deps[i] });
            i += 1;
        }
        assert(deps@ =~= header_deps_of(self@.header_deps));
        deps
    }

    /// The inputs, in order.
    pub fn inputs(&self) -> (inputs: Vec<CellInput>)
        ensures
            inputs@ == self@.inputs,
    {
        copy_list(&self.inputs)
    }

    /// The cells of the outputs, in order, each with the capacity of its data.
    pub fn outputs(&self) -> (outcome: Result<Vec<CellOutput>, QueryError>)
        ensures
            match outcome {
                Ok(cells) => cells_of(self@) == Ok::<Seq<CellOutputView>, QueryErrorView>(
                    views(cells@),
                ),
                Err(error) => cells_of(self@) == Err::<Seq<CellOutputView>, QueryErrorView>(error@),
            },
            outcome matches Ok(cells) ==> self@.wf() ==> cells@.len() == self@.outputs.len(),
    {
        let count = if self.outputs.len() <= self.outputs_data.len() {
            self.outputs.len()
        } else {
            self.outputs_data.len()
        };
        let mut cells: Vec<CellOutput> = Vec::new();
        let mut i: usize = 0;
        while i < count
            invariant
                i <= count,
                count <= self.outputs.len(),
                count <= self.outputs_data.len(),
                cells@.len() == i,
                forall|j: int|
                    0 <= j < i ==> (#[trigger] capacity_of_bytes(self.outputs_data@[j]@.len()))
                        is Some,
                forall|j: int|
                    0 <= j < i ==> (#[trigger] cells@[j])@ == (CellOutputView {
                        output: self.outputs@[j]@,
                        data_capacity: capacity_of_bytes(self.outputs_data@[j]@.len()).unwrap(),
                    }),
            decreases count - i,
        {
            match bytes_capacity(self.outputs_data[i].len()) {
                Some(data_capacity) => {
                    cells.push(CellOutput { output: self.outputs[i].clone(), data_capacity });
                },
                None => {
                    assert(capacity_of_bytes(self@.outputs_data[i as int].len()) is None);
                    return Err(QueryError::CapacityOverflow);
                },
            }
            i += 1;
        }
        proof {
            assert forall|j: int| 0 <= j < count implies (#[trigger] capacity_of_bytes(
                self@.outputs_data[j].len(),
            )) is Some by {
                assert(capacity_of_bytes(self.outputs_data@[j]@.len()) is Some);
            }
            assert(cells_of(self@)->Ok_0 =~= views(cells@));
        }
        Ok(cells)
    }

    /// The witnesses, as text.
    pub fn witnesses(&self) -> (texts: Vec<String>)
        ensures
            views(texts@) == byte_string_texts(self@.witnesses),
    {
        render_byte_strings(&self.witnesses)
    }

    /// The data of the outputs, as text.
    pub fn outputs_data(&self) -> (texts: Vec<String>)
        ensures
            views(texts@) == byte_string_texts(self@.outputs_data),
    {
        render_byte_strings(&self.outputs_data)
    }

    /// The data of the outputs, in order.
    pub fn cells_data(&self) -> (cells: Vec<Bytes>)
        ensures
            views(cells@) == self@.outputs_data,
    {
        let mut cells: Vec<Bytes> = Vec::new();
        let mut i: usize = 0;
        while i < self.outputs_data.len()
            invariant
                i <= self.outputs_data.len(),
                cells@.len() == i,
                forall|j: int| 0 <= j < i ==> (#[trigger] cells@[j])@ == self.outputs_data@[j]@,
            decreases self.outputs_data.len() - i,
        {
            cells.push(Bytes { data: self.outputs_data[i].clone() });
            i += 1;
        }
        assert(views(cells@) =~= self@.outputs_data);
        cells
    }

    /// The hash of the transaction, as text.
    pub fn hash(&self) -> (text: String)
        ensures
            text@ == bytes_text(self.hash@),
    {
        render_bytes(self.hash.as_slice())
    }
}

impl CellDep {
    /// The out-point of the dep.
    pub fn out_point(&self) -> (out_point: OutPoint)
        ensures
            out_point == self.out_point,
    {
        self.out_point
    }

    /// The dep type, as text.
    pub fn dep_type(&self) -> (text: String)
        ensures
            text@ == dep_type_text(self.dep_type),
    {
        render_dep_type(self.dep_type)
    }
}

impl CellInput {
    /// The output that the input spends.
    pub fn previous_output(&self) -> (out_point: OutPoint)
        ensures
            out_point == self.previous_output,
    {
        self.previous_output
    }

    /// The condition on when the input may be spent, as text.
    pub fn since(&self) -> (text: String)
        ensures
            text@ == quantity_text(self.since as nat),
    {
        render_quantity(self.since as u128)
    }
}

impl OutPoint {
    /// The hash of the transaction, as text.
    pub fn tx_hash(&self) -> (text: String)
        ensures
            text@ == bytes_text(self.tx_hash@),
    {
        render_bytes(self.tx_hash.as_slice())
    }

    /// The index of the output, as text.
    pub fn index(&self) -> (text: String)
        ensures
            text@ == quantity_text(self.index as nat),
    {
        render_quantity(self.index as u128)
    }
}

impl CellOutput {
    /// The declared capacity, as text.
    pub fn capacity(&self) -> (text: String)
        ensures
            text@ == quantity_text(self.output.capacity as nat),
    {
        render_quantity(self.output.capacity as u128)
    }

    /// The capacity that the cell occupies, as text; a failure where it does
    /// not fit into 64 bits.
    pub fn occupied_capacity(&self) -> (outcome: Result<String, QueryError>)
        ensures
            match outcome {
                Ok(text) => occupied_capacity(self@.output, self.data_capacity) matches Some(
                    capacity,
                ) && text@ == quantity_text(capacity as nat),
                Err(error) => occupied_capacity(self@.output, self.data_capacity) is None
                    && error@ == QueryErrorView::CapacityOverflow,
            },
    {
        match calc_occupied_capacity(&self.output, self.data_capacity) {
            Some(capacity) => Ok(render_quantity(capacity as u128)),
            None => Err(QueryError::CapacityOverflow),
        }
    }

    /// The lock script.
    pub fn lock(&self) -> (script: &Script)
        ensures
            *script == self.output.lock,
    {
        &self.output.lock
    }

    /// The type script, if the cell has one.
    pub fn type_(&self) -> (script: Option<&Script>)
        ensures
            match script {
                Some(script) => self.output.type_ == Some(*script),
                None => self.output.type_ is None,
            },
    {
        match &self.output.type_ {
            Some(script) => Some(script),
            None => None,
        }
    }
}

impl Script {
    /// The arguments, as text.
    pub fn args(&self) -> (text: String)
        ensures
            text@ == bytes_text(self@.args),
    {
        render_bytes(self.args.as_slice())
    }

    /// The hash of the code, as text.
    pub fn code_hash(&self) -> (text: String)
        ensures
            text@ == bytes_text(self.code_hash@),
    {
        render_bytes(self.code_hash.as_slice())
    }

    /// The hash type, as text.
    pub fn hash_type(&self) -> (text: String)
        ensures
            text@ == hash_type_text(self@.hash_type),
    {
        render_hash_type(self.hash_type.byte())
    }

    /// The hash of the script, as text: the hash has 32 bytes.
    pub fn hash(&self) -> (text: String)
        ensures
            text@ == bytes_text(script_hash(self.code_hash@, self@.hash_type, self@.args)),
            script_hash(self.code_hash@, self@.hash_type, self@.args).len() == 32,
    {
        let hash = calc_script_hash(self);
        render_bytes(hash.as_slice())
    }
}

impl Block {
    /// The header of the block.
    pub fn header(&self) -> (header: Header)
        ensures
            header == self.header,
    {
        self.header
    }

    /// The uncles, in order.
    pub fn uncles(&self) -> (uncles: Vec<UncleBlock>)
        ensures
            views(uncles@) == self@.uncles,
    {
        copy_items(&self.uncles)
    }

    /// The transactions, in order.
    pub fn transactions(&self) -> (transactions: Vec<Transaction>)
        ensures
            views(transactions@) == self@.transactions,
    {
        copy_items(&self.transactions)
    }

    /// The proposal short ids, as text.
    pub fn proposals(&self) -> (texts: Vec<String>)
        ensures
            views(texts@) == array_texts(self@.proposals),
    {
        render_arrays(&self.proposals)
    }

    /// The hash of the block, as text.
    pub fn hash(&self) -> (text: String)
        ensures
            text@ == bytes_text(self.header.hash@),
    {
        render_bytes(self.header.hash.as_slice())
    }
}

impl UncleBlock {
    /// The header of the uncle.
    pub fn header(&self) -> (header: Header)
        ensures
            header == self.header,
    {
        self.header
    }

    /// The proposal short ids, as text.
    pub fn proposals(&self) -> (texts: Vec<String>)
        ensures
            views(texts@) == array_texts(self@.proposals),
    {
        render_arrays(&self.proposals)
    }
}

} // verus!
