//! The relationship fields of the projections: each makes its lookups against
//! the snapshot that it is given, when it is asked for, and answers with an
//! absent or empty result where the store has nothing.

use vstd::prelude::*;
use crate::encoding::{hash_of, hash_of_own_bytes};
use crate::error::{QueryError, QueryErrorView};
use crate::packed::{
    bytes_capacity, capacity_of_bytes, decode_out_points, is_out_point_list, le_u32,
};
use crate::query::found_view;
use crate::store::{option_view, SnapshotView, StoreAccessor};
use crate::types::{
    Bytes, CellDep, CellOutput, CellOutputView, DepType, Header, HeaderDep, OutPoint,
};

verus! {

/// The out-points that a list holds: item `i` is the 32 bytes of a transaction
/// hash and the four bytes of an index, after the four bytes of the count and
/// the items before it.
pub open spec fn out_points_of_list(data: Seq<u8>) -> Seq<OutPoint> {
    Seq::new(
        le_u32(data, 0) as nat,
        |i: int|
            OutPoint {
                tx_hash: hash_of(data.subrange(4 + 36 * i, 36 + 36 * i)),
                index: le_u32(data, 36 + 36 * i) as u32,
            },
    )
}

/// The out-points that cell data denotes as a dep group: those of the list,
/// and none where the data is no list.
pub open spec fn group_members(data: Seq<u8>) -> Seq<OutPoint> {
    if is_out_point_list(data) {
        out_points_of_list(data)
    } else {
        Seq::empty()
    }
}

/// The out-points that a cell dep stands for. A code dep stands for its own
/// out-point. A dep group stands for the members that its cell data lists, and
/// for none where the store has no such data or the data is no list.
pub open spec fn resolve_dep(store: SnapshotView, dep: CellDep) -> Seq<OutPoint> {
    match dep.dep_type {
        DepType::Code => seq![dep.out_point],
        DepType::DepGroup => match store.cell_data.get(dep.out_point) {
            Some(data) => group_members(data),
            None => Seq::empty(),
        },
    }
}

/// The cell at an out-point: absent where the store has no metadata for it,
/// else the stored output with the capacity of its data, and a failure where
/// that capacity does not fit.
pub open spec fn cell_of(store: SnapshotView, out_point: OutPoint) -> Result<
    Option<CellOutputView>,
    QueryErrorView,
> {
    match store.cell_metas.get(out_point) {
        Some(meta) => match capacity_of_bytes(meta.data_bytes as nat) {
            Some(data_capacity) => Ok(Some(CellOutputView { output: meta.output, data_capacity })),
            None => Err(QueryErrorView::CapacityOverflow),
        },
        None => Ok(None),
    }
}

/// The header of the block that holds an out-point's transaction: absent where
/// the store has no metadata of the transaction, or not the header of its
/// block.
pub open spec fn owning_header(store: SnapshotView, out_point: OutPoint) -> Option<Header> {
    match store.tx_metas.get(out_point.tx_hash) {
        Some(meta) => store.headers.get(meta.block_hash),
        None => None,
    }
}

/// In a snapshot that holds cells only for outputs of its transactions, an
/// out-point whose transaction is not there, or has no output at the index,
/// has no cell and no cell data: both are absent, and neither is a failure.
pub proof fn missing_output_has_no_cell(store: SnapshotView, out_point: OutPoint)
    requires
        store.cells_are_outputs(),
        !store.has_output(out_point),
    ensures
        cell_of(store, out_point) == Ok::<Option<CellOutputView>, QueryErrorView>(None),
        store.cell_data.get(out_point) is None,
{
}

/// The members of a dep group's cell data, and none where the data is no list
/// of out-points.
pub fn read_group(data: &[u8]) -> (members: Vec<OutPoint>)
    ensures
        members@ == group_members(data@),
{
    match decode_out_points(data) {
        Some(members) => {
            proof {
                assert forall|i: int| 0 <= i < members@.len() implies members@[i]
                    == out_points_of_list(data@)[i] by {
                    hash_of_own_bytes(members@[i].tx_hash);
                    assert(0 <= le_u32(data@, 36 + 36 * i) < 0x1_0000_0000);
                }
                assert(members@ =~= out_points_of_list(data@));
            }
            members
        },
        None => Vec::new(),
    }
}

impl HeaderDep {
    /// The header that the dep names, absent where the store has none.
    pub fn header<S: StoreAccessor>(&self, context: &S) -> (found: Option<Header>)
        ensures
            found == context@.headers.get(self.hash),
    {
        context.get_block_header(&self.hash)
    }
}

impl CellDep {
    /// The out-points that the dep stands for.
    pub fn resolved_out_points<S: StoreAccessor>(&self, context: &S) -> (out_points: Vec<
        OutPoint,
    >)
        ensures
            out_points@ == resolve_dep(context@, *self),
            self.dep_type == DepType::Code ==> out_points@ == seq![self.out_point],
            self.dep_type == DepType::DepGroup && !(context@.cell_data.get(self.out_point)
                matches Some(data) && is_out_point_list(data)) ==> out_points@.len() == 0,
    {
        match self.dep_type {
            DepType::Code => {
                let mut out_points: Vec<OutPoint> = Vec::new();
                out_points.push(self.out_point);
                out_points
            },
            DepType::DepGroup => match context.get_cell_data(&self.out_point) {
                Some(data) => read_group(data.as_slice()),
                None => Vec::new(),
            },
        }
    }
}

impl OutPoint {
    /// The cell at the out-point.
    pub fn cell<S: StoreAccessor>(&self, context: &S) -> (outcome: Result<
        Option<CellOutput>,
        QueryError,
    >)
        ensures
            found_view(outcome) == cell_of(context@, *self),
            !context@.cell_metas.contains_key(*self) ==> outcome == Ok::<
                Option<CellOutput>,
                QueryError,
            >(None),
    {
        match context.get_cell_meta(self) {
            Some(meta) => match bytes_capacity(meta.data_bytes) {
                Some(data_capacity) => Ok(Some(CellOutput { output: meta.output, data_capacity })),
                None => Err(QueryError::CapacityOverflow),
            },
            None => Ok(None),
        }
    }

    /// The data of the cell at the out-point, absent where the store has none.
    pub fn cell_data<S: StoreAccessor>(&self, context: &S) -> (found: Option<Bytes>)
        ensures
            option_view(found) == context@.cell_data.get(*self),
            !context@.cell_data.contains_key(*self) ==> found is None,
    {
        match context.get_cell_data(self) {
            Some(data) => Some(Bytes { data }),
            None => None,
        }
    }

    /// The header of the block that holds the out-point's transaction.
    pub fn header<S: StoreAccessor>(&self, context: &S) -> (found: Option<Header>)
        ensures
            found == owning_header(context@, *self),
    {
        match context.get_tx_meta(&self.tx_hash) {
            Some(meta) => context.get_block_header(&meta.block_hash),
            None => None,
        }
    }
}

} // verus!
