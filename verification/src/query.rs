//! The top-level read operations.

use vstd::prelude::*;
use crate::encoding::{
    byte32_from_text, number_from_text, parsed_view, read_byte32, read_number, same_hash,
};
use crate::error::{QueryError, QueryErrorView};
use crate::input_types::{InputOutPoint, InputOutPointView, out_point_from_input};
use crate::store::{option_view, SnapshotView, StoreAccessor};
use crate::types::{Block, BlockView, H256, Header, OutPoint, Transaction, TransactionView, views};

verus! {

/// The view of the outcome of a lookup that may fail.
pub open spec fn found_view<T: View>(outcome: Result<Option<T>, QueryError>) -> Result<
    Option<T::V>,
    QueryErrorView,
> {
    match outcome {
        Ok(found) => Ok(option_view(found)),
        Err(error) => Err(error@),
    }
}

/// The view of what a reader made of an optional text.
pub open spec fn selector_view<T>(selector: Option<Result<T, String>>) -> Option<
    Result<T, Seq<char>>,
> {
    match selector {
        Some(parsed) => Some(parsed_view(parsed)),
        None => None,
    }
}

/// The block at a number: the block with the hash that the store has for the
/// number.
pub open spec fn block_at(store: SnapshotView, number: u64) -> Option<BlockView> {
    match store.block_hashes.get(number) {
        Some(hash) => store.blocks.get(hash),
        None => None,
    }
}

/// The block that the tip's header names.
pub open spec fn tip_block_of(store: SnapshotView) -> Option<BlockView> {
    match store.tip_header {
        Some(header) => store.blocks.get(header.hash),
        None => None,
    }
}

/// The block at a number that is asked for together with a hash. The block is
/// the one at the number, and the hash has to be its own: the lookup fails
/// where that block carries another hash. Where the store has no block at the
/// number, the lookup fails as well, but for one case: the store has the
/// hash asked for under the number and lacks the block itself, and then the
/// block is absent, as it is when asked for by that hash alone.
pub open spec fn confirmed_block(store: SnapshotView, number: u64, hash: H256) -> Result<
    Option<BlockView>,
    QueryErrorView,
> {
    match store.block_hashes.get(number) {
        Some(found) => match store.blocks.get(found) {
            Some(block) => if block.header.hash == hash {
                Ok(Some(block))
            } else {
                Err(QueryErrorView::HashMismatch)
            },
            None => if found == hash {
                Ok(None)
            } else {
                Err(QueryErrorView::HashMismatch)
            },
        },
        None => Err(QueryErrorView::HashMismatch),
    }
}

/// The block that a number and a hash select, each given as what a reader made
/// of its text. A text that could not be read fails the lookup, the number's
/// first. With neither, the lookup fails. With a number alone, it is the block
/// at that number; with a hash alone, the block with that hash; with both, the
/// block at the number, confirmed by the hash.
pub open spec fn select_block(
    store: SnapshotView,
    number: Option<Result<u64, Seq<char>>>,
    hash: Option<Result<H256, Seq<char>>>,
) -> Result<Option<BlockView>, QueryErrorView> {
    match (number, hash) {
        (None, None) => Err(QueryErrorView::MissingSelector),
        (Some(Err(message)), _) => Err(QueryErrorView::InvalidInput(message)),
        (_, Some(Err(message))) => Err(QueryErrorView::InvalidInput(message)),
        (Some(Ok(number)), None) => Ok(block_at(store, number)),
        (None, Some(Ok(hash))) => Ok(store.blocks.get(hash)),
        (Some(Ok(number)), Some(Ok(hash))) => confirmed_block(store, number, hash),
    }
}

/// What a text selects, if there is one: what a reader makes of it.
pub open spec fn number_selector(text: Option<Seq<char>>) -> Option<Result<u64, Seq<char>>> {
    match text {
        Some(text) => Some(number_from_text(text)),
        None => None,
    }
}

/// What a text selects, if there is one: what a reader makes of it.
pub open spec fn hash_selector(text: Option<Seq<char>>) -> Option<Result<H256, Seq<char>>> {
    match text {
        Some(text) => Some(byte32_from_text(text)),
        None => None,
    }
}

/// The transaction that the text of a hash selects.
pub open spec fn select_transaction(store: SnapshotView, hash: Seq<char>) -> Result<
    Option<TransactionView>,
    QueryErrorView,
> {
    match byte32_from_text(hash) {
        Ok(hash) => Ok(store.transactions.get(hash)),
        Err(message) => Err(QueryErrorView::InvalidInput(message)),
    }
}

/// Whether the cell at an out-point exists: the store has the metadata of its
/// transaction, and the transaction declared more outputs than the index.
/// Whether the cell was spent since plays no part.
pub open spec fn cell_exists(store: SnapshotView, out_point: OutPoint) -> bool {
    match store.tx_metas.get(out_point.tx_hash) {
        Some(meta) => out_point.index < meta.output_count,
        None => false,
    }
}

/// What a batch of entries yields, each entry given as what a reader made of
/// an input. The entries are taken in order. One that could not be read fails
/// the batch with the reader's message. One that exists is kept. One that does
/// not exist is dropped where missing entries are to be skipped, and fails the
/// batch otherwise. The first failure is the batch's.
pub open spec fn select_cells(
    store: SnapshotView,
    entries: Seq<Result<OutPoint, Seq<char>>>,
    skip_missing: bool,
) -> Result<Seq<OutPoint>, QueryErrorView>
    decreases entries.len(),
{
    if entries.len() == 0 {
        Ok(Seq::empty())
    } else {
        match select_cells(store, entries.drop_last(), skip_missing) {
            Err(error) => Err(error),
            Ok(kept) => match entries.last() {
                Err(message) => Err(QueryErrorView::InvalidInput(message)),
                Ok(out_point) => if cell_exists(store, out_point) {
                    Ok(kept.push(out_point))
                } else if skip_missing {
                    Ok(kept)
                } else {
                    Err(QueryErrorView::CellNotFound(out_point))
                },
            },
        }
    }
}

/// A batch that fails on some of its first entries fails in the same way as a
/// whole.
pub proof fn select_cells_failure_stays(
    store: SnapshotView,
    entries: Seq<Result<OutPoint, Seq<char>>>,
    skip_missing: bool,
    n: int,
)
    requires
        0 <= n <= entries.len(),
        select_cells(store, entries.take(n), skip_missing) is Err,
    ensures
        select_cells(store, entries, skip_missing) == select_cells(
            store,
            entries.take(n),
            skip_missing,
        ),
    decreases entries.len(),
{
    if n < entries.len() {
        assert(entries.drop_last().take(n) == entries.take(n));
        select_cells_failure_stays(store, entries.drop_last(), skip_missing, n);
    } else {
        assert(entries.take(n) == entries);
    }
}

/// An out-point that exists is what a batch of it alone yields, whether
/// missing ones are to be skipped or not.
pub proof fn existing_cell_is_kept(store: SnapshotView, out_point: OutPoint, skip_missing: bool)
    requires
        cell_exists(store, out_point),
    ensures
        select_cells(store, seq![Ok(out_point)], skip_missing) == Ok::<
            Seq<OutPoint>,
            QueryErrorView,
        >(seq![out_point]),
{
    let entries = seq![Ok::<OutPoint, Seq<char>>(out_point)];
    assert(select_cells(store, entries.drop_last(), skip_missing) == Ok::<
        Seq<OutPoint>,
        QueryErrorView,
    >(Seq::empty()));
    assert(entries.last() == Ok::<OutPoint, Seq<char>>(out_point));
    assert(Seq::<OutPoint>::empty().push(out_point) =~= seq![out_point]);
}

/// A batch of one out-point that does not exist, be it that the store has no
/// metadata of its transaction or that the transaction declared too few
/// outputs, fails with that out-point where missing ones are not to be
/// skipped, and yields nothing where they are.
pub proof fn missing_cell_fails_or_is_skipped(store: SnapshotView, out_point: OutPoint)
    requires
        !cell_exists(store, out_point),
    ensures
        select_cells(store, seq![Ok(out_point)], false) == Err::<Seq<OutPoint>, QueryErrorView>(
            QueryErrorView::CellNotFound(out_point),
        ),
        select_cells(store, seq![Ok(out_point)], true) == Ok::<Seq<OutPoint>, QueryErrorView>(
            Seq::empty(),
        ),
{
    let entries = seq![Ok::<OutPoint, Seq<char>>(out_point)];
    assert(select_cells(store, entries.drop_last(), false) == Ok::<Seq<OutPoint>, QueryErrorView>(
        Seq::empty(),
    ));
    assert(select_cells(store, entries.drop_last(), true) == Ok::<Seq<OutPoint>, QueryErrorView>(
        Seq::empty(),
    ));
    assert(entries.last() == Ok::<OutPoint, Seq<char>>(out_point));
}

/// The places, in a batch, of the entries that exist.
pub open spec fn kept_places(store: SnapshotView, entries: Seq<Result<OutPoint, Seq<char>>>) -> Seq<
    int,
>
    decreases entries.len(),
{
    if entries.len() == 0 {
        Seq::empty()
    } else {
        let before = kept_places(store, entries.drop_last());
        match entries.last() {
            Ok(out_point) => if cell_exists(store, out_point) {
                before.push(entries.len() - 1)
            } else {
                before
            },
            Err(_) => before,
        }
    }
}

/// What a batch yields are its entries that exist, each once, in the order in
/// which the batch has them: the yield's item `k` is the entry at place `k` of
/// `kept_places`, the places rise, and they are the places of all the entries
/// that exist and of no others.
pub proof fn kept_cells_keep_their_order(
    store: SnapshotView,
    entries: Seq<Result<OutPoint, Seq<char>>>,
    skip_missing: bool,
)
    requires
        select_cells(store, entries, skip_missing) is Ok,
    ensures
        ({
            let kept = select_cells(store, entries, skip_missing)->Ok_0;
            let places = kept_places(store, entries);
            &&& places.len() == kept.len()
            &&& forall|k: int|
                0 <= k < kept.len() ==> 0 <= #[trigger] places[k] < entries.len()
                    && entries[places[k]] == Ok::<OutPoint, Seq<char>>(kept[k])
            &&& forall|j: int, k: int|
                0 <= j < k < kept.len() ==> #[trigger] places[j] < #[trigger] places[k]
            &&& forall|i: int|
                0 <= i < entries.len() ==> (places.contains(i) <==> (#[trigger] entries[i]) is Ok
                    && cell_exists(store, entries[i]->Ok_0))
        }),
    decreases entries.len(),
{
    if entries.len() > 0 {
        let front = entries.drop_last();
        kept_cells_keep_their_order(store, front, skip_missing);
        let kept = select_cells(store, entries, skip_missing)->Ok_0;
        let places = kept_places(store, entries);
        let before = kept_places(store, front);
        let last = entries.len() - 1;
        assert forall|i: int| 0 <= i < entries.len() implies (places.contains(i) <==> (
        #[trigger] entries[i]) is Ok && cell_exists(store, entries[i]->Ok_0)) by {
            if i < last {
                assert(front[i] == entries[i]);
                if before.contains(i) {
                    let k = choose|k: int| 0 <= k < before.len() && before[k] == i;
                    assert(places[k] == i);
                }
                if places.contains(i) {
                    let k = choose|k: int| 0 <= k < places.len() && places[k] == i;
                    assert(before[k] == i);
                }
            } else {
                if entries[i] is Ok && cell_exists(store, entries[i]->Ok_0) {
                    assert(places[places.len() - 1] == i);
                }
                if places.contains(i) {
                    let k = choose|k: int| 0 <= k < places.len() && places[k] == i;
                    if k < before.len() {
                        assert(before[k] == i);
                    }
                }
            }
        }
    }
}

/// Where the store keeps its blocks under their own hashes and has the hash
/// asked for under the number asked for, asking for the block by the number
/// and the hash together gives what asking by the hash alone gives.
pub proof fn number_and_hash_agree(store: SnapshotView, number: u64, hash: H256)
    requires
        store.blocks_keyed_by_hash(),
        store.block_hashes.get(number) == Some(hash),
    ensures
        select_block(store, Some(Ok(number)), Some(Ok(hash))) == select_block(
            store,
            None,
            Some(Ok(hash)),
        ),
{
}

/// Where the store keeps its blocks under their own hashes and does not have
/// the hash asked for under the number asked for, be it that it has another
/// hash there or none, asking by the number and the hash together fails.
pub proof fn number_and_hash_disagree(store: SnapshotView, number: u64, hash: H256)
    requires
        store.blocks_keyed_by_hash(),
        store.block_hashes.get(number) != Some(hash),
    ensures
        select_block(store, Some(Ok(number)), Some(Ok(hash))) == Err::<
            Option<BlockView>,
            QueryErrorView,
        >(QueryErrorView::HashMismatch),
{
}

/// Whatever the store keeps under which hash: asking by a number and a hash
/// together fails where the block at the number carries another hash, and
/// where there is no block at the number and the store does not have the hash
/// asked for under the number.
pub proof fn unconfirmed_block_fails(store: SnapshotView, number: u64, hash: H256)
    requires
        block_at(store, number) matches Some(block) ==> block.header.hash != hash,
        block_at(store, number) is None ==> store.block_hashes.get(number) != Some(hash),
    ensures
        select_block(store, Some(Ok(number)), Some(Ok(hash))) == Err::<
            Option<BlockView>,
            QueryErrorView,
        >(QueryErrorView::HashMismatch),
{
}

/// What readers made of a batch of inputs, as mathematical values.
pub open spec fn entries_view(entries: Seq<Result<OutPoint, String>>) -> Seq<
    Result<OutPoint, Seq<char>>,
> {
    Seq::new(entries.len(), |i: int| parsed_view(entries[i]))
}

/// What a reader makes of each input of a batch.
pub open spec fn entries_of_inputs(inputs: Seq<InputOutPointView>) -> Seq<
    Result<OutPoint, Seq<char>>,
> {
    Seq::new(inputs.len(), |i: int| out_point_from_input(inputs[i]))
}

/// The view of the outcome of a batch.
pub open spec fn batch_view(outcome: Result<Vec<OutPoint>, QueryError>) -> Result<
    Seq<OutPoint>,
    QueryErrorView,
> {
    match outcome {
        Ok(kept) => Ok(kept@),
        Err(error) => Err(error@),
    }
}

/// The root of the queries. Each operation reads from the one snapshot that it
/// is given.
pub struct Query;

impl Query {
    /// The version of the interface.
    #[allow(non_snake_case)]
    pub fn apiVersion() -> (version: &'static str)
        ensures
            version@ == "0.1.0"@,
    {
        "0.1.0"
    }

    /// The header of the tip, absent on an empty chain.
    pub fn tip_header<S: StoreAccessor>(context: &S) -> (found: Option<Header>)
        ensures
            found == context@.tip_header,
    {
        context.get_tip_header()
    }

    /// The block of the tip, absent where the store has no tip or not its block.
    pub fn tip_block<S: StoreAccessor>(context: &S) -> (found: Option<Block>)
        ensures
            option_view(found) == tip_block_of(context@),
    {
        match context.get_tip_header() {
            Some(header) => context.get_block(&header.hash),
            None => None,
        }
    }

    /// The transaction with the hash that a text denotes.
    pub fn get_transaction<S: StoreAccessor>(context: &S, hash: String) -> (outcome: Result<
        Option<Transaction>,
        QueryError,
    >)
        ensures
            found_view(outcome) == select_transaction(context@, hash@),
    {
        match read_byte32(hash.as_str()) {
            Ok(hash) => Ok(context.get_transaction(&hash)),
            Err(message) => Err(QueryError::InvalidInput(message)),
        }
    }

    /// The block that a number and a hash select, each given as what a reader
    /// made of its text.
    pub fn block_by<S: StoreAccessor>(
        context: &S,
        number: Option<Result<u64, String>>,
        hash: Option<Result<H256, String>>,
    ) -> (outcome: Result<Option<Block>, QueryError>)
        ensures
            found_view(outcome) == select_block(
                context@,
                selector_view(number),
                selector_view(hash),
            ),
    {
        match (number, hash) {
            (None, None) => Err(QueryError::MissingSelector),
            (Some(Err(message)), _) => Err(QueryError::InvalidInput(message)),
            (_, Some(Err(message))) => Err(QueryError::InvalidInput(message)),
            (Some(Ok(number)), None) => Ok(Self::block_at_number(context, number)),
            (None, Some(Ok(hash))) => Ok(context.get_block(&hash)),
            (Some(Ok(number)), Some(Ok(hash))) => Self::confirmed_block(context, number, &hash),
        }
    }

    /// The block at a number, confirmed by a hash that is asked for with it.
    pub fn confirmed_block<S: StoreAccessor>(context: &S, number: u64, hash: &H256) -> (outcome:
        Result<Option<Block>, QueryError>)
        ensures
            found_view(outcome) == confirmed_block(context@, number, *hash),
    {
        match context.get_block_hash(number) {
            Some(found) => match context.get_block(&found) {
                Some(block) => {
                    if same_hash(&block.header.hash, hash) {
                        Ok(Some(block))
                    } else {
                        Err(QueryError::HashMismatch)
                    }
                },
                None => {
                    if same_hash(&found, hash) {
                        Ok(None)
                    } else {
                        Err(QueryError::HashMismatch)
                    }
                },
            },
            None => Err(QueryError::HashMismatch),
        }
    }

    /// The block at a number.
    pub fn block_at_number<S: StoreAccessor>(context: &S, number: u64) -> (found: Option<Block>)
        ensures
            option_view(found) == block_at(context@, number),
    {
        match context.get_block_hash(number) {
            Some(hash) => context.get_block(&hash),
            None => None,
        }
    }

    /// The block that the texts of a number and of a hash select.
    pub fn get_block<S: StoreAccessor>(
        context: &S,
        number: Option<String>,
        hash: Option<String>,
    ) -> (outcome: Result<Option<Block>, QueryError>)
        ensures
            found_view(outcome) == select_block(
                context@,
                number_selector(option_view(number)),
                hash_selector(option_view(hash)),
            ),
    {
        let number = match number {
            Some(text) => Some(read_number(text.as_str())),
            None => None,
        };
        let hash = match hash {
            Some(text) => Some(read_byte32(text.as_str())),
            None => None,
        };
        Self::block_by(context, number, hash)
    }

    /// Whether the cell at an out-point exists.
    pub fn cell_exists<S: StoreAccessor>(context: &S, out_point: &OutPoint) -> (found: bool)
        ensures
            found == cell_exists(context@, *out_point),
    {
        match context.get_tx_meta(&out_point.tx_hash) {
            Some(meta) => (out_point.index as u64) < meta.output_count,
            None => false,
        }
    }

    /// The entries of a batch that exist, in their order, each entry given as
    /// what a reader made of an input.
    pub fn select_cells<S: StoreAccessor>(
        context: &S,
        entries: &Vec<Result<OutPoint, String>>,
        skip_missing: bool,
    ) -> (outcome: Result<Vec<OutPoint>, QueryError>)
        ensures
            batch_view(outcome) == select_cells(context@, entries_view(entries@), skip_missing),
    {
        let ghost all = entries_view(entries@);
        let mut kept: Vec<OutPoint> = Vec::new();
        let mut i: usize = 0;
        assert(all.take(0) == Seq::<Result<OutPoint, Seq<char>>>::empty());
        while i < entries.len()
            invariant
                i <= entries.len(),
                all == entries_view(entries@),
                select_cells(context@, all.take(i as int), skip_missing) == Ok::<
                    Seq<OutPoint>,
                    QueryErrorView,
                >(kept@),
            decreases entries.len() - i,
        {
            proof {
                assert(all.take(i + 1).drop_last() == all.take(i as int));
                assert(all.take(i + 1).last() == parsed_view(entries@[i as int]));
            }
            match &entries[i] {
                Err(message) => {
                    proof {
                        select_cells_failure_stays(context@, all, skip_missing, i + 1);
                    }
                    return Err(QueryError::InvalidInput(message.clone()));
                },
                Ok(out_point) => {
                    if Self::cell_exists(context, out_point) {
                        kept.push(*out_point);
                    } else if !skip_missing {
                        proof {
                            select_cells_failure_stays(context@, all, skip_missing, i + 1);
                        }
                        return Err(QueryError::CellNotFound(*out_point));
                    }
                },
            }
            i += 1;
        }
        assert(all.take(entries.len() as int) == all);
        Ok(kept)
    }

    /// What a reader makes of each input of a batch.
    pub fn read_inputs(out_points: &Vec<InputOutPoint>) -> (entries: Vec<Result<OutPoint, String>>)
        ensures
            entries_view(entries@) == entries_of_inputs(views(out_points@)),
    {
        let mut entries: Vec<Result<OutPoint, String>> = Vec::new();
        let mut i: usize = 0;
        while i < out_points.len()
            invariant
                i <= out_points.len(),
                entries@.len() == i,
                forall|j: int|
                    0 <= j < i ==> parsed_view(#[trigger] entries@[j]) == out_point_from_input(
                        out_points@[j]@,
                    ),
            decreases out_points.len() - i,
        {
            entries.push(OutPoint::try_from(&out_points[i]));
            i += 1;
        }
        assert(entries_view(entries@) =~= entries_of_inputs(views(out_points@)));
        entries
    }

    /// The out-points of a batch of inputs that exist, in their order. Where
    /// nothing is said of missing ones, they are not skipped.
    pub fn get_cells<S: StoreAccessor>(
        context: &S,
        out_points: Vec<InputOutPoint>,
        skip_missing: Option<bool>,
    ) -> (outcome: Result<Vec<OutPoint>, QueryError>)
        ensures
            batch_view(outcome) == select_cells(
                context@,
                entries_of_inputs(views(out_points@)),
                skip_missing.unwrap_or(false),
            ),
    {
        let entries = Self::read_inputs(&out_points);
        let skip_missing = match skip_missing {
            Some(skip) => skip,
            None => false,
        };
        Self::select_cells(context, &entries, skip_missing)
    }
}

} // verus!
