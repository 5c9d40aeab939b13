//! A snapshot that lives in memory: tables of records, each filled by hand.
//! A later record under a key replaces an earlier one.

use vstd::prelude::*;
use crate::encoding::same_hash;
use crate::store::{CellMeta, SnapshotView, StoreAccessor, TxMeta};
use crate::types::{Block, H256, Header, OutPoint, Transaction};

verus! {

/// A key of a table: two keys can be told apart.
pub trait Key: Sized {
    /// Whether two keys are the same.
    fn same(&self, other: &Self) -> (same: bool)
        ensures
            same == (*self == *other),
    ;
}

impl Key for u64 {
    fn same(&self, other: &Self) -> (same: bool) {
        *self == *other
    }
}

impl Key for H256 {
    fn same(&self, other: &Self) -> (same: bool) {
        same_hash(self, other)
    }
}

impl Key for OutPoint {
    fn same(&self, other: &Self) -> (same: bool) {
        let same = same_hash(&self.tx_hash, &other.tx_hash) && self.index == other.index;
        same
    }
}

/// The map that a list of entries stands for: each entry puts its value under
/// its key, a later one over an earlier one.
pub open spec fn table<K, V>(entries: Seq<(K, V)>) -> Map<K, V>
    decreases entries.len(),
{
    if entries.len() == 0 {
        Map::empty()
    } else {
        table(entries.drop_last()).insert(entries.last().0, entries.last().1)
    }
}

/// The entries of a list with each value as its view.
pub open spec fn entry_views<K, V: View>(entries: Seq<(K, V)>) -> Seq<(K, V::V)> {
    Seq::new(entries.len(), |i: int| (entries[i].0, entries[i].1@))
}

/// The map that a list of entries stands for, each value as its view.
pub open spec fn view_table<K, V: View>(entries: Seq<(K, V)>) -> Map<K, V::V> {
    table(entry_views(entries))
}

/// Under a key a table has the value of the last entry with that key.
pub proof fn table_has_last<K, V>(entries: Seq<(K, V)>, key: K, at: int)
    requires
        0 <= at < entries.len(),
        entries[at].0 == key,
        forall|j: int| at < j < entries.len() ==> entries[j].0 != key,
    ensures
        table(entries).get(key) == Some(entries[at].1),
    decreases entries.len(),
{
    if at < entries.len() - 1 {
        table_has_last(entries.drop_last(), key, at);
    }
}

/// Under a key that no entry has, a table has nothing.
pub proof fn table_lacks<K, V>(entries: Seq<(K, V)>, key: K)
    requires
        forall|j: int| 0 <= j < entries.len() ==> entries[j].0 != key,
    ensures
        !table(entries).contains_key(key),
    decreases entries.len(),
{
    if entries.len() > 0 {
        table_lacks(entries.drop_last(), key);
    }
}

/// The place of the last entry with a key.
pub fn find_last<K: Key, V>(entries: &Vec<(K, V)>, key: &K) -> (found: Option<usize>)
    ensures
        match found {
            Some(at) => {
                &&& at < entries@.len()
                &&& entries@[at as int].0 == *key
                &&& forall|j: int| at < j < entries@.len() ==> entries@[j].0 != *key
            },
            None => forall|j: int| 0 <= j < entries@.len() ==> entries@[j].0 != *key,
        },
{
    let mut i: usize = entries.len();
    while i > 0
        invariant
            i <= entries@.len(),
            forall|j: int| i <= j < entries@.len() ==> entries@[j].0 != *key,
        decreases i,
    {
        i -= 1;
        if entries[i].0.same(key) {
            return Some(i);
        }
    }
    None
}

/// A snapshot in memory.
pub struct MemoryStore {
    tip_header: Option<Header>,
    blocks: Vec<(H256, Block)>,
    block_hashes: Vec<(u64, H256)>,
    transactions: Vec<(H256, Transaction)>,
    headers: Vec<(H256, Header)>,
    cell_metas: Vec<(OutPoint, CellMeta)>,
    cell_data: Vec<(OutPoint, Vec<u8>)>,
    tx_metas: Vec<(H256, TxMeta)>,
}

/// The snapshot that holds nothing.
pub open spec fn empty_store() -> SnapshotView {
    SnapshotView {
        tip_header: None,
        blocks: Map::empty(),
        block_hashes: Map::empty(),
        transactions: Map::empty(),
        headers: Map::empty(),
        cell_metas: Map::empty(),
        cell_data: Map::empty(),
        tx_metas: Map::empty(),
    }
}

impl StoreAccessor for MemoryStore {
    closed spec fn view(&self) -> SnapshotView {
        SnapshotView {
            tip_header: self.tip_header,
            blocks: view_table(self.blocks@),
            block_hashes: table(self.block_hashes@),
            transactions: view_table(self.transactions@),
            headers: table(self.headers@),
            cell_metas: view_table(self.cell_metas@),
            cell_data: view_table(self.cell_data@),
            tx_metas: table(self.tx_metas@),
        }
    }

    fn get_tip_header(&self) -> (found: Option<Header>) {
        self.tip_header
    }

    fn get_block(&self, hash: &H256) -> (found: Option<Block>) {
        match find_last(&self.blocks, hash) {
            Some(at) => {
                proof {
                    table_has_last(entry_views(self.blocks@), *hash, at as int);
                }
                Some(self.blocks[at].1.clone())
            },
            None => {
                proof {
                    table_lacks(entry_views(self.blocks@), *hash);
                }
                None
            },
        }
    }

    fn get_block_hash(&self, number: u64) -> (found: Option<H256>) {
        match find_last(&self.block_hashes, &number) {
            Some(at) => {
                proof {
                    table_has_last(self.block_hashes@, number, at as int);
                }
                Some(self.block_hashes[at].1)
            },
            None => {
                proof {
                    table_lacks(self.block_hashes@, number);
                }
                None
            },
        }
    }

    fn get_transaction(&self, hash: &H256) -> (found: Option<Transaction>) {
        match find_last(&self.transactions, hash) {
            Some(at) => {
                proof {
                    table_has_last(entry_views(self.transactions@), *hash, at as int);
                }
                Some(self.transactions[at].1.clone())
            },
            None => {
                proof {
                    table_lacks(entry_views(self.transactions@), *hash);
                }
                None
            },
        }
    }

    fn get_block_header(&self, hash: &H256) -> (found: Option<Header>) {
        match find_last(&self.headers, hash) {
            Some(at) => {
                proof {
                    table_has_last(self.headers@, *hash, at as int);
                }
                Some(self.headers[at].1)
            },
            None => {
                proof {
                    table_lacks(self.headers@, *hash);
                }
                None
            },
        }
    }

    fn get_cell_meta(&self, out_point: &OutPoint) -> (found: Option<CellMeta>) {
        match find_last(&self.cell_metas, out_point) {
            Some(at) => {
                proof {
                    table_has_last(entry_views(self.cell_metas@), *out_point, at as int);
                }
                Some(self.cell_metas[at].1.clone())
            },
            None => {
                proof {
                    table_lacks(entry_views(self.cell_metas@), *out_point);
                }
                None
            },
        }
    }

    fn get_cell_data(&self, out_point: &OutPoint) -> (found: Option<Vec<u8>>) {
        match find_last(&self.cell_data, out_point) {
            Some(at) => {
                proof {
                    table_has_last(entry_views(self.cell_data@), *out_point, at as int);
                }
                Some(self.cell_data[at].1.clone())
            },
            None => {
                proof {
                    table_lacks(entry_views(self.cell_data@), *out_point);
                }
                None
            },
        }
    }

    fn get_tx_meta(&self, hash: &H256) -> (found: Option<TxMeta>) {
        match find_last(&self.tx_metas, hash) {
            Some(at) => {
                proof {
                    table_has_last(self.tx_metas@, *hash, at as int);
                }
                Some(self.tx_metas[at].1)
            },
            None => {
                proof {
                    table_lacks(self.tx_metas@, *hash);
                }
                None
            },
        }
    }
}

impl MemoryStore {
    /// A snapshot that holds nothing.
    pub fn new() -> (store: MemoryStore)
        ensures
            store@ == empty_store(),
    {
        let store = MemoryStore {
            tip_header: None,
            blocks: Vec::new(),
            block_hashes: Vec::new(),
            transactions: Vec::new(),
            headers: Vec::new(),
            cell_metas: Vec::new(),
            cell_data: Vec::new(),
            tx_metas: Vec::new(),
        };
        assert(store@.blocks =~= Map::empty());
        assert(store@.transactions =~= Map::empty());
        assert(store@.cell_metas =~= Map::empty());
        assert(store@.cell_data =~= Map::empty());
        store
    }

    /// Makes a header the tip's.
    pub fn set_tip_header(&mut self, header: Header)
        ensures
            final(self)@ == (SnapshotView { tip_header: Some(header), ..old(self)@ }),
    {
        self.tip_header = Some(header);
    }

    /// Puts a block under its own hash.
    pub fn insert_block(&mut self, block: Block)
        ensures
            final(self)@ == (SnapshotView {
                blocks: old(self)@.blocks.insert(block.header.hash, block@),
                ..old(self)@
            }),
    {
        let hash = block.header.hash;
        proof {
            let entries = self.blocks@.push((hash, block));
            assert(entry_views(entries).drop_last() =~= entry_views(self.blocks@));
        }
        self.blocks.push((hash, block));
    }

    /// Puts a block's hash under a number.
    pub fn insert_block_hash(&mut self, number: u64, hash: H256)
        ensures
            final(self)@ == (SnapshotView {
                block_hashes: old(self)@.block_hashes.insert(number, hash),
                ..old(self)@
            }),
    {
        proof {
            let entries = self.block_hashes@.push((number, hash));
            assert(entries.drop_last() =~= self.block_hashes@);
        }
        self.block_hashes.push((number, hash));
    }

    /// Puts a transaction under its own hash.
    pub fn insert_transaction(&mut self, transaction: Transaction)
        ensures
            final(self)@ == (SnapshotView {
                transactions: old(self)@.transactions.insert(transaction.hash, transaction@),
                ..old(self)@
            }),
    {
        let hash = transaction.hash;
        proof {
            let entries = self.transactions@.push((hash, transaction));
            assert(entry_views(entries).drop_last() =~= entry_views(self.transactions@));
        }
        self.transactions.push((hash, transaction));
    }

    /// Puts a header under its own hash.
    pub fn insert_header(&mut self, header: Header)
        ensures
            final(self)@ == (SnapshotView {
                headers: old(self)@.headers.insert(header.hash, header),
                ..old(self)@
            }),
    {
        proof {
            let entries = self.headers@.push((header.hash, header));
            assert(entries.drop_last() =~= self.headers@);
        }
        self.headers.push((header.hash, header));
    }

    /// Puts the metadata of a cell under its out-point.
    pub fn insert_cell_meta(&mut self, out_point: OutPoint, meta: CellMeta)
        ensures
            final(self)@ == (SnapshotView {
                cell_metas: old(self)@.cell_metas.insert(out_point, meta@),
                ..old(self)@
            }),
    {
        proof {
            let entries = self.cell_metas@.push((out_point, meta));
            assert(entry_views(entries).drop_last() =~= entry_views(self.cell_metas@));
        }
        self.cell_metas.push((out_point, meta));
    }

    /// Puts the data of a cell under its out-point.
    pub fn insert_cell_data(&mut self, out_point: OutPoint, data: Vec<u8>)
        ensures
            final(self)@ == (SnapshotView {
                cell_data: old(self)@.cell_data.insert(out_point, data@),
                ..old(self)@
            }),
    {
        proof {
            let entries = self.cell_data@.push((out_point, data));
            assert(entry_views(entries).drop_last() =~= entry_views(self.cell_data@));
        }
        self.cell_data.push((out_point, data));
    }

    /// Puts the metadata of a transaction under its hash.
    pub fn insert_tx_meta(&mut self, hash: H256, meta: TxMeta)
        ensures
            final(self)@ == (SnapshotView {
                tx_metas: old(self)@.tx_metas.insert(hash, meta),
                ..old(self)@
            }),
    {
        proof {
            let entries = self.tx_metas@.push((hash, meta));
            assert(entries.drop_last() =~= self.tx_metas@);
        }
        self.tx_metas.push((hash, meta));
    }
}

} // verus!
