//! The staging store: for each file the chain of its transactions, in the order in which they
//! were added, each with its record and its bytes.
//!
//! A store on disk or in a browser keeps the same rows by other means; this one keeps them in
//! memory, and says exactly what each operation does to them.

use crate::state::{
    fresh_info, updated_info, LocalStateStoreError, TransactionInfo, TransactionInfoView,
    TransactionStatus,
};
use crate::transaction::{transaction_wire, Transaction};
use crate::types::FileId;
use vstd::prelude::*;
use vstd::string::*;

verus! {

/// A stored transaction, as mathematical values.
pub struct StoredView {
    pub info: TransactionInfoView,
    pub bytes: Seq<u8>,
}

/// The chain of a file, as mathematical values.
pub struct FileView {
    pub file_id: FileId,
    pub transactions: Seq<StoredView>,
}

/// A stored transaction: its record and its bytes.
#[derive(Debug)]
pub struct StoredTransaction {
    pub info: TransactionInfo,
    pub bytes: Vec<u8>,
}

impl View for StoredTransaction {
    type V = StoredView;

    open spec fn view(&self) -> StoredView {
        StoredView { info: self.info@, bytes: self.bytes@ }
    }
}

/// The chain of a file. The place that the next transaction takes is the length of the chain.
#[derive(Debug)]
pub struct FileEntry {
    pub file_id: FileId,
    pub transactions: Vec<StoredTransaction>,
}

impl View for FileEntry {
    type V = FileView;

    open spec fn view(&self) -> FileView {
        FileView {
            file_id: self.file_id,
            transactions: self.transactions@.map_values(|t: StoredTransaction| t@),
        }
    }
}

/// Whether the store holds a chain for the file.
pub open spec fn has_file(s: Seq<FileView>, file_id: FileId) -> bool {
    exists|i: int| 0 <= i < s.len() && (#[trigger] s[i]).file_id == file_id
}

/// Where the chain of the file stands in the store.
pub open spec fn file_position(s: Seq<FileView>, file_id: FileId) -> int {
    choose|i: int| 0 <= i < s.len() && (#[trigger] s[i]).file_id == file_id
}

/// Whether the transaction at place `j` of chain `i` has the given identity.
pub open spec fn is_tx_at(s: Seq<FileView>, tx_id: Seq<char>, i: int, j: int) -> bool {
    0 <= i < s.len() && 0 <= j < s[i].transactions.len() && s[i].transactions[j].info.tx_id
        == tx_id
}

/// Whether the store holds a transaction with the given identity.
pub open spec fn has_tx(s: Seq<FileView>, tx_id: Seq<char>) -> bool {
    exists|i: int, j: int| is_tx_at(s, tx_id, i, j)
}

/// Where the transaction with the given identity stands: its chain and its place.
pub open spec fn tx_position(s: Seq<FileView>, tx_id: Seq<char>) -> (int, int) {
    choose|i: int, j: int| is_tx_at(s, tx_id, i, j)
}

/// What holds of every store: no file has two chains, no identity stands twice, and in each
/// chain the transaction at place `j` has order `j`.
pub open spec fn store_wf(s: Seq<FileView>) -> bool {
    &&& forall|i: int, k: int|
        0 <= i < s.len() && 0 <= k < s.len() && i != k ==> (#[trigger] s[i]).file_id != (
        #[trigger] s[k]).file_id
    &&& forall|i: int, j: int|
        0 <= i < s.len() && 0 <= j < s[i].transactions.len() ==> (
        #[trigger] s[i].transactions[j]).info.order == j
    &&& forall|i: int, j: int, k: int, l: int|
        #![trigger s[i].transactions[j], s[k].transactions[l]]
        0 <= i < s.len() && 0 <= j < s[i].transactions.len() && 0 <= k < s.len() && 0 <= l
            < s[k].transactions.len() && (i != k || j != l) ==> s[i].transactions[j].info.tx_id
            != s[k].transactions[l].info.tx_id
}

/// The records of a file's chain, in order; `None` where the store holds no chain for the file.
pub open spec fn model_get_txs(s: Seq<FileView>, file_id: FileId) -> Option<
    Seq<TransactionInfoView>,
> {
    if has_file(s, file_id) {
        let chain = s[file_position(s, file_id)].transactions;
        Some(Seq::new(chain.len(), |j: int| chain[j].info))
    } else {
        None
    }
}

/// The store after a transaction is added to a file's chain: at the end of the chain where the
/// file has one, as the first of a new chain where it has none.
pub open spec fn model_add(
    s: Seq<FileView>,
    file_id: FileId,
    tx_id: Seq<char>,
    bytes: Seq<u8>,
) -> Seq<FileView> {
    if has_file(s, file_id) {
        let i = file_position(s, file_id);
        let chain = s[i].transactions;
        s.update(
            i,
            FileView {
                file_id,
                transactions: chain.push(
                    StoredView { info: fresh_info(chain.len() as u64, tx_id), bytes },
                ),
            },
        )
    } else {
        s.push(
            FileView {
                file_id,
                transactions: seq![StoredView { info: fresh_info(0, tx_id), bytes }],
            },
        )
    }
}

/// The store after the record of a transaction is updated.
pub open spec fn model_update(
    s: Seq<FileView>,
    tx_id: Seq<char>,
    submit_id: Option<Seq<char>>,
    status: Option<TransactionStatus>,
) -> Seq<FileView> {
    let (i, j) = tx_position(s, tx_id);
    let stored = s[i].transactions[j];
    s.update(
        i,
        FileView {
            file_id: s[i].file_id,
            transactions: s[i].transactions.update(
                j,
                StoredView { info: updated_info(stored.info, submit_id, status), bytes: stored.bytes },
            ),
        },
    )
}

/// The store after a file is made known: with an empty chain for the file where it had none, so
/// that the first transaction of the file takes order 0; unchanged where it had one.
pub open spec fn model_set_has_file(s: Seq<FileView>, file_id: FileId) -> Seq<FileView> {
    if has_file(s, file_id) {
        s
    } else {
        s.push(FileView { file_id, transactions: Seq::empty() })
    }
}

/// The store after a file is flushed: without the file's chain, and so without its records and
/// their bytes.
pub open spec fn model_flush(s: Seq<FileView>, file_id: FileId) -> Seq<FileView> {
    if has_file(s, file_id) {
        s.remove(file_position(s, file_id))
    } else {
        s
    }
}

/// The store after the transactions with the given identities and bytes are added to a file's
/// chain, one after the other.
pub open spec fn model_add_all(
    s: Seq<FileView>,
    file_id: FileId,
    tx_ids: Seq<Seq<char>>,
    blobs: Seq<Seq<u8>>,
) -> Seq<FileView>
    decreases tx_ids.len(),
{
    if tx_ids.len() == 0 {
        s
    } else {
        model_add(
            model_add_all(s, file_id, tx_ids.drop_last(), blobs.drop_last()),
            file_id,
            tx_ids.last(),
            blobs.last(),
        )
    }
}

proof fn lemma_file_position(s: Seq<FileView>, file_id: FileId, i: int)
    requires
        store_wf(s),
        0 <= i < s.len(),
        s[i].file_id == file_id,
    ensures
        has_file(s, file_id),
        file_position(s, file_id) == i,
{
}

proof fn lemma_tx_position(s: Seq<FileView>, tx_id: Seq<char>, i: int, j: int)
    requires
        store_wf(s),
        is_tx_at(s, tx_id, i, j),
    ensures
        has_tx(s, tx_id),
        tx_position(s, tx_id) == (i, j),
{
    let (a, b) = tx_position(s, tx_id);
    assert(is_tx_at(s, tx_id, a, b));
    if a != i || b != j {
        assert(s[a].transactions[b].info.tx_id != s[i].transactions[j].info.tx_id);
    }
}

/// Adding a transaction whose identity is new keeps the store well formed, and makes the file's
/// chain one longer: the new record stands last, at the place that equals the old length, local
/// and without a handle.
pub proof fn lemma_add_extends_chain(
    s: Seq<FileView>,
    file_id: FileId,
    tx_id: Seq<char>,
    bytes: Seq<u8>,
)
    requires
        store_wf(s),
        !has_tx(s, tx_id),
        has_file(s, file_id) ==> s[file_position(s, file_id)].transactions.len() <= u64::MAX,
    ensures
        store_wf(model_add(s, file_id, tx_id, bytes)),
        has_file(model_add(s, file_id, tx_id, bytes), file_id),
        model_get_txs(model_add(s, file_id, tx_id, bytes), file_id) == Some(
            (match model_get_txs(s, file_id) {
                Some(rows) => rows,
                None => Seq::empty(),
            }).push(
                fresh_info(
                    (match model_get_txs(s, file_id) {
                        Some(rows) => rows.len(),
                        None => 0,
                    }) as u64,
                    tx_id,
                ),
            ),
        ),
        forall|other: FileId|
            other != file_id ==> model_get_txs(model_add(s, file_id, tx_id, bytes), other)
                == model_get_txs(s, other),
{
    let t = model_add(s, file_id, tx_id, bytes);
    assert forall|i: int, j: int| 0 <= i < s.len() && 0 <= j < s[i].transactions.len() implies (
    #[trigger] s[i].transactions[j]).info.tx_id != tx_id by {
        if s[i].transactions[j].info.tx_id == tx_id {
            assert(is_tx_at(s, tx_id, i, j));
        }
    }
    if has_file(s, file_id) {
        let p = file_position(s, file_id);
        let chain = s[p].transactions;
        assert(t.len() == s.len());
        assert forall|i: int| 0 <= i < t.len() implies (#[trigger] t[i]).file_id == s[i].file_id by {}
        assert forall|i: int, j: int|
            0 <= i < t.len() && 0 <= j < t[i].transactions.len() implies (
        #[trigger] t[i].transactions[j]) == (if i == p && j == chain.len() {
            StoredView { info: fresh_info(chain.len() as u64, tx_id), bytes }
        } else {
            s[i].transactions[j]
        }) by {}
        assert(store_wf(t)) by {
            assert forall|i: int, j: int, k: int, l: int|
                #![trigger t[i].transactions[j], t[k].transactions[l]]
                0 <= i < t.len() && 0 <= j < t[i].transactions.len() && 0 <= k < t.len() && 0 <= l
                    < t[k].transactions.len() && (i != k || j != l) implies t[i].transactions[j].info.tx_id
                != t[k].transactions[l].info.tx_id by {
                let first_new = i == p && j == chain.len();
                let second_new = k == p && l == chain.len();
                if !first_new && !second_new {
                    assert(s[i].transactions[j].info.tx_id != s[k].transactions[l].info.tx_id);
                } else if first_new {
                    assert(s[k].transactions[l].info.tx_id != tx_id);
                } else {
                    assert(s[i].transactions[j].info.tx_id != tx_id);
                }
            }
        }
        lemma_file_position(t, file_id, p);
        assert(model_get_txs(t, file_id)->0 =~= model_get_txs(s, file_id)->0.push(
            fresh_info(chain.len() as u64, tx_id),
        ));
        assert forall|other: FileId| other != file_id implies model_get_txs(t, other)
            == model_get_txs(s, other) by {
            if has_file(s, other) {
                let q = file_position(s, other);
                lemma_file_position(t, other, q);
                assert(t[q] == s[q]);
            } else if has_file(t, other) {
                let q = file_position(t, other);
                assert(s[q].file_id == other);
            }
        }
    } else {
        let p = s.len() as int;
        assert forall|i: int| 0 <= i < s.len() implies (#[trigger] t[i]) == s[i] by {}
        assert forall|i: int| 0 <= i < s.len() implies (#[trigger] s[i]).file_id != file_id by {}
        assert(store_wf(t)) by {
            assert forall|i: int, j: int, k: int, l: int|
                #![trigger t[i].transactions[j], t[k].transactions[l]]
                0 <= i < t.len() && 0 <= j < t[i].transactions.len() && 0 <= k < t.len() && 0 <= l
                    < t[k].transactions.len() && (i != k || j != l) implies t[i].transactions[j].info.tx_id
                != t[k].transactions[l].info.tx_id by {
                if i < p && k < p {
                    assert(s[i].transactions[j].info.tx_id != s[k].transactions[l].info.tx_id);
                } else if i == p {
                    assert(s[k].transactions[l].info.tx_id != tx_id);
                } else {
                    assert(s[i].transactions[j].info.tx_id != tx_id);
                }
            }
        }
        lemma_file_position(t, file_id, p);
        assert(model_get_txs(t, file_id)->0 =~= Seq::<TransactionInfoView>::empty().push(
            fresh_info(0, tx_id),
        ));
        assert forall|other: FileId| other != file_id implies model_get_txs(t, other)
            == model_get_txs(s, other) by {
            if has_file(s, other) {
                let q = file_position(s, other);
                lemma_file_position(t, other, q);
            } else if has_file(t, other) {
                let q = file_position(t, other);
                assert(s[q].file_id == other);
            }
        }
    }
}

/// In a well-formed store the records of a chain carry the orders 0, 1, 2, … in that order.
pub proof fn lemma_orders_are_places(s: Seq<FileView>, file_id: FileId)
    requires
        store_wf(s),
        has_file(s, file_id),
    ensures
        forall|j: int|
            0 <= j < model_get_txs(s, file_id)->0.len() ==> (#[trigger] model_get_txs(
                s,
                file_id,
            )->0[j]).order == j,
{
    let p = file_position(s, file_id);
    assert forall|j: int| 0 <= j < model_get_txs(s, file_id)->0.len() implies (
    #[trigger] model_get_txs(s, file_id)->0[j]).order == j by {
        assert(s[p].transactions[j].info.order == j);
    }
}

/// After a file is flushed the store holds no chain for it, and every other chain is as before.
pub proof fn lemma_flush_forgets_file(s: Seq<FileView>, file_id: FileId)
    requires
        store_wf(s),
    ensures
        store_wf(model_flush(s, file_id)),
        !has_file(model_flush(s, file_id), file_id),
        model_get_txs(model_flush(s, file_id), file_id) is None,
        forall|other: FileId|
            other != file_id ==> model_get_txs(model_flush(s, file_id), other) == model_get_txs(
                s,
                other,
            ),
{
    let t = model_flush(s, file_id);
    if has_file(s, file_id) {
        let p = file_position(s, file_id);
        assert forall|i: int| 0 <= i < t.len() implies (#[trigger] t[i]) == s[if i < p {
            i
        } else {
            i + 1
        }] by {}
        assert(store_wf(t)) by {
            assert forall|i: int, j: int, k: int, l: int|
                #![trigger t[i].transactions[j], t[k].transactions[l]]
                0 <= i < t.len() && 0 <= j < t[i].transactions.len() && 0 <= k < t.len() && 0 <= l
                    < t[k].transactions.len() && (i != k || j != l) implies t[i].transactions[j].info.tx_id
                != t[k].transactions[l].info.tx_id by {
                let a = if i < p {
                    i
                } else {
                    i + 1
                };
                let b = if k < p {
                    k
                } else {
                    k + 1
                };
                assert(s[a].transactions[j].info.tx_id != s[b].transactions[l].info.tx_id);
            }
            assert forall|i: int, j: int|
                0 <= i < t.len() && 0 <= j < t[i].transactions.len() implies (
            #[trigger] t[i].transactions[j]).info.order == j by {
                let a = if i < p {
                    i
                } else {
                    i + 1
                };
                assert(s[a].transactions[j].info.order == j);
            }
        }
        if has_file(t, file_id) {
            let q = file_position(t, file_id);
            let a = if q < p {
                q
            } else {
                q + 1
            };
            assert(s[a].file_id == s[p].file_id);
        }
        assert forall|other: FileId| other != file_id implies model_get_txs(t, other)
            == model_get_txs(s, other) by {
            if has_file(s, other) {
                let q = file_position(s, other);
                let a = if q < p {
                    q
                } else {
                    q - 1
                };
                assert(t[a] == s[q]);
                lemma_file_position(t, other, a);
            } else if has_file(t, other) {
                let q = file_position(t, other);
                let a = if q < p {
                    q
                } else {
                    q + 1
                };
                assert(s[a].file_id == other);
            }
        }
    }
}

/// Whether the identities are pairwise different and none stands in the store.
pub open spec fn all_new(s: Seq<FileView>, tx_ids: Seq<Seq<char>>) -> bool {
    &&& forall|a: int| 0 <= a < tx_ids.len() ==> !has_tx(s, #[trigger] tx_ids[a])
    &&& forall|a: int, b: int|
        0 <= a < b < tx_ids.len() ==> (#[trigger] tx_ids[a]) != (#[trigger] tx_ids[b])
}

/// After `n` transactions with new identities are added to a file that had no chain, the file's
/// chain holds exactly `n` records, in the order in which they were added, with the orders
/// 0, 1, …, n - 1, each local and without a handle.
pub proof fn lemma_adds_number_the_chain(
    s: Seq<FileView>,
    file_id: FileId,
    tx_ids: Seq<Seq<char>>,
    blobs: Seq<Seq<u8>>,
)
    requires
        store_wf(s),
        !has_file(s, file_id),
        tx_ids.len() == blobs.len(),
        tx_ids.len() <= u64::MAX,
        all_new(s, tx_ids),
    ensures
        store_wf(model_add_all(s, file_id, tx_ids, blobs)),
        tx_ids.len() > 0 ==> model_get_txs(model_add_all(s, file_id, tx_ids, blobs), file_id)
            == Some(Seq::new(tx_ids.len(), |j: int| fresh_info(j as u64, tx_ids[j]))),
        tx_ids.len() == 0 ==> model_get_txs(model_add_all(s, file_id, tx_ids, blobs), file_id)
            is None,
        forall|i: int|
            0 <= i < s.len() ==> (#[trigger] model_add_all(s, file_id, tx_ids, blobs)[i]) == s[i],
        model_add_all(s, file_id, tx_ids, blobs).len() == s.len() + (if tx_ids.len() > 0 {
            1int
        } else {
            0int
        }),
        tx_ids.len() > 0 ==> model_add_all(s, file_id, tx_ids, blobs)[s.len() as int].file_id
            == file_id && model_add_all(s, file_id, tx_ids, blobs)[s.len() as int].transactions.len()
            == tx_ids.len() && forall|j: int|
            0 <= j < tx_ids.len() ==> (#[trigger] model_add_all(
                s,
                file_id,
                tx_ids,
                blobs,
            )[s.len() as int].transactions[j]).info.tx_id == tx_ids[j],
    decreases tx_ids.len(),
{
    if tx_ids.len() > 0 {
        let shorter = tx_ids.drop_last();
        let fewer = blobs.drop_last();
        assert(all_new(s, shorter)) by {
            assert forall|a: int| 0 <= a < shorter.len() implies !has_tx(
                s,
                #[trigger] shorter[a],
            ) by {
                assert(shorter[a] == tx_ids[a]);
            }
            assert forall|a: int, b: int| 0 <= a < b < shorter.len() implies (
            #[trigger] shorter[a]) != (#[trigger] shorter[b]) by {
                assert(shorter[a] == tx_ids[a] && shorter[b] == tx_ids[b]);
            }
        }
        lemma_adds_number_the_chain(s, file_id, shorter, fewer);
        let mid = model_add_all(s, file_id, shorter, fewer);
        let t = model_add_all(s, file_id, tx_ids, blobs);
        let id = tx_ids.last();
        let p = s.len() as int;
        assert(!has_tx(mid, id)) by {
            if has_tx(mid, id) {
                let (i, j) = tx_position(mid, id);
                assert(is_tx_at(mid, id, i, j));
                if i < s.len() {
                    assert(mid[i] == s[i]);
                    assert(is_tx_at(s, id, i, j));
                    assert(has_tx(s, tx_ids[tx_ids.len() - 1]));
                } else {
                    assert(mid[p].transactions[j].info.tx_id == shorter[j]);
                    assert(shorter[j] == tx_ids[j]);
                    assert(tx_ids[j] != tx_ids[tx_ids.len() - 1]);
                }
            }
        }
        if shorter.len() > 0 {
            lemma_file_position(mid, file_id, p);
        } else {
            assert(mid == s);
        }
        lemma_add_extends_chain(mid, file_id, id, blobs.last());
        if shorter.len() > 0 {
            assert(model_get_txs(t, file_id)->0 =~= Seq::new(
                tx_ids.len(),
                |j: int| fresh_info(j as u64, tx_ids[j]),
            ));
            assert forall|j: int| 0 <= j < tx_ids.len() implies (
            #[trigger] t[p].transactions[j]).info.tx_id == tx_ids[j] by {
                if j < shorter.len() {
                    assert(t[p].transactions[j] == mid[p].transactions[j]);
                }
            }
        } else {
            assert(mid == s);
            assert(model_get_txs(t, file_id)->0 =~= Seq::new(
                tx_ids.len(),
                |j: int| fresh_info(j as u64, tx_ids[j]),
            ));
        }
    }
}

/// A staging store in memory.
#[derive(Debug)]
pub struct MemoryStateStore {
    files: Vec<FileEntry>,
}

impl View for MemoryStateStore {
    type V = Seq<FileView>;

    closed spec fn view(&self) -> Seq<FileView> {
        chain_views(self.files@)
    }
}

/// The chains of the given entries, by their views.
spec fn chain_views(files: Seq<FileEntry>) -> Seq<FileView> {
    files.map_values(|e: FileEntry| e@)
}

/// The text of the error that refuses an identity that is stored already.
pub open spec fn duplicate_text() -> Seq<char> {
    "transaction is already stored"@
}

impl MemoryStateStore {
    /// What holds of every store: no caller can make one of which it does not hold.
    pub open spec fn wf(&self) -> bool {
        store_wf(self@)
    }

    #[verifier::type_invariant]
    spec fn kept(&self) -> bool {
        store_wf(chain_views(self.files@))
    }

    /// A store that holds nothing.
    pub fn new() -> (store: MemoryStateStore)
        ensures
            store.wf(),
            store@ == Seq::<FileView>::empty(),
    {
        let store = MemoryStateStore { files: Vec::new() };
        assert(store@ =~= Seq::<FileView>::empty());
        store
    }

    fn find_file(&self, file_id: &FileId) -> (r: Option<usize>)
        ensures
            match r {
                Some(i) => has_file(self@, *file_id) && i == file_position(self@, *file_id) && i
                    < self.files@.len(),
                None => !has_file(self@, *file_id),
            },
    {
        proof {
            use_type_invariant(&*self);
        }
        let mut i: usize = 0;
        while i < self.files.len()
            invariant
                i <= self.files@.len(),
                self.wf(),
                forall|k: int| 0 <= k < i ==> (#[trigger] self@[k]).file_id != *file_id,
            decreases self.files.len() - i,
        {
            if self.files[i].file_id == *file_id {
                proof {
                    lemma_file_position(self@, *file_id, i as int);
                }
                return Some(i);
            }
            i = i + 1;
        }
        None
    }

    fn find_tx(&self, tx_id: &str) -> (r: Option<(usize, usize)>)
        ensures
            match r {
                Some(at) => has_tx(self@, tx_id@) && tx_position(self@, tx_id@) == (
                    at.0 as int,
                    at.1 as int,
                ) && is_tx_at(self@, tx_id@, at.0 as int, at.1 as int),
                None => !has_tx(self@, tx_id@),
            },
    {
        proof {
            use_type_invariant(&*self);
        }
        let mut i: usize = 0;
        while i < self.files.len()
            invariant
                i <= self.files@.len(),
                self.wf(),
                forall|a: int, b: int| 0 <= a < i ==> !is_tx_at(self@, tx_id@, a, b),
            decreases self.files.len() - i,
        {
            let entry = &self.files[i];
            let mut j: usize = 0;
            while j < entry.transactions.len()
                invariant
                    i < self.files@.len(),
                    entry == self.files@[i as int],
                    j <= entry.transactions@.len(),
                    self.wf(),
                    forall|b: int| 0 <= b < j ==> !is_tx_at(self@, tx_id@, i as int, b),
                decreases entry.transactions.len() - j,
            {
                if crate::equal::same_text(entry.transactions[j].info.tx_id.as_str(), tx_id) {
                    proof {
                        assert(self@[i as int].transactions[j as int] == entry.transactions@[j as int]@);
                        lemma_tx_position(self@, tx_id@, i as int, j as int);
                    }
                    return Some((i, j));
                }
                proof {
                    assert(self@[i as int].transactions[j as int] == entry.transactions@[j as int]@);
                }
                j = j + 1;
            }
            i = i + 1;
        }
        None
    }

    /// Takes the chains out of the store, which holds nothing until they are put back.
    fn take_files(&mut self) -> (files: Vec<FileEntry>)
        ensures
            chain_views(files@) == old(self)@,
            files@ == old(self).files@,
            final(self)@ == Seq::<FileView>::empty(),
    {
        let mut files: Vec<FileEntry> = Vec::new();
        assert(chain_views(files@) =~= Seq::<FileView>::empty());
        std::mem::swap(&mut files, &mut self.files);
        files
    }

    /// The files that have a chain in the store, in the order in which their chains were begun.
    pub fn get_files(&self) -> (r: Result<Vec<FileId>, LocalStateStoreError>)
        ensures
            r matches Ok(files) && files@ == Seq::new(self@.len(), |i: int| self@[i].file_id),
            self.wf(),
    {
        proof {
            use_type_invariant(&*self);
        }
        let mut files: Vec<FileId> = Vec::new();
        let mut i: usize = 0;
        while i < self.files.len()
            invariant
                i <= self.files@.len(),
                files@ == Seq::new(i as nat, |k: int| self@[k].file_id),
            decreases self.files.len() - i,
        {
            files.push(self.files[i].file_id);
            assert(files@ =~= Seq::new((i + 1) as nat, |k: int| self@[k].file_id));
            i = i + 1;
        }
        Ok(files)
    }

    /// The records of a file's chain, in the order of their places, which is the order in which
    /// they were added. Fails with `NoSuchFile` exactly where the store holds no chain for the
    /// file.
    pub fn get_txs(&self, file_id: &FileId) -> (r: Result<
        Vec<TransactionInfo>,
        LocalStateStoreError,
    >)
        ensures
            match model_get_txs(self@, *file_id) {
                Some(rows) => r matches Ok(found) && crate::state::info_views(found@) == rows
                    && forall|j: int| 0 <= j < rows.len() ==> (#[trigger] rows[j]).order == j,
                None => r matches Err(LocalStateStoreError::NoSuchFile),
            },
    {
        proof {
            use_type_invariant(&*self);
        }
        let at = match self.find_file(file_id) {
            Some(at) => at,
            None => {
                return Err(LocalStateStoreError::NoSuchFile);
            },
        };
        let entry = &self.files[at];
        let ghost rows = model_get_txs(self@, *file_id)->0;
        let mut found: Vec<TransactionInfo> = Vec::new();
        let mut j: usize = 0;
        while j < entry.transactions.len()
            invariant
                j <= entry.transactions@.len(),
                rows.len() == entry.transactions@.len(),
                forall|k: int| 0 <= k < rows.len() ==> rows[k] == entry.transactions@[k]@.info,
                found@.len() == j,
                forall|k: int| 0 <= k < j ==> (#[trigger] found@[k])@ == rows[k],
            decreases entry.transactions.len() - j,
        {
            found.push(entry.transactions[j].info.duplicate());
            j = j + 1;
        }
        proof {
            assert(crate::state::info_views(found@) =~= rows);
            lemma_orders_are_places(self@, *file_id);
        }
        Ok(found)
    }

    /// The bytes of the transaction with the given identity. Fails with `NoSuchTransaction`
    /// exactly where the store holds none.
    pub fn get_tx_bytes(&self, tx_id: &String) -> (r: Result<Vec<u8>, LocalStateStoreError>)
        ensures
            if has_tx(self@, tx_id@) {
                r matches Ok(bytes) && bytes@ == self@[tx_position(
                    self@,
                    tx_id@,
                ).0].transactions[tx_position(self@, tx_id@).1].bytes
            } else {
                r matches Err(LocalStateStoreError::NoSuchTransaction)
            },
    {
        proof {
            use_type_invariant(&*self);
        }
        match self.find_tx(tx_id.as_str()) {
            Some((i, j)) => {
                let stored = &self.files[i].transactions[j];
                assert(self@[i as int].transactions[j as int] == stored@);
                Ok(vstd::slice::slice_to_vec(stored.bytes.as_slice()))
            },
            None => Err(LocalStateStoreError::NoSuchTransaction),
        }
    }

    /// Updates the record of a transaction: a handle or a status that is given replaces the one
    /// that was there. Fails with `NoSuchTransaction`, and changes nothing, exactly where the
    /// store holds no such transaction.
    pub fn update_tx(
        &mut self,
        tx_id: &String,
        submit_id: Option<String>,
        status: Option<TransactionStatus>,
    ) -> (r: Result<(), LocalStateStoreError>)
        ensures
            final(self).wf(),
            if has_tx(old(self)@, tx_id@) {
                r is Ok && final(self)@ == model_update(
                    old(self)@,
                    tx_id@,
                    match submit_id {
                        Some(id) => Some(id@),
                        None => None,
                    },
                    status,
                )
            } else {
                r matches Err(LocalStateStoreError::NoSuchTransaction) && final(self)@ == old(
                    self,
                )@
            },
    {
        proof {
            use_type_invariant(&*self);
        }
        let (i, j) = match self.find_tx(tx_id.as_str()) {
            Some(at) => at,
            None => {
                return Err(LocalStateStoreError::NoSuchTransaction);
            },
        };
        let ghost before = self@;
        let ghost given: Option<Seq<char>> = if submit_id is Some {
            Some(submit_id->0@)
        } else {
            None
        };
        let mut files = self.take_files();
        let mut entry = files.remove(i);
        assert(entry@ == before[i as int]);
        let mut stored = entry.transactions.remove(j);
        assert(stored@ == before[i as int].transactions[j as int]);
        let _ = stored.info.apply_update(submit_id, status);
        entry.transactions.insert(j, stored);
        files.insert(i, entry);
        proof {
            let after = model_update(before, tx_id@, given, status);
            let now = chain_views(files@);
            assert(now.len() == after.len());
            assert forall|a: int| 0 <= a < after.len() implies now[a] == after[a] by {
                if a == i {
                    assert(now[a].transactions =~= after[a].transactions);
                }
            }
            assert(now =~= after);
            lemma_update_keeps_wf(before, tx_id@, given, status);
        }
        self.files = files;
        Ok(())
    }

    /// Makes a file known to the store before it has transactions: it gets an empty chain, unless
    /// it has a chain already, which stays as it is.
    pub fn set_has_file(&mut self, file_id: &FileId) -> (r: Result<(), LocalStateStoreError>)
        ensures
            r is Ok,
            final(self).wf(),
            final(self)@ == model_set_has_file(old(self)@, *file_id),
            has_file(final(self)@, *file_id),
            model_get_txs(final(self)@, *file_id) == (match model_get_txs(old(self)@, *file_id) {
                Some(rows) => Some(rows),
                None => Some(Seq::empty()),
            }),
    {
        proof {
            use_type_invariant(&*self);
        }
        proof {
            lemma_set_has_file(self@, *file_id);
        }
        if self.find_file(file_id).is_none() {
            let ghost before = self@;
            let entry = FileEntry { file_id: *file_id, transactions: Vec::new() };
            assert(entry@.transactions =~= Seq::<StoredView>::empty());
            let mut files = self.take_files();
            files.push(entry);
            assert(chain_views(files@) =~= before.push(
                FileView { file_id: *file_id, transactions: Seq::empty() },
            ));
            self.files = files;
        }
        Ok(())
    }

    /// Tells whether the store holds a chain for the file: fails with `NoSuchFile` exactly where
    /// it holds none.
    pub fn check_has_file(&self, file_id: &FileId) -> (r: Result<(), LocalStateStoreError>)
        ensures
            if has_file(self@, *file_id) {
                r is Ok
            } else {
                r matches Err(LocalStateStoreError::NoSuchFile)
            },
    {
        proof {
            use_type_invariant(&*self);
        }
        match self.find_file(file_id) {
            Some(_) => Ok(()),
            None => Err(LocalStateStoreError::NoSuchFile),
        }
    }

    /// Forgets a file: its chain, and with it every record and the bytes of every transaction of
    /// the file. Succeeds also where the store holds no chain for the file.
    pub fn flush_txs(&mut self, file_id: &FileId) -> (r: Result<(), LocalStateStoreError>)
        ensures
            r is Ok,
            final(self).wf(),
            final(self)@ == model_flush(old(self)@, *file_id),
            model_get_txs(final(self)@, *file_id) is None,
    {
        proof {
            use_type_invariant(&*self);
        }
        proof {
            lemma_flush_forgets_file(self@, *file_id);
        }
        match self.find_file(file_id) {
            Some(at) => {
                let ghost before = self@;
                let mut files = self.take_files();
                let _ = files.remove(at);
                assert(chain_views(files@) =~= before.remove(at as int));
                self.files = files;
            },
            None => {},
        }
        Ok(())
    }

    /// Adds a transaction at the end of a file's chain, and begins the chain where the file has
    /// none. The record is local, without a handle, and its order is the length that the chain
    /// had. Fails with `ImplementationError`, and changes nothing, exactly where a transaction
    /// with the same identity is stored already.
    pub fn add_tx(&mut self, file_id: &FileId, transaction: &Transaction) -> (r: Result<
        (),
        LocalStateStoreError,
    >)
        ensures
            final(self).wf(),
            if has_tx(old(self)@, transaction@.header_signature) {
                r matches Err(LocalStateStoreError::ImplementationError(text)) && text@
                    == duplicate_text() && final(self)@ == old(self)@
            } else {
                r is Ok && final(self)@ == model_add(
                    old(self)@,
                    *file_id,
                    transaction@.header_signature,
                    transaction_wire(transaction@),
                )
            },
    {
        proof {
            use_type_invariant(&*self);
        }
        if self.find_tx(transaction.header_signature.as_str()).is_some() {
            return Err(
                LocalStateStoreError::ImplementationError(
                    String::from_str("transaction is already stored"),
                ),
            );
        }
        let ghost before = self@;
        let bytes = transaction.encode();
        let tx_id = transaction.header_signature.clone();
        match self.find_file(file_id) {
            Some(at) => {
                let mut files = self.take_files();
                let mut entry = files.remove(at);
                assert(entry@ == before[at as int]);
                let order: u64 = entry.transactions.len() as u64;
                assert(before[at as int].transactions.len() <= u64::MAX);
                entry.transactions.push(
                    StoredTransaction { info: TransactionInfo::fresh(order, tx_id), bytes },
                );
                files.insert(at, entry);
                proof {
                    let after = model_add(
                        before,
                        *file_id,
                        transaction@.header_signature,
                        transaction_wire(transaction@),
                    );
                    let now = chain_views(files@);
                    assert(now.len() == after.len());
                    assert forall|a: int| 0 <= a < after.len() implies now[a] == after[a] by {
                        if a == at {
                            assert(now[a].transactions =~= after[a].transactions);
                        }
                    }
                    assert(now =~= after);
                    lemma_add_extends_chain(
                        before,
                        *file_id,
                        transaction@.header_signature,
                        transaction_wire(transaction@),
                    );
                }
                self.files = files;
            },
            None => {
                let mut transactions: Vec<StoredTransaction> = Vec::new();
                transactions.push(StoredTransaction { info: TransactionInfo::fresh(0, tx_id), bytes });
                let entry = FileEntry { file_id: *file_id, transactions };
                proof {
                    assert(entry@.transactions =~= seq![
                        StoredView {
                            info: fresh_info(0, transaction@.header_signature),
                            bytes: transaction_wire(transaction@),
                        },
                    ]);
                }
                let mut files = self.take_files();
                files.push(entry);
                proof {
                    assert(chain_views(files@) =~= model_add(
                        before,
                        *file_id,
                        transaction@.header_signature,
                        transaction_wire(transaction@),
                    ));
                    lemma_add_extends_chain(
                        before,
                        *file_id,
                        transaction@.header_signature,
                        transaction_wire(transaction@),
                    );
                }
                self.files = files;
            },
        }
        proof {
            lemma_add_extends_chain(
                before,
                *file_id,
                transaction@.header_signature,
                transaction_wire(transaction@),
            );
        }
        Ok(())
    }
}

/// Making a file known keeps the store well formed and every other chain as it was; the file
/// has a chain afterwards, which is empty unless it was there before.
pub proof fn lemma_set_has_file(s: Seq<FileView>, file_id: FileId)
    requires
        store_wf(s),
    ensures
        store_wf(model_set_has_file(s, file_id)),
        has_file(model_set_has_file(s, file_id), file_id),
        model_get_txs(model_set_has_file(s, file_id), file_id) == (match model_get_txs(
            s,
            file_id,
        ) {
            Some(rows) => Some(rows),
            None => Some(Seq::empty()),
        }),
        forall|other: FileId|
            other != file_id ==> model_get_txs(model_set_has_file(s, file_id), other)
                == model_get_txs(s, other),
{
    let t = model_set_has_file(s, file_id);
    if !has_file(s, file_id) {
        let p = s.len() as int;
        assert forall|i: int| 0 <= i < s.len() implies (#[trigger] t[i]) == s[i] by {}
        assert forall|i: int| 0 <= i < s.len() implies (#[trigger] s[i]).file_id != file_id by {}
        assert(t[p].transactions.len() == 0);
        assert(store_wf(t)) by {
            assert forall|i: int, j: int, k: int, l: int|
                #![trigger t[i].transactions[j], t[k].transactions[l]]
                0 <= i < t.len() && 0 <= j < t[i].transactions.len() && 0 <= k < t.len() && 0 <= l
                    < t[k].transactions.len() && (i != k || j != l) implies t[i].transactions[j].info.tx_id
                != t[k].transactions[l].info.tx_id by {
                assert(i < p && k < p);
                assert(s[i].transactions[j].info.tx_id != s[k].transactions[l].info.tx_id);
            }
            assert forall|i: int, j: int|
                0 <= i < t.len() && 0 <= j < t[i].transactions.len() implies (
            #[trigger] t[i].transactions[j]).info.order == j by {
                assert(i < p);
                assert(s[i].transactions[j].info.order == j);
            }
        }
        lemma_file_position(t, file_id, p);
        assert(model_get_txs(t, file_id)->0 =~= Seq::<TransactionInfoView>::empty());
        assert forall|other: FileId| other != file_id implies model_get_txs(t, other)
            == model_get_txs(s, other) by {
            if has_file(s, other) {
                let q = file_position(s, other);
                lemma_file_position(t, other, q);
            } else if has_file(t, other) {
                let q = file_position(t, other);
                assert(s[q].file_id == other);
            }
        }
    }
}

/// Updating a record keeps the store well formed, and changes no place and no identity.
pub proof fn lemma_update_keeps_wf(
    s: Seq<FileView>,
    tx_id: Seq<char>,
    submit_id: Option<Seq<char>>,
    status: Option<TransactionStatus>,
)
    requires
        store_wf(s),
        has_tx(s, tx_id),
    ensures
        store_wf(model_update(s, tx_id, submit_id, status)),
        forall|file_id: FileId|
            has_file(model_update(s, tx_id, submit_id, status), file_id) == has_file(s, file_id),
{
    let t = model_update(s, tx_id, submit_id, status);
    let (p, q) = tx_position(s, tx_id);
    assert(is_tx_at(s, tx_id, p, q));
    assert(t.len() == s.len());
    assert forall|i: int| 0 <= i < t.len() implies (#[trigger] t[i]).file_id == s[i].file_id
        && t[i].transactions.len() == s[i].transactions.len() by {}
    assert forall|i: int, j: int| 0 <= i < t.len() && 0 <= j < t[i].transactions.len() implies (
    #[trigger] t[i].transactions[j]).info.tx_id == s[i].transactions[j].info.tx_id
        && t[i].transactions[j].info.order == s[i].transactions[j].info.order by {}
    assert(store_wf(t)) by {
        assert forall|i: int, j: int, k: int, l: int|
            #![trigger t[i].transactions[j], t[k].transactions[l]]
            0 <= i < t.len() && 0 <= j < t[i].transactions.len() && 0 <= k < t.len() && 0 <= l
                < t[k].transactions.len() && (i != k || j != l) implies t[i].transactions[j].info.tx_id
            != t[k].transactions[l].info.tx_id by {
            assert(s[i].transactions[j].info.tx_id != s[k].transactions[l].info.tx_id);
        }
    }
    assert forall|file_id: FileId| has_file(t, file_id) == has_file(s, file_id) by {
        if has_file(s, file_id) {
            let a = file_position(s, file_id);
            assert(t[a].file_id == file_id);
        }
        if has_file(t, file_id) {
            let a = file_position(t, file_id);
            assert(s[a].file_id == file_id);
        }
    }
}

} // verus!
