//! What the staging store keeps of each transaction, and the rules that every store follows when
//! it turns rows into records and records into rows.

use crate::equal::same_text;
use vstd::multiset::Multiset;
use vstd::prelude::*;
use vstd::seq_lib::{to_multiset_build, to_multiset_insert};
use vstd::string::*;

verus! {

/// How far a transaction has come. `Local` means that the service does not know it, or knows it
/// no longer, and that it must be submitted.
#[derive(Clone, Copy, Debug, PartialEq, Eq, Structural)]
pub enum TransactionStatus {
    Local,
    Queued,
    Pending,
    Committed,
    Unknown,
    InvalidStatus,
}

impl TransactionStatus {
    /// The name under which the status is stored and reported.
    pub open spec fn name(self) -> Seq<char> {
        match self {
            TransactionStatus::Local => "LOCAL"@,
            TransactionStatus::Queued => "QUEUED"@,
            TransactionStatus::Pending => "PENDING"@,
            TransactionStatus::Committed => "COMMITTED"@,
            TransactionStatus::Unknown => "UNKNOWN"@,
            TransactionStatus::InvalidStatus => "INVALID_STATUS"@,
        }
    }

    /// The status that a name stands for; any text that is no status name stands for
    /// `InvalidStatus`.
    pub open spec fn of_name(name: Seq<char>) -> TransactionStatus {
        if name == "LOCAL"@ {
            TransactionStatus::Local
        } else if name == "QUEUED"@ {
            TransactionStatus::Queued
        } else if name == "PENDING"@ {
            TransactionStatus::Pending
        } else if name == "COMMITTED"@ {
            TransactionStatus::Committed
        } else if name == "UNKNOWN"@ {
            TransactionStatus::Unknown
        } else {
            TransactionStatus::InvalidStatus
        }
    }

    /// Whether a text is one of the six status names.
    pub open spec fn is_name(name: Seq<char>) -> bool {
        exists|status: TransactionStatus| name == #[trigger] status.name()
    }

    /// A status comes back from its name.
    pub proof fn lemma_name_round_trip(self)
        ensures
            TransactionStatus::of_name(self.name()) == self,
    {
        reveal_strlit("LOCAL");
        reveal_strlit("QUEUED");
        reveal_strlit("PENDING");
        reveal_strlit("COMMITTED");
        reveal_strlit("UNKNOWN");
        reveal_strlit("INVALID_STATUS");
        assert("LOCAL"@.len() == 5);
        assert("QUEUED"@.len() == 6);
        assert("PENDING"@.len() == 7);
        assert("COMMITTED"@.len() == 9);
        assert("UNKNOWN"@.len() == 7);
        assert("INVALID_STATUS"@.len() == 14);
        assert("PENDING"@[0] == 'P');
        assert("UNKNOWN"@[0] == 'U');
    }

    /// A text that is no status name stands for `InvalidStatus`.
    pub proof fn lemma_other_text_is_invalid(name: Seq<char>)
        requires
            !TransactionStatus::is_name(name),
        ensures
            TransactionStatus::of_name(name) == TransactionStatus::InvalidStatus,
    {
        assert(name != TransactionStatus::Local.name());
        assert(name != TransactionStatus::Queued.name());
        assert(name != TransactionStatus::Pending.name());
        assert(name != TransactionStatus::Committed.name());
        assert(name != TransactionStatus::Unknown.name());
    }

    /// The name under which the status is stored and reported.
    pub fn to_string(&self) -> (text: String)
        ensures
            text@ == self.name(),
    {
        match self {
            TransactionStatus::Local => String::from_str("LOCAL"),
            TransactionStatus::Queued => String::from_str("QUEUED"),
            TransactionStatus::Pending => String::from_str("PENDING"),
            TransactionStatus::Committed => String::from_str("COMMITTED"),
            TransactionStatus::Unknown => String::from_str("UNKNOWN"),
            TransactionStatus::InvalidStatus => String::from_str("INVALID_STATUS"),
        }
    }

    /// The status that a name stands for; any text that is no status name stands for
    /// `InvalidStatus`.
    pub fn parse(name: &str) -> (status: TransactionStatus)
        ensures
            status == TransactionStatus::of_name(name@),
    {
        if same_text(name, "LOCAL") {
            TransactionStatus::Local
        } else if same_text(name, "QUEUED") {
            TransactionStatus::Queued
        } else if same_text(name, "PENDING") {
            TransactionStatus::Pending
        } else if same_text(name, "COMMITTED") {
            TransactionStatus::Committed
        } else if same_text(name, "UNKNOWN") {
            TransactionStatus::Unknown
        } else {
            TransactionStatus::InvalidStatus
        }
    }

    /// What a status that the service reports is taken for: a status that the service does not
    /// know, or that cannot be read, is taken for `Local`, so that the transaction is submitted
    /// again.
    pub open spec fn normal(self) -> TransactionStatus {
        match self {
            TransactionStatus::Unknown => TransactionStatus::Local,
            TransactionStatus::InvalidStatus => TransactionStatus::Local,
            other => other,
        }
    }

    /// What a status that the service reports is taken for.
    pub fn normalize(self) -> (status: TransactionStatus)
        ensures
            status == self.normal(),
    {
        match self {
            TransactionStatus::Unknown => TransactionStatus::Local,
            TransactionStatus::InvalidStatus => TransactionStatus::Local,
            other => other,
        }
    }
}

impl From<TransactionStatus> for String {
    /// The name of the status.
    fn from(value: TransactionStatus) -> (text: String)
        ensures
            text@ == value.name(),
    {
        value.to_string()
    }
}

impl vstd::std_specs::convert::FromSpecImpl<TransactionStatus> for String {
    open spec fn obeys_from_spec() -> bool {
        false
    }

    open spec fn from_spec(v: TransactionStatus) -> String {
        arbitrary()
    }
}

impl From<String> for TransactionStatus {
    /// The status that the text names.
    fn from(value: String) -> (status: TransactionStatus) {
        TransactionStatus::parse(value.as_str())
    }
}

impl vstd::std_specs::convert::FromSpecImpl<String> for TransactionStatus {
    open spec fn obeys_from_spec() -> bool {
        true
    }

    open spec fn from_spec(v: String) -> TransactionStatus {
        TransactionStatus::of_name(v@)
    }
}

/// What the store keeps of a transaction, as mathematical values.
pub struct TransactionInfoView {
    pub order: u64,
    pub tx_id: Seq<char>,
    pub submit_id: Option<Seq<char>>,
    pub status: TransactionStatus,
}

/// What the store keeps of a transaction: its place in the file's chain, its identity, the handle
/// that the service gave when it was submitted, and how far it has come.
#[derive(Debug)]
pub struct TransactionInfo {
    pub order: u64,
    pub tx_id: String,
    pub submit_id: Option<String>,
    pub status: TransactionStatus,
}

impl View for TransactionInfo {
    type V = TransactionInfoView;

    open spec fn view(&self) -> TransactionInfoView {
        TransactionInfoView {
            order: self.order,
            tx_id: self.tx_id@,
            submit_id: match self.submit_id {
                Some(id) => Some(id@),
                None => None,
            },
            status: self.status,
        }
    }
}

/// Each record of a list, by its view.
pub open spec fn info_views(rows: Seq<TransactionInfo>) -> Seq<TransactionInfoView> {
    rows.map_values(|row: TransactionInfo| row@)
}

/// The record of a transaction that has just been added at place `order`.
pub open spec fn fresh_info(order: u64, tx_id: Seq<char>) -> TransactionInfoView {
    TransactionInfoView { order, tx_id, submit_id: None, status: TransactionStatus::Local }
}

/// The record that a stored row stands for: an empty handle means that there is none.
pub open spec fn info_of_row(
    tx_id: Seq<char>,
    order: u64,
    submit_id: Seq<char>,
    status: Seq<char>,
) -> TransactionInfoView {
    TransactionInfoView {
        order,
        tx_id,
        submit_id: if submit_id.len() == 0 {
            None
        } else {
            Some(submit_id)
        },
        status: TransactionStatus::of_name(status),
    }
}

/// The record after an update: what is given replaces what was there, the rest stays.
pub open spec fn updated_info(
    info: TransactionInfoView,
    submit_id: Option<Seq<char>>,
    status: Option<TransactionStatus>,
) -> TransactionInfoView {
    TransactionInfoView {
        submit_id: match submit_id {
            Some(id) => Some(id),
            None => info.submit_id,
        },
        status: match status {
            Some(status) => status,
            None => info.status,
        },
        ..info
    }
}

/// An update never takes a handle away, and never touches the place or the identity.
pub proof fn lemma_update_keeps_handle(
    info: TransactionInfoView,
    submit_id: Option<Seq<char>>,
    status: Option<TransactionStatus>,
)
    ensures
        info.submit_id is Some ==> updated_info(info, submit_id, status).submit_id is Some,
        updated_info(info, submit_id, status).order == info.order,
        updated_info(info, submit_id, status).tx_id == info.tx_id,
{
}

impl TransactionInfo {
    /// The record of a transaction that has just been added at place `order`.
    pub fn fresh(order: u64, tx_id: String) -> (info: TransactionInfo)
        ensures
            info@ == fresh_info(order, tx_id@),
    {
        TransactionInfo { order, tx_id, submit_id: None, status: TransactionStatus::Local }
    }

    /// The record that a stored row stands for.
    pub fn from_row(tx_id: String, order: u64, submit_id: String, status: &str) -> (info:
        TransactionInfo)
        ensures
            info@ == info_of_row(tx_id@, order, submit_id@, status@),
    {
        let submit_id = if submit_id.as_str().is_empty() {
            None
        } else {
            Some(submit_id)
        };
        TransactionInfo { order, tx_id, submit_id, status: TransactionStatus::parse(status) }
    }

    /// The handle as a row stores it: empty where there is none.
    pub fn submit_id_column(&self) -> (text: String)
        ensures
            text@ == (match self@.submit_id {
                Some(id) => id,
                None => Seq::empty(),
            }),
    {
        match &self.submit_id {
            Some(id) => id.clone(),
            None => String::new(),
        }
    }

    /// Applies an update; tells whether anything was given.
    pub fn apply_update(&mut self, submit_id: Option<String>, status: Option<TransactionStatus>) -> (given:
        bool)
        ensures
            given == (submit_id is Some || status is Some),
            final(self)@ == updated_info(
                old(self)@,
                match submit_id {
                    Some(id) => Some(id@),
                    None => None,
                },
                status,
            ),
    {
        let mut given = false;
        match submit_id {
            Some(id) => {
                self.submit_id = Some(id);
                given = true;
            },
            None => {},
        }
        match status {
            Some(status) => {
                self.status = status;
                given = true;
            },
            None => {},
        }
        given
    }

    /// A copy of the record.
    pub fn duplicate(&self) -> (copy: TransactionInfo)
        ensures
            copy@ == self@,
    {
        TransactionInfo {
            order: self.order,
            tx_id: self.tx_id.clone(),
            submit_id: match &self.submit_id {
                Some(id) => Some(id.clone()),
                None => None,
            },
            status: self.status,
        }
    }
}

/// Whether records stand in the order of their places.
pub open spec fn sorted_by_order(rows: Seq<TransactionInfo>) -> bool {
    forall|i: int, j: int| 0 <= i <= j < rows.len() ==> rows[i].order <= rows[j].order
}

/// Puts records in the order of their places. The records are the same ones, each as often as
/// before.
pub fn sort_by_order(rows: &mut Vec<TransactionInfo>)
    ensures
        sorted_by_order(final(rows)@),
        final(rows)@.to_multiset() == old(rows)@.to_multiset(),
{
    let mut sorted: Vec<TransactionInfo> = Vec::new();
    proof {
        assert(sorted@.to_multiset().add(rows@.to_multiset()) =~= old(rows)@.to_multiset()) by {
            sorted@.to_multiset_ensures();
            assert(sorted@.to_multiset() =~= Multiset::<TransactionInfo>::empty());
        }
    }
    while rows.len() > 0
        invariant
            sorted_by_order(sorted@),
            sorted@.to_multiset().add(rows@.to_multiset()) == old(rows)@.to_multiset(),
        decreases rows.len(),
    {
        let ghost before = rows@;
        let ghost placed = sorted@;
        let row = rows.pop().unwrap();
        let mut at: usize = 0;
        while at < sorted.len() && sorted[at].order <= row.order
            invariant
                at <= sorted.len(),
                forall|k: int| 0 <= k < at ==> sorted@[k].order <= row.order,
            decreases sorted.len() - at,
        {
            at = at + 1;
        }
        sorted.insert(at, row);
        proof {
            assert(before =~= rows@.push(row));
            to_multiset_build(rows@, row);
            to_multiset_insert(placed, at as int, row);
            assert(sorted@.to_multiset().add(rows@.to_multiset()) =~= placed.to_multiset().add(
                before.to_multiset(),
            ));
            assert forall|i: int, j: int| 0 <= i <= j < sorted@.len() implies sorted@[i].order
                <= sorted@[j].order by {
                let a = if i < at {
                    placed[i]
                } else if i == at {
                    row
                } else {
                    placed[i - 1]
                };
                let b = if j < at {
                    placed[j]
                } else if j == at {
                    row
                } else {
                    placed[j - 1]
                };
                assert(sorted@[i] == a);
                assert(sorted@[j] == b);
            }
        }
    }
    proof {
        assert(rows@.to_multiset() =~= Multiset::<TransactionInfo>::empty()) by {
            rows@.to_multiset_ensures();
        }
        assert(sorted@.to_multiset().add(rows@.to_multiset()) =~= sorted@.to_multiset());
    }
    *rows = sorted;
}

/// What went wrong in the store.
#[derive(Debug)]
pub enum LocalStateStoreError {
    NoSuchFile,
    NoSuchTransaction,
    ImplementationError(String),
}

} // verus!
