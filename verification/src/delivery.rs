//! The decisions of sending and awaiting: in which order to submit the staged transactions, what
//! to ask the service about, which updates its report calls for, and when the wait is over.

use crate::client::TFSLiteClientError;
use crate::equal::same_text;
use crate::fields::text_views;
use crate::state::{info_views, TransactionInfo, TransactionInfoView, TransactionStatus};
use vstd::prelude::*;
use vstd::string::*;

verus! {

/// The identities of the records, in order: the order in which the transactions are submitted.
pub open spec fn ids_in_order(rows: Seq<TransactionInfoView>) -> Seq<Seq<char>> {
    Seq::new(rows.len(), |i: int| rows[i].tx_id)
}

/// The identities of the transactions to submit, in the order of submission: every transaction
/// of the file, in the order of the records.
pub fn submission_order(rows: &Vec<TransactionInfo>) -> (ids: Vec<String>)
    ensures
        text_views(ids@) == ids_in_order(info_views(rows@)),
{
    let mut ids: Vec<String> = Vec::new();
    let mut i: usize = 0;
    while i < rows.len()
        invariant
            i <= rows.len(),
            ids@.len() == i,
            forall|k: int| 0 <= k < i ==> (#[trigger] ids@[k])@ == rows@[k]@.tx_id,
        decreases rows.len() - i,
    {
        ids.push(rows[i].tx_id.clone());
        i = i + 1;
    }
    assert(text_views(ids@) =~= ids_in_order(info_views(rows@)));
    ids
}

/// The handles of the records that have one, in order.
pub open spec fn handles_of(rows: Seq<TransactionInfoView>) -> Seq<Seq<char>>
    decreases rows.len(),
{
    if rows.len() == 0 {
        Seq::empty()
    } else if rows.last().submit_id is Some {
        handles_of(rows.drop_last()).push(rows.last().submit_id->0)
    } else {
        handles_of(rows.drop_last())
    }
}

/// The handles to ask the service about: that of every record that has one, in order.
pub fn poll_request(rows: &Vec<TransactionInfo>) -> (handles: Vec<String>)
    ensures
        text_views(handles@) == handles_of(info_views(rows@)),
{
    let ghost all = info_views(rows@);
    let mut handles: Vec<String> = Vec::new();
    let mut i: usize = 0;
    assert(text_views(handles@) =~= handles_of(all.take(0)));
    while i < rows.len()
        invariant
            i <= rows.len(),
            all == info_views(rows@),
            text_views(handles@) == handles_of(all.take(i as int)),
        decreases rows.len() - i,
    {
        proof {
            assert(all.take(i as int + 1).drop_last() =~= all.take(i as int));
            assert(all.take(i as int + 1).last() == rows@[i as int]@);
        }
        match &rows[i].submit_id {
            Some(id) => {
                let ghost before = handles@;
                handles.push(id.clone());
                assert(text_views(handles@) =~= text_views(
                    before,
                ).push(id@));
            },
            None => {},
        }
        i = i + 1;
    }
    assert(all.take(i as int) =~= all);
    handles
}

/// The place of the last record before place `end` that carries the handle, if there is one.
pub open spec fn place_of_handle(rows: Seq<TransactionInfoView>, handle: Seq<char>, end: int) -> Option<
    int,
>
    decreases end,
{
    if end <= 0 || end > rows.len() {
        None
    } else if rows[end - 1].submit_id == Some(handle) {
        Some(end - 1)
    } else {
        place_of_handle(rows, handle, end - 1)
    }
}

/// An update to make in the store after the service has reported a status.
#[derive(Debug)]
pub struct StatusUpdate {
    pub tx_id: String,
    pub submit_id: String,
    pub status: TransactionStatus,
}

/// An update, as mathematical values.
pub struct StatusUpdateView {
    pub tx_id: Seq<char>,
    pub submit_id: Seq<char>,
    pub status: TransactionStatus,
}

impl View for StatusUpdate {
    type V = StatusUpdateView;

    open spec fn view(&self) -> StatusUpdateView {
        StatusUpdateView { tx_id: self.tx_id@, submit_id: self.submit_id@, status: self.status }
    }
}

/// A handle and the name of the status that the service reports for it.
#[derive(Debug)]
pub struct ReportedStatus {
    pub submit_id: String,
    pub status: String,
}

/// The updates that a report calls for, in the order of the report: for each handle that a
/// record carries, the record's transaction takes the status reported, where a status that the
/// service does not know or that cannot be read counts as local. Where several records carry
/// the handle, the last of them is meant. A handle that no record carries calls for nothing.
pub open spec fn updates_for(
    rows: Seq<TransactionInfoView>,
    report: Seq<ReportedStatus>,
) -> Seq<StatusUpdateView>
    decreases report.len(),
{
    if report.len() == 0 {
        Seq::empty()
    } else {
        let earlier = updates_for(rows, report.drop_last());
        let last = report.last();
        match place_of_handle(rows, last.submit_id@, rows.len() as int) {
            Some(k) => earlier.push(
                StatusUpdateView {
                    tx_id: rows[k].tx_id,
                    submit_id: last.submit_id@,
                    status: TransactionStatus::of_name(last.status@).normal(),
                },
            ),
            None => earlier,
        }
    }
}

/// Each update of a list, by its view.
pub open spec fn update_views(updates: Seq<StatusUpdate>) -> Seq<StatusUpdateView> {
    updates.map_values(|u: StatusUpdate| u@)
}

fn find_handle(rows: &Vec<TransactionInfo>, handle: &str) -> (r: Option<usize>)
    ensures
        match place_of_handle(info_views(rows@), handle@, rows@.len() as int) {
            Some(k) => r matches Some(found) && found == k && 0 <= k < rows@.len(),
            None => r is None,
        },
{
    let ghost all = info_views(rows@);
    let mut k: usize = rows.len();
    while k > 0
        invariant
            k <= rows.len(),
            all == info_views(rows@),
            place_of_handle(all, handle@, rows@.len() as int) == place_of_handle(
                all,
                handle@,
                k as int,
            ),
        decreases k,
    {
        k = k - 1;
        assert(all[k as int] == rows@[k as int]@);
        let found = match &rows[k].submit_id {
            Some(id) => same_text(id.as_str(), handle),
            None => false,
        };
        if found {
            return Some(k);
        }
    }
    None
}

/// The updates that a report of the service calls for.
pub fn status_updates(rows: &Vec<TransactionInfo>, report: &Vec<ReportedStatus>) -> (updates: Vec<
    StatusUpdate,
>)
    ensures
        update_views(updates@) == updates_for(info_views(rows@), report@),
{
    let ghost all = info_views(rows@);
    let mut updates: Vec<StatusUpdate> = Vec::new();
    let mut i: usize = 0;
    assert(update_views(updates@) =~= updates_for(all, report@.take(0)));
    while i < report.len()
        invariant
            i <= report.len(),
            all == info_views(rows@),
            update_views(updates@) == updates_for(all, report@.take(i as int)),
        decreases report.len() - i,
    {
        proof {
            assert(report@.take(i as int + 1).drop_last() =~= report@.take(i as int));
            assert(report@.take(i as int + 1).last() == report@[i as int]);
        }
        match find_handle(rows, report[i].submit_id.as_str()) {
            Some(k) => {
                let ghost before = updates@;
                assert(all[k as int] == rows@[k as int]@);
                updates.push(
                    StatusUpdate {
                        tx_id: rows[k].tx_id.clone(),
                        submit_id: report[i].submit_id.clone(),
                        status: TransactionStatus::parse(report[i].status.as_str()).normalize(),
                    },
                );
                assert(update_views(updates@) =~= update_views(before).push(updates@.last()@));
            },
            None => {},
        }
        i = i + 1;
    }
    assert(report@.take(i as int) =~= report@);
    updates
}

/// What follows from the answer to a poll: the updates that the report calls for, or, where the
/// request failed, that failure and no update, so that the wait ends there and the caller learns
/// why. The store is as it was and the wait can be taken up again.
pub fn poll_outcome(
    rows: &Vec<TransactionInfo>,
    answer: Result<Vec<ReportedStatus>, TFSLiteClientError>,
) -> (r: Result<Vec<StatusUpdate>, TFSLiteClientError>)
    ensures
        match answer {
            Ok(report) => r matches Ok(updates) && update_views(updates@) == updates_for(
                info_views(rows@),
                report@,
            ),
            Err(failure) => r matches Err(surfaced) && surfaced == failure,
        },
{
    match answer {
        Ok(report) => Ok(status_updates(rows, &report)),
        Err(failure) => Err(failure),
    }
}

/// The number of records that are committed.
pub open spec fn committed_count(rows: Seq<TransactionInfoView>) -> nat
    decreases rows.len(),
{
    if rows.len() == 0 {
        0
    } else {
        committed_count(rows.drop_last()) + if rows.last().status == TransactionStatus::Committed {
            1nat
        } else {
            0nat
        }
    }
}

/// The identities of the records that are local, in order: the transactions to submit again.
pub open spec fn local_ids(rows: Seq<TransactionInfoView>) -> Seq<Seq<char>>
    decreases rows.len(),
{
    if rows.len() == 0 {
        Seq::empty()
    } else if rows.last().status == TransactionStatus::Local {
        local_ids(rows.drop_last()).push(rows.last().tx_id)
    } else {
        local_ids(rows.drop_last())
    }
}

/// What to do after the records of a file have been read back during the wait.
#[derive(Debug)]
pub struct WaitDecision {
    /// The number of committed transactions, to report.
    pub committed: u64,
    /// The number of transactions of the file, to report.
    pub total: u64,
    /// The transactions to submit again.
    pub resubmit: Vec<String>,
    /// Whether every transaction is committed, so that the file can be flushed and the wait ends.
    pub finished: bool,
}

proof fn lemma_committed_count_bound(rows: Seq<TransactionInfoView>)
    ensures
        committed_count(rows) <= rows.len(),
        committed_count(rows) == rows.len() <==> forall|i: int|
            0 <= i < rows.len() ==> (#[trigger] rows[i]).status == TransactionStatus::Committed,
    decreases rows.len(),
{
    if rows.len() > 0 {
        let shorter = rows.drop_last();
        lemma_committed_count_bound(shorter);
        if committed_count(rows) == rows.len() {
            assert forall|i: int| 0 <= i < rows.len() implies (#[trigger] rows[i]).status
                == TransactionStatus::Committed by {
                if i < shorter.len() {
                    assert(shorter[i] == rows[i]);
                }
            }
        }
        if forall|i: int|
            0 <= i < rows.len() ==> (#[trigger] rows[i]).status == TransactionStatus::Committed {
            assert forall|i: int| 0 <= i < shorter.len() implies (#[trigger] shorter[i]).status
                == TransactionStatus::Committed by {
                assert(shorter[i] == rows[i]);
            }
            assert(rows[rows.len() - 1].status == TransactionStatus::Committed);
        }
    }
}

/// Every record that is local is among the transactions to submit again.
pub proof fn lemma_local_rows_are_resubmitted(rows: Seq<TransactionInfoView>, i: int)
    requires
        0 <= i < rows.len(),
        rows[i].status == TransactionStatus::Local,
    ensures
        local_ids(rows).contains(rows[i].tx_id),
    decreases rows.len(),
{
    let shorter = rows.drop_last();
    if i == rows.len() - 1 {
        let ids = local_ids(rows);
        assert(ids[ids.len() - 1] == rows[i].tx_id);
    } else {
        lemma_local_rows_are_resubmitted(shorter, i);
        let k = choose|k: int| 0 <= k < local_ids(shorter).len() && local_ids(shorter)[k]
            == shorter[i].tx_id;
        assert(local_ids(rows)[k] == rows[i].tx_id);
    }
}

/// A status that the service reports as unknown, or by a name that is no status name, is taken
/// for local.
pub proof fn lemma_unknown_becomes_local(name: Seq<char>)
    requires
        name == "UNKNOWN"@ || !TransactionStatus::is_name(name),
    ensures
        TransactionStatus::of_name(name).normal() == TransactionStatus::Local,
{
    if name == "UNKNOWN"@ {
        TransactionStatus::Unknown.lemma_name_round_trip();
    } else {
        TransactionStatus::lemma_other_text_is_invalid(name);
    }
}

/// Decides what follows from the records of a file: how many are committed, which transactions
/// must be submitted again, and whether the wait is over.
pub fn wait_decision(rows: &Vec<TransactionInfo>) -> (decision: WaitDecision)
    ensures
        decision.committed == committed_count(info_views(rows@)),
        decision.total == rows@.len(),
        text_views(decision.resubmit@) == local_ids(info_views(rows@)),
        decision.finished == (forall|i: int|
            0 <= i < rows@.len() ==> (#[trigger] info_views(rows@)[i]).status
                == TransactionStatus::Committed),
{
    let ghost all = info_views(rows@);
    let mut committed: u64 = 0;
    let mut resubmit: Vec<String> = Vec::new();
    let mut i: usize = 0;
    assert(text_views(resubmit@) =~= local_ids(all.take(0)));
    while i < rows.len()
        invariant
            i <= rows.len(),
            all == info_views(rows@),
            committed == committed_count(all.take(i as int)),
            committed <= i,
            text_views(resubmit@) == local_ids(all.take(i as int)),
        decreases rows.len() - i,
    {
        proof {
            assert(all.take(i as int + 1).drop_last() =~= all.take(i as int));
            assert(all.take(i as int + 1).last() == rows@[i as int]@);
        }
        if rows[i].status == TransactionStatus::Committed {
            committed = committed + 1;
        }
        if rows[i].status == TransactionStatus::Local {
            let ghost before = resubmit@;
            resubmit.push(rows[i].tx_id.clone());
            assert(text_views(resubmit@) =~= text_views(before).push(
                rows@[i as int]@.tx_id,
            ));
        }
        i = i + 1;
    }
    proof {
        assert(all.take(i as int) =~= all);
        lemma_committed_count_bound(all);
    }
    let total: u64 = rows.len() as u64;
    WaitDecision { committed, total, resubmit, finished: committed == total }
}

} // verus!
