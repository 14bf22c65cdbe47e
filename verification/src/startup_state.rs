//! A bundle runtime's startup-failure history.
//!
//! A bring-up pass records each session that failed to start; a session later
//! observed serving clears what it left behind; and the history reads back what
//! the two have left standing. Records carry a sequence number the history
//! assigns, strictly increasing in the order they were appended. Storing the
//! history on disk and announcing new records are the host's.
use vstd::prelude::*;

use crate::configuration::SessionType;
use crate::errors::{details_view, Detail, DetailValue, DetailView};
use crate::seqs::lemma_filter_step;
use crate::text::str_eq;

verus! {

/// One session's failure to start.
#[derive(Debug)]
pub struct StartupFailureRecord {
    pub session_id: String,
    pub transport: SessionType,
    pub code: String,
    pub reason: String,
    pub timestamp: String,
    pub sequence: u64,
    pub details: Option<Vec<Detail>>,
}

pub struct FailureView {
    pub session_id: Seq<char>,
    pub transport: SessionType,
    pub code: Seq<char>,
    pub reason: Seq<char>,
    pub timestamp: Seq<char>,
    pub sequence: u64,
    pub details: Option<Seq<DetailView>>,
}

impl View for StartupFailureRecord {
    type V = FailureView;

    open spec fn view(&self) -> FailureView {
        FailureView {
            session_id: self.session_id@,
            transport: self.transport,
            code: self.code@,
            reason: self.reason@,
            timestamp: self.timestamp@,
            sequence: self.sequence,
            details: details_view(self.details),
        }
    }
}

/// Whether a record belongs to a session other than `session_id`.
pub open spec fn other_session(session_id: Seq<char>) -> spec_fn(FailureView) -> bool {
    |r: FailureView| r.session_id != session_id
}

/// Records in strictly increasing sequence order, all below `next`.
pub open spec fn history_ordered(next: u64, records: Seq<FailureView>) -> bool {
    &&& forall|i: int, j: int|
        0 <= i < j < records.len() ==> records[i].sequence < records[j].sequence
    &&& forall|i: int| 0 <= i < records.len() ==> records[i].sequence < next
}

/// The history after appending `records`, numbered from `next` on.
pub open spec fn numbered(records: Seq<FailureView>, next: u64) -> Seq<FailureView> {
    Seq::new(records.len(), |i: int| FailureView { sequence: (next + i) as u64, ..records[i] })
}

/// A copy of a detail value.
pub fn copy_detail_value(value: &DetailValue) -> (copy: DetailValue)
    ensures
        copy@ == value@,
{
    match value {
        DetailValue::Null => DetailValue::Null,
        DetailValue::Flag(b) => DetailValue::Flag(*b),
        DetailValue::Number(n) => DetailValue::Number(*n),
        DetailValue::Text(s) => DetailValue::Text(s.clone()),
        DetailValue::Texts(v) => {
            let mut copy: Vec<String> = Vec::new();
            let mut i: usize = 0;
            while i < v.len()
                invariant
                    i <= v@.len(),
                    copy@.len() == i,
                    forall|j: int| 0 <= j < i ==> #[trigger] copy@[j]@ == v@[j]@,
                decreases v@.len() - i,
            {
                copy.push(v[i].clone());
                i = i + 1;
            }
            assert(copy@.map_values(|s: String| s@) =~= v@.map_values(|s: String| s@));
            DetailValue::Texts(copy)
        },
    }
}

/// A copy of a detail list.
pub fn copy_details(details: &Option<Vec<Detail>>) -> (copy: Option<Vec<Detail>>)
    ensures
        details_view(copy) == details_view(*details),
{
    match details {
        None => None,
        Some(v) => {
            let mut copy: Vec<Detail> = Vec::new();
            let mut i: usize = 0;
            while i < v.len()
                invariant
                    i <= v@.len(),
                    copy@.len() == i,
                    forall|j: int| 0 <= j < i ==> #[trigger] copy@[j]@ == v@[j]@,
                decreases v@.len() - i,
            {
                copy.push(Detail { key: v[i].key.clone(), value: copy_detail_value(&v[i].value) });
                i = i + 1;
            }
            assert(copy@.map_values(|d: Detail| d@) =~= v@.map_values(|d: Detail| d@));
            Some(copy)
        },
    }
}

impl StartupFailureRecord {
    /// A copy of this record.
    pub fn copy(&self) -> (copy: Self)
        ensures
            copy@ == self@,
    {
        StartupFailureRecord {
            session_id: self.session_id.clone(),
            transport: self.transport,
            code: self.code.clone(),
            reason: self.reason.clone(),
            timestamp: self.timestamp.clone(),
            sequence: self.sequence,
            details: copy_details(&self.details),
        }
    }
}

/// The startup-failure history of one bundle runtime directory.
pub struct StartupFailureHistory {
    next_sequence: u64,
    records: Vec<StartupFailureRecord>,
}

impl StartupFailureHistory {
    #[verifier::type_invariant]
    closed spec fn ordered(&self) -> bool {
        history_ordered(self.next_sequence, self.records@.map_values(|r: StartupFailureRecord| r@))
    }

    /// The sequence number the next appended record gets.
    pub closed spec fn next(&self) -> u64 {
        self.next_sequence
    }

    /// The records standing, oldest first.
    pub closed spec fn records(&self) -> Seq<FailureView> {
        self.records@.map_values(|r: StartupFailureRecord| r@)
    }

    /// The sequence number the next appended record gets.
    pub fn next_sequence(&self) -> (next: u64)
        ensures
            next == self.next(),
    {
        self.next_sequence
    }

    /// An empty history whose first record gets sequence 1.
    pub fn new() -> (history: Self)
        ensures
            history.next() == 1,
            history.records() == Seq::<FailureView>::empty(),
    {
        let history = StartupFailureHistory { next_sequence: 1, records: Vec::new() };
        assert(history.records() =~= Seq::<FailureView>::empty());
        history
    }

    /// A history holding `records` as stored, when they are in strictly
    /// increasing sequence order; the next record is numbered after the last.
    pub fn from_records(records: Vec<StartupFailureRecord>) -> (history: Option<Self>)
        ensures
            history is Some <==> (history_ordered(
                u64::MAX,
                records@.map_values(|r: StartupFailureRecord| r@),
            )),
            history is Some ==> history.unwrap().records() == records@.map_values(
                |r: StartupFailureRecord| r@,
            ) && history.unwrap().next() == (if records@.len() == 0 {
                1
            } else {
                records@.last().sequence + 1
            }),
    {
        let ghost view = records@.map_values(|r: StartupFailureRecord| r@);
        let mut i: usize = 0;
        while i < records.len()
            invariant
                i <= records@.len(),
                view == records@.map_values(|r: StartupFailureRecord| r@),
                forall|a: int, b: int| 0 <= a < b < i ==> view[a].sequence < view[b].sequence,
                forall|a: int| 0 <= a < i ==> view[a].sequence < u64::MAX,
            decreases records@.len() - i,
        {
            if records[i].sequence == u64::MAX {
                assert(view[i as int].sequence == u64::MAX);
                return None;
            }
            if i > 0 && records[i - 1].sequence >= records[i].sequence {
                assert(view[i - 1].sequence >= view[i as int].sequence);
                return None;
            }
            proof {
                assert forall|a: int, b: int| 0 <= a < b < i + 1 implies view[a].sequence
                    < view[b].sequence by {
                    if b == i && a < i - 1 {
                        assert(view[a].sequence < view[i - 1].sequence);
                    }
                }
            }
            i = i + 1;
        }
        let next = if records.len() == 0 {
            1
        } else {
            records[records.len() - 1].sequence + 1
        };
        proof {
            assert forall|a: int| 0 <= a < view.len() implies view[a].sequence < next by {
                if a < view.len() - 1 {
                    assert(view[a].sequence < view[view.len() - 1].sequence);
                }
            }
        }
        Some(StartupFailureHistory { next_sequence: next, records })
    }

    /// The records are always in sequence order, below the next number.
    pub fn is_ordered(&self) -> (ordered: bool)
        ensures
            ordered,
            history_ordered(self.next(), self.records()),
    {
        proof {
            use_type_invariant(self);
        }
        true
    }

    /// Appends `record` under the next sequence number and returns what was
    /// stored.
    fn append(&mut self, mut record: StartupFailureRecord) -> (stored: StartupFailureRecord)
        requires
            old(self).next() < u64::MAX,
        ensures
            stored@ == (FailureView { sequence: old(self).next(), ..record@ }),
            final(self).next() == old(self).next() + 1,
            final(self).records() == old(self).records().push(stored@),
    {
        proof {
            use_type_invariant(&*self);
        }
        record.sequence = self.next_sequence;
        let stored = record.copy();
        let mut records: Vec<StartupFailureRecord> = Vec::new();
        std::mem::swap(&mut records, &mut self.records);
        let ghost before = records@.map_values(|r: StartupFailureRecord| r@);
        records.push(record);
        proof {
            let after = records@.map_values(|r: StartupFailureRecord| r@);
            assert(after =~= before.push(stored@));
            assert forall|i: int, j: int| 0 <= i < j < after.len() implies after[i].sequence
                < after[j].sequence by {
                assert(after[i] == before[i]);
                if j < before.len() {
                    assert(after[j] == before[j]);
                }
            }
            assert forall|i: int| 0 <= i < after.len() implies after[i].sequence
                < self.next_sequence + 1 by {
                if i < before.len() {
                    assert(after[i] == before[i]);
                }
            }
        }
        self.next_sequence = self.next_sequence + 1;
        self.records = records;
        stored
    }
}

/// The records standing in `history`, oldest first.
pub fn load_startup_failures(history: &StartupFailureHistory) -> (records: Vec<
    StartupFailureRecord,
>)
    ensures
        records@.map_values(|r: StartupFailureRecord| r@) == history.records(),
{
    let mut out: Vec<StartupFailureRecord> = Vec::new();
    let mut i: usize = 0;
    while i < history.records.len()
        invariant
            i <= history.records@.len(),
            out@.len() == i,
            forall|j: int| 0 <= j < i ==> #[trigger] out@[j]@ == history.records@[j]@,
        decreases history.records@.len() - i,
    {
        out.push(history.records[i].copy());
        i = i + 1;
    }
    assert(out@.map_values(|r: StartupFailureRecord| r@) =~= history.records());
    out
}

/// Appends one record to the history under the next sequence number,
/// returning the record as stored.
pub fn append_startup_failure(history: &mut StartupFailureHistory, record: StartupFailureRecord) -> (stored:
    StartupFailureRecord)
    requires
        old(history).next() < u64::MAX,
    ensures
        stored@ == (FailureView { sequence: old(history).next(), ..record@ }),
        final(history).next() == old(history).next() + 1,
        final(history).records() == old(history).records().push(stored@),
{
    history.append(record)
}

/// Records that `session_id` has been observed serving: every record it left
/// behind is cleared, every other record stays, in order.
pub fn note_session_served_successfully(history: &mut StartupFailureHistory, session_id: &str)
    ensures
        final(history).next() == old(history).next(),
        final(history).records() == old(history).records().filter(other_session(session_id@)),
{
    proof {
        use_type_invariant(&*history);
    }
    let mut records: Vec<StartupFailureRecord> = Vec::new();
    std::mem::swap(&mut records, &mut history.records);
    let ghost before = records@.map_values(|r: StartupFailureRecord| r@);
    let ghost keep = other_session(session_id@);
    let total = records.len();
    let mut kept: Vec<StartupFailureRecord> = Vec::new();
    let mut i: usize = 0;
    while records.len() > 0
        invariant
            records@.len() + i == total,
            before.len() == total,
            keep == other_session(session_id@),
            history_ordered(history.next_sequence, before),
            forall|j: int| 0 <= j < records@.len() ==> #[trigger] records@[j]@ == before[i + j],
            kept@.map_values(|r: StartupFailureRecord| r@) == before.subrange(0, i as int).filter(
                keep,
            ),
        decreases records@.len(),
    {
        let record = records.remove(0);
        assert(record@ == before[i as int]);
        proof {
            lemma_filter_step(before, keep, i as int);
        }
        let ghost kept_before = kept@.map_values(|r: StartupFailureRecord| r@);
        if !str_eq(record.session_id.as_str(), session_id) {
            kept.push(record);
            assert(kept@.map_values(|r: StartupFailureRecord| r@) =~= kept_before.push(
                before[i as int],
            ));
        }
        assert forall|j: int| 0 <= j < records@.len() implies #[trigger] records@[j]@ == before[i
            + 1 + j] by {}
        i = i + 1;
    }
    proof {
        assert(before.subrange(0, total as int) =~= before);
        lemma_filter_keeps_order(history.next_sequence, before, keep);
    }
    history.records = kept;
}

/// Filtering keeps a history's sequence order.
proof fn lemma_filter_keeps_order(
    next: u64,
    records: Seq<FailureView>,
    keep: spec_fn(FailureView) -> bool,
)
    requires
        history_ordered(next, records),
    ensures
        history_ordered(next, records.filter(keep)),
        records.filter(keep).len() > 0 ==> records.len() > 0 && records.filter(keep).last().sequence
            <= records.last().sequence,
    decreases records.len(),
{
    reveal(Seq::filter);
    if records.len() > 0 {
        let rest = records.drop_last();
        assert(history_ordered(next, rest)) by {
            assert forall|i: int, j: int| 0 <= i < j < rest.len() implies rest[i].sequence
                < rest[j].sequence by {
                assert(rest[i] == records[i] && rest[j] == records[j]);
            }
            assert forall|i: int| 0 <= i < rest.len() implies rest[i].sequence < next by {
                assert(rest[i] == records[i]);
            }
        }
        lemma_filter_keeps_order(next, rest, keep);
        let f = rest.filter(keep);
        if f.len() > 0 {
            assert(rest.last() == records[records.len() - 2]);
        }
        if keep(records.last()) {
            let g = f.push(records.last());
            assert forall|i: int, j: int| 0 <= i < j < g.len() implies g[i].sequence
                < g[j].sequence by {
                if j == f.len() {
                    assert(g[i] == f[i]);
                    assert(f[i].sequence <= f.last().sequence);
                } else {
                    assert(g[i] == f[i] && g[j] == f[j]);
                }
            }
            assert forall|i: int| 0 <= i < g.len() implies g[i].sequence < next by {
                if i < f.len() {
                    assert(g[i] == f[i]);
                }
            }
        }
    }
}

/// Appends a bring-up pass's failures to the history, in order, each under
/// the next sequence number, and returns the records as stored.
pub fn persist_startup_failures(
    history: &mut StartupFailureHistory,
    failures: &Vec<StartupFailureRecord>,
) -> (persisted: Vec<StartupFailureRecord>)
    requires
        old(history).next() + failures@.len() < u64::MAX,
    ensures
        persisted@.map_values(|r: StartupFailureRecord| r@) == numbered(
            failures@.map_values(|r: StartupFailureRecord| r@),
            old(history).next(),
        ),
        final(history).next() == old(history).next() + failures@.len(),
        final(history).records() == old(history).records() + persisted@.map_values(
            |r: StartupFailureRecord| r@,
        ),
{
    let ghost input = failures@.map_values(|r: StartupFailureRecord| r@);
    let mut persisted: Vec<StartupFailureRecord> = Vec::new();
    let mut i: usize = 0;
    while i < failures.len()
        invariant
            i <= failures@.len(),
            input == failures@.map_values(|r: StartupFailureRecord| r@),
            old(history).next() + failures@.len() < u64::MAX,
            history.next() == old(history).next() + i,
            persisted@.len() == i,
            forall|j: int|
                0 <= j < i ==> #[trigger] persisted@[j]@ == numbered(input, old(history).next())[j],
            history.records() == old(history).records() + persisted@.map_values(
                |r: StartupFailureRecord| r@,
            ),
        decreases failures@.len() - i,
    {
        let ghost before = persisted@.map_values(|r: StartupFailureRecord| r@);
        let stored = history.append(failures[i].copy());
        persisted.push(stored);
        assert(persisted@.map_values(|r: StartupFailureRecord| r@) =~= before.push(
            persisted@[i as int]@,
        ));
        i = i + 1;
    }
    assert(persisted@.map_values(|r: StartupFailureRecord| r@) =~= numbered(
        input,
        old(history).next(),
    ));
    persisted
}

/// What the history reads back: a record appended is the last one standing
/// until its session is noted serving, after which none of that session's
/// records stand and every other record is untouched.
pub proof fn lemma_append_then_clear(
    records: Seq<FailureView>,
    appended: FailureView,
    session_id: Seq<char>,
)
    ensures
        records.push(appended).last() == appended,
        appended.session_id == session_id ==> !records.push(appended).filter(
            other_session(session_id),
        ).contains(appended),
        forall|i: int|
            0 <= i < records.push(appended).filter(other_session(session_id)).len() ==> (
            #[trigger] records.push(appended).filter(other_session(session_id))[i]).session_id
                != session_id,
        forall|i: int|
            0 <= i < records.len() && records[i].session_id != session_id ==> records.push(
                appended,
            ).filter(other_session(session_id)).contains(#[trigger] records[i]),
{
    broadcast use vstd::seq_lib::group_filter_ensures;

    let all = records.push(appended);
    let keep = other_session(session_id);
    assert forall|i: int| 0 <= i < all.filter(keep).len() implies (#[trigger] all.filter(
        keep,
    )[i]).session_id != session_id by {
        all.lemma_filter_pred(keep, i);
    }
    assert forall|i: int| 0 <= i < records.len() && records[i].session_id != session_id implies all.filter(
        keep,
    ).contains(#[trigger] records[i]) by {
        assert(all[i] == records[i]);
        all.lemma_filter_contains(keep, i);
    }
    if appended.session_id == session_id && all.filter(keep).contains(appended) {
        let k = choose|k: int| 0 <= k < all.filter(keep).len() && all.filter(keep)[k] == appended;
        all.lemma_filter_pred(keep, k);
    }
}

} // verus!
