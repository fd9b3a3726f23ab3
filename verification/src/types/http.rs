//! The write-transaction builder: an [`Actions`] value collects the
//! ordered sequence of write actions and renders it into the transaction
//! wire grammar, preserving append order exactly.  [`Timestamp`] carries
//! the optional point-in-time of an action as plain calendar fields, and
//! [`Order`] / [`TimeHistory`] shape the history-endpoint parameters.

use crate::text::{
    dec_pad2, dec_pad4, join_with, push_dec_pad2, push_dec_pad4, starts_with, starts_with_char,
};
use crate::types::{render_id, CruxId};
use vstd::prelude::*;

verus! {

/// A civil date-time with a fixed offset from UTC, held as plain
/// calendar fields: what the wire format's timestamp literals are
/// rendered from.
///
/// `offset_minutes` is the signed offset from UTC; `millis` is kept for
/// fidelity with sub-second inputs but never rendered, as the fixed
/// wire formats carry whole seconds only.
#[derive(Debug, Clone, Copy, PartialEq, Eq, Structural)]
pub struct Timestamp {
    pub year: u16,
    pub month: u8,
    pub day: u8,
    pub hour: u8,
    pub minute: u8,
    pub second: u8,
    pub millis: u16,
    pub offset_minutes: i16,
}

impl Timestamp {
    /// Whether every field lies in its calendar range.
    pub open spec fn wf(self) -> bool {
        &&& self.year <= 9999
        &&& 1 <= self.month <= 12
        &&& 1 <= self.day <= 31
        &&& self.hour < 24
        &&& self.minute < 60
        &&& self.second < 60
        &&& self.millis < 1000
        &&& -1440 < self.offset_minutes < 1440
    }

    /// Builds a timestamp, accepting exactly the field values in
    /// calendar range.
    pub fn new(
        year: u16,
        month: u8,
        day: u8,
        hour: u8,
        minute: u8,
        second: u8,
        millis: u16,
        offset_minutes: i16,
    ) -> (r: Option<Timestamp>)
        ensures
            ({
                let t = Timestamp { year, month, day, hour, minute, second, millis, offset_minutes };
                if t.wf() {
                    r == Some(t)
                } else {
                    r is None
                }
            }),
    {
        let t = Timestamp { year, month, day, hour, minute, second, millis, offset_minutes };
        if year <= 9999 && 1 <= month && month <= 12 && 1 <= day && day <= 31 && hour < 24
            && minute < 60 && second < 60 && millis < 1000 && -1440 < offset_minutes
            && offset_minutes < 1440 {
            Some(t)
        } else {
            None
        }
    }

    /// The date-time part of the wire form: year, month, day, hour,
    /// minute and second, zero-padded, without the offset.
    pub open spec fn spec_date_time(self) -> Seq<char> {
        dec_pad4(self.year as nat) + "-"@ + dec_pad2(self.month as nat) + "-"@ + dec_pad2(
            self.day as nat,
        ) + "T"@ + dec_pad2(self.hour as nat) + ":"@ + dec_pad2(self.minute as nat) + ":"@
            + dec_pad2(self.second as nat)
    }

    /// The offset part of the wire form: a sign and the zero-padded
    /// hours and minutes of the offset's magnitude.
    pub open spec fn spec_offset(self) -> Seq<char> {
        let a = if self.offset_minutes < 0 {
            -self.offset_minutes as int
        } else {
            self.offset_minutes as int
        };
        (if self.offset_minutes < 0 {
            "-"@
        } else {
            "+"@
        }) + dec_pad2((a / 60) as nat) + ":"@ + dec_pad2((a % 60) as nat)
    }

    /// The full wire form of the timestamp: date-time followed by
    /// offset.
    pub open spec fn spec_render(self) -> Seq<char> {
        self.spec_date_time() + self.spec_offset()
    }

    /// Appends the date-time part of the wire form to `s`.
    pub fn push_date_time(&self, s: &mut String)
        requires
            self.wf(),
        ensures
            final(s)@ == old(s)@ + self.spec_date_time(),
    {
        push_dec_pad4(s, self.year as u64);
        s.append("-");
        push_dec_pad2(s, self.month as u64);
        s.append("-");
        push_dec_pad2(s, self.day as u64);
        s.append("T");
        push_dec_pad2(s, self.hour as u64);
        s.append(":");
        push_dec_pad2(s, self.minute as u64);
        s.append(":");
        push_dec_pad2(s, self.second as u64);
        assert(s@ =~= old(s)@ + self.spec_date_time());
    }

    /// Appends the full wire form of the timestamp to `s`.
    pub fn push_render(&self, s: &mut String)
        requires
            self.wf(),
        ensures
            final(s)@ == old(s)@ + self.spec_render(),
    {
        self.push_date_time(s);
        let magnitude: u64 = if self.offset_minutes < 0 {
            (-(self.offset_minutes as i32)) as u64
        } else {
            self.offset_minutes as u64
        };
        if self.offset_minutes < 0 {
            s.append("-");
        } else {
            s.append("+");
        }
        push_dec_pad2(s, magnitude / 60);
        s.append(":");
        push_dec_pad2(s, magnitude % 60);
        assert(s@ =~= old(s)@ + self.spec_render());
    }
}

/// A single write action: a document put, a deletion, an eviction or a
/// match assertion, each carrying its already-serialized payloads and,
/// where the grammar allows one, an optional point-in-time.
#[derive(Debug, Clone, PartialEq)]
pub enum Action {
    /// Writes a version of a document, given as its wire text.
    Put(String, Option<Timestamp>),
    /// Deletes the document with the given serialized identifier at a
    /// valid time.
    Delete(String, Option<Timestamp>),
    /// Evicts a document entirely, all historical versions included.
    Evict(String),
    /// Asserts the current state of an entity before the transaction
    /// continues.
    Match(String, String, Option<Timestamp>),
}

impl Action {
    /// Whether the point-in-time the action carries, if any, has its
    /// fields in calendar range.
    pub open spec fn time_wf(self) -> bool {
        match self {
            Action::Put(_, Some(t)) => t.wf(),
            Action::Delete(_, Some(t)) => t.wf(),
            Action::Match(_, _, Some(t)) => t.wf(),
            _ => true,
        }
    }

    /// The bracketed wire fragment of the action.  An `Evict` whose
    /// identifier is not in normalized, marker-prefixed form renders to
    /// an empty fragment rather than failing.
    pub open spec fn spec_serialize(self) -> Seq<char> {
        match self {
            Action::Put(edn, None) => "[:crux.tx/put "@ + edn@ + "]"@,
            Action::Put(edn, Some(date)) => "[:crux.tx/put "@ + edn@ + " #inst \""@
                + date.spec_render() + "\"]"@,
            Action::Delete(id, None) => "[:crux.tx/delete "@ + id@ + "]"@,
            Action::Delete(id, Some(date)) => "[:crux.tx/delete "@ + id@ + " #inst \""@
                + date.spec_render() + "\"]"@,
            Action::Evict(id) => if starts_with(id@, ':') {
                "[:crux.tx/evict "@ + id@ + "]"@
            } else {
                Seq::<char>::empty()
            },
            Action::Match(id, edn, None) => "[:crux.tx/match "@ + id@ + " "@ + edn@ + "]"@,
            Action::Match(id, edn, Some(date)) => "[:crux.tx/match "@ + id@ + " "@ + edn@
                + " #inst \""@ + date.spec_render() + "\"]"@,
        }
    }

    /// Renders the bracketed wire fragment of the action.
    pub fn serialize(&self) -> (r: String)
        requires
            self.time_wf(),
        ensures
            r@ == self.spec_serialize(),
    {
        let mut r = String::new();
        match self {
            Action::Put(edn, time) => {
                r.append("[:crux.tx/put ");
                r.append(edn.as_str());
                match time {
                    Some(date) => {
                        r.append(" #inst \"");
                        date.push_render(&mut r);
                        r.append("\"]");
                    },
                    None => {
                        r.append("]");
                    },
                }
            },
            Action::Delete(id, time) => {
                r.append("[:crux.tx/delete ");
                r.append(id.as_str());
                match time {
                    Some(date) => {
                        r.append(" #inst \"");
                        date.push_render(&mut r);
                        r.append("\"]");
                    },
                    None => {
                        r.append("]");
                    },
                }
            },
            Action::Evict(id) => {
                if starts_with_char(id.as_str(), ':') {
                    r.append("[:crux.tx/evict ");
                    r.append(id.as_str());
                    r.append("]");
                }
            },
            Action::Match(id, edn, time) => {
                r.append("[:crux.tx/match ");
                r.append(id.as_str());
                r.append(" ");
                r.append(edn.as_str());
                match time {
                    Some(date) => {
                        r.append(" #inst \"");
                        date.push_render(&mut r);
                        r.append("\"]");
                    },
                    None => {
                        r.append("]");
                    },
                }
            },
        }
        proof {
            assert(r@ =~= self.spec_serialize());
        }
        r
    }
}

/// The wire fragments of the actions of `acts`, in order.
pub open spec fn rendered_actions(acts: Seq<Action>) -> Seq<Seq<char>> {
    Seq::new(acts.len(), |i: int| acts[i].spec_serialize())
}

/// The transaction wire text for the action sequence `acts`: the
/// bracketed fragments in append order, comma-separated, inside one
/// outer bracket pair.
pub open spec fn spec_build_actions(acts: Seq<Action>) -> Seq<char> {
    "["@ + join_with(rendered_actions(acts), ", "@) + "]"@
}

/// For every put document, eviction target, deletion target and match
/// pair appended in the order put, evict, delete, match, the rendered
/// transaction text lists the four bracketed fragments in exactly that
/// order, each under its own tag keyword.
pub proof fn lemma_transaction_order(d1: String, id: String, id2: String, id3: String, d3: String)
    ensures
        spec_build_actions(
            seq![
                Action::Put(d1, None),
                Action::Evict(id),
                Action::Delete(id2, None),
                Action::Match(id3, d3, None),
            ],
        ) == "["@ + Action::Put(d1, None).spec_serialize() + ", "@ + Action::Evict(
            id,
        ).spec_serialize() + ", "@ + Action::Delete(id2, None).spec_serialize() + ", "@
            + Action::Match(id3, d3, None).spec_serialize() + "]"@,
{
    let acts = seq![
        Action::Put(d1, None),
        Action::Evict(id),
        Action::Delete(id2, None),
        Action::Match(id3, d3, None),
    ];
    let r = rendered_actions(acts);
    assert(r.len() == 4);
    let s3 = r.drop_last();
    let s2 = s3.drop_last();
    let s1 = s2.drop_last();
    assert(s1 =~= seq![r[0]]);
    assert(join_with(s1, ", "@) == r[0]);
    assert(join_with(s2, ", "@) == r[0] + ", "@ + r[1]);
    assert(join_with(s3, ", "@) == (r[0] + ", "@ + r[1]) + ", "@ + r[2]);
    assert(join_with(r, ", "@) == ((r[0] + ", "@ + r[1]) + ", "@ + r[2]) + ", "@ + r[3]);
    assert(r[0] == Action::Put(d1, None).spec_serialize());
    assert(r[1] == Action::Evict(id).spec_serialize());
    assert(r[2] == Action::Delete(id2, None).spec_serialize());
    assert(r[3] == Action::Match(id3, d3, None).spec_serialize());
    assert(spec_build_actions(acts) =~= "["@ + Action::Put(d1, None).spec_serialize() + ", "@
        + Action::Evict(id).spec_serialize() + ", "@ + Action::Delete(id2, None).spec_serialize()
        + ", "@ + Action::Match(id3, d3, None).spec_serialize() + "]"@);
}

/// The ordered, append-only collection of write actions of one
/// transaction.  Ordering is preserved into the final wire sequence,
/// because transaction semantics on the server are order-sensitive.
#[derive(Debug, Clone, PartialEq)]
pub struct Actions {
    pub actions: Vec<Action>,
}

impl Actions {
    /// Whether every collected action carries a point-in-time in
    /// calendar range.
    pub open spec fn wf(self) -> bool {
        forall|i: int| 0 <= i < self.actions@.len() ==> (#[trigger] self.actions@[i]).time_wf()
    }

    /// An empty transaction.
    pub fn new() -> (r: Self)
        ensures
            r.actions@ =~= Seq::<Action>::empty(),
    {
        Actions { actions: Vec::new() }
    }

    /// Appends a `Put` of the serialized document `action`.
    pub fn append_put(self, action: String) -> (r: Self)
        ensures
            r.actions@ == self.actions@.push(Action::Put(action, None)),
    {
        let mut actions = self.actions;
        actions.push(Action::Put(action, None));
        Actions { actions }
    }

    /// Appends a `Put` of the serialized document `action`, valid at
    /// `date`.
    pub fn append_put_timed(self, action: String, date: Timestamp) -> (r: Self)
        ensures
            r.actions@ == self.actions@.push(Action::Put(action, Some(date))),
    {
        let mut actions = self.actions;
        actions.push(Action::Put(action, Some(date)));
        Actions { actions }
    }

    /// Appends a `Delete` of the entity `id`.
    pub fn append_delete(self, id: CruxId) -> (r: Self)
        ensures
            r.actions@.len() == self.actions@.len() + 1,
            r.actions@.subrange(0, self.actions@.len() as int) == self.actions@,
            r.actions@.last() matches Action::Delete(d, time) && d@ == render_id(id.0@)
                && time is None,
    {
        let mut actions = self.actions;
        actions.push(Action::Delete(id.serialize(), None));
        proof {
            assert(actions@.subrange(0, self.actions@.len() as int) =~= self.actions@);
        }
        Actions { actions }
    }

    /// Appends a `Delete` of the entity `id`, valid at `date`.
    pub fn append_delete_timed(self, id: CruxId, date: Timestamp) -> (r: Self)
        ensures
            r.actions@.len() == self.actions@.len() + 1,
            r.actions@.subrange(0, self.actions@.len() as int) == self.actions@,
            r.actions@.last() matches Action::Delete(d, time) && d@ == render_id(id.0@)
                && time == Some(date),
    {
        let mut actions = self.actions;
        actions.push(Action::Delete(id.serialize(), Some(date)));
        proof {
            assert(actions@.subrange(0, self.actions@.len() as int) =~= self.actions@);
        }
        Actions { actions }
    }

    /// Appends an `Evict` of the entity `id`.  Eviction has no time
    /// parameter: the server evicts all historical versions.
    pub fn append_evict(self, id: CruxId) -> (r: Self)
        ensures
            r.actions@.len() == self.actions@.len() + 1,
            r.actions@.subrange(0, self.actions@.len() as int) == self.actions@,
            r.actions@.last() matches Action::Evict(d) && d@ == render_id(id.0@),
    {
        let mut actions = self.actions;
        actions.push(Action::Evict(id.serialize()));
        proof {
            assert(actions@.subrange(0, self.actions@.len() as int) =~= self.actions@);
        }
        Actions { actions }
    }

    /// Appends a `Match` asserting that entity `id` currently is the
    /// serialized document `action`.
    pub fn append_match_doc(self, id: CruxId, action: String) -> (r: Self)
        ensures
            r.actions@.len() == self.actions@.len() + 1,
            r.actions@.subrange(0, self.actions@.len() as int) == self.actions@,
            r.actions@.last() matches Action::Match(d, edn, time) && d@ == render_id(id.0@)
                && edn == action && time is None,
    {
        let mut actions = self.actions;
        actions.push(Action::Match(id.serialize(), action, None));
        proof {
            assert(actions@.subrange(0, self.actions@.len() as int) =~= self.actions@);
        }
        Actions { actions }
    }

    /// Appends a `Match` asserting that entity `id` is the serialized
    /// document `action` at time `date`.
    pub fn append_match_doc_timed(self, id: CruxId, action: String, date: Timestamp) -> (r: Self)
        ensures
            r.actions@.len() == self.actions@.len() + 1,
            r.actions@.subrange(0, self.actions@.len() as int) == self.actions@,
            r.actions@.last() matches Action::Match(d, edn, time) && d@ == render_id(id.0@)
                && edn == action && time == Some(date),
    {
        let mut actions = self.actions;
        actions.push(Action::Match(id.serialize(), action, Some(date)));
        proof {
            assert(actions@.subrange(0, self.actions@.len() as int) =~= self.actions@);
        }
        Actions { actions }
    }

    /// Renders the transaction wire text, consuming the collection:
    /// the collected actions' fragments in append order.
    pub fn build(self) -> (r: String)
        requires
            self.wf(),
        ensures
            r@ == spec_build_actions(self.actions@),
    {
        let n = self.actions.len();
        let mut parts: Vec<String> = Vec::new();
        let mut i: usize = 0;
        while i < n
            invariant
                n == self.actions@.len(),
                forall|k: int|
                    0 <= k < n ==> (#[trigger] self.actions@[k]).time_wf(),
                0 <= i <= n,
                parts.deep_view() =~= rendered_actions(self.actions@).subrange(0, i as int),
            decreases n - i,
        {
            let ghost prev = parts.deep_view();
            parts.push(self.actions[i].serialize());
            proof {
                assert(parts.deep_view() =~= prev.push(self.actions@[i as int].spec_serialize()));
                assert(parts.deep_view() =~= rendered_actions(self.actions@).subrange(0, i + 1));
            }
            i += 1;
        }
        proof {
            assert(rendered_actions(self.actions@).subrange(0, n as int) =~= rendered_actions(
                self.actions@,
            ));
        }
        let joined = crate::text::join_strings(&parts, ", ");
        let mut s = String::new();
        s.append("[");
        s.append(joined.as_str());
        s.append("]");
        proof {
            assert(s@ =~= spec_build_actions(self.actions@));
        }
        s
    }
}

/// How an entity-history response is ordered.
#[derive(Debug, PartialEq, Eq, Structural, Clone, Copy)]
pub enum Order {
    Asc,
    Desc,
}

impl Order {
    /// The query-parameter text of the ordering.
    pub open spec fn spec_serialize(self) -> Seq<char> {
        match self {
            Order::Asc => "asc"@,
            Order::Desc => "desc"@,
        }
    }

    /// Renders the query-parameter text of the ordering.
    pub fn serialize(&self) -> (r: String)
        ensures
            r@ == self.spec_serialize(),
    {
        let mut r = String::new();
        match self {
            Order::Asc => r.append("asc"),
            Order::Desc => r.append("desc"),
        }
        proof {
            assert(r@ =~= self.spec_serialize());
        }
        r
    }
}

/// A valid-time or transaction-time range for the history endpoint;
/// each bound is optional and renders to its own query parameter, the
/// date-time written without an offset.
#[derive(Debug, PartialEq, Eq, Structural, Clone, Copy)]
pub enum TimeHistory {
    ValidTime(Option<Timestamp>, Option<Timestamp>),
    TransactionTime(Option<Timestamp>, Option<Timestamp>),
}

impl TimeHistory {
    /// Whether the bounds that are present have their fields in
    /// calendar range.
    pub open spec fn wf(self) -> bool {
        match self {
            TimeHistory::ValidTime(start, end) => (start matches Some(s) ==> s.wf()) && (
            end matches Some(e) ==> e.wf()),
            TimeHistory::TransactionTime(start, end) => (start matches Some(s) ==> s.wf()) && (
            end matches Some(e) ==> e.wf()),
        }
    }

    /// The query-parameter text of the range: one parameter per
    /// present bound, nothing when both are absent.
    pub open spec fn spec_serialize(self) -> Seq<char> {
        match self {
            TimeHistory::ValidTime(Some(start), Some(end)) => "&start-valid-time="@
                + start.spec_date_time() + "&end-valid-time="@ + end.spec_date_time(),
            TimeHistory::ValidTime(None, Some(end)) => "&end-valid-time="@ + end.spec_date_time(),
            TimeHistory::ValidTime(Some(start), None) => "&start-valid-time="@
                + start.spec_date_time(),
            TimeHistory::ValidTime(None, None) => Seq::<char>::empty(),
            TimeHistory::TransactionTime(Some(start), Some(end)) => "&start-transaction-time="@
                + start.spec_date_time() + "&end-transaction-time="@ + end.spec_date_time(),
            TimeHistory::TransactionTime(None, Some(end)) => "&end-transaction-time="@
                + end.spec_date_time(),
            TimeHistory::TransactionTime(Some(start), None) => "&start-transaction-time="@
                + start.spec_date_time(),
            TimeHistory::TransactionTime(None, None) => Seq::<char>::empty(),
        }
    }

    /// Renders the query-parameter text of the range.
    pub fn serialize(&self) -> (r: String)
        requires
            self.wf(),
        ensures
            r@ == self.spec_serialize(),
    {
        let mut r = String::new();
        match self {
            TimeHistory::ValidTime(start, end) => {
                match start {
                    Some(s) => {
                        r.append("&start-valid-time=");
                        s.push_date_time(&mut r);
                    },
                    None => {},
                }
                match end {
                    Some(e) => {
                        r.append("&end-valid-time=");
                        e.push_date_time(&mut r);
                    },
                    None => {},
                }
            },
            TimeHistory::TransactionTime(start, end) => {
                match start {
                    Some(s) => {
                        r.append("&start-transaction-time=");
                        s.push_date_time(&mut r);
                    },
                    None => {},
                }
                match end {
                    Some(e) => {
                        r.append("&end-transaction-time=");
                        e.push_date_time(&mut r);
                    },
                    None => {},
                }
            },
        }
        proof {
            assert(r@ =~= self.spec_serialize());
        }
        r
    }
}

/// The concatenated query-parameter text of the ranges of `time`, and
/// nothing at all when the list is empty or longer than the two kinds
/// of range that exist.
pub open spec fn spec_time_histories(time: Seq<TimeHistory>) -> Seq<char>
    decreases time.len(),
{
    if time.len() == 0 || time.len() > 2 {
        Seq::<char>::empty()
    } else if time.len() == 1 {
        time[0].spec_serialize()
    } else {
        time[0].spec_serialize() + time[1].spec_serialize()
    }
}

/// Renders the query-parameter text of a list of history ranges: the
/// ranges' parameters concatenated, or nothing when the list is empty
/// or holds more than two entries.
pub fn serialize_time_histories(time: &Vec<TimeHistory>) -> (r: String)
    requires
        forall|i: int| 0 <= i < time@.len() ==> (#[trigger] time@[i]).wf(),
    ensures
        r@ == spec_time_histories(time@),
{
    let mut r = String::new();
    if time.len() == 0 || time.len() > 2 {
        proof {
            assert(r@ =~= spec_time_histories(time@));
        }
        return r;
    }
    let first = time[0].serialize();
    r.append(first.as_str());
    if time.len() == 2 {
        let second = time[1].serialize();
        r.append(second.as_str());
    }
    proof {
        assert(r@ =~= spec_time_histories(time@));
    }
    r
}

} // verus!
