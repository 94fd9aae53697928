use vstd::prelude::*;
use vstd::string::StringSliceAdditionalSpecFns;

use crate::marshal::{has_nul, nul_terminated};
use crate::message::{
    convert_all, convert_to_rust_type, lemma_convert_all_len, views, MessageView,
    MosquittoMessage, RawRecord,
};
use crate::status::{status_of, translate, ErrorKind, MOSQ_ERR_SUCCESS};

verus! {

/// The capacity a retained-message query starts with unless told otherwise.
pub const DEFAULT_CAPACITY: usize = 10;

/// The largest number of record slots a query allocates unless told otherwise.
pub const MAX_CAPACITY: usize = 1048576;

/// How many slots of a buffer with `capacity` slots hold a record when the
/// host reports `found` records.
pub open spec fn populated(capacity: nat, found: u64) -> nat {
    if (found as nat) < capacity {
        found as nat
    } else {
        capacity
    }
}

/// How many slots hold an allocation that can be taken back (every non-null slot).
pub open spec fn allocated(s: Seq<Option<RawRecord>>) -> nat
    decreases s.len(),
{
    if s.len() == 0 {
        0
    } else {
        allocated(s.drop_last()) + if s.last() is Some {
            1nat
        } else {
            0nat
        }
    }
}

/// What reclamation keeps: the populated prefix of the slots, in order, or
/// `NullRecord` when any slot is null.
pub open spec fn reclaim_spec(s: Seq<Option<RawRecord>>, found: u64) -> Result<
    Seq<RawRecord>,
    ErrorKind,
> {
    if exists|i: int| 0 <= i < s.len() && s[i] is None {
        Err(ErrorKind::NullRecord)
    } else {
        Ok(s.take(populated(s.len(), found) as int).map_values(|o: Option<RawRecord>| o->Some_0))
    }
}

/// The result of taking back a whole query buffer.
pub struct Reclaimed {
    /// How many slot allocations were released.
    pub released: usize,
    /// The records of the populated slots, or why they cannot be used.
    pub records: Result<Vec<RawRecord>, ErrorKind>,
}

/// Takes back every slot of a query buffer. Each non-null slot is released,
/// whether or not it is kept, so nothing leaks on any path. The records of
/// the first `messages_found` slots (at most `buf_size`) are kept in order;
/// the remaining slots are placeholders and are never looked at. A null
/// slot makes the whole buffer unusable: `NullRecord`.
pub fn reclaim_into_box(buffer: Vec<Option<RawRecord>>, buf_size: usize, messages_found: u64) -> (r:
    Reclaimed)
    requires
        buffer@.len() == buf_size,
    ensures
        r.released == allocated(buffer@),
        match r.records {
            Ok(v) => reclaim_spec(buffer@, messages_found) == Ok::<Seq<RawRecord>, ErrorKind>(v@),
            Err(e) => reclaim_spec(buffer@, messages_found) == Err::<Seq<RawRecord>, ErrorKind>(e),
        },
{
    let keep: usize = if (messages_found as u128) < (buf_size as u128) {
        messages_found as usize
    } else {
        buf_size
    };
    let mut kept: Vec<RawRecord> = Vec::new();
    let mut released: usize = 0;
    let mut saw_null = false;
    let mut i: usize = 0;
    let ghost slots = buffer@;
    for slot in it: buffer
        invariant
            it.seq() == slots,
            slots.len() == buf_size,
            i == it.index(),
            keep == populated(buf_size as nat, messages_found),
            i <= buf_size,
            released == allocated(slots.subrange(0, i as int)),
            released <= i,
            saw_null <==> exists|j: int| 0 <= j < i && slots[j] is None,
            !saw_null ==> kept@ == slots.take(
                if i < keep {
                    i as int
                } else {
                    keep as int
                },
            ).map_values(|o: Option<RawRecord>| o->Some_0),
    {
        assert(slots.subrange(0, i + 1).drop_last() =~= slots.subrange(0, i as int));
        match slot {
            None => {
                saw_null = true;
            },
            Some(rec) => {
                released = released + 1;
                if i < keep && !saw_null {
                    kept.push(rec);
                    assert(kept@ =~= slots.take(i + 1).map_values(
                        |o: Option<RawRecord>| o->Some_0,
                    ));
                }
            },
        }
        i = i + 1;
    }
    proof {
        assert(slots.subrange(0, buf_size as int) =~= slots);
    }
    if saw_null {
        Reclaimed { released, records: Err(ErrorKind::NullRecord) }
    } else {
        Reclaimed { released, records: Ok(kept) }
    }
}

/// The capacity a query grows to after the host reports that its buffer
/// was too small: double, and one slot when it had none.
pub open spec fn next_capacity(c: nat) -> nat {
    if c == 0 {
        1
    } else {
        2 * c
    }
}

/// The mathematical state of a retained-message query: the null-terminated
/// topic filter, the number of slots to offer the host, and the limit on it.
pub ghost struct QueryState {
    pub topic: Seq<u8>,
    pub capacity: nat,
    pub max_capacity: nat,
}

/// What the query does next: ask again with a larger buffer, or finish.
pub ghost enum StepView {
    Retry(QueryState),
    Done(Result<Seq<MessageView>, ErrorKind>),
}

/// The decision after a host reply with `status` and `found` records in
/// `slots`. A null slot makes the reply unusable whatever the status says.
/// On success the populated slots are converted; on a buffer that was too
/// small the query grows, unless that would pass the limit; any other status
/// ends the query with its error.
pub open spec fn step_spec(
    q: QueryState,
    status: i32,
    found: u64,
    slots: Seq<Option<RawRecord>>,
) -> StepView {
    match reclaim_spec(slots, found) {
        Err(e) => StepView::Done(Err(e)),
        Ok(records) => match status_of(status) {
            Ok(_) => StepView::Done(convert_all(records)),
            Err(ErrorKind::BufferTooSmall) => if next_capacity(q.capacity) <= q.max_capacity {
                StepView::Retry(QueryState { capacity: next_capacity(q.capacity), ..q })
            } else {
                StepView::Done(Err(ErrorKind::QueryTooLarge))
            },
            Err(e) => StepView::Done(Err(e)),
        },
    }
}

/// A retained-message query in progress. The caller offers the host
/// `capacity()` zero-initialised record slots for `topic()`, and hands every
/// slot back through `on_reply`, which decides what happens next.
pub struct RetainedQuery {
    topic: Vec<u8>,
    capacity: usize,
    max_capacity: usize,
}

impl View for RetainedQuery {
    type V = QueryState;

    closed spec fn view(&self) -> QueryState {
        QueryState {
            topic: self.topic@,
            capacity: self.capacity as nat,
            max_capacity: self.max_capacity as nat,
        }
    }
}

/// What the query does next, with the records already converted.
pub enum QueryStep {
    Retry(RetainedQuery),
    Done(Result<Vec<MosquittoMessage>, ErrorKind>),
}

impl View for QueryStep {
    type V = StepView;

    open spec fn view(&self) -> StepView {
        match self {
            QueryStep::Retry(q) => StepView::Retry(q@),
            QueryStep::Done(Ok(v)) => StepView::Done(Ok(views(v@))),
            QueryStep::Done(Err(e)) => StepView::Done(Err(*e)),
        }
    }
}

/// The outcome of one host reply: how many slot allocations were released,
/// and what happens next.
pub struct QueryOutcome {
    pub released: usize,
    pub step: QueryStep,
}

impl RetainedQuery {
    /// Starts a query for `topic` with `buf_size` slots that may grow up to
    /// `max_capacity`. A topic with a null byte is `InvalidArgument`; a
    /// starting size above the limit is `QueryTooLarge`.
    pub fn start(topic: &str, buf_size: usize, max_capacity: usize) -> (r: Result<
        RetainedQuery,
        ErrorKind,
    >)
        ensures
            has_nul(topic.spec_bytes()) ==> r == Err::<RetainedQuery, ErrorKind>(
                ErrorKind::InvalidArgument,
            ),
            !has_nul(topic.spec_bytes()) && buf_size > max_capacity ==> r == Err::<
                RetainedQuery,
                ErrorKind,
            >(ErrorKind::QueryTooLarge),
            r is Ok <==> !has_nul(topic.spec_bytes()) && buf_size <= max_capacity,
            r matches Ok(q) ==> q@ == (QueryState {
                topic: topic.spec_bytes().push(0),
                capacity: buf_size as nat,
                max_capacity: max_capacity as nat,
            }),
    {
        let t = match nul_terminated(topic) {
            Err(e) => {
                return Err(e);
            },
            Ok(b) => b,
        };
        if buf_size > max_capacity {
            return Err(ErrorKind::QueryTooLarge);
        }
        Ok(RetainedQuery { topic: t, capacity: buf_size, max_capacity })
    }

    /// The null-terminated topic filter to hand to the host.
    pub fn topic(&self) -> (r: &[u8])
        ensures
            r@ == self@.topic,
    {
        self.topic.as_slice()
    }

    /// The number of record slots to offer the host.
    pub fn capacity(&self) -> (r: usize)
        ensures
            r == self@.capacity,
    {
        self.capacity
    }

    /// The largest number of slots this query may grow to.
    pub fn max_capacity(&self) -> (r: usize)
        ensures
            r == self@.max_capacity,
    {
        self.max_capacity
    }

    /// How many of the offered slots hold a record when the host reports
    /// `found` records; only these may be read as records.
    pub fn populated_slots(&self, found: u64) -> (r: usize)
        ensures
            r == populated(self@.capacity, found),
    {
        if (found as u128) < (self.capacity as u128) {
            found as usize
        } else {
            self.capacity
        }
    }

    /// Takes back every slot the host was given and decides what follows.
    /// All non-null slots are released on every path, so a buffer whose
    /// slots are all present releases exactly `capacity` slots.
    pub fn on_reply(self, status: i32, found: u64, slots: Vec<Option<RawRecord>>) -> (r:
        QueryOutcome)
        requires
            slots@.len() == self@.capacity,
        ensures
            r.released == allocated(slots@),
            (forall|i: int| 0 <= i < slots@.len() ==> slots@[i] is Some) ==> r.released
                == self@.capacity,
            r.step@ == step_spec(self@, status, found, slots@),
    {
        proof {
            if forall|i: int| 0 <= i < slots@.len() ==> slots@[i] is Some {
                lemma_all_present_released(slots@);
            }
        }
        let ghost slot_seq = slots@;
        let reclaimed = reclaim_into_box(slots, self.capacity, found);
        let released = reclaimed.released;
        let records = match reclaimed.records {
            Err(e) => {
                return QueryOutcome { released, step: QueryStep::Done(Err(e)) };
            },
            Ok(v) => v,
        };
        let step = match translate(status) {
            Ok(_) => QueryStep::Done(convert_to_rust_type(records)),
            Err(ErrorKind::BufferTooSmall) => {
                let grown: Option<usize> = if self.capacity == 0 {
                    if 1 <= self.max_capacity {
                        Some(1)
                    } else {
                        None
                    }
                } else if self.capacity <= self.max_capacity / 2 {
                    Some(self.capacity * 2)
                } else {
                    None
                };
                match grown {
                    Some(c) => QueryStep::Retry(
                        RetainedQuery { topic: self.topic, capacity: c, max_capacity: self.max_capacity },
                    ),
                    None => QueryStep::Done(Err(ErrorKind::QueryTooLarge)),
                }
            },
            Err(e) => QueryStep::Done(Err(e)),
        };
        QueryOutcome { released, step }
    }
}

/// Starts a retained-message query for `topic` with `buf_size` slots and the
/// default limit on growth.
pub fn get_retained(topic: &str, buf_size: usize) -> (r: Result<RetainedQuery, ErrorKind>)
    ensures
        r is Err <==> has_nul(topic.spec_bytes()) || buf_size > MAX_CAPACITY,
        r matches Err(e) ==> (e == ErrorKind::InvalidArgument <==> has_nul(topic.spec_bytes())),
        r matches Err(e) ==> (e == ErrorKind::InvalidArgument || e == ErrorKind::QueryTooLarge),
        r matches Ok(q) ==> q@ == (QueryState {
            topic: topic.spec_bytes().push(0),
            capacity: buf_size as nat,
            max_capacity: MAX_CAPACITY as nat,
        }),
{
    RetainedQuery::start(topic, buf_size, MAX_CAPACITY)
}

/// When every slot of a buffer is present, every one of them is released.
pub proof fn lemma_all_present_released(s: Seq<Option<RawRecord>>)
    requires
        forall|i: int| 0 <= i < s.len() ==> s[i] is Some,
    ensures
        allocated(s) == s.len(),
    decreases s.len(),
{
    if s.len() > 0 {
        lemma_all_present_released(s.drop_last());
    }
}

/// Two to the power `k`.
pub open spec fn pow2(k: nat) -> nat
    decreases k,
{
    if k == 0 {
        1
    } else {
        2 * pow2((k - 1) as nat)
    }
}

/// How many times a query that offers `c` slots is told its buffer is too
/// small by a host holding `n` records, before it offers enough.
pub open spec fn retries_needed(c: nat, n: nat) -> nat
    decreases if c < n {
        n - c
    } else {
        0
    },
{
    if c >= n {
        0
    } else {
        1 + retries_needed(next_capacity(c), n)
    }
}

/// The number of retries against a host holding `n` records is the least
/// `k` for which `c` doubled `k` times reaches `n`; that is, the ceiling of
/// the base-two logarithm of `n / c`.
pub proof fn lemma_retries_least(c: nat, n: nat)
    requires
        c >= 1,
    ensures
        c * pow2(retries_needed(c, n)) >= n,
        retries_needed(c, n) > 0 ==> c * pow2((retries_needed(c, n) - 1) as nat) < n,
    decreases if c < n {
        n - c
    } else {
        0
    },
{
    if c < n {
        let k = retries_needed(2 * c, n);
        assert(retries_needed(c, n) == k + 1);
        lemma_retries_least(2 * c, n);
        assert(pow2(k + 1) == 2 * pow2(k));
        assert(c * pow2(k + 1) == (2 * c) * pow2(k)) by (nonlinear_arith)
            requires
                pow2(k + 1) == 2 * pow2(k),
        ;
        if k > 0 {
            assert(pow2(k) == 2 * pow2((k - 1) as nat));
            assert(c * pow2(k) == (2 * c) * pow2((k - 1) as nat)) by (nonlinear_arith)
                requires
                    pow2(k) == 2 * pow2((k - 1) as nat),
            ;
        } else {
            assert(pow2(0) == 1);
            assert(c * pow2(0) < n) by (nonlinear_arith)
                requires
                    pow2(0) == 1,
                    c < n,
            ;
        }
        assert(c * pow2(k + 1) >= n);
        assert(c * pow2(k) < n);
    } else {
        assert(pow2(0) == 1);
        assert(c * pow2(0) >= n) by (nonlinear_arith)
            requires
                pow2(0) == 1,
                c >= n,
        ;
    }
}

/// After a successful reply the query returns exactly one message per
/// populated slot, never one for a placeholder, and what the placeholder
/// slots hold has no bearing on the result.
pub proof fn lemma_placeholders_ignored(
    q: QueryState,
    found: u64,
    a: Seq<Option<RawRecord>>,
    b: Seq<Option<RawRecord>>,
)
    requires
        a.len() == q.capacity,
        b.len() == q.capacity,
        forall|i: int| 0 <= i < a.len() ==> a[i] is Some,
        forall|i: int| 0 <= i < b.len() ==> b[i] is Some,
        forall|i: int| 0 <= i < populated(q.capacity, found) ==> a[i] == b[i],
    ensures
        step_spec(q, MOSQ_ERR_SUCCESS, found, a) == step_spec(q, MOSQ_ERR_SUCCESS, found, b),
        step_spec(q, MOSQ_ERR_SUCCESS, found, a) matches StepView::Done(Ok(v)) ==> v.len()
            == populated(q.capacity, found),
{
    let k = populated(q.capacity, found) as int;
    let ka = a.take(k).map_values(|o: Option<RawRecord>| o->Some_0);
    let kb = b.take(k).map_values(|o: Option<RawRecord>| o->Some_0);
    assert(ka =~= kb);
    lemma_convert_all_len(ka);
}

} // verus!
