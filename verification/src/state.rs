//! The persistent state: who owns the instance and which relayer job it
//! feeds, the retry delay, and when each scheduled trade was last
//! dispatched.

use crate::uint256::Uint256;
use vstd::prelude::*;

verus! {

/// Nanoseconds in a second.
pub const NANOS_PER_SECOND: u64 = 1_000_000_000;

/// A block time, in nanoseconds since the epoch.
#[derive(Clone, Copy, Debug, PartialEq, Eq, Structural)]
pub struct Timestamp {
    pub nanos: u64,
}

impl Timestamp {
    /// The time that lies `nanos` nanoseconds after the epoch.
    pub fn from_nanos(nanos: u64) -> (r: Self)
        ensures
            r.nanos == nanos,
    {
        Timestamp { nanos }
    }

    /// The time that lies `seconds` whole seconds after the epoch.
    pub fn from_seconds(seconds: u64) -> (r: Self)
        requires
            seconds * NANOS_PER_SECOND <= u64::MAX,
        ensures
            r.nanos == seconds * NANOS_PER_SECOND,
    {
        Timestamp { nanos: seconds * NANOS_PER_SECOND }
    }

    /// Whether a trade dispatched at `self` may be dispatched again at
    /// `now`: more than `retry_delay` whole seconds have passed.
    pub open spec fn retry_due(&self, retry_delay: u64, now: Timestamp) -> bool {
        self.nanos + retry_delay * NANOS_PER_SECOND < now.nanos
    }

    /// Decides whether the retry delay has passed since `self`.
    pub fn is_retry_due(&self, retry_delay: u64, now: Timestamp) -> (r: bool)
        ensures
            r == self.retry_due(retry_delay, now),
    {
        assert(retry_delay * NANOS_PER_SECOND <= u64::MAX * NANOS_PER_SECOND) by (nonlinear_arith)
            requires
                retry_delay <= u64::MAX,
        ;
        let wait: u128 = retry_delay as u128 * NANOS_PER_SECOND as u128;
        self.nanos as u128 + wait < now.nanos as u128
    }
}

/// The key of a scheduled trade in the dispatch log: the 32 big-endian
/// bytes of `swap_id`, then those of `number_trades`.
pub open spec fn dispatch_key_of(swap_id: Uint256, number_trades: Uint256) -> Seq<u8> {
    swap_id.be_bytes() + number_trades.be_bytes()
}

/// Builds the key of a scheduled trade.
pub fn dispatch_key(swap_id: &Uint256, number_trades: &Uint256) -> (key: Vec<u8>)
    ensures
        key@ == dispatch_key_of(*swap_id, *number_trades),
        key@.len() == 64,
{
    broadcast use Uint256::lemma_be_bytes_len;
    let high = swap_id.to_be_bytes();
    let low = number_trades.to_be_bytes();
    let mut key: Vec<u8> = Vec::new();
    let mut i: usize = 0;
    while i < 32
        invariant
            i <= 32,
            key@ == high@.take(i as int),
        decreases 32 - i,
    {
        key.push(high[i]);
        i += 1;
        assert(key@ =~= high@.take(i as int));
    }
    assert(high@.take(32) =~= high@);
    let mut j: usize = 0;
    while j < 32
        invariant
            j <= 32,
            key@ == high@ + low@.take(j as int),
            high@.len() == 32,
        decreases 32 - j,
    {
        key.push(low[j]);
        j += 1;
        assert(key@ =~= high@ + low@.take(j as int));
    }
    assert(low@.take(32) =~= low@);
    key
}

/// Trades with the same key are the same trade: the key determines both
/// numbers.
pub proof fn lemma_dispatch_key_injective(a: Uint256, b: Uint256, c: Uint256, d: Uint256)
    requires
        dispatch_key_of(a, b) == dispatch_key_of(c, d),
    ensures
        a == c,
        b == d,
{
    broadcast use Uint256::lemma_be_bytes_len;
    let k1 = dispatch_key_of(a, b);
    let k2 = dispatch_key_of(c, d);
    assert(k1.subrange(0, 32) =~= a.be_bytes());
    assert(k2.subrange(0, 32) =~= c.be_bytes());
    assert(k1.subrange(32, 64) =~= b.be_bytes());
    assert(k2.subrange(32, 64) =~= d.be_bytes());
    a.lemma_be_bytes_injective(c);
    b.lemma_be_bytes_injective(d);
}

/// Who owns the instance, and which relayer job its messages go to.
#[derive(Clone, Debug, PartialEq, Eq)]
pub struct State {
    pub owner: String,
    pub job_id: String,
}

/// What a [`State`] holds.
pub struct StateView {
    pub owner: Seq<char>,
    pub job_id: Seq<char>,
}

impl View for State {
    type V = StateView;

    open spec fn view(&self) -> StateView {
        StateView { owner: self.owner@, job_id: self.job_id@ }
    }
}

/// A cell of the store was read before anything was written to it.
#[derive(Clone, Copy, Debug, PartialEq, Eq, Structural)]
pub enum StorageError {
    /// The cell is empty.
    NotFound,
}

/// One record of the dispatch log.
#[derive(Debug)]
struct LogEntry {
    key: Vec<u8>,
    time: Timestamp,
}

/// The log that a sequence of records stands for: a later record of a key
/// replaces an earlier one.
spec fn log_of(records: Seq<(Seq<u8>, Timestamp)>) -> Map<Seq<u8>, Timestamp>
    decreases records.len(),
{
    if records.len() == 0 {
        Map::empty()
    } else {
        log_of(records.drop_last()).insert(records.last().0, records.last().1)
    }
}

/// The record at `i` is the last one of its key.
spec fn is_last_of_key(records: Seq<(Seq<u8>, Timestamp)>, i: int) -> bool {
    &&& 0 <= i < records.len()
    &&& forall|j: int| i < j < records.len() ==> (#[trigger] records[j]).0 != records[i].0
}

/// A key is in the log exactly if it has a record.
proof fn lemma_log_contains(records: Seq<(Seq<u8>, Timestamp)>, key: Seq<u8>)
    ensures
        log_of(records).dom().contains(key) <==> exists|i: int|
            0 <= i < records.len() && (#[trigger] records[i]).0 == key,
    decreases records.len(),
{
    if records.len() > 0 {
        let front = records.drop_last();
        lemma_log_contains(front, key);
        if log_of(records).dom().contains(key) {
            if records.last().0 == key {
                assert(records[records.len() - 1].0 == key);
            } else {
                let i = choose|i: int| 0 <= i < front.len() && (#[trigger] front[i]).0 == key;
                assert(records[i].0 == key);
            }
        }
        if exists|i: int| 0 <= i < records.len() && (#[trigger] records[i]).0 == key {
            let i = choose|i: int| 0 <= i < records.len() && (#[trigger] records[i]).0 == key;
            if i < front.len() {
                assert(front[i].0 == key);
            }
        }
    }
}

/// The log holds, under each key, the time of the key's last record.
proof fn lemma_log_lookup(records: Seq<(Seq<u8>, Timestamp)>, i: int)
    requires
        is_last_of_key(records, i),
    ensures
        log_of(records).dom().contains(records[i].0),
        log_of(records)[records[i].0] == records[i].1,
    decreases records.len(),
{
    let front = records.drop_last();
    if i < front.len() {
        assert forall|j: int| i < j < front.len() implies (#[trigger] front[j]).0 != front[i].0 by {
            assert(records[j].0 != records[i].0);
        }
        lemma_log_lookup(front, i);
        assert(records[records.len() - 1].0 != records[i].0);
    }
}

/// Replacing the time in the last record of a key replaces the time under
/// that key, and nothing else.
proof fn lemma_log_update(records: Seq<(Seq<u8>, Timestamp)>, i: int, time: Timestamp)
    requires
        is_last_of_key(records, i),
    ensures
        log_of(records.update(i, (records[i].0, time))) == log_of(records).insert(records[i].0, time),
    decreases records.len(),
{
    let key = records[i].0;
    let updated = records.update(i, (key, time));
    let front = records.drop_last();
    if i == records.len() - 1 {
        assert(updated.drop_last() =~= front);
        assert(log_of(updated) =~= log_of(records).insert(key, time));
    } else {
        assert forall|j: int| i < j < front.len() implies (#[trigger] front[j]).0 != front[i].0 by {
            assert(records[j].0 != records[i].0);
        }
        lemma_log_update(front, i, time);
        assert(updated.drop_last() =~= front.update(i, (key, time)));
        assert(records[records.len() - 1].0 != records[i].0);
        assert(log_of(updated) =~= log_of(records).insert(key, time));
    }
}

/// Decides whether two byte strings are equal.
pub fn bytes_equal(a: &Vec<u8>, b: &Vec<u8>) -> (r: bool)
    ensures
        r == (a@ == b@),
{
    if a.len() != b.len() {
        return false;
    }
    let mut i: usize = 0;
    while i < a.len()
        invariant
            a.len() == b.len(),
            i <= a.len(),
            a@.take(i as int) == b@.take(i as int),
        decreases a.len() - i,
    {
        if a[i] != b[i] {
            return false;
        }
        i += 1;
        assert(a@.take(i as int) =~= a@.take(i - 1).push(a@[i - 1]));
        assert(b@.take(i as int) =~= b@.take(i - 1).push(b@[i - 1]));
    }
    assert(a@ =~= a@.take(a.len() as int));
    assert(b@ =~= b@.take(b.len() as int));
    true
}

/// The persistent state of one instance.
#[derive(Debug)]
pub struct Store {
    state: Option<State>,
    retry_delay: Option<u64>,
    log: Vec<LogEntry>,
}

/// What a [`Store`] holds.
pub struct StoreView {
    /// The owner and the job, once set.
    pub state: Option<StateView>,
    /// The retry delay in whole seconds, once set.
    pub retry_delay: Option<u64>,
    /// For each trade dispatched so far, by its key, the block time of its
    /// latest dispatch.
    pub dispatch_log: Map<Seq<u8>, Timestamp>,
}

impl View for Store {
    type V = StoreView;

    closed spec fn view(&self) -> StoreView {
        StoreView {
            state: match self.state {
                Some(state) => Some(state@),
                None => None,
            },
            retry_delay: self.retry_delay,
            dispatch_log: log_of(self.records()),
        }
    }
}

impl Store {
    /// The records of the log as plain values.
    closed spec fn records(&self) -> Seq<(Seq<u8>, Timestamp)> {
        self.log@.map_values(|e: LogEntry| (e.key@, e.time))
    }

    /// A store with nothing in it.
    pub fn new() -> (r: Self)
        ensures
            r@.state is None,
            r@.retry_delay is None,
            r@.dispatch_log == Map::<Seq<u8>, Timestamp>::empty(),
    {
        let r = Store { state: None, retry_delay: None, log: Vec::new() };
        assert(r.records() =~= Seq::empty());
        r
    }

    /// The owner and the job, or `NotFound` before they were set.
    pub fn identity_get(&self) -> (r: Result<&State, StorageError>)
        ensures
            match r {
                Ok(state) => self@.state == Some(state@),
                Err(e) => self@.state is None && e == StorageError::NotFound,
            },
    {
        match &self.state {
            Some(state) => Ok(state),
            None => Err(StorageError::NotFound),
        }
    }

    /// Sets the owner and the job. They are set once.
    pub fn identity_set(&mut self, state: State)
        requires
            old(self)@.state is None,
        ensures
            final(self)@ == (StoreView { state: Some(state@), ..old(self)@ }),
    {
        self.state = Some(state);
    }

    /// The retry delay, or `NotFound` before it was set.
    pub fn retry_delay_get(&self) -> (r: Result<u64, StorageError>)
        ensures
            match r {
                Ok(delay) => self@.retry_delay == Some(delay),
                Err(e) => self@.retry_delay is None && e == StorageError::NotFound,
            },
    {
        match self.retry_delay {
            Some(delay) => Ok(delay),
            None => Err(StorageError::NotFound),
        }
    }

    /// Sets the retry delay. It is set once.
    pub fn retry_delay_set(&mut self, retry_delay: u64)
        requires
            old(self)@.retry_delay is None,
        ensures
            final(self)@ == (StoreView { retry_delay: Some(retry_delay), ..old(self)@ }),
    {
        self.retry_delay = Some(retry_delay);
    }

    /// The index of the last record of `key`, if it has one.
    fn find(&self, key: &Vec<u8>) -> (r: Option<usize>)
        ensures
            match r {
                Some(i) => is_last_of_key(self.records(), i as int) && self.records()[i as int].0 == key@,
                None => forall|i: int|
                    0 <= i < self.records().len() ==> (#[trigger] self.records()[i]).0 != key@,
            },
    {
        let mut i: usize = self.log.len();
        while i > 0
            invariant
                i <= self.log.len(),
                self.records().len() == self.log.len(),
                forall|j: int| i <= j < self.log.len() ==> (#[trigger] self.records()[j]).0 != key@,
            decreases i,
        {
            i -= 1;
            if bytes_equal(&self.log[i].key, key) {
                return Some(i);
            }
        }
        None
    }

    /// When the trade with the given key was last dispatched, if ever.
    pub fn dispatch_log_get(&self, key: &Vec<u8>) -> (r: Option<Timestamp>)
        ensures
            r == (if self@.dispatch_log.dom().contains(key@) {
                Some(self@.dispatch_log[key@])
            } else {
                None
            }),
    {
        proof {
            lemma_log_contains(self.records(), key@);
        }
        match self.find(key) {
            Some(i) => {
                proof {
                    lemma_log_lookup(self.records(), i as int);
                }
                Some(self.log[i].time)
            },
            None => None,
        }
    }

    /// Records that the trade with the given key was dispatched at `time`,
    /// in place of what the log held for it.
    pub fn dispatch_log_put(&mut self, key: Vec<u8>, time: Timestamp)
        ensures
            final(self)@ == (StoreView {
                dispatch_log: old(self)@.dispatch_log.insert(key@, time),
                ..old(self)@
            }),
    {
        let ghost before = self.records();
        match self.find(&key) {
            Some(i) => {
                proof {
                    lemma_log_update(before, i as int, time);
                }
                self.log.set(i, LogEntry { key, time });
                assert(self.records() =~= before.update(i as int, (key@, time)));
            },
            None => {
                self.log.push(LogEntry { key, time });
                assert(self.records() =~= before.push((key@, time)));
                assert(self.records().drop_last() =~= before);
            },
        }
    }
}

} // verus!
