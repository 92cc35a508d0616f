//! Named interval timers.
//!
//! Instants are plain integers: microseconds since the Unix epoch, as read from
//! the local wall clock. A timer whose end equals its start is still running;
//! its duration is then measured against the current instant.
use vstd::prelude::*;
use vstd::arithmetic::div_mod::lemma_div_is_ordered;
use vstd::hash_map::StringHashMap;

verus! {

/// Number of microseconds in one millisecond.
pub const MICROS_PER_MILLI: i64 = 1000;

/// Whole milliseconds from `from` to `to`, both in microseconds.
/// An interval that runs backwards (the wall clock was set back) counts as zero.
pub open spec fn elapsed_ms(from: int, to: int) -> int {
    if to <= from {
        0
    } else {
        (to - from) / 1000
    }
}

/// Relies on chrono::Local::now and DateTime::timestamp_micros: the current
/// local wall-clock instant, in microseconds since the Unix epoch. Nothing is
/// promised of its value.
#[verifier::external_body]
fn now_micros() -> (r: i64) {
    chrono::Local::now().timestamp_micros()
}

/// Whole milliseconds from `from` to `to` (microseconds); zero when `to` is
/// not after `from`.
pub fn elapsed_between(from: i64, to: i64) -> (r: i64)
    ensures
        r == elapsed_ms(from as int, to as int),
        r >= 0,
{
    if to <= from {
        0
    } else {
        let diff: i128 = to as i128 - from as i128;
        (diff / (MICROS_PER_MILLI as i128)) as i64
    }
}

/// One interval: a start instant and an end instant, in microseconds since
/// the Unix epoch. While `endtime == starttime` the timer is running.
#[derive(Clone, Copy, Debug)]
pub struct Timer {
    pub starttime: i64,
    pub endtime: i64,
}

impl Timer {
    /// The timer has not been ended: its end still equals its start.
    pub open spec fn is_running(&self) -> bool {
        self.endtime == self.starttime
    }

    /// What `duration` reads when the current instant is `now`: the time so
    /// far while running, else the fixed span from start to end.
    pub open spec fn reading(&self, now: int) -> int {
        if self.is_running() {
            elapsed_ms(self.starttime as int, now)
        } else {
            elapsed_ms(self.starttime as int, self.endtime as int)
        }
    }

    /// The duration in milliseconds with `now` as the current instant.
    pub fn duration_at(&self, now: i64) -> (r: i64)
        ensures
            r == self.reading(now as int),
            r >= 0,
    {
        if self.endtime == self.starttime {
            elapsed_between(self.starttime, now)
        } else {
            elapsed_between(self.starttime, self.endtime)
        }
    }

    /// The duration in milliseconds: time so far while running, else the
    /// fixed span from start to end.
    pub fn duration(&self) -> (r: i64)
        ensures
            exists|now: i64| r == self.reading(now as int),
            !self.is_running() ==> r == elapsed_ms(self.starttime as int, self.endtime as int),
            r >= 0,
    {
        let now = now_micros();
        self.duration_at(now)
    }

    /// Sets the end of the timer to the instant `now`.
    pub fn end_at(&mut self, now: i64)
        ensures
            final(self).starttime == old(self).starttime,
            final(self).endtime == now,
    {
        self.endtime = now;
    }

    /// Sets the end of the timer to the current instant.
    pub fn end(&mut self)
        ensures
            final(self).starttime == old(self).starttime,
    {
        let now = now_micros();
        self.end_at(now);
    }

    /// A running timer that starts at `now`.
    pub fn started_at(now: i64) -> (r: Timer)
        ensures
            r.starttime == now,
            r.is_running(),
    {
        Timer { starttime: now, endtime: now }
    }

    /// A running timer that starts at the current instant.
    pub fn new() -> (r: Timer)
        ensures
            r.is_running(),
    {
        let now = now_micros();
        Timer::started_at(now)
    }
}

impl Default for Timer {
    fn default() -> (r: Timer)
        ensures
            r.is_running(),
    {
        Timer::new()
    }
}

/// The running timer that starts at `now`.
pub open spec fn started(now: int) -> Timer {
    Timer { starttime: now as i64, endtime: now as i64 }
}

/// What `duration(name)` reads on a registry with contents `m` when the
/// current instant is `now`; `-1` when no timer has that name.
pub open spec fn reading_of(m: Map<Seq<char>, Timer>, name: Seq<char>, now: int) -> int {
    if m.contains_key(name) {
        m[name].reading(now)
    } else {
        -1
    }
}

/// Throughput of `qty` items over a duration of `d` milliseconds, per second;
/// a duration of zero counts as one millisecond.
pub open spec fn per_second(qty: int, d: int) -> int {
    if d == 0 {
        qty * 1000
    } else {
        qty * 1000 / d
    }
}

/// What `rate(name, qty)` returns on a registry with contents `m` when the
/// current instant is `now`; `-1` when no timer has that name.
pub open spec fn rate_of(m: Map<Seq<char>, Timer>, name: Seq<char>, qty: int, now: int) -> int {
    if m.contains_key(name) {
        per_second(qty, m[name].reading(now))
    } else {
        -1
    }
}

/// The contents after `end(name)` at instant `now`: the named timer keeps its
/// start and takes `now` as its end; nothing changes when the name is unknown.
pub open spec fn ended_at(m: Map<Seq<char>, Timer>, name: Seq<char>, now: int) -> Map<
    Seq<char>,
    Timer,
> {
    if m.contains_key(name) {
        m.insert(name, Timer { starttime: m[name].starttime, endtime: now as i64 })
    } else {
        m
    }
}

/// What `end(name)` at instant `now` returns: the duration the timer now
/// holds, or `-1` when no timer has that name.
pub open spec fn end_result(m: Map<Seq<char>, Timer>, name: Seq<char>, now: int) -> int {
    if m.contains_key(name) {
        elapsed_ms(m[name].starttime as int, now)
    } else {
        -1
    }
}

/// A registry of timers keyed by name. Names are unique; registering a name
/// again replaces the timer held under it.
pub struct Timers {
    pub timer: StringHashMap<Timer>,
}

impl View for Timers {
    type V = Map<Seq<char>, Timer>;

    open spec fn view(&self) -> Map<Seq<char>, Timer> {
        self.timer@
    }
}

/// The largest quantity whose rate per second fits in an `i64`.
pub const MAX_QTY: i64 = 9223372036854775;

impl Timers {
    /// A registry holding one running timer, under `timer_name`, started at `now`.
    pub fn new_at(timer_name: String, now: i64) -> (r: Timers)
        ensures
            r@ == map![timer_name@ => started(now as int)],
    {
        let mut m: StringHashMap<Timer> = StringHashMap::new();
        m.insert(timer_name, Timer::started_at(now));
        proof {
            assert(m@ =~= map![timer_name@ => started(now as int)]);
        }
        Timers { timer: m }
    }

    /// A registry holding one running timer, under `timer_name`, started at the
    /// current instant.
    pub fn new(timer_name: String) -> (r: Timers)
        ensures
            r@.dom() == set![timer_name@],
            r@[timer_name@].is_running(),
            exists|now: i64| r@ == map![timer_name@ => started(now as int)],
    {
        let now = now_micros();
        let r = Timers::new_at(timer_name, now);
        proof {
            assert(r@.dom() =~= set![timer_name@]);
        }
        r
    }

    /// Registers a running timer started at `now` under `timer_name`, replacing
    /// any timer of that name.
    pub fn add_at(&mut self, timer_name: String, now: i64)
        ensures
            final(self)@ == old(self)@.insert(timer_name@, started(now as int)),
    {
        self.timer.insert(timer_name, Timer::started_at(now));
    }

    /// Registers a running timer started at the current instant under
    /// `timer_name`, replacing any timer of that name.
    pub fn add(&mut self, timer_name: String)
        ensures
            exists|now: i64| final(self)@ == old(self)@.insert(timer_name@, started(now as int)),
    {
        let now = now_micros();
        self.add_at(timer_name, now);
    }

    /// The duration of the named timer with `now` as the current instant, or
    /// `-1` when no timer has that name.
    pub fn duration_at(&self, timer_name: &str, now: i64) -> (r: i64)
        ensures
            r == reading_of(self@, timer_name@, now as int),
    {
        match self.timer.get(timer_name) {
            Some(t) => t.duration_at(now),
            None => -1,
        }
    }

    /// The duration of the named timer in milliseconds, or `-1` when no timer
    /// has that name.
    pub fn duration(&mut self, timer_name: String) -> (r: i64)
        ensures
            final(self)@ == old(self)@,
            exists|now: i64| r == reading_of(old(self)@, timer_name@, now as int),
            !old(self)@.contains_key(timer_name@) ==> r == -1,
            old(self)@.contains_key(timer_name@) ==> r >= 0,
            old(self)@.contains_key(timer_name@) && !old(self)@[timer_name@].is_running() ==> r
                == elapsed_ms(
                old(self)@[timer_name@].starttime as int,
                old(self)@[timer_name@].endtime as int,
            ),
    {
        let now = now_micros();
        self.duration_at(timer_name.as_str(), now)
    }

    /// The throughput of `qty` items over the named timer's duration, per
    /// second, with `now` as the current instant; `-1` when no timer has that
    /// name.
    pub fn rate_at(&self, timer_name: &str, qty: i64, now: i64) -> (r: i64)
        requires
            0 <= qty <= MAX_QTY,
        ensures
            r == rate_of(self@, timer_name@, qty as int, now as int),
    {
        match self.timer.get(timer_name) {
            Some(t) => {
                let d = t.duration_at(now);
                let d: i64 = if d == 0 {
                    1
                } else {
                    d
                };
                qty * 1000 / d
            },
            None => -1,
        }
    }

    /// The throughput of `qty` items over the named timer's duration, per
    /// second; `-1` when no timer has that name.
    pub fn rate(&mut self, timer_name: String, qty: i64) -> (r: i64)
        requires
            0 <= qty <= MAX_QTY,
        ensures
            final(self)@ == old(self)@,
            exists|now: i64| r == rate_of(old(self)@, timer_name@, qty as int, now as int),
            !old(self)@.contains_key(timer_name@) ==> r == -1,
            old(self)@.contains_key(timer_name@) ==> r >= 0,
            old(self)@.contains_key(timer_name@) && !old(self)@[timer_name@].is_running() ==> r
                == per_second(
                qty as int,
                elapsed_ms(
                    old(self)@[timer_name@].starttime as int,
                    old(self)@[timer_name@].endtime as int,
                ),
            ),
    {
        let now = now_micros();
        self.rate_at(timer_name.as_str(), qty, now)
    }

    /// Ends the named timer at instant `now` and returns the duration it then
    /// holds; `-1`, with nothing changed, when no timer has that name.
    pub fn end_at(&mut self, timer_name: &str, now: i64) -> (r: i64)
        ensures
            final(self)@ == ended_at(old(self)@, timer_name@, now as int),
            r == end_result(old(self)@, timer_name@, now as int),
    {
        match self.timer.get(timer_name) {
            Some(t) => {
                let mut t: Timer = *t;
                t.end_at(now);
                let d = elapsed_between(t.starttime, now);
                self.timer.insert(timer_name.to_string(), t);
                d
            },
            None => -1,
        }
    }

    /// Ends the named timer at the current instant and returns the duration it
    /// then holds; `-1`, with nothing changed, when no timer has that name.
    pub fn end(&mut self, timer_name: &String) -> (r: i64)
        ensures
            exists|now: i64|
                final(self)@ == ended_at(old(self)@, timer_name@, now as int) && r == end_result(
                    old(self)@,
                    timer_name@,
                    now as int,
                ),
            !old(self)@.contains_key(timer_name@) ==> r == -1 && final(self)@ == old(self)@,
            old(self)@.contains_key(timer_name@) ==> r >= 0,
    {
        let now = now_micros();
        self.end_at(timer_name.as_str(), now)
    }
}

impl Default for Timers {
    fn default() -> (r: Timers)
        ensures
            r@ == Map::<Seq<char>, Timer>::empty(),
    {
        Timers { timer: StringHashMap::new() }
    }
}

/// A freshly created registry reads, for its one timer, the whole milliseconds
/// elapsed since creation, which are never negative.
pub proof fn lemma_fresh_duration_nonnegative(name: Seq<char>, start: int, now: int)
    requires
        i64::MIN <= start <= i64::MAX,
    ensures
        reading_of(map![name => started(start)], name, now) == elapsed_ms(start, now),
        reading_of(map![name => started(start)], name, now) >= 0,
{
    assert(map![name => started(start)].contains_key(name));
}

/// Every query on an unknown name answers `-1`, and ending it changes nothing.
pub proof fn lemma_unknown_name(m: Map<Seq<char>, Timer>, name: Seq<char>, qty: int, now: int)
    requires
        !m.contains_key(name),
    ensures
        reading_of(m, name, now) == -1,
        rate_of(m, name, qty, now) == -1,
        end_result(m, name, now) == -1,
        ended_at(m, name, now) == m,
{
}

/// Once a timer is ended, later readings never decrease; unless it was ended
/// at the very instant it started, they all equal the value `end` returned.
pub proof fn lemma_end_is_monotonic(
    m: Map<Seq<char>, Timer>,
    name: Seq<char>,
    at: int,
    now1: int,
    now2: int,
)
    requires
        m.contains_key(name),
        i64::MIN <= at <= i64::MAX,
        at <= now1 <= now2,
    ensures
        end_result(m, name, at) <= reading_of(ended_at(m, name, at), name, now1),
        reading_of(ended_at(m, name, at), name, now1) <= reading_of(
            ended_at(m, name, at),
            name,
            now2,
        ),
        at != m[name].starttime ==> reading_of(ended_at(m, name, at), name, now1) == end_result(
            m,
            name,
            at,
        ) && reading_of(ended_at(m, name, at), name, now2) == end_result(m, name, at),
{
    let s = m[name].starttime as int;
    if s < at {
        lemma_div_is_ordered(at - s, now1 - s, 1000);
        lemma_div_is_ordered(now1 - s, now2 - s, 1000);
    } else if s < now1 {
        lemma_div_is_ordered(now1 - s, now2 - s, 1000);
    }
}

/// A quantity of zero gives a rate of zero for every known timer.
pub proof fn lemma_zero_quantity(m: Map<Seq<char>, Timer>, name: Seq<char>, now: int)
    requires
        m.contains_key(name),
    ensures
        rate_of(m, name, 0, now) == 0,
{
}

/// A timer that reads zero milliseconds gives a rate of `qty * 1000`: the
/// duration is taken as one millisecond.
pub proof fn lemma_zero_duration_rate(m: Map<Seq<char>, Timer>, name: Seq<char>, qty: int, now: int)
    requires
        m.contains_key(name),
        reading_of(m, name, now) == 0,
    ensures
        rate_of(m, name, qty, now) == qty * 1000,
{
}

/// Registering a name again starts its timer afresh: what the name reads
/// afterwards is measured from the new start, whatever timer it held before.
pub proof fn lemma_add_replaces(m: Map<Seq<char>, Timer>, name: Seq<char>, start: int, now: int)
    requires
        i64::MIN <= start <= i64::MAX,
    ensures
        reading_of(m.insert(name, started(start)), name, now) == elapsed_ms(start, now),
{
}

} // verus!
