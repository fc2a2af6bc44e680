//! Limits requests by a timeout: a request either goes through at once,
//! waits until the lock runs out, or is cancelled because another request
//! is already waiting.  The waiting itself is done by the caller; instants
//! are milliseconds on a monotonic clock.

use vstd::prelude::*;

verus! {

/// What a request is to do.
#[derive(PartialEq, Eq, Structural, Clone, Copy)]
pub enum RequestStep {
    /// Go through now and take the value stored.
    Take,
    /// Wait this many milliseconds, then wake and take the value stored.
    Sleep(u64),
    /// Give up: another request is already waiting.
    Cancel,
}

/// Limits a request by a timeout.  The value stored is the one to request;
/// a later request overwrites it.
pub struct RequestLimiter<T> {
    value: Option<T>,
    locked_until: u64,
    timeout: u64,
    pending: bool,
}

/// The step of a request at `now`, given whether no value was stored,
/// until when requests are locked and whether one is waiting.
pub open spec fn request_step(empty: bool, locked_until: u64, pending: bool, now: u64) -> RequestStep {
    if empty && locked_until < now {
        RequestStep::Take
    } else if pending {
        RequestStep::Cancel
    } else if locked_until > now {
        RequestStep::Sleep((locked_until - now) as u64)
    } else {
        RequestStep::Take
    }
}

/// What a limiter is, the value stored aside: whether a value is stored,
/// until when requests are locked, the timeout, and whether a request is
/// waiting.
pub struct LimiterState {
    pub stored: bool,
    pub locked_until: u64,
    pub timeout: u64,
    pub pending: bool,
}

/// The limiter after a request starts at `now`.
pub open spec fn begin_state(s: LimiterState, now: u64) -> LimiterState {
    LimiterState {
        stored: true,
        locked_until: if !s.stored && s.locked_until < now {
            (now + s.timeout) as u64
        } else {
            s.locked_until
        },
        timeout: s.timeout,
        pending: s.pending || request_step(!s.stored, s.locked_until, s.pending, now) is Sleep,
    }
}

/// The limiter after the waiting request wakes at `now`.
pub open spec fn wake_state(s: LimiterState, now: u64) -> LimiterState {
    LimiterState { stored: false, locked_until: (now + s.timeout) as u64, timeout: s.timeout, pending: false }
}

/// The limiter after the value stored is taken.
pub open spec fn take_state(s: LimiterState) -> LimiterState {
    LimiterState { stored: false, locked_until: s.locked_until, timeout: s.timeout, pending: s.pending }
}

impl<T> RequestLimiter<T> {
    /// What the limiter is, the value stored aside.
    pub closed spec fn state(&self) -> LimiterState {
        LimiterState {
            stored: self.value is Some,
            locked_until: self.locked_until,
            timeout: self.timeout,
            pending: self.pending,
        }
    }

    /// The value stored.
    pub closed spec fn value_spec(&self) -> Option<T> {
        self.value
    }

    /// Until when requests are locked.
    pub closed spec fn locked_until_spec(&self) -> u64 {
        self.locked_until
    }

    /// The timeout.
    pub closed spec fn timeout_spec(&self) -> u64 {
        self.timeout
    }

    /// Whether a request is waiting.
    pub closed spec fn pending_spec(&self) -> bool {
        self.pending
    }

    /// A limiter with the given timeout, unlocked from `now` on, with no
    /// value and no request waiting.
    pub fn new(timeout: u64, now: u64) -> (r: RequestLimiter<T>)
        ensures
            r.value_spec() is None,
            r.locked_until_spec() == now,
            r.timeout_spec() == timeout,
            !r.pending_spec(),
            r.state() == (LimiterState { stored: false, locked_until: now, timeout, pending: false }),
    {
        RequestLimiter { value: None, locked_until: now, timeout, pending: false }
    }

    /// The timeout.
    pub fn timeout(&self) -> (r: u64)
        ensures
            r == self.timeout_spec(),
    {
        self.timeout
    }

    /// Starts a request for `value` at `now`.  The value is stored in place
    /// of any other.  With no value stored before and the lock run out, the
    /// request goes through and locks for the timeout; else, with a request
    /// already waiting, it is cancelled; else it waits until the lock runs
    /// out, and is now the one waiting.
    pub fn begin(&mut self, value: T, now: u64) -> (r: RequestStep)
        requires
            now + old(self).timeout_spec() <= u64::MAX,
        ensures
            r == request_step(
                old(self).value_spec() is None,
                old(self).locked_until_spec(),
                old(self).pending_spec(),
                now,
            ),
            final(self).value_spec() == Some(value),
            final(self).timeout_spec() == old(self).timeout_spec(),
            final(self).locked_until_spec() == if old(self).value_spec() is None
                && old(self).locked_until_spec() < now {
                (now + old(self).timeout_spec()) as u64
            } else {
                old(self).locked_until_spec()
            },
            final(self).pending_spec() == (old(self).pending_spec() || r is Sleep),
            final(self).state() == begin_state(old(self).state(), now),
    {
        let direct = self.value.is_none();
        self.value = Some(value);
        if direct && self.locked_until < now {
            self.locked_until = now + self.timeout;
            RequestStep::Take
        } else if self.pending {
            RequestStep::Cancel
        } else if self.locked_until > now {
            self.pending = true;
            RequestStep::Sleep(self.locked_until - now)
        } else {
            RequestStep::Take
        }
    }

    /// Wakes the waiting request at `now`: requests are locked for the
    /// timeout from now on, nothing waits any more, and the value stored is
    /// taken.
    pub fn wake(&mut self, now: u64) -> (r: Option<T>)
        requires
            now + old(self).timeout_spec() <= u64::MAX,
        ensures
            r == old(self).value_spec(),
            final(self).value_spec() is None,
            final(self).locked_until_spec() == now + old(self).timeout_spec(),
            final(self).timeout_spec() == old(self).timeout_spec(),
            !final(self).pending_spec(),
            final(self).state() == wake_state(old(self).state(), now),
    {
        self.locked_until = now + self.timeout;
        self.pending = false;
        self.value.take()
    }

    /// Takes the value stored, leaving none.
    pub fn take(&mut self) -> (r: Option<T>)
        ensures
            r == old(self).value_spec(),
            final(self).value_spec() is None,
            final(self).locked_until_spec() == old(self).locked_until_spec(),
            final(self).timeout_spec() == old(self).timeout_spec(),
            final(self).pending_spec() == old(self).pending_spec(),
            final(self).state() == take_state(old(self).state()),
    {
        self.value.take()
    }
}

/// Whether a limiter, between the requests made on it, is in order, with
/// `sleeping` requests waiting and the last request let through at `last`
/// (if any): a value is stored exactly while a request waits, one request
/// waits while the waiting flag is set and none otherwise, and the lock runs
/// at least the timeout past the last request let through.
pub open spec fn limiter_in_order(s: LimiterState, sleeping: nat, last: Option<u64>) -> bool {
    &&& s.stored == s.pending
    &&& sleeping == (if s.pending {
        1nat
    } else {
        0nat
    })
    &&& (last matches Some(t) ==> t + s.timeout <= s.locked_until)
}

/// Something that happens to a limiter: a request starting at an instant
/// (which, when it goes through at once, takes the value at once), or the
/// waiting request waking at an instant.
pub enum LimiterEvent {
    Request(u64),
    WakeUp(u64),
}

/// Whether an event can happen to a limiter with `sleeping` requests
/// waiting, as the laws of runs take it: the instants leave room for the
/// timeout, and a request wakes only while one waits and not before the
/// lock runs out (it sleeps as long as it was told).  A request that starts
/// at the very instant the lock runs out, with no value stored, goes through
/// without locking again; such a request is left out.
pub open spec fn event_allowed(s: LimiterState, sleeping: nat, e: LimiterEvent) -> bool {
    match e {
        LimiterEvent::Request(now) => now + s.timeout <= u64::MAX && (s.stored || now != s.locked_until),
        LimiterEvent::WakeUp(now) => sleeping > 0 && s.locked_until <= now && now + s.timeout <= u64::MAX,
    }
}

/// One event: the limiter after it, the requests waiting, the last request
/// let through, and the instants at which requests went through (none or
/// one).
pub open spec fn limiter_event(s: LimiterState, sleeping: nat, last: Option<u64>, e: LimiterEvent) -> (
    LimiterState,
    nat,
    Option<u64>,
    Seq<u64>,
) {
    match e {
        LimiterEvent::Request(now) => {
            let s1 = begin_state(s, now);
            match request_step(!s.stored, s.locked_until, s.pending, now) {
                RequestStep::Take => (take_state(s1), sleeping, Some(now), seq![now]),
                RequestStep::Sleep(_) => (s1, sleeping + 1, last, Seq::empty()),
                RequestStep::Cancel => (s1, sleeping, last, Seq::empty()),
            }
        },
        LimiterEvent::WakeUp(now) => (wake_state(s, now), (sleeping - 1) as nat, Some(now), seq![now]),
    }
}

/// Whether every event of a run can happen in turn.
pub open spec fn run_allowed(s: LimiterState, sleeping: nat, last: Option<u64>, es: Seq<LimiterEvent>) -> bool
    decreases es.len(),
{
    if es.len() == 0 {
        true
    } else {
        let x = limiter_event(s, sleeping, last, es[0]);
        event_allowed(s, sleeping, es[0]) && run_allowed(x.0, x.1, x.2, es.drop_first())
    }
}

/// A run of events: the limiter after them, the requests waiting, the last
/// request let through, and the instants at which requests went through,
/// in order.
pub open spec fn limiter_run(s: LimiterState, sleeping: nat, last: Option<u64>, es: Seq<LimiterEvent>) -> (
    LimiterState,
    nat,
    Option<u64>,
    Seq<u64>,
)
    decreases es.len(),
{
    if es.len() == 0 {
        (s, sleeping, last, Seq::empty())
    } else {
        let x = limiter_event(s, sleeping, last, es[0]);
        let rest = limiter_run(x.0, x.1, x.2, es.drop_first());
        (rest.0, rest.1, rest.2, x.3 + rest.3)
    }
}

/// Whether a limiter, between the calls made on it, waits well with
/// `sleeping` requests waiting: a value is stored exactly while the waiting
/// flag is set, and one request waits while it is set and none otherwise.
pub open spec fn limiter_waits_well(s: LimiterState, sleeping: nat) -> bool {
    &&& s.stored == s.pending
    &&& sleeping == (if s.pending {
        1nat
    } else {
        0nat
    })
}

/// Whether an event can happen to a limiter with `sleeping` requests
/// waiting: the instants leave room for the timeout, and a request wakes
/// only while one waits.
pub open spec fn event_possible(s: LimiterState, sleeping: nat, e: LimiterEvent) -> bool {
    match e {
        LimiterEvent::Request(now) => now + s.timeout <= u64::MAX,
        LimiterEvent::WakeUp(now) => sleeping > 0 && now + s.timeout <= u64::MAX,
    }
}

/// Whether every event of a run can happen in turn.
pub open spec fn run_possible(s: LimiterState, sleeping: nat, last: Option<u64>, es: Seq<LimiterEvent>) -> bool
    decreases es.len(),
{
    if es.len() == 0 {
        true
    } else {
        let x = limiter_event(s, sleeping, last, es[0]);
        event_possible(s, sleeping, es[0]) && run_possible(x.0, x.1, x.2, es.drop_first())
    }
}

/// Over any run of calls on a limiter, between the calls the waiting flag is
/// set exactly when one request sleeps, none sleeping otherwise, and a value
/// is stored only while one sleeps: at most one request sleeps at a time.
/// (The value it takes when it wakes is the one stored last, as `begin` and
/// `wake` state.)
pub proof fn lemma_run_waits_well(s: LimiterState, sleeping: nat, last: Option<u64>, es: Seq<LimiterEvent>)
    requires
        limiter_waits_well(s, sleeping),
        run_possible(s, sleeping, last, es),
    ensures
        limiter_waits_well(limiter_run(s, sleeping, last, es).0, limiter_run(s, sleeping, last, es).1),
        limiter_run(s, sleeping, last, es).1 <= 1,
    decreases es.len(),
{
    if es.len() > 0 {
        let x = limiter_event(s, sleeping, last, es[0]);
        match es[0] {
            LimiterEvent::Request(now) => {
                if !s.stored && s.locked_until < now {
                    assert(request_step(!s.stored, s.locked_until, s.pending, now) == RequestStep::Take);
                } else if s.pending {
                    assert(request_step(!s.stored, s.locked_until, s.pending, now) == RequestStep::Cancel);
                } else if s.locked_until > now {
                    assert(request_step(!s.stored, s.locked_until, s.pending, now) is Sleep);
                } else {
                    assert(request_step(!s.stored, s.locked_until, s.pending, now) == RequestStep::Take);
                }
            },
            LimiterEvent::WakeUp(now) => {},
        }
        assert(limiter_waits_well(x.0, x.1));
        lemma_run_waits_well(x.0, x.1, x.2, es.drop_first());
    }
}

/// A new limiter waits well, with nothing waiting.
pub proof fn lemma_new_waits_well(timeout: u64, now: u64)
    ensures
        limiter_waits_well(LimiterState { stored: false, locked_until: now, timeout, pending: false }, 0),
{
}

/// A new limiter is in order, with nothing waiting and nothing let through.
pub proof fn lemma_new_in_order(timeout: u64, now: u64)
    ensures
        limiter_in_order(LimiterState { stored: false, locked_until: now, timeout, pending: false }, 0, None),
{
}

/// Each event keeps a limiter in order, and a request goes through only once
/// the timeout has passed since the last one let through.
pub proof fn lemma_event_in_order(s: LimiterState, sleeping: nat, last: Option<u64>, e: LimiterEvent)
    requires
        limiter_in_order(s, sleeping, last),
        event_allowed(s, sleeping, e),
    ensures
        ({
            let x = limiter_event(s, sleeping, last, e);
            &&& limiter_in_order(x.0, x.1, x.2)
            &&& x.3.len() <= 1
            &&& x.3.len() == 1 ==> x.2 == Some(x.3[0]) && (last matches Some(t) ==> t + s.timeout
                <= x.3[0])
            &&& x.3.len() == 0 ==> x.2 == last
        }),
{
    match e {
        LimiterEvent::Request(now) => {
            let s1 = begin_state(s, now);
            if !s.stored && s.locked_until < now {
                assert(request_step(!s.stored, s.locked_until, s.pending, now) == RequestStep::Take);
                assert(s1.locked_until == now + s.timeout);
            } else if s.pending {
                assert(request_step(!s.stored, s.locked_until, s.pending, now) == RequestStep::Cancel);
            } else if s.locked_until > now {
                assert(request_step(!s.stored, s.locked_until, s.pending, now) is Sleep);
            } else {
                assert(false);
            }
        },
        LimiterEvent::WakeUp(now) => {},
    }
}

/// Over any run of requests on a limiter in order, the limiter stays in
/// order (a value stored exactly while one request waits, at most one
/// waiting), and the requests let through are at least the timeout apart:
/// at most one goes through per timeout, however many are made.
pub proof fn lemma_run_in_order(s: LimiterState, sleeping: nat, last: Option<u64>, es: Seq<LimiterEvent>)
    requires
        limiter_in_order(s, sleeping, last),
        run_allowed(s, sleeping, last, es),
    ensures
        ({
            let x = limiter_run(s, sleeping, last, es);
            &&& limiter_in_order(x.0, x.1, x.2)
            &&& x.1 <= 1
            &&& (x.3.len() > 0 ==> x.2 == Some(x.3.last()))
            &&& (x.3.len() == 0 ==> x.2 == last)
            &&& (x.3.len() > 0 ==> (last matches Some(t) ==> t + s.timeout <= x.3[0]))
            &&& forall|k: int| 0 <= k < x.3.len() - 1 ==> x.3[k] + s.timeout <= #[trigger] x.3[k + 1]
        }),
    decreases es.len(),
{
    if es.len() > 0 {
        let x = limiter_event(s, sleeping, last, es[0]);
        lemma_event_in_order(s, sleeping, last, es[0]);
        lemma_run_in_order(x.0, x.1, x.2, es.drop_first());
        let rest = limiter_run(x.0, x.1, x.2, es.drop_first());
        let all = x.3 + rest.3;
        assert(x.0.timeout == s.timeout);
        assert forall|k: int| 0 <= k < all.len() - 1 implies all[k] + s.timeout <= #[trigger] all[k + 1] by {
            if x.3.len() == 1 && k == 0 {
                assert(all[0] == x.3[0]);
                assert(all[1] == rest.3[0]);
                assert(x.2 == Some(x.3[0]));
            } else if x.3.len() == 1 {
                assert(all[k] == rest.3[k - 1]);
                assert(all[k + 1] == rest.3[k]);
                assert(rest.3[(k - 1) + 1] == rest.3[k]);
            } else {
                assert(all[k] == rest.3[k]);
                assert(all[k + 1] == rest.3[k + 1]);
            }
        }
        if all.len() > 0 {
            if rest.3.len() > 0 {
                assert(all.last() == rest.3.last());
            }
        }
    }
}

/// A request that goes through locks out every request that starts before
/// the timeout has passed from it: none of them goes through at once.
pub proof fn lemma_locked_after_take(empty: bool, pending: bool, now: u64, timeout: u64, later: u64)
    requires
        now + timeout <= u64::MAX,
        later < now + timeout,
    ensures
        request_step(empty, (now + timeout) as u64, pending, later) != RequestStep::Take,
{
}

/// While a request waits, every other request started while the lock holds
/// is cancelled, so at most one request waits.
pub proof fn lemma_one_waiting(empty: bool, locked_until: u64, now: u64)
    requires
        !(empty && locked_until < now),
    ensures
        request_step(empty, locked_until, true, now) == RequestStep::Cancel,
{
}

/// A request that waits waits exactly until the lock runs out.
pub proof fn lemma_sleep_until_unlocked(empty: bool, locked_until: u64, pending: bool, now: u64)
    ensures
        request_step(empty, locked_until, pending, now) matches RequestStep::Sleep(ms) ==> now + ms
            == locked_until,
{
}

} // verus!
