use vstd::prelude::*;

verus! {

/// Whether a heartbeat is due at `now`: relay tasks are in flight, and a
/// whole interval has passed since the last heartbeat.
pub open spec fn due(last: u64, interval: u64, now: u64, in_flight: nat) -> bool {
    in_flight > 0 && now >= last && now - last >= interval
}

/// Whether heartbeats sent every `interval` milliseconds keep a
/// connection alive that is given up after `idle` milliseconds without
/// traffic: the interval must be the shorter of the two.
pub fn keeps_alive(interval: u64, idle: u64) -> (alive: bool)
    ensures
        alive == (interval < idle),
{
    interval < idle
}

/// How long to wait at `now` before the next poll of a timer whose last
/// heartbeat was at `last`: until the next one falls due, but at most
/// half an interval and at least one millisecond.
pub open spec fn wait_of(last: u64, interval: u64, now: u64) -> u64 {
    let due_at = if last + interval > u64::MAX {
        u64::MAX
    } else {
        (last + interval) as u64
    };
    let until = if due_at > now {
        (due_at - now) as u64
    } else {
        0u64
    };
    let wait = if until < interval / 2 {
        until
    } else {
        interval / 2
    };
    if wait < 1 {
        1
    } else {
        wait
    }
}

/// Decides when a connection sends its next heartbeat. Times are in
/// milliseconds on a clock that does not run backwards.
#[derive(Clone, Copy, Debug, PartialEq, Eq, Structural)]
pub struct Heartbeat {
    interval: u64,
    last: u64,
}

impl Heartbeat {
    /// The time between two heartbeats.
    pub closed spec fn interval(&self) -> u64 {
        self.interval
    }

    /// When the last heartbeat was sent, or the timer was started.
    pub closed spec fn last(&self) -> u64 {
        self.last
    }

    /// A timer that starts at `now`.
    pub fn new(interval: u64, now: u64) -> (hb: Self)
        ensures
            hb.interval() == interval,
            hb.last() == now,
    {
        Self { interval, last: now }
    }

    /// Says whether a heartbeat is to be sent at `now`, with `in_flight`
    /// relay tasks at work, and if so counts the next interval from `now`.
    pub fn poll(&mut self, now: u64, in_flight: usize) -> (send: bool)
        ensures
            send == due(old(self).last(), old(self).interval(), now, in_flight as nat),
            final(self).interval() == old(self).interval(),
            final(self).last() == if send {
                now
            } else {
                old(self).last()
            },
    {
        if in_flight > 0 && now >= self.last && now - self.last >= self.interval {
            self.last = now;
            true
        } else {
            false
        }
    }

    /// How many milliseconds to let pass at `now` before the next poll: up
    /// to the time at which the next heartbeat falls due, but no more than
    /// half an interval, and no less than one millisecond.
    pub fn wait(&self, now: u64) -> (millis: u64)
        ensures
            millis == wait_of(self.last(), self.interval(), now),
            1 <= millis,
            millis <= 1 || millis <= self.interval() / 2,
    {
        let due_at = self.last.saturating_add(self.interval);
        let until = if due_at > now {
            due_at - now
        } else {
            0
        };
        let half = self.interval / 2;
        let wait = if until < half {
            until
        } else {
            half
        };
        if wait < 1 {
            1
        } else {
            wait
        }
    }

    /// When the next heartbeat falls due at the earliest: the time to poll
    /// again.
    pub fn deadline(&self) -> (at: u64)
        ensures
            at == if self.last() + self.interval() > u64::MAX {
                u64::MAX
            } else {
                (self.last() + self.interval()) as u64
            },
    {
        self.last.saturating_add(self.interval)
    }
}

/// No heartbeat is overdue after a poll: with tasks in flight, less than
/// an interval has passed since the last one.
pub proof fn poll_leaves_none_overdue(last: u64, interval: u64, now: u64, in_flight: nat)
    requires
        interval > 0,
        in_flight > 0,
        now >= last,
    ensures
        ({
            let after = if due(last, interval, now, in_flight) {
                now
            } else {
                last
            };
            now - after < interval
        }),
{
}

/// Heartbeats are never more than one and a half intervals apart, where
/// the timer is polled at least every half interval while tasks are in
/// flight: if none was overdue at the poll at `earlier`, the one that
/// falls due at the next poll, at `now`, comes at least one interval and
/// less than one and a half after the last.
pub proof fn heartbeat_gap_is_bounded(last: u64, interval: u64, earlier: u64, now: u64, in_flight: nat)
    requires
        interval > 0,
        last <= earlier <= now,
        earlier - last < interval,
        now - earlier <= interval / 2,
        due(last, interval, now, in_flight),
    ensures
        interval <= now - last,
        2 * (now - last) < 3 * interval,
{
}

/// When the last heartbeat was sent, or the timer was started at
/// `start`, once it has been polled at the times `polls` with tasks in
/// flight throughout.
pub open spec fn last_after(start: u64, interval: u64, polls: Seq<u64>) -> u64
    decreases polls.len(),
{
    if polls.len() == 0 {
        start
    } else {
        let last = last_after(start, interval, polls.drop_last());
        if due(last, interval, polls.last(), 1) {
            polls.last()
        } else {
            last
        }
    }
}

/// The times at which heartbeats are sent by a timer that is started at
/// `start` and polled at the times `polls`, with tasks in flight
/// throughout.
pub open spec fn beats(start: u64, interval: u64, polls: Seq<u64>) -> Seq<u64>
    decreases polls.len(),
{
    if polls.len() == 0 {
        Seq::empty()
    } else {
        let earlier = beats(start, interval, polls.drop_last());
        if due(last_after(start, interval, polls.drop_last()), interval, polls.last(), 1) {
            earlier.push(polls.last())
        } else {
            earlier
        }
    }
}

/// Whether a timer that is started at `start` is polled at least every
/// half interval: the polls come in order, the first at most half an
/// interval after the start, each later one at most half an interval
/// after the one before.
pub open spec fn polled_in_time(start: u64, interval: u64, polls: Seq<u64>) -> bool {
    forall|k: int|
        0 <= k < polls.len() ==> {
            let before = if k == 0 {
                start
            } else {
                polls[k - 1]
            };
            before <= #[trigger] polls[k] && polls[k] - before <= interval / 2
        }
}

/// On a connection with tasks in flight whose timer is polled at least
/// every half interval, each heartbeat comes at least one interval and
/// less than one and a half after the one before it, the first counted
/// from the start of the timer; and at the last poll none is overdue.
pub proof fn heartbeats_stay_close(start: u64, interval: u64, polls: Seq<u64>)
    requires
        interval > 0,
        polled_in_time(start, interval, polls),
    ensures
        forall|i: int|
            0 <= i < beats(start, interval, polls).len() ==> {
                let before = if i == 0 {
                    start
                } else {
                    beats(start, interval, polls)[i - 1]
                };
                let at = #[trigger] beats(start, interval, polls)[i];
                before + interval <= at && 2 * (at - before) < 3 * interval
            },
        last_after(start, interval, polls) == if beats(start, interval, polls).len() == 0 {
            start
        } else {
            beats(start, interval, polls).last()
        },
        polls.len() > 0 ==> last_after(start, interval, polls) <= polls.last() && polls.last()
            - last_after(start, interval, polls) < interval,
    decreases polls.len(),
{
    if polls.len() > 0 {
        let front = polls.drop_last();
        assert(polled_in_time(start, interval, front)) by {
            assert forall|k: int| 0 <= k < front.len() implies {
                let before = if k == 0 {
                    start
                } else {
                    front[k - 1]
                };
                before <= #[trigger] front[k] && front[k] - before <= interval / 2
            } by {
                assert(front[k] == polls[k]);
            }
        }
        heartbeats_stay_close(start, interval, front);
        let k = polls.len() - 1;
        assert(polls[k] == polls.last());
        if k > 0 {
            assert(front.last() == polls[k - 1]);
        }
    }
}

} // verus!
