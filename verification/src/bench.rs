use vstd::prelude::*;

verus! {

/// What a load-test client does next.
#[derive(Clone, Copy, Debug, PartialEq, Eq, Structural)]
pub enum BenchAction {
    /// It has sent and received all it should: stop.
    Done,
    /// It has received all it should: send.
    Send,
    /// It has sent all it should: wait for a message.
    Receive,
    /// Both remain: send, or take a message, whichever completes first.
    Race,
}

/// The counters of one load-test client among `count` clients: each sends
/// `count` messages and expects `10 * (count - 1)` messages from the
/// others.
#[derive(Debug)]
pub struct BenchCounters {
    pub count: i32,
    pub expected: i32,
    pub sent: i32,
    pub received: i32,
}

/// The counters stay between zero and their targets.
pub open spec fn counters_in_range(c: BenchCounters) -> bool {
    &&& c.expected == 10 * (c.count - 1)
    &&& 0 <= c.sent
    &&& (c.count >= 0 ==> c.sent <= c.count)
    &&& (c.count < 0 ==> c.sent == 0)
    &&& 0 <= c.received
    &&& (c.expected >= 0 ==> c.received <= c.expected)
    &&& (c.expected < 0 ==> c.received == 0)
}

/// The action that the counters call for.
pub open spec fn action_spec(c: BenchCounters) -> BenchAction {
    if c.received >= c.expected && c.sent >= c.count {
        BenchAction::Done
    } else if c.received >= c.expected {
        BenchAction::Send
    } else if c.sent >= c.count {
        BenchAction::Receive
    } else {
        BenchAction::Race
    }
}

impl BenchCounters {
    /// Fresh counters for a run with `count` clients.
    pub fn new(count: i32) -> (c: Self)
        requires
            i32::MIN <= 10 * (count - 1) <= i32::MAX,
        ensures
            c.count == count,
            c.expected == 10 * (count - 1),
            c.sent == 0,
            c.received == 0,
            counters_in_range(c),
    {
        BenchCounters { count, expected: 10 * (count - 1), sent: 0, received: 0 }
    }

    /// What to do next.
    pub fn next_action(&self) -> (a: BenchAction)
        ensures
            a == action_spec(*self),
    {
        if self.received >= self.expected && self.sent >= self.count {
            BenchAction::Done
        } else if self.received >= self.expected {
            BenchAction::Send
        } else if self.sent >= self.count {
            BenchAction::Receive
        } else {
            BenchAction::Race
        }
    }

    /// Counts a send that the last action started.
    pub fn record_send(&mut self)
        requires
            counters_in_range(*old(self)),
            action_spec(*old(self)) == BenchAction::Send || action_spec(*old(self))
                == BenchAction::Race,
        ensures
            counters_in_range(*final(self)),
            final(self).sent == old(self).sent + 1,
            final(self).received == old(self).received,
            final(self).count == old(self).count,
            final(self).expected == old(self).expected,
    {
        self.sent = self.sent + 1;
    }

    /// Counts a receive that the last action waited for. While only
    /// receiving, every wake-up counts; in a race, only a message that
    /// arrived intact does.
    pub fn record_receive(&mut self, intact: bool)
        requires
            counters_in_range(*old(self)),
            action_spec(*old(self)) == BenchAction::Receive || action_spec(*old(self))
                == BenchAction::Race,
        ensures
            counters_in_range(*final(self)),
            final(self).received == old(self).received + (if action_spec(*old(self))
                == BenchAction::Receive || intact {
                1int
            } else {
                0int
            }),
            final(self).sent == old(self).sent,
            final(self).count == old(self).count,
            final(self).expected == old(self).expected,
    {
        if self.sent >= self.count || intact {
            self.received = self.received + 1;
        }
    }
}

/// A client stops exactly when it has sent all its messages and received
/// all it expects; with counters in range that means it sent `count`
/// messages when `count` is not negative.
pub proof fn law_done_means_all_sent(c: BenchCounters)
    requires
        counters_in_range(c),
        c.count >= 0,
    ensures
        action_spec(c) == BenchAction::Done <==> (c.sent == c.count && (c.expected >= 0
            ==> c.received == c.expected)),
{
}

/// The pacing of a load-test client: while messages remain both to send
/// and to receive it races the two; it only waits for messages once it has
/// sent all of its own, only sends once it has received all it expects,
/// and stops when neither remains.
pub proof fn law_pacing(c: BenchCounters)
    ensures
        (c.sent < c.count && c.received < c.expected) ==> action_spec(c) == BenchAction::Race,
        action_spec(c) == BenchAction::Receive ==> c.sent >= c.count && c.received < c.expected,
        action_spec(c) == BenchAction::Send ==> c.received >= c.expected && c.sent < c.count,
        action_spec(c) == BenchAction::Done <==> (c.sent >= c.count && c.received
            >= c.expected),
        action_spec(c) == BenchAction::Race ==> c.sent < c.count && c.received < c.expected,
{
}

} // verus!
