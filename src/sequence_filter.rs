use vstd::prelude::*;

verus! {

/// True when `pending` is at or behind `event` on the wrapping sequence
/// counter: equal to it, or more than half the counter's range ahead of it,
/// which on a wrapping counter means it has already been passed.
pub open spec fn at_or_behind(pending: u64, event: u64) -> bool {
    pending == event || (pending - event) % 0x1_0000_0000_0000_0000int > 0x8000_0000_0000_0000int
}

/// What stays outstanding after an event carrying `event` has been seen:
/// every entry that lies strictly ahead of it, in the order of registration.
pub open spec fn survivors(pending: Seq<u64>, event: u64) -> Seq<u64> {
    pending.filter(|p: u64| !at_or_behind(p, event))
}

/// Whether an event carrying `event` is the echo of a request of our own.
pub open spec fn suppresses(pending: Seq<u64>, event: u64) -> bool {
    pending.contains(event)
}

/// What stays outstanding after a run of events, each with its sequence number.
pub open spec fn survivors_after(pending: Seq<u64>, events: Seq<u64>) -> Seq<u64>
    decreases events.len(),
{
    if events.len() == 0 {
        pending
    } else {
        survivors(survivors_after(pending, events.drop_last()), events.last())
    }
}

/// Executable form of `at_or_behind`.
pub fn is_at_or_behind(pending: u64, event: u64) -> (r: bool)
    ensures
        r == at_or_behind(pending, event),
{
    pending == event || pending.wrapping_sub(event) > 0x8000_0000_0000_0000u64
}

/// The sequence numbers of requests of our own whose echo events must be
/// ignored, in the order in which they were registered.
pub struct SequenceFilter {
    pending: Vec<u64>,
}

impl View for SequenceFilter {
    type V = Seq<u64>;

    closed spec fn view(&self) -> Seq<u64> {
        self.pending@
    }
}

impl SequenceFilter {
    pub fn new() -> (r: SequenceFilter)
        ensures
            r@ == Seq::<u64>::empty(),
    {
        SequenceFilter { pending: Vec::new() }
    }

    /// Records that the event which `sequence` will produce must be ignored.
    pub fn expect_suppression(&mut self, sequence: u64)
        ensures
            final(self)@ == old(self)@.push(sequence),
    {
        self.pending.push(sequence);
    }

    /// Tells whether an event must be ignored, and discards every entry that
    /// the event has reached or passed. An event without a sequence number
    /// is never ignored and changes nothing.
    pub fn should_suppress(&mut self, sequence: Option<u64>) -> (r: bool)
        ensures
            match sequence {
                None => !r && final(self)@ == old(self)@,
                Some(s) => r == suppresses(old(self)@, s) && final(self)@ == survivors(old(self)@, s),
            },
    {
        match sequence {
            None => false,
            Some(s) => {
                let mut kept: Vec<u64> = Vec::new();
                let mut found = false;
                let n = self.pending.len();
                let mut i: usize = 0;
                while i < n
                    invariant
                        n == self.pending@.len(),
                        self.pending@ == old(self)@,
                        0 <= i <= n,
                        kept@ == survivors(self.pending@.subrange(0, i as int), s),
                        found == self.pending@.subrange(0, i as int).contains(s),
                    decreases n - i,
                {
                    let p = self.pending[i];
                    let passed = is_at_or_behind(p, s);
                    proof {
                        let pre = self.pending@.subrange(0, i as int);
                        let next = self.pending@.subrange(0, i as int + 1);
                        assert(next.drop_last() =~= pre);
                        assert(next.last() == p);
                        reveal_with_fuel(Seq::filter, 1);
                        assert(survivors(next, s) == if !at_or_behind(p, s) {
                            survivors(pre, s).push(p)
                        } else {
                            survivors(pre, s)
                        });
                        if next.contains(s) && !pre.contains(s) {
                            let j = choose|j: int| 0 <= j < next.len() && next[j] == s;
                            assert(j == i);
                        }
                        if pre.contains(s) {
                            let j = choose|j: int| 0 <= j < pre.len() && pre[j] == s;
                            assert(next[j] == s);
                        }
                        if p == s {
                            assert(next[i as int] == s);
                        }
                    }
                    if !passed {
                        kept.push(p);
                    }
                    if p == s {
                        found = true;
                    }
                    i = i + 1;
                }
                proof {
                    assert(self.pending@.subrange(0, n as int) =~= self.pending@);
                }
                self.pending = kept;
                found
            },
        }
    }
}

/// An entry that no intervening event reaches or passes stays outstanding.
proof fn lemma_entry_survives(pending: Seq<u64>, n: u64, events: Seq<u64>)
    requires
        pending.contains(n),
        forall|i: int| 0 <= i < events.len() ==> !at_or_behind(n, #[trigger] events[i]),
    ensures
        survivors_after(pending, events).contains(n),
    decreases events.len(),
{
    broadcast use vstd::seq_lib::group_filter_ensures;

    if events.len() > 0 {
        let rest = events.drop_last();
        assert forall|i: int| 0 <= i < rest.len() implies !at_or_behind(n, #[trigger] rest[i]) by {
            assert(rest[i] == events[i]);
        }
        lemma_entry_survives(pending, n, rest);
        let prev = survivors_after(pending, rest);
        let j = choose|j: int| 0 <= j < prev.len() && prev[j] == n;
        assert(!at_or_behind(n, events[events.len() - 1]));
        prev.lemma_filter_contains(|p: u64| !at_or_behind(p, events.last()), j);
    }
}

/// Once the sequence number `n` of a request of our own is registered, the
/// event that carries `n` is ignored, provided no event in between has
/// reached or passed `n`.
pub proof fn lemma_registered_echo_is_suppressed(pending: Seq<u64>, n: u64, between: Seq<u64>)
    requires
        forall|i: int| 0 <= i < between.len() ==> !at_or_behind(n, #[trigger] between[i]),
    ensures
        suppresses(survivors_after(pending.push(n), between), n),
{
    assert(pending.push(n)[pending.len() as int] == n);
    lemma_entry_survives(pending.push(n), n, between);
}

/// Registering `n` never makes an event with another sequence number ignored.
pub proof fn lemma_other_sequence_not_suppressed(pending: Seq<u64>, n: u64, e: u64)
    requires
        e != n,
    ensures
        suppresses(pending.push(n), e) == suppresses(pending, e),
{
    let pushed = pending.push(n);
    if suppresses(pushed, e) {
        let j = choose|j: int| 0 <= j < pushed.len() && pushed[j] == e;
        assert(j < pending.len());
        assert(pending[j] == e);
    }
    if suppresses(pending, e) {
        let j = choose|j: int| 0 <= j < pending.len() && pending[j] == e;
        assert(pushed[j] == e);
    }
}

/// A stale entry cleans itself up: an event that has passed `n` without
/// being its echo discards `n`, is ignored only when it was registered
/// itself, and leaves every entry that lies ahead of it in place.
pub proof fn lemma_stale_entry_is_discarded(pending: Seq<u64>, n: u64, e: u64)
    requires
        at_or_behind(n, e),
        n != e,
    ensures
        !survivors(pending, e).contains(n),
        suppresses(pending, e) == pending.contains(e),
        forall|p: u64| #[trigger] pending.contains(p) && !at_or_behind(p, e)
            ==> survivors(pending, e).contains(p),
{
    broadcast use vstd::seq_lib::group_filter_ensures;

    let kept = survivors(pending, e);
    if kept.contains(n) {
        let j = choose|j: int| 0 <= j < kept.len() && kept[j] == n;
        pending.lemma_filter_pred(|p: u64| !at_or_behind(p, e), j);
    }
    assert forall|p: u64| #[trigger] pending.contains(p) && !at_or_behind(p, e)
        implies kept.contains(p) by {
        let j = choose|j: int| 0 <= j < pending.len() && pending[j] == p;
        pending.lemma_filter_contains(|q: u64| !at_or_behind(q, e), j);
    }
}

} // verus!
