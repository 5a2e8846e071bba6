use vstd::prelude::*;

verus! {

/// Minimum time between two activations, in milliseconds.
pub const DEBOUNCE_MS: u64 = 250;

/// A polled button that reports at most one activation per press: a press
/// activates when the button was released and the last activation is at
/// least `DEBOUNCE_MS` old; a release is taken at once.
#[derive(Clone, Copy, Debug, PartialEq, Eq, Structural)]
pub struct Debouncer {
    pub last_activation_ms: u64,
    pub held: bool,
}

/// The state after one poll that reads the line (`low` when pressed) at time
/// `now`, and whether the poll activates.
pub open spec fn poll_spec(s: Debouncer, low: bool, now: u64) -> (Debouncer, bool) {
    if low {
        if !s.held && now >= s.last_activation_ms + DEBOUNCE_MS {
            (Debouncer { last_activation_ms: now, held: true }, true)
        } else {
            (s, false)
        }
    } else {
        (Debouncer { held: false, ..s }, false)
    }
}

/// Number of activations that a sequence of polls (line level, time) reports.
pub open spec fn activations(s: Debouncer, polls: Seq<(bool, u64)>) -> nat
    decreases polls.len(),
{
    if polls.len() == 0 {
        0
    } else {
        let (next, fired) = poll_spec(s, polls[0].0, polls[0].1);
        (if fired { 1nat } else { 0nat }) + activations(next, polls.drop_first())
    }
}

impl Debouncer {
    pub open spec fn new_spec(now_ms: u64) -> Debouncer {
        Debouncer { last_activation_ms: now_ms, held: false }
    }

    /// A released button whose debounce window starts at `now_ms`.
    pub fn new(now_ms: u64) -> (d: Debouncer)
        ensures
            d == Debouncer::new_spec(now_ms),
    {
        Debouncer { last_activation_ms: now_ms, held: false }
    }

    /// Reads the line once (`low` when pressed) at time `now_ms`; true when
    /// this poll is an activation.
    pub fn poll(&mut self, low: bool, now_ms: u64) -> (fired: bool)
        ensures
            (*final(self), fired) == poll_spec(*old(self), low, now_ms),
    {
        if low {
            if !self.held && now_ms >= self.last_activation_ms && now_ms - self.last_activation_ms
                >= DEBOUNCE_MS {
                self.last_activation_ms = now_ms;
                self.held = true;
                true
            } else {
                false
            }
        } else {
            self.held = false;
            false
        }
    }
}

/// No poll within the debounce window of the last activation activates,
/// however the line bounces.
pub proof fn lemma_bounce_suppressed(s: Debouncer, polls: Seq<(bool, u64)>)
    requires
        forall|i: int| 0 <= i < polls.len() ==> polls[i].1 < s.last_activation_ms + DEBOUNCE_MS,
    ensures
        activations(s, polls) == 0,
    decreases polls.len(),
{
    if polls.len() > 0 {
        let (next, fired) = poll_spec(s, polls[0].0, polls[0].1);
        assert(!fired);
        assert(next.last_activation_ms == s.last_activation_ms);
        assert forall|i: int| 0 <= i < polls.drop_first().len() implies polls.drop_first()[i].1
            < next.last_activation_ms + DEBOUNCE_MS by {
            assert(polls.drop_first()[i] == polls[i + 1]);
        }
        lemma_bounce_suppressed(next, polls.drop_first());
    }
}

/// While a held button stays pressed, no poll activates.
pub proof fn lemma_held_no_repeat(s: Debouncer, polls: Seq<(bool, u64)>)
    requires
        s.held,
        forall|i: int| 0 <= i < polls.len() ==> polls[i].0,
    ensures
        activations(s, polls) == 0,
    decreases polls.len(),
{
    if polls.len() > 0 {
        assert(polls[0].0);
        assert forall|i: int| 0 <= i < polls.drop_first().len() implies polls.drop_first()[i].0 by {
            assert(polls.drop_first()[i] == polls[i + 1]);
        }
        lemma_held_no_repeat(s, polls.drop_first());
    }
}

/// A press of a released button that lasts until some poll past the debounce
/// window activates exactly once.
pub proof fn lemma_press_activates_once(s: Debouncer, polls: Seq<(bool, u64)>, t: int)
    requires
        !s.held,
        0 <= t < polls.len(),
        polls[t].1 >= s.last_activation_ms + DEBOUNCE_MS,
        forall|i: int| 0 <= i < polls.len() ==> polls[i].0,
    ensures
        activations(s, polls) == 1,
    decreases polls.len(),
{
    let (next, fired) = poll_spec(s, polls[0].0, polls[0].1);
    assert(polls[0].0);
    assert forall|i: int| 0 <= i < polls.drop_first().len() implies polls.drop_first()[i].0 by {
        assert(polls.drop_first()[i] == polls[i + 1]);
    }
    if fired {
        lemma_held_no_repeat(next, polls.drop_first());
    } else {
        assert(t > 0);
        assert(polls.drop_first()[t - 1] == polls[t]);
        lemma_press_activates_once(next, polls.drop_first(), t - 1);
    }
}

} // verus!
