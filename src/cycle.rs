use vstd::prelude::*;

verus! {

/// Position in a table of `len` images; each activation moves to the next one
/// and wraps after the last.
pub struct ImageCycle {
    index: usize,
    len: usize,
}

/// The position after `k` steps from `i` in a table of `n` entries.
pub open spec fn steps(i: nat, n: nat, k: nat) -> nat
    decreases k,
{
    if k == 0 {
        i
    } else {
        ((steps(i, n, (k - 1) as nat) + 1) as int % (n as int)) as nat
    }
}

impl ImageCycle {
    pub closed spec fn index_spec(self) -> nat {
        self.index as nat
    }

    pub closed spec fn len_spec(self) -> nat {
        self.len as nat
    }

    /// The position lies in the table, which is not empty.
    pub open spec fn wf(self) -> bool {
        self.index_spec() < self.len_spec()
    }

    /// The first image of a table of `len` images.
    pub fn new(len: usize) -> (c: ImageCycle)
        requires
            len > 0,
        ensures
            c.wf(),
            c.index_spec() < c.len_spec(),
            c.index_spec() == 0,
            c.len_spec() == len,
    {
        ImageCycle { index: 0, len }
    }

    pub fn index(&self) -> (i: usize)
        ensures
            i == self.index_spec(),
            self.wf() ==> i < self.len_spec(),
    {
        self.index
    }

    pub fn len(&self) -> (n: usize)
        ensures
            n == self.len_spec(),
    {
        self.len
    }

    /// Moves to the next image, wrapping after the last, and returns its index.
    pub fn advance(&mut self) -> (i: usize)
        requires
            old(self).wf(),
        ensures
            final(self).wf(),
            final(self).index_spec() < final(self).len_spec(),
            final(self).len_spec() == old(self).len_spec(),
            final(self).index_spec() == (old(self).index_spec() + 1) as int % (old(self).len_spec() as int),
            final(self).index_spec() == steps(old(self).index_spec(), old(self).len_spec(), 1),
            i == final(self).index_spec(),
    {
        proof {
            assert(steps(self.index as nat, self.len as nat, 1) == ((steps(self.index as nat, self.len as nat, 0) + 1) as int % (self.len as int)) as nat);
            if self.index + 1 == self.len {
                vstd::arithmetic::div_mod::lemma_mod_self_0(self.len as int);
            } else {
                vstd::arithmetic::div_mod::lemma_small_mod((self.index + 1) as nat, self.len as nat);
            }
        }
        self.index = if self.index + 1 == self.len { 0 } else { self.index + 1 };
        self.index
    }
}

/// After `k` steps the position is `(i + k) mod n`, which lies in the table.
pub proof fn lemma_steps_mod(i: nat, n: nat, k: nat)
    requires
        i < n,
    ensures
        steps(i, n, k) == (i + k) as int % (n as int),
        steps(i, n, k) < n,
    decreases k,
{
    if k > 0 {
        lemma_steps_mod(i, n, (k - 1) as nat);
        vstd::arithmetic::div_mod::lemma_add_mod_noop((i + k - 1) as int, 1, n as int);
        if n > 1 {
            vstd::arithmetic::div_mod::lemma_small_mod(1, n);
        }
        vstd::arithmetic::div_mod::lemma_mod_bound((i + k) as int, n as int);
    } else {
        vstd::arithmetic::div_mod::lemma_small_mod(i, n);
    }
}

/// One more step after `k` steps is `k + 1` steps: a caller that advances
/// once per activation is at `steps(i, n, k)` after `k` activations.
pub proof fn lemma_steps_succ(i: nat, n: nat, k: nat)
    ensures
        steps(i, n, k + 1) == steps(steps(i, n, k), n, 1),
{
    assert(steps(steps(i, n, k), n, 1) == ((steps(steps(i, n, k), n, 0) + 1) as int % (n as int)) as nat);
}

/// Every position reached lies in the table, and `n` steps through a table of
/// `n` entries come back to the start.
pub proof fn lemma_cycle_wraps(i: nat, n: nat)
    requires
        i < n,
    ensures
        forall|k: nat| #[trigger] steps(i, n, k) < n,
        steps(i, n, n) == i,
{
    assert forall|k: nat| #[trigger] steps(i, n, k) < n by {
        lemma_steps_mod(i, n, k);
    }
    lemma_steps_mod(i, n, n);
    vstd::arithmetic::div_mod::lemma_mod_add_multiples_vanish(i as int, n as int);
    vstd::arithmetic::div_mod::lemma_small_mod(i, n);
}

} // verus!
