use vstd::prelude::*;

verus! {

/// The contents after pushing `x` into a buffer of capacity `cap` that held
/// `items`, oldest first: once full, the oldest item makes room.
pub open spec fn pushed<T>(items: Seq<T>, cap: nat, x: T) -> Seq<T> {
    if items.len() < cap {
        items.push(x)
    } else {
        items.drop_first().push(x)
    }
}

/// The slots after pushing `x` into a buffer of capacity `cap` whose write
/// cursor is `cursor`: appended while there is room, else written over the
/// cursor's slot; every other slot keeps its transition.
pub open spec fn slots_pushed<T>(slots: Seq<T>, cap: nat, cursor: nat, x: T) -> Seq<T> {
    if slots.len() < cap {
        slots.push(x)
    } else {
        slots.update(cursor as int, x)
    }
}

/// The contents of an empty buffer of capacity `cap` after pushing `xs` in order.
pub open spec fn filled<T>(cap: nat, xs: Seq<T>) -> Seq<T>
    decreases xs.len(),
{
    if xs.len() == 0 {
        Seq::empty()
    } else {
        pushed(filled(cap, xs.drop_last()), cap, xs.last())
    }
}

/// The slots of an empty buffer of capacity `cap` after pushing `xs` in order;
/// the write cursor after `n` pushes is `n % cap`.
pub open spec fn filled_slots<T>(cap: nat, xs: Seq<T>) -> Seq<T>
    decreases xs.len(),
{
    if xs.len() == 0 {
        Seq::empty()
    } else {
        slots_pushed(filled_slots(cap, xs.drop_last()), cap, ((xs.len() - 1) as nat) % cap, xs.last())
    }
}

/// Number of transitions in a training batch, if the buffer holds enough.
pub open spec fn batch_count(len: nat, batch_size: usize) -> nat {
    if batch_size < len - 1 {
        batch_size as nat
    } else {
        (len - 1) as nat
    }
}

/// Fixed-capacity store of transitions. Pushes always succeed; once full,
/// each push overwrites the oldest transition.
pub struct ReplayMemory<T> {
    items: Vec<T>,
    max_dim: usize,
    len: usize,
    i: usize,
}

impl<T> ReplayMemory<T> {
    /// The stored transitions, oldest first.
    pub closed spec fn view(&self) -> Seq<T> {
        if self.len < self.max_dim {
            self.items@
        } else {
            self.items@.subrange(self.i as int, self.max_dim as int) + self.items@.subrange(0, self.i as int)
        }
    }

    /// The stored transitions in the order of their slots.
    pub closed spec fn slots(&self) -> Seq<T> {
        self.items@
    }

    pub closed spec fn capacity(&self) -> nat {
        self.max_dim as nat
    }

    /// The slot that the next push writes.
    pub closed spec fn cursor(&self) -> nat {
        self.i as nat
    }

    pub closed spec fn wf(&self) -> bool {
        &&& 0 < self.max_dim
        &&& self.items@.len() == self.len
        &&& self.len <= self.max_dim
        &&& self.i < self.max_dim
        &&& self.len < self.max_dim ==> self.i == self.len
    }

    /// An empty buffer of capacity `max_dim`.
    pub fn new(max_dim: usize) -> (r: ReplayMemory<T>)
        requires
            0 < max_dim,
        ensures
            r.wf(),
            r.view() == Seq::<T>::empty(),
            r.slots() == Seq::<T>::empty(),
            r.cursor() == 0,
            r.capacity() == max_dim,
    {
        ReplayMemory { items: Vec::new(), max_dim, len: 0, i: 0 }
    }

    pub fn len(&self) -> (r: usize)
        requires
            self.wf(),
        ensures
            r == self.view().len(),
    {
        self.len
    }

    pub fn max_dim(&self) -> (r: usize)
        ensures
            r == self.capacity(),
    {
        self.max_dim
    }

    /// Stores a transition at the write cursor and advances the cursor.
    pub fn push(&mut self, x: T)
        requires
            old(self).wf(),
        ensures
            final(self).wf(),
            final(self).capacity() == old(self).capacity(),
            final(self).view() == pushed(old(self).view(), old(self).capacity(), x),
            final(self).slots() == slots_pushed(old(self).slots(), old(self).capacity(), old(self).cursor(), x),
            final(self).cursor() == (old(self).cursor() + 1) % old(self).capacity(),
    {
        proof {
            lemma_next_cursor(self.i as nat, self.max_dim as nat);
        }
        let ghost before = self.view();
        let ghost c = self.max_dim as int;
        if self.len < self.max_dim {
            self.items.push(x);
            self.len = self.len + 1;
            self.i = if self.i + 1 == self.max_dim { 0 } else { self.i + 1 };
            assert(self.len == self.max_dim ==> self.items@.subrange(0, c) + self.items@.subrange(0, 0) =~= self.items@);
        } else {
            self.items.set(self.i, x);
            self.i = if self.i + 1 == self.max_dim { 0 } else { self.i + 1 };
            let ghost n = self.i as int;
            if self.i == 0 {
                assert(self.items@.subrange(0, c) + self.items@.subrange(0, 0) =~= before.drop_first().push(x));
            } else {
                assert(self.items@.subrange(n, c) + self.items@.subrange(0, n) =~= before.drop_first().push(x));
            }
        }
    }

    /// How the stored transitions, oldest first, lie in the slots: in slot
    /// order until the buffer is full; from then on starting at the cursor
    /// and wrapping around.
    pub proof fn lemma_view_of_slots(&self)
        requires
            self.wf(),
        ensures
            0 < self.capacity(),
            self.slots().len() <= self.capacity(),
            self.cursor() < self.capacity(),
            self.slots().len() < self.capacity() ==> self.cursor() == self.slots().len(),
            self.view() == (if self.slots().len() < self.capacity() {
                self.slots()
            } else {
                self.slots().subrange(self.cursor() as int, self.capacity() as int) + self.slots().subrange(
                    0,
                    self.cursor() as int,
                )
            }),
    {
    }

    /// The transition in slot `k`.
    pub fn get(&self, k: usize) -> (r: &T)
        requires
            self.wf(),
            k < self.view().len(),
        ensures
            *r == self.slots()[k as int],
    {
        &self.items[k]
    }

    /// How many slots a batch takes, and the bound below which they are drawn:
    /// nothing while fewer than three transitions are stored.
    pub fn sample_shape(&self, batch_size: usize) -> (r: Option<(usize, usize)>)
        requires
            self.wf(),
        ensures
            self.view().len() < 3 <==> r.is_none(),
            r matches Some((n, bound)) ==> n == batch_count(self.view().len(), batch_size) && bound
                == self.view().len() - 2,
    {
        if self.len < 3 {
            None
        } else {
            let n = if batch_size < self.len - 1 { batch_size } else { self.len - 1 };
            Some((n, self.len - 2))
        }
    }

    /// Picks the slots of a training batch from random draws: nothing while
    /// fewer than three transitions are stored; otherwise
    /// `min(batch_size, len - 1)` slots, the k-th being the k-th draw reduced
    /// below `len - 2`, so that the newest slots are never picked.
    pub fn random_batch(&self, batch_size: usize, draws: &Vec<usize>) -> (r: Option<Vec<usize>>)
        requires
            self.wf(),
            self.view().len() >= 3 ==> draws@.len() >= batch_count(self.view().len(), batch_size),
        ensures
            self.view().len() < 3 <==> r.is_none(),
            r matches Some(v) ==> {
                &&& v@.len() == batch_count(self.view().len(), batch_size)
                &&& forall|k: int|
                    0 <= k < v@.len() ==> #[trigger] v@[k] == draws@[k] % (self.view().len() - 2) as usize
                &&& forall|k: int| 0 <= k < v@.len() ==> #[trigger] v@[k] < self.view().len() - 2
            },
    {
        if self.len < 3 {
            return None;
        }
        let n = if batch_size < self.len - 1 { batch_size } else { self.len - 1 };
        let bound = self.len - 2;
        let mut v: Vec<usize> = Vec::new();
        let mut k: usize = 0;
        while k < n
            invariant
                n == batch_count(self.view().len(), batch_size),
                bound == self.view().len() - 2,
                bound > 0,
                n <= draws@.len(),
                k <= n,
                v@.len() == k,
                forall|m: int| 0 <= m < k ==> #[trigger] v@[m] == draws@[m] % bound,
                forall|m: int| 0 <= m < k ==> #[trigger] v@[m] < bound,
            decreases n - k,
        {
            v.push(draws[k] % bound);
            k += 1;
        }
        Some(v)
    }
}

proof fn lemma_next_cursor(i: nat, cap: nat)
    requires
        i < cap,
    ensures
        (i + 1) % cap == (if i + 1 == cap { 0 } else { i + 1 }),
{
    if i + 1 == cap {
        vstd::arithmetic::div_mod::lemma_mod_self_0(cap as int);
    } else {
        vstd::arithmetic::div_mod::lemma_small_mod((i + 1) as nat, cap);
    }
}

/// Pushing more items than the capacity leaves exactly the last `cap` of them,
/// oldest first: the length settles at the capacity and every further push
/// overwrites the oldest item. Fewer pushes keep them all.
pub proof fn lemma_fifo_overwrite<T>(cap: nat, xs: Seq<T>)
    requires
        0 < cap,
    ensures
        xs.len() >= cap ==> filled(cap, xs) == xs.subrange(xs.len() - cap, xs.len() as int),
        xs.len() < cap ==> filled(cap, xs) == xs,
    decreases xs.len(),
{
    if xs.len() > 0 {
        let init = xs.drop_last();
        lemma_fifo_overwrite(cap, init);
        if init.len() < cap {
            assert(init.push(xs.last()) =~= xs);
            if xs.len() == cap {
                assert(xs.subrange(0, xs.len() as int) =~= xs);
            }
        } else {
            let kept = init.subrange(init.len() - cap, init.len() as int);
            assert(kept.drop_first().push(xs.last()) =~= xs.subrange(xs.len() - cap, xs.len() as int));
        }
    } else {
        assert(filled(cap, xs) =~= xs);
    }
}

proof fn lemma_mod_distinct(m: int, p: int, cap: int)
    requires
        0 < cap,
        0 <= m < p,
        p - m < cap,
    ensures
        m % cap != p % cap,
{
    vstd::arithmetic::div_mod::lemma_fundamental_div_mod(m, cap);
    vstd::arithmetic::div_mod::lemma_fundamental_div_mod(p, cap);
    if m % cap == p % cap {
        let k = p / cap - m / cap;
        assert(p - m == cap * k) by (nonlinear_arith)
            requires
                m == cap * (m / cap) + m % cap,
                p == cap * (p / cap) + p % cap,
                m % cap == p % cap,
                k == p / cap - m / cap,
        ;
        assert(false) by (nonlinear_arith)
            requires
                p - m == cap * k,
                0 < p - m < cap,
                0 < cap,
        ;
    }
}

/// The cursor step of `push` keeps the cursor at the number of pushes so far,
/// reduced modulo the capacity: starting from `0`, after `n` pushes it is
/// `n % cap`.
pub proof fn lemma_cursor_step(n: nat, cap: nat)
    requires
        0 < cap,
    ensures
        (n % cap + 1) % cap == (n + 1) % cap,
{
    vstd::arithmetic::div_mod::lemma_add_mod_noop(n as int, 1, cap as int);
    if cap > 1 {
        vstd::arithmetic::div_mod::lemma_small_mod(1, cap);
    } else {
        assert((n % cap + 1) % cap == 0 && (n + 1) % cap == 0) by (nonlinear_arith)
            requires
                cap == 1,
        ;
    }
}

/// Once the buffer is full, pushes overwrite in strict ring order: after
/// pushing `xs` into an empty buffer of capacity `cap`, the last
/// `min(xs.len(), cap)` items are stored, the `m`-th of them in slot
/// `m % cap`.
pub proof fn lemma_slot_fifo<T>(cap: nat, xs: Seq<T>)
    requires
        0 < cap,
    ensures
        filled_slots(cap, xs).len() == (if xs.len() < cap { xs.len() } else { cap }),
        forall|m: int|
            xs.len() - filled_slots(cap, xs).len() <= m < xs.len() ==> #[trigger] filled_slots(cap, xs)[m
                % (cap as int)] == xs[m],
    decreases xs.len(),
{
    if xs.len() > 0 {
        let prev = xs.drop_last();
        lemma_slot_fifo(cap, prev);
        let ps = filled_slots(cap, prev);
        let p = prev.len() as int;
        let c = cap as int;
        let now = filled_slots(cap, xs);
        if ps.len() < cap {
            assert forall|m: int| 0 <= m < xs.len() implies #[trigger] now[m % c] == xs[m] by {
                vstd::arithmetic::div_mod::lemma_small_mod(m as nat, cap);
                if m < p {
                    assert(ps[m % c] == prev[m]);
                }
            }
        } else {
            vstd::arithmetic::div_mod::lemma_fundamental_div_mod(p, c);
            assert forall|m: int| xs.len() - c <= m < xs.len() implies #[trigger] now[m % c] == xs[m] by {
                vstd::arithmetic::div_mod::lemma_fundamental_div_mod(m, c);
                if m < p {
                    lemma_mod_distinct(m, p, c);
                    assert(ps[m % c] == prev[m]);
                }
            }
        }
    }
}

} // verus!
