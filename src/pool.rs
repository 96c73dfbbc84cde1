use vstd::prelude::*;

verus! {

/// What an allocator holds, seen abstractly: every id below `high` has been
/// handed out at some point, and `free` lists the ids given back, the most
/// recently freed last.
pub struct IdPool {
    pub high: nat,
    pub free: Seq<nat>,
}

impl IdPool {
    /// The pool of a fresh allocator.
    pub open spec fn empty() -> IdPool {
        IdPool { high: 0, free: Seq::empty() }
    }

    /// Freed ids are distinct and below the high-water mark.
    pub open spec fn valid(self) -> bool {
        &&& self.free.no_duplicates()
        &&& forall|i: int| 0 <= i < self.free.len() ==> #[trigger] self.free[i] < self.high
    }

    /// The id is currently held by a caller.
    pub open spec fn is_live(self, id: nat) -> bool {
        id < self.high && !self.free.contains(id)
    }

    /// An id can still be handed out when one was freed, or when the next
    /// fresh id is below `limit` (the sentinel of the id type).
    pub open spec fn can_allocate(self, limit: nat) -> bool {
        self.free.len() > 0 || self.high < limit
    }

    /// The id that the next allocation hands out.
    pub open spec fn next_id(self) -> nat {
        if self.free.len() > 0 {
            self.free.last()
        } else {
            self.high
        }
    }

    /// The pool after an allocation.
    pub open spec fn after_next(self) -> IdPool {
        if self.free.len() > 0 {
            IdPool { high: self.high, free: self.free.drop_last() }
        } else {
            IdPool { high: self.high + 1, free: self.free }
        }
    }

    /// Whether freeing `id` is accepted: only a live id can be freed.
    pub open spec fn accepts_free(self, id: nat) -> bool {
        self.is_live(id)
    }

    /// The pool after freeing `id`; a refused free changes nothing.
    pub open spec fn after_free(self, id: nat) -> IdPool {
        if self.accepts_free(id) {
            IdPool { high: self.high, free: self.free.push(id) }
        } else {
            self
        }
    }

    /// The pool after `n` allocations in a row.
    pub open spec fn after_next_n(self, n: nat) -> IdPool
        decreases n,
    {
        if n == 0 {
            self
        } else {
            self.after_next().after_next_n((n - 1) as nat)
        }
    }

    /// The ids handed out by `n` allocations in a row, in order.
    pub open spec fn next_ids(self, n: nat) -> Seq<nat>
        decreases n,
    {
        if n == 0 {
            Seq::empty()
        } else {
            seq![self.next_id()] + self.after_next().next_ids((n - 1) as nat)
        }
    }
}

/// With nothing freed, `n` allocations in a row hand out the next `n` fresh
/// ids in increasing order and raise the high-water mark by `n`.
pub proof fn lemma_fresh_ids_in_order(p: IdPool, n: nat)
    requires
        p.free.len() == 0,
    ensures
        p.next_ids(n) == Seq::new(n, |i: int| (p.high + i) as nat),
        p.after_next_n(n) == (IdPool { high: p.high + n, free: p.free }),
    decreases n,
{
    if n > 0 {
        let q = p.after_next();
        lemma_fresh_ids_in_order(q, (n - 1) as nat);
        assert(p.next_ids(n) =~= Seq::new(n, |i: int| (p.high + i) as nat));
    }
}

/// A fresh allocator hands out `0, 1, ..., n - 1` for its first `n`
/// allocations, and its high-water mark is then `n`.
pub proof fn lemma_fresh_allocator_counts_up(n: nat)
    ensures
        IdPool::empty().next_ids(n) == Seq::new(n, |i: int| i as nat),
        IdPool::empty().after_next_n(n).high == n,
{
    lemma_fresh_ids_in_order(IdPool::empty(), n);
    assert(IdPool::empty().next_ids(n) =~= Seq::new(n, |i: int| i as nat));
}

/// Freeing a live id and allocating right after hands the same id back, and
/// leaves the pool as it was.
pub proof fn lemma_free_then_next_reuses(p: IdPool, k: nat)
    requires
        p.is_live(k),
    ensures
        p.accepts_free(k),
        p.after_free(k).next_id() == k,
        p.after_free(k).after_next() == p,
{
    assert(p.after_free(k).free.drop_last() =~= p.free);
}

/// Freeing `a` and then `b` makes the next two allocations hand out `b` and
/// then `a`: the most recently freed id is reused first.
pub proof fn lemma_reuse_is_last_in_first_out(p: IdPool, a: nat, b: nat)
    requires
        p.is_live(a),
        p.is_live(b),
        a != b,
    ensures
        p.accepts_free(a),
        p.after_free(a).accepts_free(b),
        p.after_free(a).after_free(b).next_id() == b,
        p.after_free(a).after_free(b).after_next().next_id() == a,
{
    let q = p.after_free(a);
    assert(q.free.contains(b) ==> p.free.contains(b)) by {
        if q.free.contains(b) {
            let i = choose|i: int| 0 <= i < q.free.len() && q.free[i] == b;
            if i < p.free.len() {
                assert(p.free[i] == b);
            }
        }
    }
    assert(q.after_free(b).free.drop_last() =~= q.free);
}

/// A second free of the same id is refused and changes nothing: the id comes
/// back once from the next allocation, and the one after hands out another.
pub proof fn lemma_double_free_refused(p: IdPool, k: nat)
    requires
        p.is_live(k),
    ensures
        p.accepts_free(k),
        !p.after_free(k).accepts_free(k),
        p.after_free(k).after_free(k) == p.after_free(k),
        p.after_free(k).after_free(k).next_id() == k,
        p.after_free(k).after_free(k).after_next().next_id() != k,
{
    let q = p.after_free(k);
    assert(q.free.last() == k);
    assert(q.free.contains(k));
    lemma_free_then_next_reuses(p, k);
    if p.free.len() > 0 {
        assert(p.free.contains(p.free.last()));
    }
}

/// Freeing an id at or above the high-water mark is refused and changes
/// nothing.
pub proof fn lemma_free_out_of_range_refused(p: IdPool, id: nat)
    requires
        id >= p.high,
    ensures
        !p.accepts_free(id),
        p.after_free(id) == p,
{
}

/// With ids below `limit`, a fresh allocator can allocate `limit` times in a
/// row, and not once more.
pub proof fn lemma_exhaustion(limit: nat)
    ensures
        forall|n: nat| n < limit ==> #[trigger] IdPool::empty().after_next_n(n).can_allocate(limit),
        !IdPool::empty().after_next_n(limit).can_allocate(limit),
{
    assert forall|n: nat| n < limit implies #[trigger] IdPool::empty().after_next_n(n).can_allocate(limit) by {
        lemma_fresh_ids_in_order(IdPool::empty(), n);
    }
    lemma_fresh_ids_in_order(IdPool::empty(), limit);
}

} // verus!
