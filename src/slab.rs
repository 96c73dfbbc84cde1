use vstd::prelude::*;

use crate::id::Id;
use crate::pool::IdPool;

verus! {

/// One slot of the table: either on the free chain, holding the next link
/// (the last freed slot links to the table's length), or held by a caller.
#[derive(Clone, Copy)]
enum Slot<I> {
    Vacant { link: I },
    Occupied,
}

/// A slab allocator of ids: it hands out the most recently freed id first,
/// and a fresh one, one above the highest so far, when none is free.
///
/// The freed ids form a singly linked chain threaded through the table
/// itself, starting at the cursor `next`.
pub struct Slab<I: Id> {
    data: Vec<Slot<I>>,
    next: I,
    free_ids: Ghost<Seq<nat>>,
}

impl<I: Id> View for Slab<I> {
    type V = IdPool;

    /// The table's length is the high-water mark; the free chain, read from
    /// its far end to the cursor, is the list of freed ids.
    closed spec fn view(&self) -> IdPool {
        IdPool { high: self.data@.len(), free: self.free_ids@ }
    }
}

impl<I: Id> Slab<I> {
    /// The table and the cursor agree with the pool: exactly the freed slots
    /// are vacant, each links to the one freed before it, and the cursor
    /// names the id the next allocation hands out.
    pub closed spec fn wf(&self) -> bool {
        let n = self.data@.len();
        let s = self.free_ids@;
        &&& n <= I::none_index()
        &&& self@.valid()
        &&& forall|k: int| 0 <= k < n ==> (#[trigger] self.data@[k] is Vacant <==> s.contains(k as nat))
        &&& forall|i: int|
            0 <= i < s.len() ==> {
                &&& #[trigger] self.data@[s[i] as int] is Vacant
                &&& self.data@[s[i] as int]->link.index() == if i == 0 {
                    n
                } else {
                    s[i - 1]
                }
            }
        &&& self.next.index() == self@.next_id()
    }

    /// An empty allocator.
    pub fn new() -> (r: Self)
        ensures
            r.wf(),
            r@ == IdPool::empty(),
    {
        Slab { data: Vec::new(), next: I::initial(), free_ids: Ghost(Seq::empty()) }
    }

    /// Allocates an id: the most recently freed one, or else a fresh one.
    /// The sentinel is never handed out.
    pub fn next(&mut self) -> (r: I)
        requires
            old(self).wf(),
            old(self)@.can_allocate(I::none_index()),
        ensures
            final(self).wf(),
            r.index() == old(self)@.next_id(),
            final(self)@ == old(self)@.after_next(),
            r.index() < I::none_index(),
    {
        let ghost d = self.data@;
        let ghost s = self.free_ids@;
        let index = self.next;
        if self.next.is_below(self.data.len()) {
            let k = self.next.as_usize();
            if let Slot::Vacant { link } = self.data[k] {
                self.data.set(k, Slot::Occupied);
                self.next = link;
            }
            self.free_ids = Ghost(self.free_ids@.drop_last());
            proof {
                let t = s.last();
                let s2 = self.free_ids@;
                assert(s.len() > 0);
                assert forall|i: int| 0 <= i < s2.len() implies #[trigger] s2[i] != t by {
                    assert(s[i] == s2[i]);
                    assert(s[s.len() - 1] == t);
                }
                assert forall|j: int| 0 <= j < d.len() implies (#[trigger] self.data@[j] is Vacant
                    <==> s2.contains(j as nat)) by {
                    if j != t {
                        if s.contains(j as nat) {
                            let i = choose|i: int| 0 <= i < s.len() && s[i] == j as nat;
                            assert(i != s.len() - 1);
                            assert(s2[i] == j as nat);
                        }
                        if s2.contains(j as nat) {
                            let i = choose|i: int| 0 <= i < s2.len() && s2[i] == j as nat;
                            assert(s[i] == j as nat);
                        }
                    } else {
                        if s2.contains(j as nat) {
                            let i = choose|i: int| 0 <= i < s2.len() && s2[i] == j as nat;
                        }
                    }
                }
                assert forall|i: int| 0 <= i < s2.len() implies #[trigger] self.data@[s2[i] as int] is Vacant
                    && self.data@[s2[i] as int]->link.index() == if i == 0 {
                    d.len() as nat
                } else {
                    s2[i - 1]
                } by {
                    assert(s[i] == s2[i]);
                }
                assert(self@.valid());
            }
        } else {
            self.data.push(Slot::Occupied);
            self.next = self.next.increment();
        }
        index
    }

    /// Allocates an id as `next` does, or returns `None` when the id type's
    /// range is used up: nothing is free and the next fresh id would be the
    /// sentinel.
    pub fn try_next(&mut self) -> (r: Option<I>)
        requires
            old(self).wf(),
        ensures
            final(self).wf(),
            r is None <==> !old(self)@.can_allocate(I::none_index()),
            r is Some ==> r->0.index() == old(self)@.next_id() && final(self)@
                == old(self)@.after_next(),
            r is None ==> final(self)@ == old(self)@,
    {
        if self.next.is_below(self.data.len()) || !self.next.is_none() {
            Some(self.next())
        } else {
            None
        }
    }

    /// Gives `index` back for reuse. Returns false, and changes nothing, when
    /// `index` is not held by a caller: never handed out, or already free.
    pub fn free(&mut self, index: I) -> (r: bool)
        requires
            old(self).wf(),
        ensures
            final(self).wf(),
            r == old(self)@.accepts_free(index.index()),
            final(self)@ == old(self)@.after_free(index.index()),
    {
        if !index.is_below(self.data.len()) {
            return false;
        }
        let k = index.as_usize();
        match self.data[k] {
            Slot::Vacant { .. } => false,
            Slot::Occupied => {
                let ghost d = self.data@;
                self.data.set(k, Slot::Vacant { link: self.next });
                self.next = index;
                let ghost s = self.free_ids@;
                self.free_ids = Ghost(self.free_ids@.push(k as nat));
                proof {
                    let s2 = self.free_ids@;
                    assert(!s.contains(k as nat));
                    assert forall|j: int| 0 <= j < self.data@.len() implies (
                    #[trigger] self.data@[j] is Vacant <==> s2.contains(j as nat)) by {
                        if j != k {
                            assert(self.data@[j] == d[j]);
                        } else {
                            assert(s2[s.len() as int] == k as nat);
                        }
                        if s2.contains(j as nat) && j != k {
                            let i = choose|i: int| 0 <= i < s2.len() && s2[i] == j as nat;
                            assert(s[i] == j as nat);
                        }
                        if s.contains(j as nat) {
                            let i = choose|i: int| 0 <= i < s.len() && s[i] == j as nat;
                            assert(s2[i] == j as nat);
                        }
                    }
                    assert forall|i: int| 0 <= i < s2.len() implies #[trigger] self.data@[s2[i] as int] is Vacant
                        && self.data@[s2[i] as int]->link.index() == if i == 0 {
                        self.data@.len() as nat
                    } else {
                        s2[i - 1]
                    } by {
                        if i < s.len() {
                            assert(s[i] == s2[i]);
                            assert(s.contains(s[i]));
                        }
                    }
                    assert forall|a: int, b: int| 0 <= a < s2.len() && 0 <= b < s2.len() && a != b
                        implies s2[a] != s2[b] by {
                        if a < s.len() {
                            assert(s.contains(s[a]));
                        }
                        if b < s.len() {
                            assert(s.contains(s[b]));
                        }
                    }
                    assert(self@.valid());
                }
                true
            },
        }
    }
}

impl<I: Id> Default for Slab<I> {
    fn default() -> (r: Self)
        ensures
            r.wf(),
            r@ == IdPool::empty(),
    {
        Self::new()
    }
}

} // verus!
