//! The tapestry: the store that owns every thread and allocates identities.
//!
//! Threads are kept in the order in which they were first added. Where two
//! threads answer one query (the same identity, or the same position), the
//! one added first is the one found.

use crate::foundation::Position;
use crate::threads::{Thread, ThreadId};
use vstd::prelude::*;

verus! {

/// Owns every thread of a world, and the counter that identities come from.
/// Lookups scan the threads in order, so they take time linear in their
/// number.
pub struct Tapestry<S> {
    threads: Vec<Thread<S>>,
    next_id: u64,
}

/// Index of the first thread of `s` with identity `id`.
pub open spec fn first_with_id<S>(s: Seq<Thread<S>>, id: ThreadId, i: int) -> bool {
    &&& 0 <= i < s.len()
    &&& s[i].id == id
    &&& forall|j: int| 0 <= j < i ==> s[j].id != id
}

pub open spec fn holds_id<S>(s: Seq<Thread<S>>, id: ThreadId) -> bool {
    exists|i: int| 0 <= i < s.len() && s[i].id == id
}

/// Index of the first thread of `s` that stands at `pos`.
pub open spec fn first_at<S>(s: Seq<Thread<S>>, pos: Position, i: int) -> bool {
    &&& 0 <= i < s.len()
    &&& s[i].position == Some(pos)
    &&& forall|j: int| 0 <= j < i ==> s[j].position != Some(pos)
}

pub open spec fn holds_position<S>(s: Seq<Thread<S>>, pos: Position) -> bool {
    exists|i: int| 0 <= i < s.len() && s[i].position == Some(pos)
}

/// The sequence of threads after `t` is added: it replaces the first thread
/// with its identity, or else comes last.
pub open spec fn with_thread<S>(s: Seq<Thread<S>>, t: Thread<S>) -> Seq<Thread<S>> {
    if holds_id(s, t.id) {
        s.update(choose|i: int| first_with_id(s, t.id, i), t)
    } else {
        s.push(t)
    }
}

/// `id` is what an allocation on `before` returns, and `after` is the store
/// it leaves.
pub open spec fn allocates<S>(before: Tapestry<S>, id: ThreadId, after: Tapestry<S>) -> bool {
    &&& id.0 == before.next_raw_id()
    &&& after.next_raw_id() == before.next_raw_id() + 1
    &&& after.threads() == before.threads()
}

impl<S> Tapestry<S> {
    /// The threads, in the order in which they were first added.
    pub closed spec fn threads(&self) -> Seq<Thread<S>> {
        self.threads@
    }

    /// The identity that the next allocation returns.
    pub closed spec fn next_raw_id(&self) -> u64 {
        self.next_id
    }

    /// The thread found for `id`, if any.
    pub open spec fn lookup(&self, id: ThreadId) -> Option<Thread<S>> {
        if holds_id(self.threads(), id) {
            Some(self.threads()[choose|i: int| first_with_id(self.threads(), id, i)])
        } else {
            None
        }
    }

    /// The thread found at `pos`, if any.
    pub open spec fn lookup_at(&self, pos: Position) -> Option<Thread<S>> {
        if holds_position(self.threads(), pos) {
            Some(self.threads()[choose|i: int| first_at(self.threads(), pos, i)])
        } else {
            None
        }
    }

    /// An empty store whose first identity is 1.
    pub fn new() -> (r: Self)
        ensures
            r.threads() == Seq::<Thread<S>>::empty(),
            r.next_raw_id() == 1,
    {
        Tapestry { threads: Vec::new(), next_id: 1 }
    }

    /// Adds `thread` under its own identity, replacing the thread that
    /// already has it, and returns that identity.
    pub fn add_thread(&mut self, thread: Thread<S>) -> (r: ThreadId)
        ensures
            r == thread.id,
            final(self).threads() == with_thread(old(self).threads(), thread),
            final(self).next_raw_id() == old(self).next_raw_id(),
    {
        let id = thread.id;
        match self.index_of(id) {
            Some(i) => {
                self.threads.set(i, thread);
            },
            None => {
                self.threads.push(thread);
            },
        }
        id
    }

    /// Allocates the next identity: one more than the one before, starting
    /// at 1.
    pub fn next_id(&mut self) -> (r: ThreadId)
        requires
            old(self).next_raw_id() < u64::MAX,
        ensures
            allocates(*old(self), r, *final(self)),
    {
        let id = ThreadId(self.next_id);
        self.next_id = self.next_id + 1;
        id
    }

    /// Whether another identity can be allocated.
    pub fn can_allocate(&self) -> (r: bool)
        ensures
            r == (self.next_raw_id() < u64::MAX),
    {
        self.next_id < u64::MAX
    }

    fn index_of(&self, id: ThreadId) -> (r: Option<usize>)
        ensures
            r is None <==> !holds_id(self.threads(), id),
            r matches Some(i) ==> first_with_id(self.threads(), id, i as int),
    {
        let mut i: usize = 0;
        while i < self.threads.len()
            invariant
                i <= self.threads@.len(),
                forall|j: int| 0 <= j < i ==> self.threads@[j].id != id,
            decreases self.threads@.len() - i,
        {
            if self.threads[i].id == id {
                return Some(i);
            }
            i = i + 1;
        }
        None
    }

    fn index_at(&self, pos: Position) -> (r: Option<usize>)
        ensures
            r is None <==> !holds_position(self.threads(), pos),
            r matches Some(i) ==> first_at(self.threads(), pos, i as int),
    {
        let mut i: usize = 0;
        while i < self.threads.len()
            invariant
                i <= self.threads@.len(),
                forall|j: int| 0 <= j < i ==> self.threads@[j].position != Some(pos),
            decreases self.threads@.len() - i,
        {
            match self.threads[i].position {
                Some(p) => {
                    if p == pos {
                        return Some(i);
                    }
                },
                None => {},
            }
            i = i + 1;
        }
        None
    }

    /// The thread with identity `id`; none where no thread has it.
    pub fn get_thread(&self, id: ThreadId) -> (r: Option<&Thread<S>>)
        ensures
            r matches Some(t) ==> self.lookup(id) == Some(*t),
            r is None ==> self.lookup(id) is None,
    {
        match self.index_of(id) {
            Some(i) => Some(&self.threads[i]),
            None => None,
        }
    }

    /// Mutable access to the thread with identity `id`; none where no thread
    /// has it. All other threads stay as they are.
    pub fn get_thread_mut(&mut self, id: ThreadId) -> (r: Option<&mut Thread<S>>)
        ensures
            r is None <==> !holds_id(old(self).threads(), id),
            r is None ==> final(self).threads() == old(self).threads(),
            r matches Some(t) ==> exists|i: int|
                first_with_id(old(self).threads(), id, i) && *t == old(self).threads()[i]
                    && final(self).threads() == old(self).threads().update(i, *final(t)),
            final(self).next_raw_id() == old(self).next_raw_id(),
    {
        match self.index_of(id) {
            Some(i) => Some(&mut self.threads[i]),
            None => None,
        }
    }

    /// The first thread, in order of addition, that stands at `position`;
    /// none where no thread stands there.
    pub fn get_thread_at(&self, position: Position) -> (r: Option<&Thread<S>>)
        ensures
            r matches Some(t) ==> self.lookup_at(position) == Some(*t),
            r is None ==> self.lookup_at(position) is None,
    {
        match self.index_at(position) {
            Some(i) => Some(&self.threads[i]),
            None => None,
        }
    }
}

/// Identity allocation is unique and strictly increasing: a run of
/// allocations that starts on a fresh store, each on the store the one
/// before left, returns 1, 2, 3, ... in that order.
pub proof fn lemma_allocation_counts_up<S>(stores: Seq<Tapestry<S>>, ids: Seq<ThreadId>)
    requires
        stores.len() == ids.len() + 1,
        stores[0].next_raw_id() == 1,
        forall|k: int| 0 <= k < ids.len() ==> allocates(stores[k], ids[k], stores[k + 1]),
    ensures
        forall|k: int| 0 <= k < ids.len() ==> ids[k].0 == k + 1,
        forall|i: int, j: int| 0 <= i < j < ids.len() ==> ids[i].0 < ids[j].0,
{
    assert forall|k: int| 0 <= k < stores.len() implies stores[k].next_raw_id() == k + 1 by {
        lemma_allocation_step(stores, ids, k);
    }
    assert forall|k: int| 0 <= k < ids.len() implies ids[k].0 == k + 1 by {
        assert(allocates(stores[k], ids[k], stores[k + 1]));
    }
}

proof fn lemma_allocation_step<S>(stores: Seq<Tapestry<S>>, ids: Seq<ThreadId>, k: int)
    requires
        stores.len() == ids.len() + 1,
        stores[0].next_raw_id() == 1,
        forall|k: int| 0 <= k < ids.len() ==> allocates(stores[k], ids[k], stores[k + 1]),
        0 <= k < stores.len(),
    ensures
        stores[k].next_raw_id() == k + 1,
    decreases k,
{
    if k > 0 {
        lemma_allocation_step(stores, ids, k - 1);
        assert(allocates(stores[k - 1], ids[k - 1], stores[k]));
    }
}

/// Spatial lookup on a store that holds a single thread: it is found at its
/// position and nowhere else.
pub proof fn lemma_single_thread_found_at_its_position<S>(
    before: Tapestry<S>,
    thread: Thread<S>,
    after: Tapestry<S>,
    pos: Position,
)
    requires
        before.threads().len() == 0,
        after.threads() == with_thread(before.threads(), thread),
        thread.position == Some(pos),
    ensures
        after.lookup_at(pos) == Some(thread),
        forall|other: Position| other != pos ==> #[trigger] after.lookup_at(other) is None,
{
    assert(!holds_id(before.threads(), thread.id));
    assert(after.threads() =~= seq![thread]);
    assert(first_at(after.threads(), pos, 0));
}

impl<S> Default for Tapestry<S> {
    fn default() -> (r: Self)
        ensures
            r.threads() == Seq::<Thread<S>>::empty(),
            r.next_raw_id() == 1,
    {
        Self::new()
    }
}

} // verus!
