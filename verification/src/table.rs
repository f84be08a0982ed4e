//! The per-category resource table: a store mapping integer handles to
//! resource values, fed by a strictly monotonic handle allocator.
//!
//! A handle is an opaque, copyable integer that carries no ownership: the
//! table exclusively owns every resource it holds. `allocate` issues the
//! counter's current value and advances it; the counter never goes backwards
//! and a removed entry's handle is never reissued. `deallocate` transfers the
//! resource back out to the caller; `with_access` hands the resource to an
//! operation under exclusive access and stores the operation's updated
//! resource back in place.

use std::collections::HashMap;

use vstd::prelude::*;

use crate::errors::BertError;

verus! {

broadcast use vstd::std_specs::hash::group_hash_axioms;

/// A store of resources of one category, addressed by handle.
pub struct ResourceTable<T> {
    next: usize,
    entries: HashMap<usize, T>,
}

/// What `allocate` guarantees: the issued handle is the allocator's counter,
/// the counter advances by one, and the resource is stored under the new
/// handle.
pub open spec fn allocate_post<T>(
    pre: ResourceTable<T>,
    resource: T,
    post: ResourceTable<T>,
    h: usize,
) -> bool {
    &&& h == pre.next_handle()
    &&& post.next_handle() == pre.next_handle() + 1
    &&& post.contents() == pre.contents().insert(h, resource)
}

/// What `deallocate` guarantees: a live handle's resource is removed and
/// returned; an absent handle leaves the table unchanged and fails
/// `NotFound`. The counter never moves.
pub open spec fn deallocate_post<T>(
    pre: ResourceTable<T>,
    rid: usize,
    post: ResourceTable<T>,
    r: Result<T, BertError>,
) -> bool {
    &&& post.next_handle() == pre.next_handle()
    &&& if pre.contents().dom().contains(rid) {
        r == Ok::<T, BertError>(pre.contents()[rid]) && post.contents() == pre.contents().remove(
            rid,
        )
    } else {
        r == Err::<T, BertError>(BertError::NotFound) && post.contents() == pre.contents()
    }
}

impl<T> ResourceTable<T> {
    /// The mapping from live handles to the resources they name.
    pub closed spec fn contents(self) -> Map<usize, T> {
        self.entries@
    }

    /// The handle the allocator will issue next. Handles below it have been
    /// issued at some point; handles at or above it never have.
    pub closed spec fn next_handle(self) -> usize {
        self.next
    }

    /// The table's invariant: every live handle has been issued, i.e. lies
    /// strictly below the allocator's counter.
    pub open spec fn wf(self) -> bool {
        forall|h: usize| self.contents().dom().contains(h) ==> h < self.next_handle()
    }

    /// An empty table whose allocator starts at handle 0.
    pub fn new() -> (t: ResourceTable<T>)
        ensures
            t.contents() == Map::<usize, T>::empty(),
            t.next_handle() == 0,
            t.wf(),
    {
        ResourceTable { next: 0, entries: HashMap::new() }
    }

    /// The number of handles issued so far, which is also the next handle.
    pub fn counter(&self) -> (n: usize)
        ensures
            n == self.next_handle(),
    {
        self.next
    }

    /// Store `resource` under the next handle and return that handle.
    pub fn allocate(&mut self, resource: T) -> (h: usize)
        requires
            old(self).wf(),
            old(self).next_handle() < usize::MAX,
        ensures
            final(self).wf(),
            allocate_post(*old(self), resource, *final(self), h),
    {
        let rid = self.next;
        self.entries.insert(rid, resource);
        self.next = rid + 1;
        proof {
            assert forall|h: usize| self.contents().dom().contains(h) implies h
                < self.next_handle() by {
                if h != rid {
                    assert(old(self).contents().dom().contains(h));
                }
            }
        }
        rid
    }

    /// Remove the resource stored under `rid` and return it, transferring
    /// ownership back to the caller; fail `NotFound` if the handle is unknown
    /// or its entry was already removed.
    pub fn deallocate(&mut self, rid: usize) -> (r: Result<T, BertError>)
        requires
            old(self).wf(),
        ensures
            final(self).wf(),
            deallocate_post(*old(self), rid, *final(self), r),
    {
        match self.take(rid) {
            Some(v) => Ok(v),
            None => Err(BertError::NotFound),
        }
    }

    /// Hand the resource stored under `rid` to `operation` under exclusive
    /// access, store the resource it gives back in place, and return its
    /// result; fail `NotFound` if the handle is absent.
    pub fn with_access<R, F: FnOnce(T) -> (T, Result<R, BertError>)>(
        &mut self,
        rid: usize,
        operation: F,
    ) -> (r: Result<R, BertError>)
        requires
            old(self).wf(),
            forall|t: T| call_requires(operation, (t,)),
        ensures
            final(self).wf(),
            final(self).next_handle() == old(self).next_handle(),
            !old(self).contents().dom().contains(rid) ==> r == Err::<R, BertError>(
                BertError::NotFound,
            ) && final(self).contents() == old(self).contents(),
            old(self).contents().dom().contains(rid) ==> exists|out: (T, Result<R, BertError>)|
                {
                    &&& #[trigger] call_ensures(operation, (old(self).contents()[rid],), out)
                    &&& final(self).contents() == old(self).contents().insert(rid, out.0)
                    &&& r == out.1
                },
    {
        match self.take(rid) {
            None => Err(BertError::NotFound),
            Some(v) => {
                let (v2, res) = operation(v);
                proof {
                    assert(old(self).contents().remove(rid).insert(rid, v2) =~= old(
                        self,
                    ).contents().insert(rid, v2));
                }
                self.put_back(rid, v2);
                res
            },
        }
    }

    /// Remove and return the entry under `rid`, if any. Used together with
    /// `put_back` to realize an exclusive access that inspects the entry
    /// before running an operation on it.
    pub(crate) fn take(&mut self, rid: usize) -> (r: Option<T>)
        requires
            old(self).wf(),
        ensures
            final(self).wf(),
            final(self).next_handle() == old(self).next_handle(),
            match r {
                Some(v) => old(self).contents().dom().contains(rid) && v == old(
                    self,
                ).contents()[rid] && final(self).contents() == old(self).contents().remove(rid),
                None => !old(self).contents().dom().contains(rid) && final(self).contents() == old(
                    self,
                ).contents(),
            },
    {
        let r = self.entries.remove(&rid);
        proof {
            if !old(self).contents().dom().contains(rid) {
                assert(old(self).contents().remove(rid) =~= old(self).contents());
            }
        }
        r
    }

    /// Store `v` under the previously issued handle `rid`, restoring an entry
    /// taken for exclusive access.
    pub(crate) fn put_back(&mut self, rid: usize, v: T)
        requires
            old(self).wf(),
            rid < old(self).next_handle(),
        ensures
            final(self).wf(),
            final(self).next_handle() == old(self).next_handle(),
            final(self).contents() == old(self).contents().insert(rid, v),
    {
        self.entries.insert(rid, v);
        proof {
            assert forall|h: usize| self.contents().dom().contains(h) implies h
                < self.next_handle() by {
                if h != rid {
                    assert(old(self).contents().dom().contains(h));
                }
            }
        }
    }
}

/// Handle monotonicity, first half: of two allocations on one table, the
/// later one returns the strictly larger handle, however many table
/// operations lie between them — every operation's contract keeps the
/// allocator's counter from going backwards, which is the middle premise.
pub proof fn lemma_handle_monotonic<T>(
    t0: ResourceTable<T>,
    r1: T,
    t1: ResourceTable<T>,
    h1: usize,
    t2: ResourceTable<T>,
    r2: T,
    t3: ResourceTable<T>,
    h2: usize,
)
    requires
        allocate_post(t0, r1, t1, h1),
        t1.next_handle() <= t2.next_handle(),
        allocate_post(t2, r2, t3, h2),
    ensures
        h2 > h1,
{
}

/// Handle monotonicity, second half: a handle issued at some point — any
/// handle below the counter — is never issued again, even after the entry it
/// named was deallocated.
pub proof fn lemma_handle_never_reissued<T>(
    t1: ResourceTable<T>,
    h: usize,
    t2: ResourceTable<T>,
    r: T,
    t3: ResourceTable<T>,
    h2: usize,
)
    requires
        h < t1.next_handle(),
        t1.next_handle() <= t2.next_handle(),
        allocate_post(t2, r, t3, h2),
    ensures
        h2 != h,
{
}

/// Post-deallocate access: once `deallocate` has run on a handle — whether it
/// succeeded or already found nothing — the handle is absent, which is
/// exactly the case in which `with_access`, `deallocate` and the tag-checked
/// accesses answer `NotFound`.
pub proof fn lemma_post_deallocate_not_found<T>(
    t0: ResourceTable<T>,
    rid: usize,
    t1: ResourceTable<T>,
    r: Result<T, BertError>,
)
    requires
        deallocate_post(t0, rid, t1, r),
    ensures
        !t1.contents().dom().contains(rid),
{
}

/// Helper for the batch-allocation law: after `i` allocations of a chain the
/// counter has advanced by exactly `i`.
proof fn lemma_batch_counter_at<T>(
    tables: Seq<ResourceTable<T>>,
    items: Seq<T>,
    handles: Seq<usize>,
    i: int,
)
    requires
        tables.len() == items.len() + 1,
        handles.len() == items.len(),
        forall|j: int|
            0 <= j < items.len() ==> allocate_post(tables[j], items[j], tables[j + 1], handles[j]),
        0 <= i <= items.len(),
    ensures
        tables[i].next_handle() == tables[0].next_handle() + i,
    decreases i,
{
    if i > 0 {
        lemma_batch_counter_at(tables, items, handles, i - 1);
        assert(allocate_post(tables[i - 1], items[i - 1], tables[i], handles[i - 1]));
    }
}

/// Concurrent allocation: a burst of `K` allocations with no interleaved
/// deallocation — in whatever order the table's exclusive access serializes
/// them — yields `K` distinct handles, contiguous from the counter's previous
/// value.
pub proof fn lemma_batch_allocation_contiguous<T>(
    tables: Seq<ResourceTable<T>>,
    items: Seq<T>,
    handles: Seq<usize>,
)
    requires
        tables.len() == items.len() + 1,
        handles.len() == items.len(),
        forall|j: int|
            0 <= j < items.len() ==> allocate_post(tables[j], items[j], tables[j + 1], handles[j]),
    ensures
        forall|j: int| 0 <= j < handles.len() ==> handles[j] == tables[0].next_handle() + j,
        forall|i: int, j: int| 0 <= i < j < handles.len() ==> handles[i] != handles[j],
{
    assert forall|j: int| 0 <= j < handles.len() implies handles[j] == tables[0].next_handle()
        + j by {
        lemma_batch_counter_at(tables, items, handles, j);
        assert(allocate_post(tables[j], items[j], tables[j + 1], handles[j]));
    }
}

} // verus!
