//! What shared ownership promises, proved of the protocol.
//!
//! Every law is stated of an arbitrary well-formed [`State`] and of the
//! transitions that the executable operations are verified to perform.

use crate::protocol::{State, Words};
use vstd::prelude::*;

verus! {

/// Whether the control block that `w` names has been issued and is gone
/// again: the handles that shared it have all been released.
pub open spec fn released<T>(s: State<T>, w: Words) -> bool {
    &&& w.control % 2 == 0
    &&& 2 <= w.control <= 2 * s.issued
    &&& !s.blocks.contains_key(w.control)
}

/// A construction keeps the state well formed.
pub proof fn law_construct_keeps_wf<T>(s: State<T>, value: T)
    requires
        s.wf(),
        s.has_room(),
    ensures
        s.construct(value).wf(),
{
}

/// A copy keeps the state well formed.
pub proof fn law_copy_keeps_wf<T>(s: State<T>, h: Words)
    requires
        s.wf(),
        s.valid(h),
    ensures
        s.copy(h).wf(),
{
}

/// A release keeps the state well formed.
pub proof fn law_destruct_keeps_wf<T>(s: State<T>, h: Words)
    requires
        s.wf(),
        s.valid(h),
    ensures
        s.destruct(h).wf(),
{
}

/// A write to a live pointee keeps the state well formed.
pub proof fn law_store_keeps_wf<T>(s: State<T>, data: usize, value: T)
    requires
        s.wf(),
        s.heap.contains_key(data),
    ensures
        s.store(data, value).wf(),
{
}

/// The null record is the record of no live handle.
pub proof fn law_null_is_never_valid<T>(s: State<T>)
    requires
        s.wf(),
    ensures
        !s.valid(crate::protocol::null_words()),
{
}

/// The handle that a construction returns is new, is the only one to its
/// pointee, and reads the value it was constructed with. No other handle
/// notices the construction.
pub proof fn law_construct_then_deref<T>(s: State<T>, value: T)
    requires
        s.wf(),
        s.has_room(),
    ensures
        !s.valid(s.next_words()),
        !released(s, s.next_words()),
        s.construct(value).valid(s.next_words()),
        s.construct(value).pointee(s.next_words()) == value,
        s.construct(value).use_count(s.next_words()) == 1,
        forall|h: Words| #[trigger]
            s.valid(h) ==> {
                &&& s.construct(value).valid(h)
                &&& s.construct(value).pointee(h) == s.pointee(h)
                &&& s.construct(value).use_count(h) == s.use_count(h)
            },
{
}

/// A copy adds one to the count and changes nothing else: the copy and the
/// original are both live, hold the same words and read the same pointee.
pub proof fn law_copy_shares<T>(s: State<T>, h: Words)
    requires
        s.wf(),
        s.valid(h),
    ensures
        s.copy(h).valid(h),
        s.copy(h).use_count(h) == s.use_count(h) + 1,
        s.copy(h).pointee(h) == s.pointee(h),
        s.copy(h).heap == s.heap,
        forall|g: Words| #[trigger]
            s.valid(g) && g.control != h.control ==> {
                &&& s.copy(h).valid(g)
                &&& s.copy(h).use_count(g) == s.use_count(g)
            },
{
}

/// Cloning a handle and dropping the clone leaves everything as it was:
/// the handle is live, its count is what it was and at least 1, and it
/// reads the same pointee.
pub proof fn law_clone_then_drop<T>(s: State<T>, h: Words)
    requires
        s.wf(),
        s.valid(h),
    ensures
        s.copy(h).destruct(h) == s,
        s.copy(h).destruct(h).valid(h),
        s.copy(h).destruct(h).use_count(h) == s.use_count(h),
        s.copy(h).destruct(h).use_count(h) >= 1,
        s.copy(h).destruct(h).pointee(h) == s.pointee(h),
{
    let back = s.copy(h).destruct(h);
    assert(back.blocks =~= s.blocks);
}

/// A release destroys the pointee if and only if it is the release of the
/// last handle. Any earlier release lowers the count by one and leaves the
/// pointee alive and unchanged. No release touches another pointee.
pub proof fn law_destroyed_with_last_handle<T>(s: State<T>, h: Words)
    requires
        s.wf(),
        s.valid(h),
    ensures
        s.use_count(h) == 1 <==> !s.destruct(h).heap.contains_key(h.data),
        s.use_count(h) == 1 <==> released(s.destruct(h), h),
        s.use_count(h) > 1 ==> {
            &&& s.destruct(h).valid(h)
            &&& s.destruct(h).use_count(h) == s.use_count(h) - 1
            &&& s.destruct(h).pointee(h) == s.pointee(h)
        },
        forall|g: Words| #[trigger]
            s.valid(g) && g.control != h.control ==> {
                &&& s.destruct(h).valid(g)
                &&& s.destruct(h).use_count(g) == s.use_count(g)
                &&& s.destruct(h).pointee(g) == s.pointee(g)
            },
{
}

/// The state after `k` further copies of the handle with record `h`.
pub open spec fn copies<T>(s: State<T>, h: Words, k: nat) -> State<T>
    decreases k,
{
    if k == 0 {
        s
    } else {
        copies(s, h, (k - 1) as nat).copy(h)
    }
}

/// The state after `k` releases of handles with record `h`.
pub open spec fn releases<T>(s: State<T>, h: Words, k: nat) -> State<T>
    decreases k,
{
    if k == 0 {
        s
    } else {
        releases(s, h, (k - 1) as nat).destruct(h)
    }
}

/// Copies add up: after `k` of them the count is `k` higher, and that is
/// all that has changed.
pub proof fn law_copies_add_up<T>(s: State<T>, h: Words, k: nat)
    requires
        s.wf(),
        s.valid(h),
    ensures
        copies(s, h, k).wf(),
        copies(s, h, k).valid(h),
        copies(s, h, k).use_count(h) == s.use_count(h) + k,
        copies(s, h, k).heap == s.heap,
        copies(s, h, k).issued == s.issued,
    decreases k,
{
    if k > 0 {
        law_copies_add_up(s, h, (k - 1) as nat);
    }
}

/// Of all the handles that share a pointee, only the release of the last
/// one destroys it: while fewer releases have taken place than there are
/// handles, the pointee is alive and unchanged; when as many have, it is
/// gone.
pub proof fn law_destroyed_by_last_release<T>(s: State<T>, h: Words, k: nat)
    requires
        s.wf(),
        s.valid(h),
        k <= s.use_count(h),
    ensures
        releases(s, h, k).wf(),
        k < s.use_count(h) ==> {
            &&& releases(s, h, k).valid(h)
            &&& releases(s, h, k).use_count(h) == s.use_count(h) - k
            &&& releases(s, h, k).pointee(h) == s.pointee(h)
        },
        k == s.use_count(h) ==> {
            &&& released(releases(s, h, k), h)
            &&& !releases(s, h, k).heap.contains_key(h.data)
        },
    decreases k,
{
    if k > 0 {
        law_destroyed_by_last_release(s, h, (k - 1) as nat);
    }
}

/// A pointee that was constructed and then shared by `k` clones outlives
/// `k` releases unchanged and is destroyed by the one after.
pub proof fn law_outlives_all_but_last_release<T>(s: State<T>, value: T, k: nat)
    requires
        s.wf(),
        s.has_room(),
    ensures
        ({
            let w = s.next_words();
            let shared = copies(s.construct(value), w, k);
            &&& releases(shared, w, k).valid(w)
            &&& releases(shared, w, k).use_count(w) == 1
            &&& releases(shared, w, k).pointee(w) == value
            &&& released(releases(shared, w, k + 1), w)
            &&& !releases(shared, w, k + 1).heap.contains_key(w.data)
        }),
{
    let w = s.next_words();
    let built = s.construct(value);
    law_copies_add_up(built, w, k);
    let shared = copies(built, w, k);
    law_destroyed_by_last_release(shared, w, k);
    law_destroyed_by_last_release(shared, w, k + 1);
}

/// No transition leads back from released to live: once the last handle is
/// gone, neither its control block nor its pointee returns, so the pointee
/// is destroyed once and never again.
pub proof fn law_released_is_final<T>(s: State<T>, w: Words, h: Words, data: usize, value: T)
    requires
        s.wf(),
        released(s, w),
    ensures
        !s.valid(w),
        !s.heap.contains_key((w.control - 1) as usize),
        s.has_room() ==> released(s.construct(value), w),
        s.valid(h) ==> released(s.copy(h), w),
        s.valid(h) ==> released(s.destruct(h), w),
        s.heap.contains_key(data) ==> released(s.store(data, value), w),
{
    if s.heap.contains_key((w.control - 1) as usize) {
        assert(s.blocks.contains_key(w.control));
    }
}

/// What is written through one handle is read through every handle that
/// shares its control block, and through no other.
pub proof fn law_mutation_is_shared<T>(s: State<T>, a: Words, b: Words, value: T)
    requires
        s.wf(),
        s.valid(a),
        s.valid(b),
    ensures
        a.control == b.control ==> s.store(b.data, value).pointee(a) == value,
        a.control != b.control ==> s.store(b.data, value).pointee(a) == s.pointee(a),
        s.store(b.data, value).valid(a),
        s.store(b.data, value).use_count(a) == s.use_count(a),
{
}

/// A handle and its clone read each other's writes.
pub proof fn law_clone_reads_writes<T>(s: State<T>, h: Words, value: T)
    requires
        s.wf(),
        s.valid(h),
    ensures
        s.copy(h).store(h.data, value).pointee(h) == value,
        s.copy(h).store(h.data, value).use_count(h) == s.use_count(h) + 1,
{
}

} // verus!
