//! Properties of the store that relate several operations, proved from the
//! contracts of `Appender`.

use vstd::prelude::*;

use crate::appender::{append_spec, open_spec, publish_spec, AppenderView};
use crate::error::Error;

verus! {

/// Appending a non-empty `d` to an empty store whose capacity is `|d|`, with
/// the backing file grown to hold it, never hits the capacity limit: the
/// result is the flush's outcome, `Ok` exactly when the flush succeeded, and
/// then the content read back is exactly `d`.
pub proof fn lemma_round_trip(pre: AppenderView, d: Seq<u8>, post: AppenderView, r: Result<(), Error>)
    requires
        d.len() > 0,
        pre.content.len() == 0,
        pre.capacity == d.len(),
        pre.file_len >= d.len(),
        !pre.poisoned,
        append_spec(pre, d, post, r),
    ensures
        exists|flushed: bool| #[trigger] publish_spec(pre, d, flushed, post, r),
        publish_spec(pre, d, true, post, r) ==> r is Ok && post.content == d,
        publish_spec(pre, d, false, post, r) ==> r == Err::<(), Error>(Error::Write) && post == pre,
        r is Ok ==> post.content == d,
{
    if r is Ok {
        assert(post.content =~= d);
    }
}

/// Appending `d1` and then `d2` to an empty store whose capacity is
/// `|d1| + |d2|`, with the backing file grown before each append, reaches
/// each flush; when both flushes succeed both appends return `Ok` and the
/// content is `d1 ++ d2`.
pub proof fn lemma_order_preserved(
    s0: AppenderView,
    d1: Seq<u8>,
    s1: AppenderView,
    r1: Result<(), Error>,
    d2: Seq<u8>,
    s2: AppenderView,
    r2: Result<(), Error>,
)
    requires
        s0.content.len() == 0,
        s0.capacity == d1.len() + d2.len(),
        s0.file_len >= d1.len() + d2.len(),
        !s0.poisoned,
        append_spec(s0, d1, s1, r1),
        append_spec(s1, d2, s2, r2),
    ensures
        exists|flushed: bool| #[trigger] publish_spec(s0, d1, flushed, s1, r1),
        r1 is Ok ==> exists|flushed: bool| #[trigger] publish_spec(s1, d2, flushed, s2, r2),
        publish_spec(s0, d1, true, s1, r1) && publish_spec(s1, d2, true, s2, r2)
            ==> r1 is Ok && r2 is Ok && s2.content == d1 + d2,
        r1 is Ok && r2 is Ok ==> s2.content == d1 + d2,
{
    if r1 is Ok {
        assert(s1.content =~= d1);
    }
}

/// An append beyond the remaining capacity fails with `MmapTooSmall` and
/// leaves the content, and so the size, unchanged.
pub proof fn lemma_capacity_rejection(pre: AppenderView, d: Seq<u8>, post: AppenderView, r: Result<(), Error>)
    requires
        pre.content.len() + d.len() > pre.capacity,
        append_spec(pre, d, post, r),
    ensures
        r == Err::<(), Error>(Error::MmapTooSmall),
        post == pre,
        post.content.len() == pre.content.len(),
{
}

/// With `d1` committed, an append of `d2` leaves the store holding exactly
/// `d1` or exactly `d1 ++ d2`, never a part of `d2`.
pub proof fn lemma_no_torn_reads(pre: AppenderView, d1: Seq<u8>, d2: Seq<u8>, post: AppenderView, r: Result<(), Error>)
    requires
        pre.content == d1,
        append_spec(pre, d2, post, r),
    ensures
        post.content == d1 || post.content == d1 + d2,
        r is Ok ==> post.content == d1 + d2,
        r is Err ==> post.content == d1,
{
}

/// The total length of the byte sequences in `ds`.
pub open spec fn total_len(ds: Seq<Seq<u8>>) -> nat
    decreases ds.len(),
{
    if ds.len() == 0 {
        0
    } else {
        total_len(ds.drop_last()) + ds.last().len()
    }
}

/// Whether `states` is a run of sequential appends of `ds`, the `k`-th taking
/// `states[k]` to `states[k + 1]` with result `rs[k]`.
pub open spec fn append_run(states: Seq<AppenderView>, ds: Seq<Seq<u8>>, rs: Seq<Result<(), Error>>) -> bool {
    &&& states.len() == ds.len() + 1
    &&& rs.len() == ds.len()
    &&& forall|k: int| 0 <= k < ds.len() ==> #[trigger] append_spec(states[k], ds[k], states[k + 1], rs[k])
}

/// Along a run of appends the size never decreases and never exceeds the
/// capacity; when every append of the run succeeds, the size grows by exactly
/// the sum of the appended lengths.
pub proof fn lemma_monotonic_size(states: Seq<AppenderView>, ds: Seq<Seq<u8>>, rs: Seq<Result<(), Error>>)
    requires
        append_run(states, ds, rs),
        states[0].content.len() <= states[0].capacity,
    ensures
        forall|i: int| 0 <= i < states.len() ==> #[trigger] states[i].content.len() <= states[i].capacity,
        forall|i: int, j: int| 0 <= i <= j < states.len() ==> states[i].content.len() <= states[j].content.len(),
        (forall|k: int| 0 <= k < rs.len() ==> rs[k] is Ok)
            ==> states.last().content.len() == states[0].content.len() + total_len(ds),
    decreases ds.len(),
{
    if ds.len() > 0 {
        let n = ds.len() - 1;
        let ps = states.drop_last();
        assert(append_run(ps, ds.drop_last(), rs.drop_last())) by {
            assert forall|k: int| 0 <= k < ds.drop_last().len() implies
                #[trigger] append_spec(ps[k], ds.drop_last()[k], ps[k + 1], rs.drop_last()[k]) by {
                assert(append_spec(states[k], ds[k], states[k + 1], rs[k]));
            }
        }
        lemma_monotonic_size(ps, ds.drop_last(), rs.drop_last());
        assert(append_spec(states[n], ds[n], states[n + 1], rs[n]));
        assert(ps[n] == states[n]);
        assert(states[n].content.len() <= states[n].capacity);
        if states[n].content.len() + ds[n].len() <= states[n].capacity && !states[n].poisoned
            && states[n].content.len() + ds[n].len() <= states[n].file_len {
            let flushed = choose|f: bool| #[trigger] publish_spec(states[n], ds[n], f, states[n + 1], rs[n]);
            assert(publish_spec(states[n], ds[n], flushed, states[n + 1], rs[n]));
        }
        assert forall|i: int| 0 <= i < states.len() implies #[trigger] states[i].content.len() <= states[i].capacity by {
            if i < n + 1 {
                assert(ps[i] == states[i]);
            }
        }
        assert forall|i: int, j: int| 0 <= i <= j < states.len() implies
            states[i].content.len() <= states[j].content.len() by {
            if j == states.len() - 1 && i < j {
                assert(ps[i] == states[i]);
                assert(ps[n] == states[n]);
                assert(ps[i].content.len() <= ps[n].content.len());
            } else if j < states.len() - 1 {
                assert(ps[i] == states[i]);
                assert(ps[j] == states[j]);
                assert(ps[i].content.len() <= ps[j].content.len());
            }
        }
    }
}

/// Reopening over a region whose first bytes are the last content `last`,
/// with the backing file holding `|last|` bytes, restores `last` and its size
/// when the region can hold it, and fails with `MmapTooSmall` when it cannot.
pub proof fn lemma_reopen(last: AppenderView, bytes: Seq<u8>)
    requires
        forall|i: int| 0 <= i < last.content.len() && i < bytes.len() ==> bytes[i] == last.content[i],
    ensures
        bytes.len() >= last.content.len() ==> open_spec(bytes, last.content.len()) is Ok
            && open_spec(bytes, last.content.len())->Ok_0.content == last.content
            && open_spec(bytes, last.content.len())->Ok_0.content.len() == last.content.len(),
        bytes.len() < last.content.len() ==> open_spec(bytes, last.content.len()) == Err::<AppenderView, Error>(Error::MmapTooSmall),
{
    if bytes.len() >= last.content.len() {
        assert(bytes.subrange(0, last.content.len() as int) =~= last.content);
    }
}

} // verus!
