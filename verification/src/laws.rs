//! What the destruction protocol guarantees, stated over the model of the
//! native state.

use vstd::prelude::*;
use crate::bitmap::{destruction_calls, Bitmap};
use crate::native::{NativeCall, NativeState};

verus! {

/// The state after the sub-views `subs` are destroyed one after the other,
/// each with the render target read just before.
pub open spec fn destroy_sub_views(s: NativeState, subs: Seq<usize>) -> NativeState
    decreases subs.len(),
{
    if subs.len() == 0 {
        s
    } else {
        destroy_sub_views(
            s.run(destruction_calls(subs[0], true, s.target, s.target_parent())),
            subs.skip(1),
        )
    }
}

/// Running a single call is one step.
pub proof fn lemma_run_one(s: NativeState, a: NativeCall)
    ensures
        s.run(seq![a]) == s.step(a),
{
    assert(seq![a].skip(1) =~= Seq::<NativeCall>::empty());
    assert(s.step(a).run(seq![a].skip(1)) == s.step(a));
}

/// Running two calls is two steps, the first call first.
pub proof fn lemma_run_two(s: NativeState, a: NativeCall, b: NativeCall)
    ensures
        s.run(seq![a, b]) == s.step(a).step(b),
{
    assert(seq![a, b].skip(1) =~= seq![b]);
    lemma_run_one(s.step(a), b);
}

/// What destroying `bmp` does to the native state: the surface leaves the
/// live set, and the render target moves to the placeholder exactly when it
/// was `bmp` or, for a top-level destruction, a sub-view of `bmp`. The target
/// is moved before the surface is released.
pub proof fn lemma_destruction_effect(
    s: NativeState,
    bmp: usize,
    is_sub_bitmap: bool,
)
    ensures
        ({
            let calls = destruction_calls(bmp, is_sub_bitmap, s.target, s.target_parent());
            let after = s.run(calls);
            let reset = s.target == bmp || (!is_sub_bitmap && s.target_parent() == bmp);
            &&& after.live == s.live.remove(bmp)
            &&& after.parent == s.parent.remove(bmp)
            &&& after.dummy == s.dummy
            &&& after.target == if reset { s.dummy } else { s.target }
            &&& calls.last() == (NativeCall::DestroyBitmap { bitmap: bmp })
            &&& reset ==> calls.len() == 2 && calls[0] == NativeCall::SetTargetToDummy
            &&& !reset ==> calls.len() == 1
        }),
{
    lemma_run_one(s, NativeCall::DestroyBitmap { bitmap: bmp });
    lemma_run_two(s, NativeCall::SetTargetToDummy, NativeCall::DestroyBitmap { bitmap: bmp });
}

/// No dangling target: where the render target was valid, it is valid after
/// any surface but the placeholder is destroyed, and where the destroyed
/// surface was the target, the target is the placeholder right after.
pub proof fn lemma_no_dangling_target(s: NativeState, bmp: usize, is_sub_bitmap: bool)
    requires
        s.wf(),
        s.target_valid(),
        bmp != s.dummy,
        is_sub_bitmap ==> s.parent.dom().contains(bmp),
    ensures
        ({
            let after = s.run(destruction_calls(bmp, is_sub_bitmap, s.target, s.target_parent()));
            &&& after.wf()
            &&& after.target_valid()
            &&& s.target == bmp ==> after.target == s.dummy
            &&& !after.live.contains(bmp)
        }),
{
    lemma_destruction_effect(s, bmp, is_sub_bitmap);
    let after = s.run(destruction_calls(bmp, is_sub_bitmap, s.target, s.target_parent()));
    assert forall|h: usize| #[trigger]
        after.parent.dom().contains(h) implies !after.parent.dom().contains(after.parent[h]) by {
        assert(s.parent.dom().contains(h));
    }
    if is_sub_bitmap && s.parent.dom().contains(s.target) {
        assert(!s.parent.dom().contains(s.parent[s.target]));
    }
}

/// A reference is left alone: what a surface that only borrows its handle
/// asks for when it goes away changes nothing in the native state.
pub proof fn lemma_reference_destruction_changes_nothing(
    s: NativeState,
    b: Bitmap,
    target: usize,
    target_parent: usize,
)
    requires
        b.is_reference(),
    ensures
        s.run(b.destroy_calls(target, target_parent)) == s,
{
}

/// Destroying a sub-view other than the render target leaves the target
/// where it was, also where the target is the sub-view's owner.
pub proof fn lemma_sub_view_destruction_keeps_other_target(s: NativeState, sub: usize)
    requires
        s.target != sub,
    ensures
        s.run(destruction_calls(sub, true, s.target, s.target_parent())).target == s.target,
{
    lemma_destruction_effect(s, sub, true);
}

proof fn lemma_destroy_others(s: NativeState, owner: usize, subs: Seq<usize>)
    requires
        s.live.contains(owner),
        !s.parent.dom().contains(owner),
        forall|i: int| 0 <= i < subs.len() ==> subs[i] != owner,
    ensures
        destroy_sub_views(s, subs).live.contains(owner),
        !destroy_sub_views(s, subs).parent.dom().contains(owner),
        s.target == owner ==> destroy_sub_views(s, subs).target == owner,
    decreases subs.len(),
{
    if subs.len() > 0 {
        lemma_destruction_effect(s, subs[0], true);
        let next = s.run(destruction_calls(subs[0], true, s.target, s.target_parent()));
        assert forall|i: int| 0 <= i < subs.skip(1).len() implies subs.skip(1)[i] != owner by {
            assert(subs.skip(1)[i] == subs[i + 1]);
        }
        lemma_destroy_others(next, owner, subs.skip(1));
    }
}

/// The owner survives its sub-views: after any number of sub-views of one
/// live top-level surface are destroyed, that surface is still alive under the same
/// handle, still top-level, and still the render target if it was.
pub proof fn lemma_owner_survives_sub_views(s: NativeState, owner: usize, subs: Seq<usize>)
    requires
        s.live.contains(owner),
        !s.parent.dom().contains(owner),
        forall|i: int|
            0 <= i < subs.len() ==> s.parent.dom().contains(#[trigger] subs[i])
                && s.parent[subs[i]] == owner,
    ensures
        destroy_sub_views(s, subs).live.contains(owner),
        !destroy_sub_views(s, subs).parent.dom().contains(owner),
        s.target == owner ==> destroy_sub_views(s, subs).target == owner,
{
    lemma_destroy_others(s, owner, subs);
}

/// A copy is independent of its source: destroying one of two distinct
/// live top-level surfaces leaves the other alive, and leaves it the render
/// target if it was.
pub proof fn lemma_copy_destruction_spares_source(s: NativeState, source: usize, copy: usize)
    requires
        s.wf(),
        s.live.contains(source),
        s.live.contains(copy),
        !s.parent.dom().contains(source),
        source != copy,
    ensures
        ({
            let after = s.run(destruction_calls(copy, false, s.target, s.target_parent()));
            &&& after.live.contains(source)
            &&& s.target == source ==> after.target == source
        }),
{
    lemma_destruction_effect(s, copy, false);
}

/// What can happen to the surfaces of a program, one step at a time.
pub enum SurfaceEvent {
    /// The native library created a top-level surface.
    Created { handle: usize },
    /// The native library created a view into `of`.
    SubViewCreated { handle: usize, of: usize },
    /// The surface was made the render target.
    TargetSet { handle: usize },
    /// A wrapper went away and its destruction calls were carried out.
    Destroyed { handle: usize, is_sub_bitmap: bool },
}

/// Whether the native library can hand out `h` for a new surface: it is not
/// null, no live surface has it, and no sub-view names it as its owner.
pub open spec fn fresh(s: NativeState, h: usize) -> bool {
    &&& h != 0
    &&& !s.live.contains(h)
    &&& !s.parent.dom().contains(h)
    &&& forall|v: usize| #[trigger] s.parent.dom().contains(v) ==> s.parent[v] != h
}

/// Whether `e` can happen in `s`: a new handle is fresh, a view is made of a
/// live surface whose owner is alive, a target is such a surface too, the
/// placeholder is never destroyed, and what is destroyed as a sub-view is
/// one.
pub open spec fn event_allowed(s: NativeState, e: SurfaceEvent) -> bool {
    match e {
        SurfaceEvent::Created { handle } => fresh(s, handle),
        SurfaceEvent::SubViewCreated { handle, of } => {
            &&& fresh(s, handle)
            &&& s.live.contains(of)
            &&& s.live.contains(s.owner_of(of))
        },
        SurfaceEvent::TargetSet { handle } => s.live.contains(handle) && s.live.contains(
            s.owner_of(handle),
        ),
        SurfaceEvent::Destroyed { handle, is_sub_bitmap } => handle != s.dummy && (is_sub_bitmap
            ==> s.parent.dom().contains(handle)),
    }
}

/// The state after `e`.
pub open spec fn after_event(s: NativeState, e: SurfaceEvent) -> NativeState {
    match e {
        SurfaceEvent::Created { handle } => s.with_surface(handle),
        SurfaceEvent::SubViewCreated { handle, of } => s.with_sub_view(handle, of),
        SurfaceEvent::TargetSet { handle } => s.with_target(handle),
        SurfaceEvent::Destroyed { handle, is_sub_bitmap } => s.run(
            destruction_calls(handle, is_sub_bitmap, s.target, s.target_parent()),
        ),
    }
}

/// Whether each of `events` can happen in the state that the ones before it
/// lead to from `s`.
pub open spec fn events_allowed(s: NativeState, events: Seq<SurfaceEvent>) -> bool
    decreases events.len(),
{
    events.len() > 0 ==> event_allowed(s, events[0]) && events_allowed(
        after_event(s, events[0]),
        events.skip(1),
    )
}

/// The state after all of `events`, first to last.
pub open spec fn after_events(s: NativeState, events: Seq<SurfaceEvent>) -> NativeState
    decreases events.len(),
{
    if events.len() == 0 {
        s
    } else {
        after_events(after_event(s, events[0]), events.skip(1))
    }
}

/// One event keeps the render target valid.
pub proof fn lemma_event_keeps_target_valid(s: NativeState, e: SurfaceEvent)
    requires
        s.wf(),
        s.target_valid(),
        event_allowed(s, e),
    ensures
        after_event(s, e).wf(),
        after_event(s, e).target_valid(),
{
    let after = after_event(s, e);
    match e {
        SurfaceEvent::Created { handle } => {},
        SurfaceEvent::SubViewCreated { handle, of } => {
            assert forall|h: usize| #[trigger]
                after.parent.dom().contains(h) implies !after.parent.dom().contains(
                after.parent[h],
            ) by {
                if h != handle {
                    assert(s.parent.dom().contains(h));
                }
                if s.parent.dom().contains(of) {
                    assert(!s.parent.dom().contains(s.parent[of]));
                }
            }
        },
        SurfaceEvent::TargetSet { handle } => {},
        SurfaceEvent::Destroyed { handle, is_sub_bitmap } => {
            lemma_no_dangling_target(s, handle, is_sub_bitmap);
        },
    }
}

/// No dangling target, ever: from a state with a valid render target, any
/// sequence of creations, target changes and destructions leads to a state
/// with a valid render target, so the next draw finds live storage.
pub proof fn lemma_target_always_valid(s: NativeState, events: Seq<SurfaceEvent>)
    requires
        s.wf(),
        s.target_valid(),
        events_allowed(s, events),
    ensures
        after_events(s, events).wf(),
        after_events(s, events).target_valid(),
    decreases events.len(),
{
    if events.len() > 0 {
        lemma_event_keeps_target_valid(s, events[0]);
        lemma_target_always_valid(after_event(s, events[0]), events.skip(1));
    }
}

} // verus!
