//! The native calls that the surface wrappers ask for, and a model of the
//! native state that those calls act on.

use vstd::prelude::*;

verus! {

/// Native resource creation failed. The native library gives no cause, so
/// none is carried.
#[derive(Clone, Copy, Debug, PartialEq, Eq, Structural)]
pub struct AllocationError;

/// One call into the native library that acts on a surface or on the render
/// target. A sequence of them is carried out in order by whoever holds the
/// native library.
#[derive(Clone, Copy, Debug, PartialEq, Eq, Structural)]
pub enum NativeCall {
    /// Point the render target at the library-provided placeholder.
    SetTargetToDummy,
    /// Release the native storage (or alias) behind `bitmap`.
    DestroyBitmap { bitmap: usize },
}

/// What the wrappers need to know of the native library's state: the render
/// target slot, the placeholder target, the surfaces that are alive, and for
/// each sub-view the surface whose storage it looks into.
pub struct NativeState {
    pub target: usize,
    pub dummy: usize,
    pub live: Set<usize>,
    pub parent: Map<usize, usize>,
}

impl NativeState {
    /// The placeholder is a live top-level surface, null is no surface, and
    /// the owner of a sub-view is never itself a sub-view.
    pub open spec fn wf(self) -> bool {
        &&& self.live.contains(self.dummy)
        &&& !self.parent.dom().contains(self.dummy)
        &&& !self.live.contains(0)
        &&& forall|h: usize| #[trigger]
            self.parent.dom().contains(h) ==> !self.parent.dom().contains(self.parent[h])
    }

    /// The render target is alive, and so is its owner where it is a sub-view.
    pub open spec fn target_valid(self) -> bool {
        &&& self.live.contains(self.target)
        &&& self.parent.dom().contains(self.target) ==> self.live.contains(
            self.parent[self.target],
        )
    }

    /// What the native library answers when asked for the owner of the
    /// current target: null for a top-level surface.
    pub open spec fn target_parent(self) -> usize {
        if self.parent.dom().contains(self.target) {
            self.parent[self.target]
        } else {
            0
        }
    }

    /// The top-level surface behind `h`: `h` itself unless it is a sub-view.
    pub open spec fn owner_of(self, h: usize) -> usize {
        if self.parent.dom().contains(h) {
            self.parent[h]
        } else {
            h
        }
    }

    /// The state after the native library created the top-level surface `h`.
    pub open spec fn with_surface(self, h: usize) -> NativeState {
        NativeState { live: self.live.insert(h), ..self }
    }

    /// The state after the native library created `h` as a view into `of`:
    /// the view is bound to the top-level surface behind `of`.
    pub open spec fn with_sub_view(self, h: usize, of: usize) -> NativeState {
        NativeState {
            live: self.live.insert(h),
            parent: self.parent.insert(h, self.owner_of(of)),
            ..self
        }
    }

    /// The state after `h` was made the render target.
    pub open spec fn with_target(self, h: usize) -> NativeState {
        NativeState { target: h, ..self }
    }

    /// The state after one native call.
    pub open spec fn step(self, call: NativeCall) -> NativeState {
        match call {
            NativeCall::SetTargetToDummy => NativeState { target: self.dummy, ..self },
            NativeCall::DestroyBitmap { bitmap } => NativeState {
                live: self.live.remove(bitmap),
                parent: self.parent.remove(bitmap),
                ..self
            },
        }
    }

    /// The state after a sequence of native calls, first to last.
    pub open spec fn run(self, calls: Seq<NativeCall>) -> NativeState
        decreases calls.len(),
    {
        if calls.len() == 0 {
            self
        } else {
            self.step(calls[0]).run(calls.skip(1))
        }
    }
}

} // verus!
