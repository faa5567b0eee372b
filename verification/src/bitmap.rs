//! Surfaces: owning, locked in memory, and sub-views.

use std::marker::PhantomData;
use std::rc::Rc;
use vstd::prelude::*;
use crate::native::{AllocationError, NativeCall};

verus! {

/// The native calls that destroy the surface `bmp` without leaving the render
/// target dangling: the target is first pointed at the placeholder where it
/// is `bmp` itself or, for a top-level surface, a sub-view of `bmp`.
pub open spec fn destruction_calls(
    bmp: usize,
    is_sub_bitmap: bool,
    target: usize,
    target_parent: usize,
) -> Seq<NativeCall> {
    if target == bmp || (!is_sub_bitmap && target_parent == bmp) {
        seq![NativeCall::SetTargetToDummy, NativeCall::DestroyBitmap { bitmap: bmp }]
    } else {
        seq![NativeCall::DestroyBitmap { bitmap: bmp }]
    }
}

/// Plans the destruction of `bmp`. `target` is the current render target and
/// `target_parent` the owner of that target (null where it is top-level), both
/// as the native library reports them. A null target means that the graphics
/// subsystem is not running, and nothing can be planned.
pub fn handle_bitmap_destruction(
    bmp: usize,
    is_sub_bitmap: bool,
    target: usize,
    target_parent: usize,
) -> (calls: Vec<NativeCall>)
    requires
        target != 0,
    ensures
        calls@ == destruction_calls(bmp, is_sub_bitmap, target, target_parent),
{
    let mut calls: Vec<NativeCall> = Vec::new();
    if target == bmp || (!is_sub_bitmap && target_parent == bmp) {
        calls.push(NativeCall::SetTargetToDummy);
    }
    calls.push(NativeCall::DestroyBitmap { bitmap: bmp });
    assert(calls@ =~= destruction_calls(bmp, is_sub_bitmap, target, target_parent));
    calls
}

/// A surface that wraps a native handle. It owns the handle, and destroys the
/// native storage with it, unless it is a reference to a surface that the
/// native library keeps itself, such as a display's backbuffer.
#[derive(Debug)]
pub struct Bitmap {
    allegro_bitmap: usize,
    is_ref: bool,
    /// Keeps the wrapper on the thread that made it.
    no_send_marker: PhantomData<Rc<()>>,
}

/// A surface whose storage is known to lie in directly addressable memory.
/// It holds the handle that the `Bitmap` it was made from held.
#[derive(Debug)]
pub struct MemoryBitmap {
    allegro_bitmap: usize,
    /// Keeps the wrapper on the thread that made it.
    no_send_marker: PhantomData<Rc<()>>,
}

/// A rectangular view into the storage of `parent`, which it cannot outlive.
#[derive(Debug)]
pub struct SubBitmap<'m> {
    allegro_bitmap: usize,
    parent: &'m Bitmap,
}

/// Wraps a handle that the native library keeps itself: the wrapper never
/// destroys it.
pub fn new_bitmap_ref(bmp: usize) -> (b: Bitmap)
    ensures
        b.handle() == bmp,
        b.is_reference(),
{
    Bitmap { allegro_bitmap: bmp, is_ref: true, no_send_marker: PhantomData }
}

/// Wraps what the native duplication call returned for some surface: an
/// owning surface of its own, or the allocation failure that null stands for.
pub fn clone_bitmap(cloned: usize) -> (r: Result<Bitmap, AllocationError>)
    ensures
        Bitmap::adopts(r, cloned),
{
    Bitmap::new(cloned)
}

impl Bitmap {
    /// The native handle.
    pub closed spec fn handle(&self) -> usize {
        self.allegro_bitmap
    }

    /// Whether the handle is only borrowed from the native library.
    pub closed spec fn is_reference(&self) -> bool {
        self.is_ref
    }

    /// An owning surface never holds null.
    #[verifier::type_invariant]
    closed spec fn inv(&self) -> bool {
        !self.is_ref ==> self.allegro_bitmap != 0
    }

    /// Whether `r` is what becomes of the handle `created` that a native
    /// creation call returned: null is the allocation failure, anything else
    /// an owning surface over that handle.
    pub open spec fn adopts(r: Result<Bitmap, AllocationError>, created: usize) -> bool {
        match r {
            Ok(b) => created != 0 && b.handle() == created && !b.is_reference(),
            Err(_) => created == 0,
        }
    }

    /// Whether `r` is what becomes of the alias handle `created` that the
    /// native library returned for a rectangle within this surface's storage:
    /// null is the allocation failure, anything else a sub-view bound to this
    /// surface.
    pub open spec fn adopts_sub_view(
        &self,
        r: Result<SubBitmap<'_>, AllocationError>,
        created: usize,
    ) -> bool {
        match r {
            Ok(v) => created != 0 && v.handle() == created && v.owner() == self,
            Err(_) => created == 0,
        }
    }

    /// Whether the surface can be locked: its storage is addressable
    /// (`memory`) and the handle is its own.
    pub open spec fn lockable(&self, memory: bool) -> bool {
        memory && !self.is_reference()
    }

    /// Whether `r` is what an attempt to lock this surface gives: the locked
    /// surface over the same handle where it can be locked, else this
    /// surface itself.
    pub open spec fn locks_into(self, memory: bool, r: Result<MemoryBitmap, Bitmap>) -> bool {
        match r {
            Ok(m) => self.lockable(memory) && m.handle() == self.handle(),
            Err(b) => !self.lockable(memory) && b == self,
        }
    }

    /// The native calls that are due when this surface goes away.
    pub open spec fn destroy_calls(&self, target: usize, target_parent: usize) -> Seq<NativeCall> {
        if self.is_reference() {
            Seq::empty()
        } else {
            destruction_calls(self.handle(), false, target, target_parent)
        }
    }

    /// Wraps what the native creation call returned: an owning surface, or
    /// the allocation failure that null stands for.
    pub fn new(created: usize) -> (r: Result<Bitmap, AllocationError>)
        ensures
            Bitmap::adopts(r, created),
    {
        if created == 0 {
            Err(AllocationError)
        } else {
            Ok(Bitmap { allegro_bitmap: created, is_ref: false, no_send_marker: PhantomData })
        }
    }

    /// Wraps what the native image loader returned: an owning surface, or the
    /// one failure that stands for a missing, unreadable or unsupported file.
    pub fn load(loaded: usize) -> (r: Result<Bitmap, AllocationError>)
        ensures
            Bitmap::adopts(r, loaded),
    {
        if loaded == 0 {
            Err(AllocationError)
        } else {
            Ok(Bitmap { allegro_bitmap: loaded, is_ref: false, no_send_marker: PhantomData })
        }
    }

    /// The native handle.
    pub fn get_bitmap(&self) -> (h: usize)
        ensures
            h == self.handle(),
            !self.is_reference() ==> h != 0,
    {
        proof {
            use_type_invariant(self);
        }
        self.allegro_bitmap
    }

    /// Whether the handle is only borrowed from the native library.
    pub fn is_ref(&self) -> (r: bool)
        ensures
            r == self.is_reference(),
    {
        self.is_ref
    }

    /// Wraps the alias handle that the native library returned for a
    /// rectangle of this surface. The sub-view borrows this surface.
    pub fn create_sub_bitmap<'l>(&'l self, created: usize) -> (r: Result<SubBitmap<'l>, AllocationError>)
        ensures
            self.adopts_sub_view(r, created),
    {
        if created == 0 {
            Err(AllocationError)
        } else {
            Ok(SubBitmap { allegro_bitmap: created, parent: self })
        }
    }

    /// Wraps what the native duplication call returned for this surface.
    pub fn maybe_clone(&self, cloned: usize) -> (r: Result<Bitmap, AllocationError>)
        ensures
            Bitmap::adopts(r, cloned),
    {
        clone_bitmap(cloned)
    }

    /// Hands the handle over to a locked surface where `memory` says that
    /// the native flags mark the storage as addressable and the handle is
    /// this surface's own. Otherwise the surface comes back as it was.
    pub fn into_memory_bitmap(self, memory: bool) -> (r: Result<MemoryBitmap, Bitmap>)
        ensures
            self.locks_into(memory, r),
    {
        if memory && !self.is_ref {
            proof {
                use_type_invariant(&self);
            }
            Ok(MemoryBitmap { allegro_bitmap: self.allegro_bitmap, no_send_marker: PhantomData })
        } else {
            Err(self)
        }
    }

    /// Ends the surface. A reference asks for no native call and needs no
    /// look at the render target; an owning surface asks for what
    /// `handle_bitmap_destruction` plans for a top-level surface.
    pub fn destroy(self, target: usize, target_parent: usize) -> (calls: Vec<NativeCall>)
        requires
            !self.is_reference() ==> target != 0,
        ensures
            calls@ == self.destroy_calls(target, target_parent),
    {
        if self.is_ref {
            Vec::new()
        } else {
            handle_bitmap_destruction(self.allegro_bitmap, false, target, target_parent)
        }
    }
}

impl MemoryBitmap {
    /// The native handle.
    pub closed spec fn handle(&self) -> usize {
        self.allegro_bitmap
    }

    /// A locked surface never holds null.
    #[verifier::type_invariant]
    closed spec fn inv(&self) -> bool {
        self.allegro_bitmap != 0
    }

    /// Whether `b` is what unlocking this surface gives: the owning surface
    /// over the same handle.
    pub open spec fn unlocks_into(self, b: Bitmap) -> bool {
        b.handle() == self.handle() && !b.is_reference()
    }

    /// The native handle.
    pub fn get_bitmap(&self) -> (h: usize)
        ensures
            h == self.handle(),
            h != 0,
    {
        proof {
            use_type_invariant(self);
        }
        self.allegro_bitmap
    }

    /// Hands the handle back to an owning surface. This always succeeds.
    pub fn into_bitmap(self) -> (b: Bitmap)
        ensures
            self.unlocks_into(b),
    {
        proof {
            use_type_invariant(&self);
        }
        Bitmap { allegro_bitmap: self.allegro_bitmap, is_ref: false, no_send_marker: PhantomData }
    }

    /// Ends the locked surface as an owning surface ends: the render target
    /// is looked at first, so that it is redirected should it ever name this
    /// handle.
    pub fn destroy(self, target: usize, target_parent: usize) -> (calls: Vec<NativeCall>)
        requires
            target != 0,
        ensures
            calls@ == destruction_calls(self.handle(), false, target, target_parent),
    {
        handle_bitmap_destruction(self.allegro_bitmap, false, target, target_parent)
    }
}

impl<'m> SubBitmap<'m> {
    /// The native alias handle.
    pub closed spec fn handle(&self) -> usize {
        self.allegro_bitmap
    }

    /// The top-level surface whose storage the view looks into.
    pub closed spec fn owner(&self) -> &'m Bitmap {
        self.parent
    }

    /// A sub-view never holds null.
    #[verifier::type_invariant]
    closed spec fn inv(&self) -> bool {
        self.allegro_bitmap != 0
    }

    /// The native alias handle.
    pub fn get_bitmap(&self) -> (h: usize)
        ensures
            h == self.handle(),
            h != 0,
    {
        proof {
            use_type_invariant(self);
        }
        self.allegro_bitmap
    }

    /// Wraps the alias handle that the native library returned for a
    /// rectangle of this view. The new view borrows the top-level owner.
    pub fn create_sub_bitmap(&self, created: usize) -> (r: Result<SubBitmap<'m>, AllocationError>)
        ensures
            self.owner().adopts_sub_view(r, created),
    {
        if created == 0 {
            Err(AllocationError)
        } else {
            Ok(SubBitmap { allegro_bitmap: created, parent: self.parent })
        }
    }

    /// The top-level surface whose storage the view looks into.
    pub fn get_parent(&self) -> (p: &'m Bitmap)
        ensures
            p == self.owner(),
    {
        self.parent
    }

    /// Wraps what the native duplication call returned for this view: an
    /// owning surface that no longer depends on the view's owner.
    pub fn to_bitmap(&self, cloned: usize) -> (r: Result<Bitmap, AllocationError>)
        ensures
            Bitmap::adopts(r, cloned),
    {
        clone_bitmap(cloned)
    }

    /// Ends the view: what `handle_bitmap_destruction` plans for a sub-view.
    pub fn destroy(self, target: usize, target_parent: usize) -> (calls: Vec<NativeCall>)
        requires
            target != 0,
        ensures
            calls@ == destruction_calls(self.handle(), true, target, target_parent),
    {
        handle_bitmap_destruction(self.allegro_bitmap, true, target, target_parent)
    }
}

/// Locking and unlocking gives the surface back: where locking `b` gave `m`
/// and unlocking `m` gave `u`, then `u` is `b`, handle and reference flag
/// alike, and `m` held that handle in between.
pub proof fn lemma_lock_round_trip(b: Bitmap, memory: bool, m: MemoryBitmap, u: Bitmap)
    requires
        b.locks_into(memory, Ok(m)),
        m.unlocks_into(u),
    ensures
        m.handle() == b.handle(),
        u.handle() == b.handle(),
        u.is_reference() == b.is_reference(),
        u == b,
{
}

/// A failed lock loses nothing: a surface whose storage is not addressable,
/// or whose handle is borrowed, comes back as it was, and only such a
/// surface comes back.
pub proof fn lemma_lock_failure_returns_surface(b: Bitmap, memory: bool, r: Result<MemoryBitmap, Bitmap>)
    requires
        b.locks_into(memory, r),
    ensures
        !b.lockable(memory) <==> r == Err::<MemoryBitmap, Bitmap>(b),
        b.lockable(memory) <==> r is Ok,
{
}

/// Sub-views flatten: where `first` is a sub-view of `owner`, a sub-view
/// `nested` made from `first` and a sub-view `direct` made from `owner` are
/// bound to the same top-level surface, which is `owner`.
pub proof fn lemma_alias_flattening<'a>(
    owner: &'a Bitmap,
    first: SubBitmap<'a>,
    nested: SubBitmap<'a>,
    direct: SubBitmap<'a>,
    h1: usize,
    h2: usize,
    h3: usize,
)
    requires
        owner.adopts_sub_view(Ok(first), h1),
        first.owner().adopts_sub_view(Ok(nested), h2),
        owner.adopts_sub_view(Ok(direct), h3),
    ensures
        nested.owner() == owner,
        nested.owner() == direct.owner(),
        nested.owner() == first.owner(),
{
}

} // verus!
