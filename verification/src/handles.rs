//! Scoped ownership of native handles.
//!
//! A guard owns one handle of the operating system. It is consumed by
//! `release`, which says what has to be handed back to the system: the handle,
//! unless it is null. As the guard is moved into `release`, a handle cannot be
//! handed back twice.

use vstd::prelude::*;

verus! {

/// The categories of native handles, each with its own way of release.
#[derive(Clone, Copy, Debug, PartialEq, Eq, Structural)]
pub enum HandleKind {
    /// A loaded module, released by unloading it.
    Module,
    /// A device context of the screen.
    DeviceContext,
    /// A bitmap: the mask or the colour plane of an icon.
    Bitmap,
    /// An icon.
    Icon,
}

/// A native handle: its category and its value, zero for the null handle.
#[derive(Clone, Copy, Debug, PartialEq, Eq, Structural)]
pub struct NativeHandle {
    pub kind: HandleKind,
    pub raw: usize,
}

impl NativeHandle {
    /// Whether this is the null handle of its category.
    pub open spec fn is_null(self) -> bool {
        self.raw == 0
    }
}

/// What releasing a guard over `handle` hands back to the system.
pub open spec fn release_of(handle: NativeHandle) -> Option<NativeHandle> {
    if handle.is_null() {
        None
    } else {
        Some(handle)
    }
}

/// The exclusive owner of one native handle.
#[derive(Debug)]
pub struct HandleGuard {
    handle: NativeHandle,
}

impl View for HandleGuard {
    type V = NativeHandle;

    closed spec fn view(&self) -> NativeHandle {
        self.handle
    }
}

impl HandleGuard {
    /// Takes ownership of the handle `raw` of category `kind`. A null handle
    /// may be guarded: its release does nothing.
    pub fn new(kind: HandleKind, raw: usize) -> (guard: HandleGuard)
        ensures
            guard@ == (NativeHandle { kind, raw }),
    {
        HandleGuard { handle: NativeHandle { kind, raw } }
    }

    /// A guard that owns nothing.
    pub fn empty(kind: HandleKind) -> (guard: HandleGuard)
        ensures
            guard@ == (NativeHandle { kind, raw: 0 }),
    {
        HandleGuard { handle: NativeHandle { kind, raw: 0 } }
    }

    /// The guarded handle, which stays owned by the guard.
    pub fn handle(&self) -> (h: NativeHandle)
        ensures
            h == self@,
    {
        self.handle
    }

    /// The value of the guarded handle.
    pub fn raw(&self) -> (raw: usize)
        ensures
            raw == self@.raw,
    {
        self.handle.raw
    }

    /// Ends the guard's scope: returns the handle that the system must get
    /// back, or `None` where the guard held the null handle.
    pub fn release(self) -> (r: Option<NativeHandle>)
        ensures
            r == release_of(self@),
    {
        if self.handle.raw == 0 {
            None
        } else {
            Some(self.handle)
        }
    }
}

/// The handles that guards over `guarded` hand back, in order: the non-null
/// ones, each as often as it is guarded.
pub open spec fn releases_of(guarded: Seq<NativeHandle>) -> Seq<NativeHandle> {
    guarded.filter(|h: NativeHandle| !h.is_null())
}

/// The handles that a sequence of guards owns.
pub open spec fn guarded_by(guards: Seq<HandleGuard>) -> Seq<NativeHandle> {
    guards.map_values(|g: HandleGuard| g@)
}

/// One more guard adds its handle to the releases, unless the handle is null.
pub proof fn lemma_releases_push(guarded: Seq<NativeHandle>, handle: NativeHandle)
    ensures
        releases_of(guarded.push(handle)) == if handle.is_null() {
            releases_of(guarded)
        } else {
            releases_of(guarded).push(handle)
        },
{
    reveal(Seq::filter);
    assert(guarded.push(handle).drop_last() =~= guarded);
}

/// The releases of two sequences of guards, one after the other.
pub proof fn lemma_releases_add(first: Seq<NativeHandle>, second: Seq<NativeHandle>)
    ensures
        releases_of(first + second) == releases_of(first) + releases_of(second),
{
    Seq::filter_distributes_over_add(first, second, |h: NativeHandle| !h.is_null());
}

/// Ends the scope of all the guards, from the first to the last, and returns
/// the handles that the system must get back.
pub fn release_all(guards: Vec<HandleGuard>) -> (released: Vec<NativeHandle>)
    ensures
        released@ == releases_of(guarded_by(guards@)),
{
    let mut guards = guards;
    let ghost all = guarded_by(guards@);
    let mut released: Vec<NativeHandle> = Vec::new();
    let ghost mut done: int = 0;
    assert(all.take(0) =~= Seq::<NativeHandle>::empty());
    proof {
        reveal(Seq::filter);
    }
    while guards.len() > 0
        invariant
            0 <= done <= all.len(),
            guarded_by(guards@) == all.skip(done),
            released@ == releases_of(all.take(done)),
        decreases guards.len(),
    {
        let ghost before = guards@;
        assert(guarded_by(before).len() == before.len());
        assert(guarded_by(before)[0] == before[0]@);
        let guard = guards.remove(0);
        proof {
            assert(all.skip(done)[0] == all[done]);
            assert(guard@ == all[done]);
            assert(all.take(done + 1) =~= all.take(done).push(all[done]));
            lemma_releases_push(all.take(done), all[done]);
            assert(guards@ == before.remove(0));
            assert forall|i: int| 0 <= i < guards@.len() implies guarded_by(guards@)[i]
                == all.skip(done + 1)[i] by {
                assert(guards@[i] == before[i + 1]);
                assert(guarded_by(before)[i + 1] == before[i + 1]@);
                assert(all.skip(done)[i + 1] == all[done + 1 + i]);
            }
            assert(guarded_by(guards@) =~= all.skip(done + 1));
            done = done + 1;
        }
        match guard.release() {
            Some(handle) => {
                released.push(handle);
            },
            None => {},
        }
    }
    assert(all.take(done) =~= all);
    released
}

} // verus!
