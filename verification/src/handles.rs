//! The native resources that a media-list player borrows or hands out.
//!
//! Each type stands for one live native resource and holds its raw address,
//! which is never null. None of them owns or releases anything here: creating
//! and releasing these resources is the business of whoever made them.

use core::marker::PhantomData;
use vstd::prelude::*;

verus! {

/// Says that `handle` is what wrapping the raw address `raw` gives: nothing
/// for the null address, and otherwise a handle on exactly that address.
pub open spec fn wraps<H: View<V = usize>>(handle: Option<H>, raw: usize) -> bool {
    match handle {
        Some(h) => raw != 0 && h@ == raw,
        None => raw == 0,
    }
}

/// An initialized instance of the native library.
#[derive(Debug)]
pub struct Instance {
    ptr: usize,
}

impl View for Instance {
    type V = usize;

    /// The raw address of the native instance.
    closed spec fn view(&self) -> usize {
        self.ptr
    }
}

impl Instance {
    /// Every instance is on a non-null address.
    #[verifier::type_invariant]
    pub open spec fn wf(&self) -> bool {
        self@ != 0
    }

    /// Wraps the raw address of a native instance; the null address gives
    /// nothing.
    pub fn from_raw(raw: usize) -> (instance: Option<Instance>)
        ensures
            wraps(instance, raw),
    {
        if raw == 0 {
            None
        } else {
            Some(Instance { ptr: raw })
        }
    }

    /// The raw address of the native instance.
    pub fn raw(&self) -> (addr: usize)
        ensures
            addr == self@,
            addr != 0,
    {
        proof {
            use_type_invariant(self);
        }
        self.ptr
    }
}

/// A native media player, as a media-list player uses one to play its items.
#[derive(Debug)]
pub struct MediaPlayer {
    ptr: usize,
}

impl View for MediaPlayer {
    type V = usize;

    /// The raw address of the native media player.
    closed spec fn view(&self) -> usize {
        self.ptr
    }
}

impl MediaPlayer {
    /// Every media player is on a non-null address.
    #[verifier::type_invariant]
    pub open spec fn wf(&self) -> bool {
        self@ != 0
    }

    /// Wraps the raw address of a native media player; the null address
    /// gives nothing.
    pub fn from_raw(raw: usize) -> (player: Option<MediaPlayer>)
        ensures
            wraps(player, raw),
    {
        if raw == 0 {
            None
        } else {
            Some(MediaPlayer { ptr: raw })
        }
    }

    /// The raw address of the native media player.
    pub fn raw(&self) -> (addr: usize)
        ensures
            addr == self@,
            addr != 0,
    {
        proof {
            use_type_invariant(self);
        }
        self.ptr
    }
}

/// A native media list: the items that a media-list player plays in turn.
#[derive(Debug)]
pub struct MediaList {
    ptr: usize,
}

impl View for MediaList {
    type V = usize;

    /// The raw address of the native media list.
    closed spec fn view(&self) -> usize {
        self.ptr
    }
}

impl MediaList {
    /// Every media list is on a non-null address.
    #[verifier::type_invariant]
    pub open spec fn wf(&self) -> bool {
        self@ != 0
    }

    /// Wraps the raw address of a native media list; the null address gives
    /// nothing.
    pub fn from_raw(raw: usize) -> (list: Option<MediaList>)
        ensures
            wraps(list, raw),
    {
        if raw == 0 {
            None
        } else {
            Some(MediaList { ptr: raw })
        }
    }

    /// The raw address of the native media list.
    pub fn raw(&self) -> (addr: usize)
        ensures
            addr == self@,
            addr != 0,
    {
        proof {
            use_type_invariant(self);
        }
        self.ptr
    }
}

/// The event-notification channel of a native resource.
///
/// It belongs to the resource it was asked of and is gone with it, so a value
/// of this type borrows that resource's handle for `'a` and cannot outlive it.
#[derive(Debug)]
pub struct EventManager<'a> {
    ptr: usize,
    owner: PhantomData<&'a ()>,
}

impl<'a> View for EventManager<'a> {
    type V = usize;

    /// The raw address of the native event manager.
    closed spec fn view(&self) -> usize {
        self.ptr
    }
}

impl<'a> EventManager<'a> {
    /// Every event manager is on a non-null address.
    #[verifier::type_invariant]
    pub open spec fn wf(&self) -> bool {
        self@ != 0
    }

    /// Wraps the raw address of the event manager of a resource whose handle
    /// is borrowed for `'a`. Only the handle's own accessor calls this, which
    /// is what ties `'a` to the handle.
    pub(crate) fn attached(raw: usize) -> (manager: EventManager<'a>)
        requires
            raw != 0,
        ensures
            manager@ == raw,
    {
        EventManager { ptr: raw, owner: PhantomData }
    }

    /// The raw address of the native event manager.
    pub fn raw(&self) -> (addr: usize)
        ensures
            addr == self@,
            addr != 0,
    {
        proof {
            use_type_invariant(self);
        }
        self.ptr
    }
}

} // verus!
