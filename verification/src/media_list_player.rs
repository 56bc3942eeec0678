//! The media-list player handle: one owned native resource, and the calls
//! made on it.
//!
//! Operations that answer nothing return the [`NativeCall`] to make. An
//! operation that answers comes as a pair: `..._call` names the call, and the
//! operation itself takes what the native library answered and turns it into
//! the wrapper's result.

use core::marker::PhantomData;
use vstd::prelude::*;
use crate::handles::{wraps, EventManager, Instance, MediaList, MediaPlayer};
use crate::native_call::NativeCall;

verus! {

/// `core::cell::Cell` of the standard library, declared so that it can be
/// named in the marker field of [`MediaListPlayer`]. It stays opaque: no
/// value of it is ever made or read here, and nothing is claimed of it.
#[verifier::external_type_specification]
#[verifier::external_body]
#[verifier::reject_recursive_types(T)]
pub struct ExCell<T: ?Sized>(core::cell::Cell<T>);

/// A native media-list player, which plays the items of a media list one
/// after another.
///
/// A value of this type is the one owner of its native resource. It cannot be
/// copied or cloned, and giving the resource back consumes it (see
/// [`MediaListPlayer::release`]).
///
/// The handle may move to another thread, but two threads cannot share it:
/// the native library does not promise that calls on one list player may
/// overlap. The marker field makes the type `Send` and not `Sync`.
#[derive(Debug)]
pub struct MediaListPlayer {
    ptr: usize,
    unshared: PhantomData<core::cell::Cell<()>>,
}

impl View for MediaListPlayer {
    type V = usize;

    /// The raw address of the native media-list player.
    closed spec fn view(&self) -> usize {
        self.ptr
    }
}

impl MediaListPlayer {
    /// Every media-list player is on a non-null address.
    #[verifier::type_invariant]
    pub open spec fn wf(&self) -> bool {
        self@ != 0
    }

    /// The call that creates a media-list player inside `instance`. It
    /// answers with the address of the new resource, or with the null address
    /// when the native library could not make one; [`MediaListPlayer::new`]
    /// takes that answer.
    pub fn new_call(instance: &Instance) -> (call: NativeCall)
        ensures
            call == (NativeCall::New { instance: instance@ }),
            call->instance != 0,
    {
        NativeCall::New { instance: instance.raw() }
    }

    /// Takes ownership of the resource at `raw`, the answer to
    /// [`MediaListPlayer::new_call`]. The null address gives nothing: there is
    /// no handle on a null resource.
    ///
    /// The caller passes each answer here once. Two handles made from one
    /// address would both own the resource.
    pub fn new(raw: usize) -> (player: Option<MediaListPlayer>)
        ensures
            wraps(player, raw),
    {
        if raw == 0 {
            return None;
        }
        Some(MediaListPlayer { ptr: raw, unshared: PhantomData })
    }

    /// The call that makes this list player use `mdp` for playback.
    ///
    /// The media player is borrowed, not taken: it stays the caller's, and
    /// the caller keeps it alive for as long as the list player uses it.
    pub fn set_media_player(&self, mdp: &MediaPlayer) -> (call: NativeCall)
        ensures
            call == (NativeCall::SetMediaPlayer { list_player: self@, media_player: mdp@ }),
    {
        NativeCall::SetMediaPlayer { list_player: self.ptr, media_player: mdp.raw() }
    }

    /// The call that asks which media player this list player uses. It
    /// answers with that player's address, or with the null address when
    /// there is none; [`MediaListPlayer::get_media`] takes that answer.
    pub fn get_media_call(&self) -> (call: NativeCall)
        ensures
            call == (NativeCall::GetMediaPlayer { list_player: self@ }),
    {
        NativeCall::GetMediaPlayer { list_player: self.ptr }
    }

    /// The media player at `raw`, the answer to
    /// [`MediaListPlayer::get_media_call`]; nothing for the null address.
    ///
    /// What comes back is a further handle on the resource that the native
    /// library named, not a new resource: the same player may well be held
    /// elsewhere. A handle of this crate holds an address and releases
    /// nothing, so two of them on one player do no harm here. Whoever
    /// releases media players has to know whether the native library counted
    /// a reference for this answer, and may release this handle only if it
    /// did.
    pub fn get_media(&self, raw: usize) -> (player: Option<MediaPlayer>)
        ensures
            wraps(player, raw),
    {
        MediaPlayer::from_raw(raw)
    }

    /// The call that makes this list player play the items of `ml`.
    ///
    /// The media list is borrowed, as the media player is in
    /// [`MediaListPlayer::set_media_player`].
    pub fn set_media_list(&self, ml: &MediaList) -> (call: NativeCall)
        ensures
            call == (NativeCall::SetMediaList { list_player: self@, media_list: ml@ }),
    {
        NativeCall::SetMediaList { list_player: self.ptr, media_list: ml.raw() }
    }

    /// The call that asks for this list player's event manager. It answers
    /// with the event manager's address;
    /// [`MediaListPlayer::event_manager`] takes that answer.
    pub fn event_manager_call(&self) -> (call: NativeCall)
        ensures
            call == (NativeCall::EventManager { list_player: self@ }),
    {
        NativeCall::EventManager { list_player: self.ptr }
    }

    /// The event manager at `raw`, the answer to
    /// [`MediaListPlayer::event_manager_call`]. It borrows this handle and
    /// cannot outlive it.
    ///
    /// A live list player always has an event manager. A null answer means
    /// that the native library broke its word, and there is nothing to
    /// recover: the caller must stop on it, not pass it on.
    pub fn event_manager<'a>(&'a self, raw: usize) -> (manager: EventManager<'a>)
        requires
            raw != 0,
        ensures
            manager@ == raw,
    {
        EventManager::attached(raw)
    }

    /// The call that asks whether this list player is playing. It answers
    /// with an integer status; [`MediaListPlayer::is_playing`] takes that
    /// answer.
    pub fn is_playing_call(&self) -> (call: NativeCall)
        ensures
            call == (NativeCall::IsPlaying { list_player: self@ }),
    {
        NativeCall::IsPlaying { list_player: self.ptr }
    }

    /// Whether the list player is playing, from `status`, the answer to
    /// [`MediaListPlayer::is_playing_call`]: zero means no, any other value
    /// yes.
    pub fn is_playing(&self, status: i32) -> (playing: bool)
        ensures
            playing == (status != 0),
    {
        if status == 0 {
            false
        } else {
            true
        }
    }

    /// The call that starts playback.
    ///
    /// The native call gives no sign of failure, so this never fails either;
    /// the result type leaves room for a failure that a later native
    /// interface might report.
    pub fn play(&self) -> (started: Result<NativeCall, ()>)
        ensures
            started == Ok::<NativeCall, ()>(NativeCall::Play { list_player: self@ }),
    {
        Ok(NativeCall::Play { list_player: self.ptr })
    }

    /// The call that pauses playback if `do_pause` holds and resumes it
    /// otherwise, with the flag as the native library reads it: 1 to pause,
    /// 0 to resume. The native library does nothing when there is no media.
    pub fn set_pause(&self, do_pause: bool) -> (call: NativeCall)
        ensures
            call == (NativeCall::SetPause {
                list_player: self@,
                do_pause: if do_pause { 1i32 } else { 0i32 },
            }),
    {
        NativeCall::SetPause { list_player: self.ptr, do_pause: if do_pause { 1 } else { 0 } }
    }

    /// The call that toggles between paused and playing. The native library
    /// does nothing when there is no media.
    pub fn pause(&self) -> (call: NativeCall)
        ensures
            call == (NativeCall::Pause { list_player: self@ }),
    {
        NativeCall::Pause { list_player: self.ptr }
    }

    /// The call that stops playback. The native library does nothing when
    /// there is no media.
    pub fn stop(&self) -> (call: NativeCall)
        ensures
            call == (NativeCall::Stop { list_player: self@ }),
    {
        NativeCall::Stop { list_player: self.ptr }
    }

    /// The raw address of the native media-list player, never null.
    ///
    /// This steps around the handle: whatever is done to the resource through
    /// the address is done behind the handle's back, and the resource stays
    /// owned by the handle.
    pub fn raw(&self) -> (addr: usize)
        ensures
            addr == self@,
            addr != 0,
    {
        proof {
            use_type_invariant(self);
        }
        self.ptr
    }

    /// Gives the resource back: consumes the handle and names the call that
    /// releases its resource.
    ///
    /// The handle is gone after this, so no second release of the same
    /// resource can be asked of it, nor any other call. The owner of a handle
    /// performs this call when it is done with the handle, on every path.
    pub fn release(self) -> (call: NativeCall)
        ensures
            call == (NativeCall::Release { list_player: self@ }),
            self@ != 0,
    {
        proof {
            use_type_invariant(&self);
        }
        NativeCall::Release { list_player: self.ptr }
    }

    /// Asking for the current media player after binding one gives the bound
    /// player back. `bind` is the call that binds `mdp` to this list player,
    /// `answer` what the native library answers when asked for the current
    /// player, and `current` what [`MediaListPlayer::get_media`] makes of that
    /// answer. If the native library answers with the address it was given,
    /// `current` is a handle on the resource of `mdp`.
    pub proof fn lemma_current_player_is_bound_player(
        self,
        mdp: MediaPlayer,
        bind: NativeCall,
        answer: usize,
        current: Option<MediaPlayer>,
    )
        requires
            mdp.wf(),
            bind == (NativeCall::SetMediaPlayer { list_player: self@, media_player: mdp@ }),
            answer == bind->media_player,
            wraps(current, answer),
        ensures
            current matches Some(player) && player@ == mdp@,
    {
    }
}

} // verus!
