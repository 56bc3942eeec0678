//! The calls that the wrapper makes into the native library, as plain data.

use vstd::prelude::*;

verus! {

/// One call into the native playback library, together with the values it is
/// made with. Every address is the raw address of a live native resource;
/// `list_player` is always the media-list player the call is made on.
///
/// Three calls answer with an address (`New`, `GetMediaPlayer`,
/// `EventManager`), one with an integer status (`IsPlaying`); the others
/// answer nothing.
#[derive(Clone, Copy, Debug, PartialEq, Eq, Structural)]
pub enum NativeCall {
    /// Create a media-list player inside the library instance at `instance`.
    New { instance: usize },
    /// Make the list player use the media player at `media_player`.
    SetMediaPlayer { list_player: usize, media_player: usize },
    /// Ask which media player the list player uses.
    GetMediaPlayer { list_player: usize },
    /// Make the list player play the media list at `media_list`.
    SetMediaList { list_player: usize, media_list: usize },
    /// Ask for the list player's event-notification channel.
    EventManager { list_player: usize },
    /// Ask whether the list player is playing.
    IsPlaying { list_player: usize },
    /// Start playback.
    Play { list_player: usize },
    /// Pause (`do_pause` is 1) or resume (`do_pause` is 0) playback.
    SetPause { list_player: usize, do_pause: i32 },
    /// Toggle between paused and playing.
    Pause { list_player: usize },
    /// Stop playback.
    Stop { list_player: usize },
    /// Give the list player back to the native library.
    Release { list_player: usize },
}

} // verus!
