//! Verified core of a safe wrapper around a native media-list player.
//!
//! The native playback library is reached through foreign calls on raw
//! addresses, which verified code cannot make. This crate therefore holds
//! everything the wrapper decides, and nothing it performs: for each
//! operation it names the native call to make, with the exact addresses and
//! flags, as a [`NativeCall`] value, and it turns what the native library
//! answered into the wrapper's own types. The crate that links the native
//! library performs each [`NativeCall`] as it is given and hands the answer
//! back as a plain address or integer.
//!
//! Playback state lives in the native library alone. Nothing here mirrors it.

pub mod handles;
pub mod media_list_player;
pub mod native_call;

pub use handles::{EventManager, Instance, MediaList, MediaPlayer};
pub use media_list_player::MediaListPlayer;
pub use native_call::NativeCall;
