use media_list_player::{Instance, MediaList, MediaListPlayer, MediaPlayer, NativeCall};

fn list_player(raw: usize) -> MediaListPlayer {
    match MediaListPlayer::new(raw) {
        Some(player) => player,
        None => panic!("no handle for address {}", raw),
    }
}

fn media_player(raw: usize) -> MediaPlayer {
    match MediaPlayer::from_raw(raw) {
        Some(player) => player,
        None => panic!("no media player for address {}", raw),
    }
}

fn takes_send<T: Send>(value: T) -> T {
    value
}

#[test]
fn new_call_names_the_instance() {
    let instance = Instance::from_raw(0x1000).unwrap();
    assert_eq!(MediaListPlayer::new_call(&instance), NativeCall::New { instance: 0x1000 });
}

#[test]
fn new_gives_nothing_for_the_null_address() {
    assert!(MediaListPlayer::new(0).is_none());
}

#[test]
fn new_wraps_the_address_it_was_given() {
    let player = MediaListPlayer::new(0x2000);
    assert!(player.is_some());
    assert_eq!(player.unwrap().raw(), 0x2000);
}

#[test]
fn new_never_wraps_null() {
    for raw in [0usize, 1, 2, 0x2000, usize::MAX] {
        match MediaListPlayer::new(raw) {
            Some(player) => {
                assert_ne!(raw, 0);
                assert_ne!(player.raw(), 0);
                assert_eq!(player.raw(), raw);
            }
            None => assert_eq!(raw, 0),
        }
    }
}

#[test]
fn raw_is_the_wrapped_address() {
    assert_eq!(list_player(1).raw(), 1);
    assert_eq!(list_player(usize::MAX).raw(), usize::MAX);
}

#[test]
fn set_media_player_names_both_resources() {
    let player = list_player(0x2000);
    let mdp = media_player(0x3000);
    assert_eq!(
        player.set_media_player(&mdp),
        NativeCall::SetMediaPlayer { list_player: 0x2000, media_player: 0x3000 }
    );
    assert_eq!(mdp.raw(), 0x3000);
}

#[test]
fn get_media_call_names_the_list_player() {
    let player = list_player(0x2000);
    assert_eq!(player.get_media_call(), NativeCall::GetMediaPlayer { list_player: 0x2000 });
}

#[test]
fn get_media_gives_nothing_when_none_is_bound() {
    let player = list_player(0x2000);
    assert!(player.get_media(0).is_none());
}

#[test]
fn get_media_wraps_the_answer() {
    let player = list_player(0x2000);
    let current = player.get_media(0x3000);
    assert!(current.is_some());
    assert_eq!(current.unwrap().raw(), 0x3000);
}

#[test]
fn current_player_after_binding_is_the_bound_player() {
    let player = list_player(0x2000);
    let mdp = media_player(0x3000);
    let answer = match player.set_media_player(&mdp) {
        NativeCall::SetMediaPlayer { media_player, .. } => media_player,
        other => panic!("not a binding call: {:?}", other),
    };
    let current = player.get_media(answer).unwrap();
    assert_eq!(current.raw(), mdp.raw());
}

#[test]
fn set_media_list_names_both_resources() {
    let player = list_player(0x2000);
    let ml = MediaList::from_raw(0x4000).unwrap();
    assert_eq!(
        player.set_media_list(&ml),
        NativeCall::SetMediaList { list_player: 0x2000, media_list: 0x4000 }
    );
    assert_eq!(ml.raw(), 0x4000);
}

#[test]
fn event_manager_call_names_the_list_player() {
    let player = list_player(0x2000);
    assert_eq!(player.event_manager_call(), NativeCall::EventManager { list_player: 0x2000 });
}

#[test]
fn event_manager_wraps_the_answer() {
    let player = list_player(0x2000);
    let manager = player.event_manager(0x5000);
    assert_eq!(manager.raw(), 0x5000);
    assert_eq!(player.raw(), 0x2000);
}

#[test]
fn is_playing_call_names_the_list_player() {
    let player = list_player(0x2000);
    assert_eq!(player.is_playing_call(), NativeCall::IsPlaying { list_player: 0x2000 });
}

#[test]
fn is_playing_is_false_for_status_zero() {
    let player = list_player(0x2000);
    assert!(!player.is_playing(0));
}

#[test]
fn is_playing_is_true_for_any_other_status() {
    let player = list_player(0x2000);
    assert!(player.is_playing(1));
    assert!(player.is_playing(2));
    assert!(player.is_playing(-1));
    assert!(player.is_playing(i32::MAX));
    assert!(player.is_playing(i32::MIN));
}

#[test]
fn play_always_succeeds() {
    let player = list_player(0x2000);
    assert_eq!(player.play(), Ok(NativeCall::Play { list_player: 0x2000 }));
}

#[test]
fn set_pause_passes_the_flag_as_one_or_zero() {
    let player = list_player(0x2000);
    assert_eq!(
        player.set_pause(true),
        NativeCall::SetPause { list_player: 0x2000, do_pause: 1 }
    );
    assert_eq!(
        player.set_pause(false),
        NativeCall::SetPause { list_player: 0x2000, do_pause: 0 }
    );
}

#[test]
fn pausing_then_resuming_repeats_the_same_calls() {
    let player = list_player(0x2000);
    let first = (player.set_pause(true), player.set_pause(false));
    let second = (player.set_pause(true), player.set_pause(false));
    assert_eq!(first, second);
    assert_eq!(first.1, NativeCall::SetPause { list_player: 0x2000, do_pause: 0 });
    assert_eq!(player.raw(), 0x2000);
}

#[test]
fn pause_names_the_list_player() {
    let player = list_player(0x2000);
    assert_eq!(player.pause(), NativeCall::Pause { list_player: 0x2000 });
}

#[test]
fn stop_names_the_list_player() {
    let player = list_player(0x2000);
    assert_eq!(player.stop(), NativeCall::Stop { list_player: 0x2000 });
}

#[test]
fn forwarding_needs_no_media() {
    let player = list_player(0x2000);
    assert!(player.get_media(0).is_none());
    assert_eq!(player.play(), Ok(NativeCall::Play { list_player: 0x2000 }));
    assert_eq!(player.pause(), NativeCall::Pause { list_player: 0x2000 });
    assert_eq!(
        player.set_pause(true),
        NativeCall::SetPause { list_player: 0x2000, do_pause: 1 }
    );
    assert_eq!(player.stop(), NativeCall::Stop { list_player: 0x2000 });
    assert!(!player.is_playing(0));
}

#[test]
fn release_names_the_owned_resource() {
    let player = list_player(0x2000);
    assert_eq!(player.release(), NativeCall::Release { list_player: 0x2000 });
}

#[test]
fn each_handle_releases_its_own_resource() {
    let first = list_player(0x2000);
    let second = list_player(0x2100);
    assert_eq!(second.release(), NativeCall::Release { list_player: 0x2100 });
    assert_eq!(first.release(), NativeCall::Release { list_player: 0x2000 });
}

#[test]
fn handle_moves_to_another_owner() {
    let player = takes_send(list_player(0x2000));
    assert_eq!(player.raw(), 0x2000);
}

#[test]
fn collaborators_refuse_the_null_address() {
    assert!(Instance::from_raw(0).is_none());
    assert!(MediaPlayer::from_raw(0).is_none());
    assert!(MediaList::from_raw(0).is_none());
}

#[test]
fn collaborators_keep_their_address() {
    assert_eq!(Instance::from_raw(5).unwrap().raw(), 5);
    assert_eq!(MediaPlayer::from_raw(6).unwrap().raw(), 6);
    assert_eq!(MediaList::from_raw(7).unwrap().raw(), 7);
}

#[test]
fn native_calls_compare_by_function_and_arguments() {
    assert_eq!(NativeCall::Play { list_player: 1 }, NativeCall::Play { list_player: 1 });
    assert_ne!(NativeCall::Play { list_player: 1 }, NativeCall::Play { list_player: 2 });
    assert_ne!(NativeCall::Play { list_player: 1 }, NativeCall::Stop { list_player: 1 });
    assert_ne!(NativeCall::Pause { list_player: 1 }, NativeCall::Stop { list_player: 1 });
}
