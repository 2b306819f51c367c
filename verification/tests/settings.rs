use platform::audio::audio_settings;
use platform::window::fullscreen_target;
use platform::window::is_fullscreen_state;
use platform::window::scaled_window_size;
use platform::window::FullscreenState;

#[test]
fn audio_settings_keep_values_that_fit() {
    let s = audio_settings(44100, 2, 1024);
    assert_eq!(s.freq, 44100);
    assert_eq!(s.channels, 2);
    assert_eq!(s.samples, 1024);
}

#[test]
fn audio_settings_narrow_like_plain_casts() {
    let s = audio_settings(u32::MAX, 258, 70000);
    assert_eq!(s.freq, -1);
    assert_eq!(s.channels, 2);
    assert_eq!(s.samples, 4464);
}

#[test]
fn fullscreen_flag_round_trips() {
    assert!(is_fullscreen_state(fullscreen_target(true)));
    assert!(!is_fullscreen_state(fullscreen_target(false)));
}

#[test]
fn only_the_exclusive_state_counts_as_fullscreen() {
    assert!(is_fullscreen_state(FullscreenState::Exclusive));
    assert!(!is_fullscreen_state(FullscreenState::Off));
    assert!(!is_fullscreen_state(FullscreenState::Desktop));
}

#[test]
fn the_window_opens_at_the_scaled_frame_size() {
    assert_eq!(scaled_window_size(256, 224, 3), (768, 672));
    assert_eq!(scaled_window_size(160, 120, 1), (160, 120));
}
