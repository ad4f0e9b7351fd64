use visualizer::color::{fade_blue, rgb};
use visualizer::settings::{listen_to_other_keybindings, KeyPresses, Settings, WindowRequest};

fn no_keys() -> KeyPresses {
    KeyPresses { g: false, h: false, equal: false, minus: false, backspace: false, f11: false, b: false }
}

fn sample_settings() -> Settings {
    Settings::new(true, true, false, 100, (800, 600), true)
}

#[test]
fn rgb_packs_red_green_blue() {
    assert_eq!(rgb(255, 0, 0), 0x0000FF);
    assert_eq!(rgb(0, 255, 0), 0x00FF00);
    assert_eq!(rgb(0, 0, 255), 0xFF0000);
    assert_eq!(rgb(1, 2, 3), 0x030201);
    assert_eq!(rgb(255, 255, 255), 0xFFFFFF);
}

#[test]
fn rgb_channels_come_back_out() {
    let c = rgb(18, 52, 86);
    assert_eq!(c & 0xff, 18);
    assert_eq!((c >> 8) & 0xff, 52);
    assert_eq!((c >> 16) & 0xff, 86);
    assert_eq!(c >> 24, 0);
    assert_ne!(rgb(1, 0, 0), rgb(0, 1, 0));
}

#[test]
fn fade_blue_values() {
    assert_eq!(fade_blue(0), 150);
    assert_eq!(fade_blue(100), 50);
    assert_eq!(fade_blue(149), 1);
    assert_eq!(fade_blue(150), 0);
    assert_eq!(fade_blue(255), 0);
}

#[test]
fn settings_new_and_default() {
    let s = sample_settings();
    assert!(s.fps_toggle && s.circle_toggle && !s.ffi_enabled && s.notif_closed);
    assert_eq!(s.opacity, 100);
    assert_eq!(s.size, (800, 600));
    let d = Settings::default();
    assert_eq!(d, Settings::new(true, true, false, 255, (1024, 1000), false));
}

#[test]
fn hint_answer_dismisses_only_on_buttons() {
    let mut s = Settings::default();
    s.record_hint_answer(-1);
    assert!(!s.notif_closed);
    s.record_hint_answer(2);
    assert!(!s.notif_closed);
    s.record_hint_answer(1);
    assert!(s.notif_closed);
    let mut t = Settings::default();
    t.record_hint_answer(0);
    assert!(t.notif_closed);
}

#[test]
fn g_toggles_circle_and_twice_restores() {
    let mut s = sample_settings();
    let keys = KeyPresses { g: true, ..no_keys() };
    let r = listen_to_other_keybindings(&mut s, keys, false, (1920, 1080), (500, 500));
    assert_eq!(r, WindowRequest::Nothing);
    assert!(!s.circle_toggle);
    listen_to_other_keybindings(&mut s, keys, false, (1920, 1080), (500, 500));
    assert_eq!(s, sample_settings());
}

#[test]
fn h_toggles_fps() {
    let mut s = sample_settings();
    listen_to_other_keybindings(&mut s, KeyPresses { h: true, ..no_keys() }, false, (1920, 1080), (500, 500));
    assert!(!s.fps_toggle);
    assert!(s.circle_toggle);
}

#[test]
fn first_key_in_order_wins() {
    let mut s = sample_settings();
    let keys = KeyPresses { g: true, h: true, minus: true, b: true, ..no_keys() };
    listen_to_other_keybindings(&mut s, keys, false, (1920, 1080), (500, 500));
    assert!(!s.circle_toggle);
    assert!(s.fps_toggle);
    assert_eq!(s.opacity, 100);
    assert!(s.notif_closed);
}

#[test]
fn minus_wins_over_equal() {
    let mut s = sample_settings();
    listen_to_other_keybindings(&mut s, KeyPresses { equal: true, minus: true, ..no_keys() }, false, (1, 1), (1, 1));
    assert_eq!(s.opacity, 95);
}

#[test]
fn opacity_steps_and_bounds() {
    let mut s = sample_settings();
    listen_to_other_keybindings(&mut s, KeyPresses { equal: true, ..no_keys() }, false, (1, 1), (1, 1));
    assert_eq!(s.opacity, 105);
    s.opacity = 250;
    listen_to_other_keybindings(&mut s, KeyPresses { equal: true, ..no_keys() }, false, (1, 1), (1, 1));
    assert_eq!(s.opacity, 255);
    listen_to_other_keybindings(&mut s, KeyPresses { equal: true, ..no_keys() }, false, (1, 1), (1, 1));
    assert_eq!(s.opacity, 255);
    s.opacity = 252;
    listen_to_other_keybindings(&mut s, KeyPresses { equal: true, ..no_keys() }, false, (1, 1), (1, 1));
    assert_eq!(s.opacity, 252);
    s.opacity = 4;
    listen_to_other_keybindings(&mut s, KeyPresses { minus: true, ..no_keys() }, false, (1, 1), (1, 1));
    assert_eq!(s.opacity, 4);
    s.opacity = 5;
    listen_to_other_keybindings(&mut s, KeyPresses { minus: true, ..no_keys() }, false, (1, 1), (1, 1));
    assert_eq!(s.opacity, 0);
}

#[test]
fn opacity_down_then_up_restores() {
    let mut s = sample_settings();
    s.opacity = 255;
    listen_to_other_keybindings(&mut s, KeyPresses { minus: true, ..no_keys() }, false, (1, 1), (1, 1));
    listen_to_other_keybindings(&mut s, KeyPresses { equal: true, ..no_keys() }, false, (1, 1), (1, 1));
    assert_eq!(s.opacity, 255);
    s.opacity = 0;
    listen_to_other_keybindings(&mut s, KeyPresses { equal: true, ..no_keys() }, false, (1, 1), (1, 1));
    listen_to_other_keybindings(&mut s, KeyPresses { minus: true, ..no_keys() }, false, (1, 1), (1, 1));
    assert_eq!(s.opacity, 0);
}

#[test]
fn backspace_minimizes_or_restores() {
    let mut s = sample_settings();
    let keys = KeyPresses { backspace: true, ..no_keys() };
    assert_eq!(listen_to_other_keybindings(&mut s, keys, false, (1, 1), (1, 1)), WindowRequest::Minimize);
    assert_eq!(listen_to_other_keybindings(&mut s, keys, true, (1, 1), (1, 1)), WindowRequest::Maximize);
    assert_eq!(s, sample_settings());
}

#[test]
fn f11_switches_between_monitor_and_saved_size() {
    let mut s = sample_settings();
    let keys = KeyPresses { f11: true, ..no_keys() };
    assert_eq!(
        listen_to_other_keybindings(&mut s, keys, false, (1920, 1080), (500, 400)),
        WindowRequest::Resize { width: 1920, height: 1080 }
    );
    s.size = (1920, 1080);
    assert_eq!(
        listen_to_other_keybindings(&mut s, keys, false, (1920, 1080), (500, 400)),
        WindowRequest::Resize { width: 500, height: 400 }
    );
    s.size = (800, 1080);
    assert_eq!(
        listen_to_other_keybindings(&mut s, keys, false, (1920, 1080), (500, 400)),
        WindowRequest::Resize { width: 500, height: 400 }
    );
    assert_eq!(s.size, (800, 1080));
}

#[test]
fn b_brings_hint_back() {
    let mut s = sample_settings();
    let r = listen_to_other_keybindings(&mut s, KeyPresses { b: true, ..no_keys() }, false, (1, 1), (1, 1));
    assert_eq!(r, WindowRequest::Nothing);
    assert!(!s.notif_closed);
}

#[test]
fn no_key_changes_nothing() {
    let mut s = sample_settings();
    let r = listen_to_other_keybindings(&mut s, no_keys(), true, (1, 1), (1, 1));
    assert_eq!(r, WindowRequest::Nothing);
    assert_eq!(s, sample_settings());
}
