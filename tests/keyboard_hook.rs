use rsautoclicker::keyboard_hook::{
    is_key_down, HookStation, KeyboardHook, HC_ACTION, WM_KEYDOWN, WM_SYSKEYDOWN,
};
use rsautoclicker::orchestrator::KeyCapture;
use rsautoclicker::settings::Settings;

fn registered(station: &HookStation<char>) -> Vec<u64> {
    let mut ids = Vec::new();
    for i in 0..station.subscriber_count() {
        ids.push(station.subscriber_id(i));
    }
    ids
}

#[test]
fn first_listener_installs_hook() {
    let mut station: HookStation<char> = HookStation::new();
    assert!(!station.is_installed());
    let (a, install_a) = KeyboardHook::new(&mut station, 'a');
    assert!(install_a);
    assert!(station.is_installed());
    let (b, install_b) = KeyboardHook::new(&mut station, 'b');
    assert!(!install_b);
    let (c, install_c) = KeyboardHook::new(&mut station, 'c');
    assert!(!install_c);
    assert_eq!(registered(&station), vec![a.id(), b.id(), c.id()]);
    assert_eq!(station.listeners_created(), 3);
}

#[test]
fn hook_installed_once_over_many_listeners() {
    let mut station: HookStation<u32> = HookStation::new();
    let mut installs = 0;
    for n in 0..20u32 {
        let (hook, install) = KeyboardHook::new(&mut station, n);
        if install {
            installs += 1;
        }
        hook.release(&mut station);
    }
    assert_eq!(installs, 1);
    assert_eq!(station.subscriber_count(), 0);
    assert!(station.is_installed());
}

#[test]
fn releasing_one_listener_keeps_the_other() {
    let mut station: HookStation<char> = HookStation::new();
    let (a, _) = KeyboardHook::new(&mut station, 'a');
    let (b, _) = KeyboardHook::new(&mut station, 'b');
    let b_id = b.id();
    a.release(&mut station);
    assert_eq!(registered(&station), vec![b_id]);
    assert_eq!(station.callbacks_for_event(HC_ACTION, WM_KEYDOWN), 1);
    assert_eq!(*station.callback_at(0), 'b');
}

#[test]
fn stop_and_start_pause_a_listener() {
    let mut station: HookStation<char> = HookStation::new();
    let (a, _) = KeyboardHook::new(&mut station, 'a');
    let (b, _) = KeyboardHook::new(&mut station, 'b');
    a.stop(&mut station);
    assert_eq!(registered(&station), vec![b.id()]);
    a.stop(&mut station);
    assert_eq!(registered(&station), vec![b.id()]);
    a.start(&mut station);
    assert_eq!(registered(&station), vec![b.id(), a.id()]);
    a.start(&mut station);
    assert_eq!(registered(&station), vec![b.id(), a.id()]);
    assert_eq!(*station.callback_at(1), 'a');
}

#[test]
fn release_after_stop_is_harmless() {
    let mut station: HookStation<char> = HookStation::new();
    let (a, _) = KeyboardHook::new(&mut station, 'a');
    let (b, _) = KeyboardHook::new(&mut station, 'b');
    let b_id = b.id();
    a.stop(&mut station);
    a.release(&mut station);
    assert_eq!(registered(&station), vec![b_id]);
}

#[test]
fn only_key_down_events_dispatch() {
    let mut station: HookStation<char> = HookStation::new();
    let _a = KeyboardHook::new(&mut station, 'a');
    let _b = KeyboardHook::new(&mut station, 'b');
    assert_eq!(station.callbacks_for_event(HC_ACTION, WM_KEYDOWN), 2);
    assert_eq!(station.callbacks_for_event(HC_ACTION, WM_SYSKEYDOWN), 2);
    assert_eq!(station.callbacks_for_event(HC_ACTION, 0x0101), 0);
    assert_eq!(station.callbacks_for_event(3, WM_KEYDOWN), 0);
    assert_eq!(station.callbacks_for_event(-1, WM_KEYDOWN), 0);
}

#[test]
fn key_down_messages() {
    assert!(is_key_down(0, 0x0100));
    assert!(is_key_down(0, 0x0104));
    assert!(!is_key_down(0, 0x0101));
    assert!(!is_key_down(0, 0x0105));
    assert!(!is_key_down(1, 0x0100));
}

#[test]
fn key_capture_binds_next_key() {
    let mut capture = KeyCapture::new();
    let mut settings = Settings::default();
    assert!(!capture.on_key_down(&mut settings, 0x41));
    assert_eq!(settings.activation_key, None);
    assert!(capture.begin());
    assert!(!capture.begin());
    assert!(capture.is_waiting());
    assert!(capture.on_key_down(&mut settings, 0x75));
    assert_eq!(settings.activation_key, Some(0x75));
    assert!(!capture.is_waiting());
    assert!(!capture.on_key_down(&mut settings, 0x42));
    assert_eq!(settings.activation_key, Some(0x75));
    assert_eq!(settings.click_delay_ms, 100);
}
