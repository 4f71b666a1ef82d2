use crate::clicker::{Clicker, ClickerStatus};
use crate::settings::Settings;
use vstd::prelude::*;

verus! {

/// Whether a key press is the configured activation key.
pub open spec fn is_activation(activation_key: Option<u32>, vk_code: u32) -> bool {
    activation_key == Some(vk_code)
}

/// What the shortcut listener does with a key going down: the activation key
/// toggles the clicker (stopping it when clicking, starting it when idle);
/// any other key, or any key while none is bound, changes nothing. A worker
/// record that the toggle stopped is handed back to be signalled and joined.
pub fn on_key_down<W, F: FnOnce() -> W>(clicker: &mut Clicker<W>, vk_code: u32, spawn: F) -> (r:
    Option<W>)
    requires
        spawn.requires(()),
    ensures
        final(clicker)@.settings == old(clicker)@.settings,
        !is_activation(old(clicker)@.settings.activation_key, vk_code) ==> r is None
            && final(clicker)@ == old(clicker)@,
        is_activation(old(clicker)@.settings.activation_key, vk_code) && old(clicker)@.status()
            == ClickerStatus::Clicking ==> r == old(clicker)@.worker && final(clicker)@.status()
            == ClickerStatus::Idle,
        is_activation(old(clicker)@.settings.activation_key, vk_code) && old(clicker)@.status()
            == ClickerStatus::Idle ==> r is None && final(clicker)@.status()
            == ClickerStatus::Clicking && spawn.ensures((), final(clicker)@.worker->Some_0),
{
    let matched = match clicker.settings().activation_key {
        Some(key) => key == vk_code,
        None => false,
    };
    if !matched {
        return None;
    }
    match clicker.status() {
        ClickerStatus::Clicking => clicker.stop(),
        ClickerStatus::Idle => {
            clicker.start(spawn);
            None
        },
    }
}

/// The rebinding of the activation key in the configuration window: after
/// `begin`, the next key that goes down becomes the activation key.
pub struct KeyCapture {
    waiting: bool,
}

impl Default for KeyCapture {
    fn default() -> (r: Self)
        ensures
            !r.waiting_spec(),
    {
        KeyCapture { waiting: false }
    }
}

impl KeyCapture {
    pub closed spec fn waiting_spec(&self) -> bool {
        self.waiting
    }

    pub fn new() -> (r: Self)
        ensures
            !r.waiting_spec(),
    {
        KeyCapture { waiting: false }
    }

    /// Whether a key press is awaited.
    pub fn is_waiting(&self) -> (r: bool)
        ensures
            r == self.waiting_spec(),
    {
        self.waiting
    }

    /// Starts waiting for a key; returns false, changing nothing, when
    /// already waiting.
    pub fn begin(&mut self) -> (r: bool)
        ensures
            r == !old(self).waiting_spec(),
            final(self).waiting_spec(),
    {
        if self.waiting {
            false
        } else {
            self.waiting = true;
            true
        }
    }

    /// A key went down. While waiting, it becomes the activation key, the
    /// wait ends, and the result is true (the window shows the new key);
    /// otherwise nothing changes.
    pub fn on_key_down(&mut self, settings: &mut Settings, vk_code: u32) -> (r: bool)
        ensures
            r == old(self).waiting_spec(),
            !final(self).waiting_spec(),
            r ==> *final(settings) == (Settings { activation_key: Some(vk_code), ..*old(settings) }),
            !r ==> *final(settings) == *old(settings),
    {
        if self.waiting {
            settings.activation_key = Some(vk_code);
            self.waiting = false;
            true
        } else {
            false
        }
    }
}

} // verus!
