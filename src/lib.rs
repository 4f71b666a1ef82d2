//! An auto-clicker's core: the clicker's start/stop state machine and the
//! turns of its worker, the registry behind the process's one keyboard hook,
//! the shortcut and rebinding decisions, and the settings with their saved
//! form.

pub mod clicker;
pub mod keyboard_hook;
pub mod orchestrator;
pub mod settings;
