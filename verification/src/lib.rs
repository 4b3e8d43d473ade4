//! Keyboard productivity tracking: the decoding of Linux input events, the
//! logic of the plugins that echo and count key presses, and the routing of
//! events from the keyboard to the plugins.
use vstd::prelude::*;

pub mod args;
pub mod kbd_event;
pub mod kbd_events;
pub mod keycode;
pub mod lexer;
pub mod plugins;
pub mod publisher;
pub mod sqlite;
pub mod subscribers;
pub mod text;
pub mod time;

use crate::kbd_event::KbdEvent;

verus! {

/// The package name.
pub const PKG_NAME: &'static str = "keyprod";

/// The name and version that `--version` prints.
pub const VERSION: &'static str = "keyprod v0.1.0";

/// The directory where the program keeps its state.
pub const STATE_DIR: &'static str = "/var/lib/keyprod/";

/// What the publisher hands to each plugin: a key event, or the request to
/// finish.
#[derive(Debug, Clone, Copy, PartialEq, Eq, Structural)]
pub enum Event {
    KeyEvent(KbdEvent),
    PluginStop,
}

impl From<KbdEvent> for Event {
    fn from(value: KbdEvent) -> (e: Event) {
        Event::KeyEvent(value)
    }
}

impl vstd::std_specs::convert::FromSpecImpl<KbdEvent> for Event {
    open spec fn obeys_from_spec() -> bool {
        true
    }

    open spec fn from_spec(v: KbdEvent) -> Event {
        Event::KeyEvent(v)
    }
}

} // verus!
