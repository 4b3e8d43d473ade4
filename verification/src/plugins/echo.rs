//! The echo plugin: writes a line for each key press and key release.
use vstd::prelude::*;

use crate::args::{is_long, ArgToken, ArgsError};
use crate::kbd_event::{KbdEvent, KbdKeyState};
use crate::plugins::{PluginConfig, PluginFactory};
use crate::text::{decimal, push_decimal};
use crate::Event;

verus! {

/// The name of the plugin.
pub const PLUGIN_NAME: &'static str = "Echo";

/// Where the plugin writes its lines.
#[derive(Debug, Clone, PartialEq, Eq)]
pub enum EventEchoWriter {
    Stdout,
    Stderr,
    /// The file at this path, which is created if missing and appended to.
    File(String),
}

impl Default for EventEchoWriter {
    fn default() -> (w: EventEchoWriter)
        ensures
            w == EventEchoWriter::Stdout,
    {
        EventEchoWriter::Stdout
    }
}

/// The configuration of the echo plugin.
#[derive(Debug, Clone, PartialEq, Eq)]
pub struct EventEchoConfig {
    pub writer: EventEchoWriter,
}

impl Default for EventEchoConfig {
    fn default() -> (c: EventEchoConfig)
        ensures
            c == EventEchoConfig::spec_default(),
    {
        EventEchoConfig { writer: EventEchoWriter::Stdout }
    }
}

impl EventEchoConfig {
    /// By default the plugin writes to the standard output.
    pub open spec fn spec_default() -> EventEchoConfig {
        EventEchoConfig { writer: EventEchoWriter::Stdout }
    }

    /// Only `--file` takes a value.
    pub open spec fn spec_takes_value(arg: ArgToken) -> bool {
        is_long(arg, "file"@)
    }

    /// The configuration after the option `arg` (with its value, if it takes
    /// one): `--stdout`, `--stderr` and `--file <path>` choose where to write,
    /// and anything else is refused.
    pub open spec fn spec_apply(self, arg: ArgToken, value: Option<String>) -> Result<
        EventEchoConfig,
        ArgsError,
    > {
        if is_long(arg, "stdout"@) {
            Ok(EventEchoConfig { writer: EventEchoWriter::Stdout })
        } else if is_long(arg, "stderr"@) {
            Ok(EventEchoConfig { writer: EventEchoWriter::Stderr })
        } else if is_long(arg, "file"@) && value is Some {
            Ok(EventEchoConfig { writer: EventEchoWriter::File(value.unwrap()) })
        } else {
            Err(ArgsError::Unexpected(arg))
        }
    }

    /// Whether the option `arg` is followed by a value.
    pub fn takes_value(arg: &ArgToken) -> (b: bool)
        ensures
            b == Self::spec_takes_value(*arg),
    {
        arg.is_long("file")
    }

    /// Applies one option of the plugin's group.
    pub fn apply_arg(&mut self, arg: ArgToken, value: Option<String>) -> (r: Result<(), ArgsError>)
        requires
            value is Some <==> Self::spec_takes_value(arg),
        ensures
            old(self).spec_apply(arg, value) == (match r {
                Ok(_) => Ok(*final(self)),
                Err(e) => Err(e),
            }),
            r is Err ==> *final(self) == *old(self),
    {
        if arg.is_long("stdout") {
            self.writer = EventEchoWriter::Stdout;
            Ok(())
        } else if arg.is_long("stderr") {
            self.writer = EventEchoWriter::Stderr;
            Ok(())
        } else if arg.is_long("file") {
            match value {
                Some(path) => {
                    self.writer = EventEchoWriter::File(path);
                    Ok(())
                },
                None => Err(ArgsError::Unexpected(arg)),
            }
        } else {
            Err(ArgsError::Unexpected(arg))
        }
    }
}

impl PluginConfig for EventEchoConfig {
    fn name(&self) -> (n: &'static str)
        ensures
            n@ == PLUGIN_NAME@,
    {
        PLUGIN_NAME
    }
}

/// The text that `echo` writes for a key event: the key's name, its code in
/// parentheses, and whether it was pressed or released.
pub open spec fn spec_echo_line(event: KbdEvent) -> Seq<char> {
    event.code.spec_name() + "("@ + decimal(event.code.spec_code() as nat) + ") was "@ + (
    if event.state == KbdKeyState::Pressed {
        "Pressed"@
    } else {
        "Released"@
    })
}

/// Only presses and releases are echoed, not autorepeats.
pub open spec fn spec_is_echoed(event: KbdEvent) -> bool {
    event.state == KbdKeyState::Pressed || event.state == KbdKeyState::Released
}

/// The line that echoes a key event, if it is a press or a release.
pub fn keyevent_line(event: KbdEvent) -> (line: Option<String>)
    ensures
        line is Some <==> spec_is_echoed(event),
        line matches Some(l) ==> l@ == spec_echo_line(event),
{
    if event.is_press() || event.is_release() {
        let mut line = String::from_str(event.code.name());
        line.append("(");
        push_decimal(&mut line, event.code.code() as u64);
        line.append(") was ");
        if event.is_press() {
            line.append("Pressed");
        } else {
            line.append("Released");
        }
        Some(line)
    } else {
        None
    }
}

/// What the echo plugin does with an event from the publisher.
#[derive(Debug, PartialEq, Eq)]
pub enum EchoAction {
    /// Write this line.
    Write(String),
    /// Nothing to write.
    Skip,
    /// Finish.
    Stop,
}

/// The echo plugin: the destination that its writer is opened on.
pub struct EventEcho {
    writer: EventEchoWriter,
}

impl EventEcho {
    /// The plugin for a configuration; its writer is the configured one.
    pub fn init(value: EventEchoConfig) -> (e: EventEcho)
        ensures
            e.spec_writer() == value.writer,
    {
        EventEcho { writer: value.writer }
    }

    pub closed spec fn spec_writer(&self) -> EventEchoWriter {
        self.writer
    }

    /// Where the plugin writes.
    pub fn writer(&self) -> (w: &EventEchoWriter)
        ensures
            *w == self.spec_writer(),
    {
        &self.writer
    }

    pub fn name(&self) -> (n: &'static str)
        ensures
            n@ == PLUGIN_NAME@,
    {
        PLUGIN_NAME
    }

    /// The line to write for a key event, if it is a press or a release.
    pub fn keyevent_cb(&self, event: KbdEvent) -> (line: Option<String>)
        ensures
            line is Some <==> spec_is_echoed(event),
            line matches Some(l) ==> l@ == spec_echo_line(event),
    {
        keyevent_line(event)
    }

    /// What to do with an event from the publisher: write the line of a key
    /// event that is echoed, skip the others, and stop on `PluginStop`.
    pub fn on_event(&self, event: Event) -> (a: EchoAction)
        ensures
            match event {
                Event::KeyEvent(e) => if spec_is_echoed(e) {
                    a matches EchoAction::Write(l) && l@ == spec_echo_line(e)
                } else {
                    a == EchoAction::Skip
                },
                Event::PluginStop => a == EchoAction::Stop,
            },
    {
        match event {
            Event::KeyEvent(e) => match self.keyevent_cb(e) {
                Some(line) => EchoAction::Write(line),
                None => EchoAction::Skip,
            },
            Event::PluginStop => EchoAction::Stop,
        }
    }
}

/// The factory of the echo plugin.
pub struct EventEchoFactory;

impl PluginFactory for EventEchoFactory {
    fn cli_name(&self) -> (n: &'static str)
        ensures
            n@ == "echo"@,
    {
        "echo"
    }

    fn help(&self) -> (h: String)
        ensures
            h@ == ECHO_HELP@,
    {
        String::from_str(ECHO_HELP)
    }
}

/// The description of the echo plugin and its options.
pub const ECHO_HELP: &'static str = "\
Log keyboard events as is.
By default if the plugin is enabled it prints to stdout.
Options:
    --stdout|stderr
        Print events to stdout|stderr.
    --file <file-name>
        Saves events to the file.
";

} // verus!
