# keyprod

Track keyboard productivity: read the key events of the keyboards, hand them
to plugins, and let the plugins echo them or count the daily key presses in an
SQLite database.

```sh
keyprod --plugin echo
keyprod --plugin history
keyprod --plugin echo --stderr --plugin history --db-path=./history.db --interval 0
```

## Layout

- `src/` is the library, verified with Verus:
  - `keycode.rs`: the key codes of `linux/input-event-codes.h`, their values
    and names, and the modifier keys;
  - `kbd_event.rs`: decoding the `struct input_event` records read from a
    device (16 or 24 bytes each, as `libc` lays them out on the machine, in
    the machine's byte order) into key events;
  - `kbd_events.rs`: which udev devices are keyboards;
  - `args.rs` and `lexer.rs`: reading the command line through the `lexopt`
    option lexer, the meaning of its arguments, the split into plugin
    groups, the help text;
  - `plugins/`: the echo plugin (the line written for each event), the
    history plugin (counting presses, saving them per day through `rusqlite`
    and the clock), and how a plugin group picks and configures a plugin;
  - `publisher.rs`: offering each event to the plugins' `tokio` channels and
    forgetting the plugins that no longer listen;
  - `subscribers/`: the per-event consumers and the factory that picks them;
  - `time.rs`, `text.rs`, `sqlite.rs`: dates through `chrono`, decimal
    numbers and paths, and the SQLite calls.
- `app/` is the program around it: the process's arguments, the
  threads, the device files, `poll`, udev, the tokio runtime, the writers and
  the logging.
- `tests/` runs the library on concrete values.
