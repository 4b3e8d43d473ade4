use keyprod::kbd_event::{key_events, InputEvent, KbdEvent, KbdKeyState, RecordLayout};
use keyprod::keycode::Keycode;
use keyprod::Event;

/// A record laid out as `layout`, its time stamp in words of
/// `(size - 8) / 2` bytes.
fn record_of(layout: RecordLayout, sec: i64, usec: i64, type_: u16, code: u16, value: i32) -> Vec<u8> {
    let little = layout.little_endian;
    let mut b = Vec::new();
    if layout.size == 24 {
        b.extend_from_slice(&if little { sec.to_le_bytes() } else { sec.to_be_bytes() });
        b.extend_from_slice(&if little { usec.to_le_bytes() } else { usec.to_be_bytes() });
    } else {
        let (sec, usec) = (sec as i32, usec as i32);
        b.extend_from_slice(&if little { sec.to_le_bytes() } else { sec.to_be_bytes() });
        b.extend_from_slice(&if little { usec.to_le_bytes() } else { usec.to_be_bytes() });
    }
    b.extend_from_slice(&if little { type_.to_le_bytes() } else { type_.to_be_bytes() });
    b.extend_from_slice(&if little { code.to_le_bytes() } else { code.to_be_bytes() });
    b.extend_from_slice(&if little { value.to_le_bytes() } else { value.to_be_bytes() });
    assert_eq!(b.len(), layout.size);
    b
}

/// A record as the kernel writes it on this machine.
fn record(sec: i64, usec: i64, type_: u16, code: u16, value: i32) -> Vec<u8> {
    record_of(InputEvent::layout(), sec, usec, type_, code, value)
}

#[test]
fn record_layout_of_the_machine() {
    let layout = InputEvent::layout();
    assert!(layout.size == 16 || layout.size == 24);
    assert_eq!(layout.size, std::mem::size_of::<libc::input_event>());
    assert_eq!(layout.little_endian, 1u16.to_le_bytes() == 1u16.to_ne_bytes());
}

#[test]
fn decodes_records_of_every_layout() {
    for size in [16usize, 24] {
        for little_endian in [true, false] {
            let layout = RecordLayout { size, little_endian };
            let mut buf = record_of(layout, 1_700_000_000, 123_456, 1, 30, 1);
            buf.extend(record_of(layout, -1, 7, 4, 4, -5));
            assert_eq!(
                InputEvent::from_raw_bytes(&buf, layout),
                vec![
                    InputEvent { tv_sec: 1_700_000_000, tv_usec: 123_456, type_: 1, code: 30, value: 1 },
                    InputEvent { tv_sec: -1, tv_usec: 7, type_: 4, code: 4, value: -5 },
                ]
            );
            assert_eq!(
                key_events(&buf, layout),
                vec![KbdEvent { code: Keycode::KEY_A, state: KbdKeyState::Pressed }]
            );
        }
    }
}

#[test]
fn decodes_records() {
    let mut buf = record(1_700_000_000, 123_456, 1, 30, 1);
    buf.extend(record(-1, 7, 4, 4, -5));
    assert_eq!(buf.len(), 2 * InputEvent::layout().size);
    let events = InputEvent::from_raw_bytes(&buf, InputEvent::layout());
    assert_eq!(
        events,
        vec![
            InputEvent { tv_sec: 1_700_000_000, tv_usec: 123_456, type_: 1, code: 30, value: 1 },
            InputEvent { tv_sec: -1, tv_usec: 7, type_: 4, code: 4, value: -5 },
        ]
    );
    assert_eq!(InputEvent::from_raw_bytes(&[], InputEvent::layout()), vec![]);
}

#[test]
fn key_states() {
    assert_eq!(KbdKeyState::try_from(0), Ok(KbdKeyState::Released));
    assert_eq!(KbdKeyState::try_from(1), Ok(KbdKeyState::Pressed));
    assert_eq!(KbdKeyState::try_from(2), Ok(KbdKeyState::Repeated));
    assert_eq!(KbdKeyState::try_from(3), Err(()));
    assert_eq!(KbdKeyState::try_from(-1), Err(()));
}

#[test]
fn key_events_from_records() {
    let ev = |type_, code, value| InputEvent { tv_sec: 0, tv_usec: 0, type_, code, value };
    assert_eq!(
        KbdEvent::try_from(ev(1, 30, 1)),
        Ok(KbdEvent { code: Keycode::KEY_A, state: KbdKeyState::Pressed })
    );
    // Not a key event, an unknown key, an unknown state.
    assert_eq!(KbdEvent::try_from(ev(0, 0, 0)), Err(()));
    assert_eq!(KbdEvent::try_from(ev(1, 84, 1)), Err(()));
    assert_eq!(KbdEvent::try_from(ev(1, 30, 7)), Err(()));

    let e = KbdEvent { code: Keycode::KEY_A, state: KbdKeyState::Repeated };
    assert!(e.is_repeat() && !e.is_press() && !e.is_release());
    assert_eq!(Event::from(e), Event::KeyEvent(e));
}

#[test]
fn key_events_of_a_read() {
    // A typical read: scan code, key press, sync report.
    let mut buf = record(5, 0, 4, 4, 30);
    buf.extend(record(5, 0, 1, 30, 1));
    buf.extend(record(5, 0, 0, 0, 0));
    buf.extend(record(5, 1, 1, 30, 0));
    assert_eq!(
        key_events(&buf, InputEvent::layout()),
        vec![
            KbdEvent { code: Keycode::KEY_A, state: KbdKeyState::Pressed },
            KbdEvent { code: Keycode::KEY_A, state: KbdKeyState::Released },
        ]
    );
}
