//! Keyboard events: the raw records that the kernel writes to an input device
//! file, and the key events decoded from them.
use vstd::prelude::*;

use crate::keycode::{lemma_from_code_sound, Keycode};

verus! {

/// How the kernel lays out one `struct input_event` record on a machine: its
/// size in bytes, and the byte order of its integers.
#[derive(Debug, Clone, Copy, PartialEq, Eq, Structural)]
pub struct RecordLayout {
    /// 16 or 24: a `struct timeval` of two 32-bit or two 64-bit integers,
    /// then the 16-bit event type, the 16-bit code and the 32-bit value.
    pub size: usize,
    /// Whether the integers are stored least significant byte first.
    pub little_endian: bool,
}

/// The sizes that one `struct input_event` record can have.
pub open spec fn valid_record_size(size: usize) -> bool {
    size == 16 || size == 24
}

/// Calls `std::mem::size_of::<libc::input_event>()`. On each Linux target
/// that `libc` declares the record for, its time stamp takes either two
/// 32-bit or two 64-bit words, so the record has 16 or 24 bytes; which one
/// depends on the machine and is not stated.
#[verifier::external_body]
fn size_of_input_event() -> (r: usize)
    ensures
        valid_record_size(r),
{
    std::mem::size_of::<libc::input_event>()
}

/// Calls `u16::from_ne_bytes([1, 0])`, which reads the two bytes in the
/// machine's byte order: 1 where the least significant byte comes first,
/// 256 where the most significant one does. Which one depends on the
/// machine and is not stated.
#[verifier::external_body]
fn native_order_of_one_zero() -> (r: u16)
    ensures
        r == 1 || r == 256,
{
    u16::from_ne_bytes([1, 0])
}

/// The event type of key events (`EV_KEY`).
pub const EV_KEY: u16 = 1;

/// One `struct input_event` record, field by field.
#[derive(Debug, Clone, Copy, PartialEq, Eq, Structural)]
pub struct InputEvent {
    /// Seconds of the event's timestamp.
    pub tv_sec: i64,
    /// Microseconds of the event's timestamp.
    pub tv_usec: i64,
    /// The event type (`EV_KEY` for key events).
    pub type_: u16,
    /// The event code (the key code for key events).
    pub code: u16,
    /// The event value (0 release, 1 press, 2 autorepeat for key events).
    pub value: i32,
}

/// The little-endian value of the two bytes at `at`.
pub open spec fn le_u16(b: Seq<u8>, at: int) -> int {
    b[at] + 256 * b[at + 1]
}

/// The value of the two bytes at `at`, in the byte order `little`.
pub open spec fn u16_at(b: Seq<u8>, at: int, little: bool) -> int {
    if little {
        le_u16(b, at)
    } else {
        256 * b[at] + b[at + 1]
    }
}

/// The value of the four bytes at `at`, in the byte order `little`.
pub open spec fn u32_at(b: Seq<u8>, at: int, little: bool) -> int {
    if little {
        u16_at(b, at, true) + 65536 * u16_at(b, at + 2, true)
    } else {
        65536 * u16_at(b, at, false) + u16_at(b, at + 2, false)
    }
}

/// The value of the eight bytes at `at`, in the byte order `little`.
pub open spec fn u64_at(b: Seq<u8>, at: int, little: bool) -> int {
    if little {
        u32_at(b, at, true) + 4294967296 * u32_at(b, at + 4, true)
    } else {
        4294967296 * u32_at(b, at, false) + u32_at(b, at + 4, false)
    }
}

/// The record laid out as `layout` at `at`: the two time stamp words take
/// what comes before the last eight bytes; the signed fields are the
/// two's-complement reading of their bytes.
pub open spec fn spec_input_event(b: Seq<u8>, at: int, layout: RecordLayout) -> InputEvent {
    let little = layout.little_endian;
    let tail = at + layout.size - 8;
    InputEvent {
        tv_sec: if layout.size == 24 {
            u64_at(b, at, little) as i64
        } else {
            (u32_at(b, at, little) as i32) as i64
        },
        tv_usec: if layout.size == 24 {
            u64_at(b, at + 8, little) as i64
        } else {
            (u32_at(b, at + 4, little) as i32) as i64
        },
        type_: u16_at(b, tail, little) as u16,
        code: u16_at(b, tail + 2, little) as u16,
        value: u32_at(b, tail + 4, little) as i32,
    }
}

fn read_u16(buff: &[u8], at: usize, little: bool) -> (r: u16)
    requires
        at + 2 <= buff@.len(),
    ensures
        r == u16_at(buff@, at as int, little),
{
    let _len = buff.len();
    if little {
        buff[at] as u16 + (buff[at + 1] as u16) * 256
    } else {
        (buff[at] as u16) * 256 + buff[at + 1] as u16
    }
}

fn read_u32(buff: &[u8], at: usize, little: bool) -> (r: u32)
    requires
        at + 4 <= buff@.len(),
    ensures
        r == u32_at(buff@, at as int, little),
{
    let _len = buff.len();
    let first = read_u16(buff, at, little) as u32;
    let second = read_u16(buff, at + 2, little) as u32;
    if little {
        first + second * 65536
    } else {
        first * 65536 + second
    }
}

fn read_u64(buff: &[u8], at: usize, little: bool) -> (r: u64)
    requires
        at + 8 <= buff@.len(),
    ensures
        r == u64_at(buff@, at as int, little),
{
    let _len = buff.len();
    let first = read_u32(buff, at, little) as u64;
    let second = read_u32(buff, at + 4, little) as u64;
    if little {
        first + second * 4294967296
    } else {
        first * 4294967296 + second
    }
}

impl InputEvent {
    /// How the kernel lays out one record on this machine.
    pub fn layout() -> (l: RecordLayout)
        ensures
            valid_record_size(l.size),
    {
        let size = size_of_input_event();
        let one = native_order_of_one_zero();
        RecordLayout { size, little_endian: one == 1 }
    }

    /// Decodes the record laid out as `layout` that starts at byte `at`.
    pub fn decode_at(buff: &[u8], at: usize, layout: RecordLayout) -> (r: InputEvent)
        requires
            valid_record_size(layout.size),
            at + layout.size <= buff@.len(),
        ensures
            r == spec_input_event(buff@, at as int, layout),
    {
        let _len = buff.len();
        let little = layout.little_endian;
        let tail = at + layout.size - 8;
        let (tv_sec, tv_usec) = if layout.size == 24 {
            let sec = read_u64(buff, at, little);
            let usec = read_u64(buff, at + 8, little);
            (#[verifier::truncate] (sec as i64), #[verifier::truncate] (usec as i64))
        } else {
            let sec = read_u32(buff, at, little);
            let usec = read_u32(buff, at + 4, little);
            let sec32: i32 = #[verifier::truncate] (sec as i32);
            let usec32: i32 = #[verifier::truncate] (usec as i32);
            (sec32 as i64, usec32 as i64)
        };
        let type_ = read_u16(buff, tail, little);
        let code = read_u16(buff, tail + 2, little);
        let value = read_u32(buff, tail + 4, little);
        InputEvent { tv_sec, tv_usec, type_, code, value: #[verifier::truncate] (value as i32) }
    }

    /// Splits a buffer read from an input device into its records, laid out
    /// as `layout` (`InputEvent::layout()` on this machine).
    ///
    /// The buffer must hold whole records only.
    pub fn from_raw_bytes(buff: &[u8], layout: RecordLayout) -> (events: Vec<InputEvent>)
        requires
            valid_record_size(layout.size),
            (buff@.len() as int) % (layout.size as int) == 0,
        ensures
            events@ == spec_records(buff@, layout),
    {
        let size = layout.size;
        let len = buff.len();
        let mut events: Vec<InputEvent> = Vec::new();
        let mut at: usize = 0;
        while len - at >= size
            invariant
                size == layout.size,
                valid_record_size(size),
                len == buff@.len(),
                (len as int) % (size as int) == 0,
                at <= len,
                at == size * events@.len(),
                forall|i: int|
                    0 <= i < events@.len() ==> #[trigger] events@[i] == spec_input_event(
                        buff@,
                        size * i,
                        layout,
                    ),
            decreases len - at,
        {
            let ev = InputEvent::decode_at(buff, at, layout);
            let ghost n = events@.len();
            events.push(ev);
            at = at + size;
            assert(size * (n + 1) == size * n + size) by (nonlinear_arith);
        }
        assert(at == len);
        assert(events@ =~= spec_records(buff@, layout));
        events
    }
}

/// The state of a key in a key event.
#[derive(Debug, Clone, Copy, PartialEq, Eq, Structural)]
pub enum KbdKeyState {
    Released,
    Pressed,
    Repeated,
}

impl KbdKeyState {
    /// The value that stands for the state in a key event record.
    pub open spec fn spec_value(self) -> i32 {
        match self {
            KbdKeyState::Released => 0,
            KbdKeyState::Pressed => 1,
            KbdKeyState::Repeated => 2,
        }
    }

    /// The state that a key event record's value stands for, if any.
    pub open spec fn spec_from_value(value: i32) -> Option<KbdKeyState> {
        if value == 0 {
            Some(KbdKeyState::Released)
        } else if value == 1 {
            Some(KbdKeyState::Pressed)
        } else if value == 2 {
            Some(KbdKeyState::Repeated)
        } else {
            None
        }
    }

    /// Reads the state from a key event record's value.
    pub fn try_from(value: i32) -> (r: Result<KbdKeyState, ()>)
        ensures
            r == (match Self::spec_from_value(value) {
                Some(s) => Ok(s),
                None => Err(()),
            }),
            r == Ok::<KbdKeyState, ()>(KbdKeyState::Released) <==> value == 0,
            r == Ok::<KbdKeyState, ()>(KbdKeyState::Pressed) <==> value == 1,
            r == Ok::<KbdKeyState, ()>(KbdKeyState::Repeated) <==> value == 2,
            r is Err <==> !(0 <= value <= 2),
    {
        if value == 0 {
            Ok(KbdKeyState::Released)
        } else if value == 1 {
            Ok(KbdKeyState::Pressed)
        } else if value == 2 {
            Ok(KbdKeyState::Repeated)
        } else {
            Err(())
        }
    }
}

/// Each state comes back from its value, and a value stands for a state only
/// if it is that state's value.
pub proof fn lemma_key_state_round_trip(s: KbdKeyState, value: i32)
    ensures
        KbdKeyState::spec_from_value(s.spec_value()) == Some(s),
        KbdKeyState::spec_from_value(value) matches Some(t) ==> t.spec_value() == value,
{
}

/// A key event: which key, and whether it was released, pressed or repeated.
#[derive(Debug, Clone, Copy, PartialEq, Eq, Structural)]
pub struct KbdEvent {
    pub code: Keycode,
    pub state: KbdKeyState,
}

/// The key event that a record stands for: only records of type `EV_KEY`
/// with a known key code and a known key state are key events.
pub open spec fn spec_kbd_event(ev: InputEvent) -> Option<KbdEvent> {
    if ev.type_ == EV_KEY {
        match (Keycode::spec_from_code(ev.code), KbdKeyState::spec_from_value(ev.value)) {
            (Some(code), Some(state)) => Some(KbdEvent { code, state }),
            _ => None,
        }
    } else {
        None
    }
}

impl KbdEvent {
    /// Reads a key event from an input event record.
    pub fn try_from(value: InputEvent) -> (r: Result<KbdEvent, ()>)
        ensures
            r == (match spec_kbd_event(value) {
                Some(e) => Ok(e),
                None => Err(()),
            }),
            r matches Ok(e) ==> value.type_ == EV_KEY && e.code.spec_code() == value.code && (
            e.state == KbdKeyState::Released <==> value.value == 0) && (e.state
                == KbdKeyState::Pressed <==> value.value == 1) && (e.state == KbdKeyState::Repeated
                <==> value.value == 2),
    {
        proof {
            lemma_kbd_event_keeps_key_and_state(value);
        }
        if value.type_ == EV_KEY {
            let code = match Keycode::try_from(value.code) {
                Ok(c) => c,
                Err(()) => return Err(()),
            };
            let state = match KbdKeyState::try_from(value.value) {
                Ok(s) => s,
                Err(()) => return Err(()),
            };
            Ok(KbdEvent { code, state })
        } else {
            Err(())
        }
    }

    pub fn is_release(&self) -> (b: bool)
        ensures
            b == (self.state == KbdKeyState::Released),
    {
        self.state == KbdKeyState::Released
    }

    pub fn is_press(&self) -> (b: bool)
        ensures
            b == (self.state == KbdKeyState::Pressed),
    {
        self.state == KbdKeyState::Pressed
    }

    pub fn is_repeat(&self) -> (b: bool)
        ensures
            b == (self.state == KbdKeyState::Repeated),
    {
        self.state == KbdKeyState::Repeated
    }
}

/// A record is a key event exactly when it has the key type, a known key
/// code and a known state; the event keeps the record's key code, and its
/// state is the record's value read as 0 for a release, 1 for a press and 2
/// for an autorepeat.
pub proof fn lemma_kbd_event_keeps_key_and_state(ev: InputEvent)
    ensures
        spec_kbd_event(ev) is Some <==> ev.type_ == EV_KEY && Keycode::spec_from_code(ev.code) is Some
            && 0 <= ev.value <= 2,
        spec_kbd_event(ev) matches Some(e) ==> {
            &&& e.code.spec_code() == ev.code
            &&& e.state == KbdKeyState::Released <==> ev.value == 0
            &&& e.state == KbdKeyState::Pressed <==> ev.value == 1
            &&& e.state == KbdKeyState::Repeated <==> ev.value == 2
        },
{
    lemma_from_code_sound(ev.code);
}

/// The records laid out as `layout` that a buffer of whole records holds,
/// in order.
pub open spec fn spec_records(b: Seq<u8>, layout: RecordLayout) -> Seq<InputEvent> {
    Seq::new(
        ((b.len() as int) / (layout.size as int)) as nat,
        |i: int| spec_input_event(b, layout.size * i, layout),
    )
}

/// The key events among records, in order; the other records are dropped.
pub open spec fn spec_key_events(records: Seq<InputEvent>) -> Seq<KbdEvent>
    decreases records.len(),
{
    if records.len() == 0 {
        Seq::empty()
    } else {
        let rest = spec_key_events(records.drop_last());
        match spec_kbd_event(records.last()) {
            Some(e) => rest.push(e),
            None => rest,
        }
    }
}

/// The key events of a buffer read from an input device, in order, its
/// records laid out as `layout`.
///
/// The buffer must hold whole records only.
pub fn key_events(buff: &[u8], layout: RecordLayout) -> (events: Vec<KbdEvent>)
    requires
        valid_record_size(layout.size),
        (buff@.len() as int) % (layout.size as int) == 0,
    ensures
        events@ == spec_key_events(spec_records(buff@, layout)),
{
    let records = InputEvent::from_raw_bytes(buff, layout);
    let ghost all = spec_records(buff@, layout);
    assert(records@ =~= all);
    let mut events: Vec<KbdEvent> = Vec::new();
    let mut i: usize = 0;
    while i < records.len()
        invariant
            i <= records@.len(),
            records@ == all,
            events@ == spec_key_events(all.subrange(0, i as int)),
        decreases records@.len() - i,
    {
        proof {
            assert(all.subrange(0, i + 1).drop_last() =~= all.subrange(0, i as int));
        }
        match KbdEvent::try_from(records[i]) {
            Ok(e) => events.push(e),
            Err(()) => {},
        }
        i = i + 1;
    }
    assert(all.subrange(0, i as int) =~= all);
    events
}

} // verus!
