use std::cell::RefCell;

use keyprod::kbd_event::{KbdEvent, KbdKeyState};
use keyprod::keycode::Keycode;
use keyprod::subscribers::event_history::{history_db_path, EventHistoryLogic};
use keyprod::time::{CalendarDate, CurrentLocalTime, LocalDateTime};

/// A clock that hands out the given moments, one per call, and fails a test
/// that asks for more of them or for fewer.
struct ScriptedClock {
    moments: RefCell<Vec<LocalDateTime>>,
}

impl ScriptedClock {
    fn new(days: &[(i32, u32, u32)]) -> Self {
        let moments = days
            .iter()
            .rev()
            .map(|&(y, m, d)| {
                LocalDateTime::new(CalendarDate::from_ymd_opt(y, m, d).unwrap(), 0, 0, 0).unwrap()
            })
            .collect();
        ScriptedClock { moments: RefCell::new(moments) }
    }
}

impl Drop for ScriptedClock {
    fn drop(&mut self) {
        assert!(self.moments.borrow().is_empty(), "the clock was asked less often than expected");
    }
}

impl CurrentLocalTime for ScriptedClock {
    fn now(&self) -> LocalDateTime {
        self.moments.borrow_mut().pop().expect("the clock was asked more often than expected")
    }
}

#[test]
fn basic_test() {
    let time_mock = ScriptedClock::new(&[(2000, 1, 1)]);

    let mut history =
        EventHistoryLogic::new(rusqlite::Connection::open_in_memory().unwrap(), time_mock).unwrap();

    history
        .register_keypress(KbdEvent { code: Keycode::KEY_1, state: KbdKeyState::Pressed })
        .unwrap();

    history
        .stats()
        .connection()
        .prepare("SELECT KeypressCnt FROM Statistics")
        .unwrap()
        .query_one([], |res| {
            assert_eq!(res.get::<_, u32>(0).unwrap(), 1);
            Ok(())
        })
        .unwrap();
}

#[test]
fn only_pressed_keyevents() {
    let time_mock = ScriptedClock::new(&[(2000, 1, 1)]);

    let mut history =
        EventHistoryLogic::new(rusqlite::Connection::open_in_memory().unwrap(), time_mock).unwrap();

    history
        .register_keypress(KbdEvent { code: Keycode::KEY_1, state: KbdKeyState::Pressed })
        .unwrap();
    history
        .register_keypress(KbdEvent { code: Keycode::KEY_1, state: KbdKeyState::Released })
        .unwrap();

    history
        .stats()
        .connection()
        .prepare("SELECT KeypressCnt FROM Statistics")
        .unwrap()
        .query_one([], |res| {
            assert_eq!(res.get::<_, u32>(0).unwrap(), 1);
            Ok(())
        })
        .unwrap();
}

#[test]
fn multiple_dates() {
    let time_mock = ScriptedClock::new(&[(2000, 1, 1), (2000, 1, 2)]);

    let mut history =
        EventHistoryLogic::new(rusqlite::Connection::open_in_memory().unwrap(), time_mock).unwrap();

    history
        .register_keypress(KbdEvent { code: Keycode::KEY_1, state: KbdKeyState::Pressed })
        .unwrap();
    history
        .register_keypress(KbdEvent { code: Keycode::KEY_1, state: KbdKeyState::Pressed })
        .unwrap();

    let mut stmt = history
        .stats()
        .connection()
        .prepare("SELECT Date, KeypressCnt FROM Statistics")
        .unwrap();
    let mut res = stmt.query([]).unwrap();

    let res0 = res.next().unwrap().unwrap();
    assert_eq!(res0.get::<_, String>(0).unwrap(), "2000-01-01".to_string());
    assert_eq!(res0.get::<_, u32>(1).unwrap(), 1);

    let res1 = res.next().unwrap().unwrap();
    assert_eq!(res1.get::<_, String>(0).unwrap(), "2000-01-02".to_string());
    assert_eq!(res1.get::<_, u32>(1).unwrap(), 1);
}

#[test]
fn modifier_presses_are_not_saved() {
    let mut history = EventHistoryLogic::new(
        rusqlite::Connection::open_in_memory().unwrap(),
        ScriptedClock::new(&[(2000, 1, 1)]),
    )
    .unwrap();

    history
        .register_keypress(KbdEvent { code: Keycode::KEY_LEFTSHIFT, state: KbdKeyState::Pressed })
        .unwrap();
    history
        .register_keypress(KbdEvent { code: Keycode::KEY_A, state: KbdKeyState::Repeated })
        .unwrap();
    history
        .register_keypress(KbdEvent { code: Keycode::KEY_A, state: KbdKeyState::Pressed })
        .unwrap();

    let total: u32 = history
        .stats()
        .connection()
        .query_row("SELECT SUM(KeypressCnt) FROM Statistics", [], |row| row.get(0))
        .unwrap();
    assert_eq!(total, 1);
}

#[test]
fn same_day_presses_add_up() {
    let mut history = EventHistoryLogic::new(
        rusqlite::Connection::open_in_memory().unwrap(),
        ScriptedClock::new(&[(2024, 2, 29), (2024, 2, 29), (2024, 2, 29)]),
    )
    .unwrap();

    for _ in 0..3 {
        history
            .register_keypress(KbdEvent { code: Keycode::KEY_SPACE, state: KbdKeyState::Pressed })
            .unwrap();
    }

    let (date, cnt): (String, u32) = history
        .stats()
        .connection()
        .query_row("SELECT Date, KeypressCnt FROM Statistics", [], |row| {
            Ok((row.get(0)?, row.get(1)?))
        })
        .unwrap();
    assert_eq!(date, "2024-02-29");
    assert_eq!(cnt, 3);
}

#[test]
fn db_path_in_state_dir() {
    assert_eq!(history_db_path("/var/lib/keyprod"), "/var/lib/keyprod/history.db");
    assert_eq!(history_db_path("/var/lib/keyprod/"), "/var/lib/keyprod/history.db");
    assert_eq!(history_db_path("state"), "state/history.db");
    assert_eq!(history_db_path(""), "history.db");
}
