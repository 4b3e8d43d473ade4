use std::cell::Cell;

use keyprod::kbd_event::{KbdEvent, KbdKeyState};
use keyprod::keycode::Keycode;
use keyprod::plugins::echo::{keyevent_line, EchoAction, EventEchoConfig, EventEchoWriter};
use keyprod::plugins::history::{HistoryInput, KeycodeStatisticsSql, PluginHistoryConfig};
use keyprod::plugins::{init_plugins_from_configs, AnyPluginConfig, EventEcho, PluginHistory, PluginInitError};
use keyprod::time::{CalendarDate, CurrentLocalTime, LocalDateTime};
use keyprod::Event;

fn key(code: Keycode, state: KbdKeyState) -> KbdEvent {
    KbdEvent { code, state }
}

#[test]
fn echo_lines() {
    assert_eq!(
        keyevent_line(key(Keycode::KEY_A, KbdKeyState::Pressed)),
        Some("KEY_A(30) was Pressed".to_string())
    );
    assert_eq!(
        keyevent_line(key(Keycode::KEY_ESC, KbdKeyState::Released)),
        Some("KEY_ESC(1) was Released".to_string())
    );
    assert_eq!(
        keyevent_line(key(Keycode::KEY_KBD_LCD_MENU5, KbdKeyState::Pressed)),
        Some("KEY_KBD_LCD_MENU5(700) was Pressed".to_string())
    );
    assert_eq!(keyevent_line(key(Keycode::KEY_A, KbdKeyState::Repeated)), None);
}

#[test]
fn echo_plugin_events() {
    let echo = EventEcho::init(EventEchoConfig {
        writer: EventEchoWriter::File("keys.log".to_string()),
    });
    assert_eq!(echo.writer(), &EventEchoWriter::File("keys.log".to_string()));
    assert_eq!(echo.name(), "Echo");
    assert_eq!(
        echo.on_event(Event::KeyEvent(key(Keycode::KEY_LEFTSHIFT, KbdKeyState::Pressed))),
        EchoAction::Write("KEY_LEFTSHIFT(42) was Pressed".to_string())
    );
    assert_eq!(
        echo.on_event(Event::KeyEvent(key(Keycode::KEY_B, KbdKeyState::Repeated))),
        EchoAction::Skip
    );
    assert_eq!(echo.on_event(Event::PluginStop), EchoAction::Stop);
}

struct FixedClock {
    date: CalendarDate,
    calls: Cell<usize>,
}

impl CurrentLocalTime for FixedClock {
    fn now(&self) -> LocalDateTime {
        self.calls.set(self.calls.get() + 1);
        LocalDateTime::new(self.date, 12, 0, 0).unwrap()
    }
}

fn clock(y: i32, m: u32, d: u32) -> FixedClock {
    FixedClock { date: CalendarDate::from_ymd_opt(y, m, d).unwrap(), calls: Cell::new(0) }
}

fn in_memory(interval: u64, time: FixedClock) -> PluginHistory<FixedClock> {
    let config = PluginHistoryConfig { db_path: ":memory:".to_string(), dump_interval: interval };
    match PluginHistory::init(config, time) {
        Ok(h) => h,
        Err(_) => panic!("the in-memory database did not open"),
    }
}

fn totals(stats: &KeycodeStatisticsSql) -> Vec<(String, i64)> {
    let mut stmt = stats
        .connection()
        .prepare("SELECT Date, KeypressCnt FROM Statistics ORDER BY Date")
        .unwrap();
    stmt.query_map([], |row| Ok((row.get(0)?, row.get(1)?)))
        .unwrap()
        .map(|r| r.unwrap())
        .collect()
}

#[test]
fn history_counts_regular_presses_only() {
    let mut h = in_memory(5, clock(2000, 1, 1));
    assert_eq!(h.name(), "History");
    assert_eq!(h.dump_interval(), Some(5));
    h.save_keypress_in_cache(key(Keycode::KEY_A, KbdKeyState::Pressed));
    h.save_keypress_in_cache(key(Keycode::KEY_A, KbdKeyState::Repeated));
    h.save_keypress_in_cache(key(Keycode::KEY_A, KbdKeyState::Released));
    h.save_keypress_in_cache(key(Keycode::KEY_RIGHTCTRL, KbdKeyState::Pressed));
    h.save_keypress_in_cache(key(Keycode::KEY_B, KbdKeyState::Pressed));
    assert_eq!(h.unsaved_events(), 2);
    assert!(totals(h.stats()).is_empty());
}

#[test]
fn history_saves_on_tick_and_stop() {
    let mut h = in_memory(5, clock(2000, 1, 1));
    assert!(step(&mut h, HistoryInput::Received(Event::KeyEvent(key(
        Keycode::KEY_A,
        KbdKeyState::Pressed
    )))));
    assert!(step(&mut h, HistoryInput::Received(Event::KeyEvent(key(
        Keycode::KEY_B,
        KbdKeyState::Pressed
    )))));
    assert_eq!(h.unsaved_events(), 2);
    assert!(totals(h.stats()).is_empty());
    assert!(step(&mut h, HistoryInput::Tick));
    assert_eq!(h.unsaved_events(), 0);
    assert_eq!(totals(h.stats()), vec![("2000-01-01".to_string(), 2)]);
    // Nothing pending: the tick does not ask the clock.
    let calls = h_calls(&h);
    assert!(step(&mut h, HistoryInput::Tick));
    assert_eq!(h_calls(&h), calls);
    assert!(step(&mut h, HistoryInput::Received(Event::KeyEvent(key(
        Keycode::KEY_C,
        KbdKeyState::Pressed
    )))));
    assert!(step(&mut h, HistoryInput::Received(Event::PluginStop)));
    assert_eq!(totals(h.stats()), vec![("2000-01-01".to_string(), 3)]);
    // The end of the channel stops the plugin.
    assert!(!step(&mut h, HistoryInput::Closed));
}

fn step(h: &mut PluginHistory<FixedClock>, input: HistoryInput) -> bool {
    let s = h.handle(input);
    assert!(s.save_error.is_none());
    s.keep_running
}

fn h_calls(h: &PluginHistory<FixedClock>) -> usize {
    h.time().calls.get()
}

#[test]
fn history_without_interval_saves_each_press() {
    let mut h = in_memory(0, clock(2024, 2, 29));
    assert_eq!(h.dump_interval(), None);
    assert!(step(&mut h, HistoryInput::Received(Event::KeyEvent(key(
        Keycode::KEY_A,
        KbdKeyState::Pressed
    )))));
    assert_eq!(h.unsaved_events(), 0);
    assert_eq!(totals(h.stats()), vec![("2024-02-29".to_string(), 1)]);
    assert!(step(&mut h, HistoryInput::Received(Event::KeyEvent(key(
        Keycode::KEY_LEFTALT,
        KbdKeyState::Pressed
    )))));
    assert!(step(&mut h, HistoryInput::Received(Event::KeyEvent(key(
        Keycode::KEY_A,
        KbdKeyState::Pressed
    )))));
    assert_eq!(totals(h.stats()), vec![("2024-02-29".to_string(), 2)]);
}

#[test]
fn history_statistics_store() {
    let mut stats = match KeycodeStatisticsSql::in_memory() {
        Ok(s) => s,
        Err(_) => panic!("the in-memory database did not open"),
    };
    let d1 = CalendarDate::from_ymd_opt(2000, 1, 1).unwrap();
    let d2 = CalendarDate::from_ymd_opt(2000, 1, 2).unwrap();
    assert!(stats.save_keypress(10, &d1).is_ok());
    assert!(stats.save_keypress(5, &d2).is_ok());
    assert!(stats.save_keypress(7, &d1).is_ok());
    assert_eq!(
        totals(&stats),
        vec![("2000-01-01".to_string(), 17), ("2000-01-02".to_string(), 5)]
    );
    assert_eq!(
        KeycodeStatisticsSql::save_keypress_params(42, &d2),
        vec!["2000-01-02".to_string(), "42".to_string()]
    );
}

#[test]
fn history_open_failure() {
    let config = PluginHistoryConfig {
        db_path: "/nonexistent-directory/for/sure/history.db".to_string(),
        dump_interval: 5,
    };
    assert!(PluginHistory::init(config, clock(2000, 1, 1)).is_err());
}

#[test]
fn init_errors_name_the_plugin() {
    let e = PluginInitError::new("History", "unable to open database file".to_string());
    assert_eq!(e.name(), "History");
    assert_eq!(e.error(), "unable to open database file");
}

#[test]
fn plugins_start_in_order_until_one_fails() {
    let echo = || AnyPluginConfig::Echo(EventEchoConfig::default());
    let history = || {
        AnyPluginConfig::History(PluginHistoryConfig {
            db_path: "x.db".to_string(),
            dump_interval: 5,
        })
    };
    let calls = Cell::new(0);
    let start = |c: AnyPluginConfig| -> Result<&'static str, String> {
        calls.set(calls.get() + 1);
        match c {
            AnyPluginConfig::Echo(_) => Ok("echo started"),
            AnyPluginConfig::History(h) => Err(format!("cannot open {}", h.db_path)),
        }
    };

    let started = init_plugins_from_configs(vec![echo(), echo()], &start);
    assert_eq!(started.ok(), Some(vec!["echo started", "echo started"]));

    calls.set(0);
    match init_plugins_from_configs(vec![echo(), history(), echo()], &start) {
        Ok(_) => panic!("the history plugin was expected to fail"),
        Err(e) => {
            assert_eq!(e.name(), "History");
            assert_eq!(e.error(), "cannot open x.db");
        }
    }
    assert_eq!(calls.get(), 2);

    assert_eq!(init_plugins_from_configs(vec![], &start).ok(), Some(vec![]));
}
