//! The history plugin: counts the presses of regular keys and adds them to a
//! per-day total in an SQLite database.
use vstd::prelude::*;

use crate::args::{is_long, texts, ArgToken, ArgsError};
use crate::kbd_event::{KbdEvent, KbdKeyState};
use crate::keycode::{lemma_modifiers_are_exactly, Keycode};
use crate::plugins::{PluginConfig, PluginFactory};
use crate::sqlite::{
    day_total, execute, lemma_day_total_push, lemma_saved_total_push, open, open_in_memory,
    pragma_update, saved_total, db_calls, db_path, DbCall, CREATE_TABLE_SQL, UPSERT_SQL,
};
use crate::text::{
    decimal, lemma_parse_decimal_round_trip, parse_u64, path_join, spec_parse_u64, spec_path_join,
    u64_to_decimal,
};
use crate::time::{CalendarDate, CurrentLocalTime, LocalDateTime};
use crate::{Event, STATE_DIR};

verus! {

/// The name of the plugin.
pub const PLUGIN_NAME: &'static str = "History";

/// The name of the database file in the state directory.
pub const DB_FILE_NAME: &'static str = "history.db";

/// The interval between two saves that the plugin uses by default, in seconds.
pub const DEFAULT_DUMP_INTERVAL: u64 = 5;

/// Why the history plugin failed.
pub enum HistoryError {
    Db(rusqlite::Error),
}

/// Whether a key event counts as a key press: a press of a key that is not a
/// modifier.
pub open spec fn spec_counts(event: KbdEvent) -> bool {
    event.state == KbdKeyState::Pressed && !Keycode::spec_modifiers().contains(event.code)
}

/// The configuration of the history plugin.
#[derive(Debug, Clone, PartialEq, Eq)]
pub struct PluginHistoryConfig {
    /// The database file.
    pub db_path: String,
    /// Seconds between two saves; 0 saves at each key press.
    pub dump_interval: u64,
}

impl Default for PluginHistoryConfig {
    fn default() -> (c: PluginHistoryConfig)
        ensures
            c.is_default(),
    {
        PluginHistoryConfig {
            db_path: path_join(STATE_DIR, DB_FILE_NAME),
            dump_interval: DEFAULT_DUMP_INTERVAL,
        }
    }
}

impl PluginHistoryConfig {
    /// By default the database is `history.db` in the state directory, saved
    /// every 5 seconds.
    pub open spec fn is_default(self) -> bool {
        &&& self.db_path@ == spec_path_join(STATE_DIR@, DB_FILE_NAME@)
        &&& self.dump_interval == DEFAULT_DUMP_INTERVAL
    }

    /// `--db-path` and `--interval` take a value.
    pub open spec fn spec_takes_value(arg: ArgToken) -> bool {
        is_long(arg, "db-path"@) || is_long(arg, "interval"@)
    }

    /// The configuration after the option `arg` with its value: `--db-path`
    /// sets the database file, `--interval` the seconds between saves, which
    /// must be a number; anything else is refused.
    pub open spec fn spec_apply(self, arg: ArgToken, value: Option<String>) -> Result<
        PluginHistoryConfig,
        ArgsError,
    > {
        if is_long(arg, "db-path"@) && value is Some {
            Ok(PluginHistoryConfig { db_path: value.unwrap(), ..self })
        } else if is_long(arg, "interval"@) && value is Some {
            match spec_parse_u64(value.unwrap()@) {
                Some(n) => Ok(PluginHistoryConfig { dump_interval: n, ..self }),
                None => Err(ArgsError::ParsingFailed { value: value.unwrap() }),
            }
        } else {
            Err(ArgsError::Unexpected(arg))
        }
    }

    /// Whether the option `arg` is followed by a value.
    pub fn takes_value(arg: &ArgToken) -> (b: bool)
        ensures
            b == Self::spec_takes_value(*arg),
    {
        arg.is_long("db-path") || arg.is_long("interval")
    }

    /// Applies one option of the plugin's group.
    pub fn apply_arg(&mut self, arg: ArgToken, value: Option<String>) -> (r: Result<(), ArgsError>)
        requires
            value is Some <==> Self::spec_takes_value(arg),
        ensures
            old(self).spec_apply(arg, value) == (match r {
                Ok(_) => Ok(*final(self)),
                Err(e) => Err(e),
            }),
            r is Err ==> *final(self) == *old(self),
            is_long(arg, "interval"@) && value is Some && spec_parse_u64(value->Some_0@) is Some ==> r
                is Ok && Some(final(self).dump_interval) == spec_parse_u64(value->Some_0@)
                && final(self).db_path == old(self).db_path,
            is_long(arg, "db-path"@) && value is Some ==> r is Ok && Some(final(self).db_path)
                == value && final(self).dump_interval == old(self).dump_interval,
    {
        proof {
            reveal_strlit("interval");
            reveal_strlit("db-path");
            assert("interval"@ != "db-path"@) by {
                assert("interval"@.len() != "db-path"@.len());
            }
        }
        if arg.is_long("db-path") {
            match value {
                Some(path) => {
                    self.db_path = path;
                    Ok(())
                },
                None => Err(ArgsError::Unexpected(arg)),
            }
        } else if arg.is_long("interval") {
            match value {
                Some(text) => match parse_u64(text.as_str()) {
                    Some(n) => {
                        self.dump_interval = n;
                        Ok(())
                    },
                    None => Err(ArgsError::ParsingFailed { value: text }),
                },
                None => Err(ArgsError::Unexpected(arg)),
            }
        } else {
            Err(ArgsError::Unexpected(arg))
        }
    }
}

impl PluginConfig for PluginHistoryConfig {
    fn name(&self) -> (n: &'static str)
        ensures
            n@ == PLUGIN_NAME@,
    {
        PLUGIN_NAME
    }
}

/// The per-day totals of key presses in an SQLite database.
///
/// Where the database was opened and the calls that changed it are those
/// its connection records; beside the connection it keeps, as a ghost, the
/// log of the saves that the database acknowledged (the day's text and the
/// number of presses added).
pub struct KeycodeStatisticsSql {
    db_con: rusqlite::Connection,
    saved: Ghost<Seq<(Seq<char>, nat)>>,
}

/// What a freshly prepared store at `location` holds: the journal switched to
/// write-ahead logging, then the table created, and nothing saved.
pub open spec fn spec_prepared(s: KeycodeStatisticsSql, location: Seq<char>) -> bool {
    &&& s.location() == location
    &&& s.statements() == seq![
        DbCall::Pragma("journal_mode"@, "WAL"@),
        DbCall::Execute(CREATE_TABLE_SQL@, Seq::<Seq<char>>::empty()),
    ]
    &&& s.saved() == Seq::<(Seq<char>, nat)>::empty()
}

/// The parameters of the statement that saves `cnt` presses on the day whose
/// text is `day`.
pub open spec fn spec_save_params(day: Seq<char>, cnt: nat) -> Seq<Seq<char>> {
    seq![day, decimal(cnt)]
}

impl KeycodeStatisticsSql {
    /// The saves that the database acknowledged, oldest first.
    pub closed spec fn saved(&self) -> Seq<(Seq<char>, nat)> {
        self.saved@
    }

    /// The connection to the database.
    pub closed spec fn db(&self) -> rusqlite::Connection {
        self.db_con
    }

    /// The path the database was opened at; `":memory:"` for one in memory.
    pub closed spec fn location(&self) -> Seq<char> {
        db_path(self.db_con)
    }

    /// The calls that changed the database and succeeded: the pragmas set and
    /// the statements run with their parameters.
    pub closed spec fn statements(&self) -> Seq<DbCall> {
        db_calls(self.db_con)
    }

    /// Opens a database that lives in memory only, and prepares it.
    pub fn in_memory() -> (r: Result<KeycodeStatisticsSql, HistoryError>)
        ensures
            r matches Ok(s) ==> spec_prepared(s, ":memory:"@),
    {
        let db_con = match open_in_memory() {
            Ok(c) => c,
            Err(e) => return Err(HistoryError::Db(e)),
        };
        let mut obj = KeycodeStatisticsSql { db_con, saved: Ghost(Seq::empty()) };
        match obj.setup() {
            Ok(()) => {
                assert(obj.statements() =~= seq![
                    DbCall::Pragma("journal_mode"@, "WAL"@),
                    DbCall::Execute(CREATE_TABLE_SQL@, Seq::<Seq<char>>::empty()),
                ]);
                Ok(obj)
            },
            Err(e) => Err(e),
        }
    }

    /// Opens the database file at `path`, creating it if missing, and
    /// prepares it.
    pub fn new(path: &str) -> (r: Result<KeycodeStatisticsSql, HistoryError>)
        ensures
            r matches Ok(s) ==> spec_prepared(s, path@),
    {
        let db_con = match open(path) {
            Ok(c) => c,
            Err(e) => return Err(HistoryError::Db(e)),
        };
        let mut obj = KeycodeStatisticsSql { db_con, saved: Ghost(Seq::empty()) };
        match obj.setup() {
            Ok(()) => {
                assert(obj.statements() =~= seq![
                    DbCall::Pragma("journal_mode"@, "WAL"@),
                    DbCall::Execute(CREATE_TABLE_SQL@, Seq::<Seq<char>>::empty()),
                ]);
                Ok(obj)
            },
            Err(e) => Err(e),
        }
    }

    /// Switches the journal to write-ahead logging, so that the database can
    /// be read while the plugin runs, then creates the table.
    fn setup(&mut self) -> (r: Result<(), HistoryError>)
        ensures
            final(self).saved() == old(self).saved(),
            final(self).location() == old(self).location(),
            r is Ok ==> final(self).statements() == old(self).statements().push(
                DbCall::Pragma("journal_mode"@, "WAL"@),
            ).push(DbCall::Execute(CREATE_TABLE_SQL@, Seq::<Seq<char>>::empty())),
    {
        match self.enable_wal() {
            Ok(()) => {},
            Err(e) => return Err(e),
        }
        self.create_table()
    }

    fn enable_wal(&mut self) -> (r: Result<(), HistoryError>)
        ensures
            final(self).saved() == old(self).saved(),
            final(self).location() == old(self).location(),
            r is Ok ==> final(self).statements() == old(self).statements().push(
                DbCall::Pragma("journal_mode"@, "WAL"@),
            ),
    {
        match pragma_update(&mut self.db_con, "journal_mode", "WAL") {
            Ok(()) => Ok(()),
            Err(e) => Err(HistoryError::Db(e)),
        }
    }

    fn create_table(&mut self) -> (r: Result<(), HistoryError>)
        ensures
            final(self).saved() == old(self).saved(),
            final(self).location() == old(self).location(),
            r is Ok ==> final(self).statements() == old(self).statements().push(
                DbCall::Execute(CREATE_TABLE_SQL@, Seq::<Seq<char>>::empty()),
            ),
            r is Err ==> final(self).statements() == old(self).statements(),
    {
        let no_params: Vec<String> = Vec::new();
        assert(texts(no_params@) =~= Seq::<Seq<char>>::empty());
        match execute(&mut self.db_con, CREATE_TABLE_SQL, no_params) {
            Ok(_) => Ok(()),
            Err(e) => Err(HistoryError::Db(e)),
        }
    }

    /// The values bound to the save statement: the day's text, then the
    /// number of presses in decimal.
    pub fn save_keypress_params(cnt: u64, date: &CalendarDate) -> (p: Vec<String>)
        ensures
            p@.len() == 2,
            p@[0]@ == date.spec_text(),
            p@[1]@ == decimal(cnt as nat),
            texts(p@) == spec_save_params(date.spec_text(), cnt as nat),
    {
        let mut p: Vec<String> = Vec::new();
        p.push(date.to_text());
        p.push(u64_to_decimal(cnt));
        assert(texts(p@) =~= spec_save_params(date.spec_text(), cnt as nat));
        p
    }

    /// Adds `cnt` presses to the total of the day `date`.
    pub fn save_keypress(&mut self, cnt: u64, date: &CalendarDate) -> (r: Result<(), HistoryError>)
        ensures
            r is Ok ==> final(self).saved() == old(self).saved().push((date.spec_text(), cnt as nat)),
            r is Err ==> final(self).saved() == old(self).saved(),
            final(self).location() == old(self).location(),
            r is Ok ==> final(self).statements() == old(self).statements().push(
                DbCall::Execute(UPSERT_SQL@, spec_save_params(date.spec_text(), cnt as nat)),
            ),
            r is Err ==> final(self).statements() == old(self).statements(),
    {
        let params = Self::save_keypress_params(cnt, date);
        match execute(&mut self.db_con, UPSERT_SQL, params) {
            Ok(_) => {
                proof {
                    self.saved@ = self.saved@.push((date.spec_text(), cnt as nat));
                }
                Ok(())
            },
            Err(e) => Err(HistoryError::Db(e)),
        }
    }

    /// The connection to the database.
    pub fn connection(&self) -> (c: &rusqlite::Connection)
        ensures
            *c == self.db(),
    {
        &self.db_con
    }
}

/// What the history plugin receives while it runs.
pub enum HistoryInput {
    /// An event from the publisher.
    Received(Event),
    /// The publisher is gone.
    Closed,
    /// The save interval elapsed.
    Tick,
}

/// The history plugin.
pub struct PluginHistory<T: CurrentLocalTime> {
    unsaved_events: u64,
    dump_interval: Option<u64>,
    stats_db: KeycodeStatisticsSql,
    time: T,
    clock_reads: Ghost<nat>,
}

impl<T: CurrentLocalTime> PluginHistory<T> {
    /// The presses counted and not saved yet.
    pub closed spec fn unsaved(&self) -> nat {
        self.unsaved_events as nat
    }

    /// The saves that the database acknowledged.
    pub closed spec fn saved(&self) -> Seq<(Seq<char>, nat)> {
        self.stats_db.saved()
    }

    /// The seconds between two saves, if the plugin saves on an interval.
    pub closed spec fn interval(&self) -> Option<u64> {
        self.dump_interval
    }

    /// The source of the current local time.
    pub closed spec fn clock(&self) -> T {
        self.time
    }

    /// The database.
    pub closed spec fn store(&self) -> KeycodeStatisticsSql {
        self.stats_db
    }

    /// How many times the plugin has read the clock.
    pub closed spec fn clock_reads(&self) -> nat {
        self.clock_reads@
    }

    /// Every press counted so far: the ones saved and the ones pending.
    pub open spec fn counted(&self) -> nat {
        saved_total(self.saved()) + self.unsaved()
    }

    fn new(stats_db: KeycodeStatisticsSql, dump_interval: Option<u64>, time: T) -> (h: Self)
        ensures
            h.unsaved() == 0,
            h.saved() == stats_db.saved(),
            h.interval() == dump_interval,
            h.clock() == time,
            h.store() == stats_db,
            h.clock_reads() == 0,
    {
        PluginHistory { unsaved_events: 0, dump_interval, stats_db, time, clock_reads: Ghost(0) }
    }

    /// Opens the configured database and starts with nothing counted; an
    /// interval of 0 means a save at each key press.
    pub fn init(value: PluginHistoryConfig, time: T) -> (r: Result<Self, HistoryError>)
        ensures
            r matches Ok(h) ==> {
                &&& h.unsaved() == 0
                &&& h.saved() == Seq::<(Seq<char>, nat)>::empty()
                &&& h.clock() == time
                &&& h.clock_reads() == 0
                &&& spec_prepared(h.store(), value.db_path@)
                &&& h.interval() == (if value.dump_interval == 0 {
                    None
                } else {
                    Some(value.dump_interval)
                })
            },
    {
        let sql = match KeycodeStatisticsSql::new(value.db_path.as_str()) {
            Ok(s) => s,
            Err(e) => return Err(e),
        };
        let interval = if value.dump_interval == 0 {
            None
        } else {
            Some(value.dump_interval)
        };
        Ok(Self::new(sql, interval, time))
    }

    pub fn name(&self) -> (n: &'static str)
        ensures
            n@ == PLUGIN_NAME@,
    {
        PLUGIN_NAME
    }

    /// The presses counted and not saved yet.
    pub fn unsaved_events(&self) -> (n: u64)
        ensures
            n == self.unsaved(),
    {
        self.unsaved_events
    }

    /// The seconds between two saves, if the plugin saves on an interval.
    pub fn dump_interval(&self) -> (i: Option<u64>)
        ensures
            i == self.interval(),
    {
        self.dump_interval
    }

    /// The database.
    pub fn stats(&self) -> (s: &KeycodeStatisticsSql)
        ensures
            s.saved() == self.saved(),
            *s == self.store(),
    {
        &self.stats_db
    }

    /// The source of the current local time.
    pub fn time(&self) -> (t: &T)
        ensures
            *t == self.clock(),
    {
        &self.time
    }

    /// Counts the event if it is a press of a key that is not a modifier.
    pub fn save_keypress_in_cache(&mut self, event: KbdEvent)
        requires
            old(self).unsaved() < u64::MAX,
        ensures
            final(self).unsaved() == old(self).unsaved() + (if spec_counts(event) {
                1int
            } else {
                0int
            }),
            final(self).saved() == old(self).saved(),
            final(self).interval() == old(self).interval(),
            final(self).clock() == old(self).clock(),
            final(self).clock_reads() == old(self).clock_reads(),
            final(self).store() == old(self).store(),
    {
        if !event.is_press() {
            return ;
        }
        if !event.code.is_modifier() {
            self.unsaved_events = self.unsaved_events + 1;
        }
    }

    /// Saves the pending presses under today's date. With nothing pending
    /// the database is not touched; when the save fails the presses stay
    /// pending.
    #[verifier::spinoff_prover]
    pub fn sync_db_with_cache(&mut self) -> (r: Result<(), HistoryError>)
        ensures
            final(self).interval() == old(self).interval(),
            final(self).counted() == old(self).counted(),
            r is Ok ==> final(self).unsaved() == 0,
            r is Ok && old(self).unsaved() == 0 ==> final(self).saved() == old(self).saved(),
            final(self).clock_reads() == old(self).clock_reads() + if old(self).unsaved() != 0 {
                1nat
            } else {
                0nat
            },
            final(self).clock() == old(self).clock(),
            r is Ok && old(self).unsaved() != 0 ==> exists|t: LocalDateTime|
                #[trigger] spec_reads(old(self).clock(), t) && final(self).saved() == old(
                    self,
                ).saved().push((t.spec_date().spec_text(), old(self).unsaved()))
                    && final(self).store().statements() == old(self).store().statements().push(
                    DbCall::Execute(
                        UPSERT_SQL@,
                        spec_save_params(t.spec_date().spec_text(), old(self).unsaved()),
                    ),
                ) && forall|day: Seq<char>|
                    #[trigger] day_total(final(self).saved(), day) == day_total(old(self).saved(), day)
                        + if day == t.spec_date().spec_text() {
                        old(self).unsaved()
                    } else {
                        0
                    },
            final(self).store().location() == old(self).store().location(),
            r is Ok && old(self).unsaved() == 0 ==> final(self).store() == old(self).store(),
            r is Err ==> final(self).store().statements() == old(self).store().statements(),
            r is Err ==> old(self).unsaved() != 0 && final(self).unsaved() == old(self).unsaved()
                && final(self).saved() == old(self).saved(),
    {
        if self.unsaved_events != 0 {
            let now = self.time.now();
            assert(spec_reads(self.time, now));
            self.clock_reads = Ghost(self.clock_reads@ + 1);
            let date = now.date_naive();
            let ghost before = self.stats_db.saved();
            match self.stats_db.save_keypress(self.unsaved_events, &date) {
                Ok(()) => {},
                Err(e) => return Err(e),
            }
            proof {
                lemma_saved_total_push(before, (date.spec_text(), self.unsaved_events as nat));
                assert forall|day: Seq<char>|
                    #[trigger] day_total(self.stats_db.saved(), day) == day_total(before, day)
                        + if day == date.spec_text() {
                        self.unsaved_events as nat
                    } else {
                        0
                    } by {
                    lemma_day_total_push(before, (date.spec_text(), self.unsaved_events as nat), day);
                }
                assert(self.stats_db.statements() == old(self).stats_db.statements().push(
                    DbCall::Execute(
                        UPSERT_SQL@,
                        spec_save_params(now.spec_date().spec_text(), old(self).unsaved()),
                    ),
                ));
            }
            self.unsaved_events = 0;
            assert(spec_reads(old(self).clock(), now));
        }
        Ok(())
    }

    /// Handles what the plugin receives while it runs: a key event is
    /// counted, and saved at once when there is no interval; `PluginStop` and
    /// the interval's tick save what is pending; the end of the publisher
    /// stops the plugin. A failed save is handed back; its presses stay
    /// pending.
    pub fn handle(&mut self, input: HistoryInput) -> (step: HistoryStep)
        requires
            input matches HistoryInput::Received(Event::KeyEvent(_)) ==> old(self).unsaved()
                < u64::MAX,
        ensures
            spec_handled(*old(self), input, *final(self), step),
            step.keep_running == !(input is Closed),
            final(self).interval() == old(self).interval(),
            final(self).counted() == old(self).counted() + spec_input_count(input),
            !spec_input_saves(input, old(self).interval()) ==> step.save_error is None
                && final(self).saved() == old(self).saved(),
            spec_input_saves(input, old(self).interval()) && step.save_error is None
                ==> final(self).unsaved() == 0,
            step.save_error is Some ==> final(self).saved() == old(self).saved(),
            final(self).clock() == old(self).clock(),
            final(self).clock_reads() == old(self).clock_reads() + if spec_input_saves(
                input,
                old(self).interval(),
            ) && old(self).unsaved() + spec_input_count(input) != 0 {
                1nat
            } else {
                0nat
            },
            spec_input_saves(input, old(self).interval()) && step.save_error is None ==> {
                let pending = old(self).unsaved() + spec_input_count(input);
                ||| pending == 0 && final(self).saved() == old(self).saved()
                ||| exists|t: LocalDateTime|
                    #[trigger] spec_reads(old(self).clock(), t) && final(self).saved() == old(
                        self,
                    ).saved().push((t.spec_date().spec_text(), pending as nat)) && forall|
                        day: Seq<char>,
                    |
                        #[trigger] day_total(final(self).saved(), day) == day_total(
                            old(self).saved(),
                            day,
                        ) + if day == t.spec_date().spec_text() {
                            pending as nat
                        } else {
                            0
                        }
            },
    {
        match input {
            HistoryInput::Received(Event::KeyEvent(kbd_ev)) => {
                self.save_keypress_in_cache(kbd_ev);
                let mut save_error = None;
                if self.dump_interval.is_none() {
                    match self.sync_db_with_cache() {
                        Ok(()) => {},
                        Err(e) => save_error = Some(e),
                    }
                }
                HistoryStep { keep_running: true, save_error }
            },
            HistoryInput::Received(Event::PluginStop) | HistoryInput::Tick => {
                let save_error = match self.sync_db_with_cache() {
                    Ok(()) => None,
                    Err(e) => Some(e),
                };
                HistoryStep { keep_running: true, save_error }
            },
            HistoryInput::Closed => HistoryStep { keep_running: false, save_error: None },
        }
    }
}

/// Whether `t` is a time that the clock's `now` may return.
pub open spec fn spec_reads<T: CurrentLocalTime>(clock: T, t: LocalDateTime) -> bool {
    call_ensures(T::now, (&clock,), t)
}

/// How many presses an input counts.
pub open spec fn spec_input_count(input: HistoryInput) -> int {
    match input {
        HistoryInput::Received(Event::KeyEvent(e)) => if spec_counts(e) {
            1
        } else {
            0
        },
        _ => 0,
    }
}

/// Whether an input makes the plugin save what is pending: a key event when
/// there is no interval, `PluginStop`, and the interval's tick.
pub open spec fn spec_input_saves(input: HistoryInput, interval: Option<u64>) -> bool {
    match input {
        HistoryInput::Received(Event::KeyEvent(_)) => interval is None,
        HistoryInput::Received(Event::PluginStop) => true,
        HistoryInput::Tick => true,
        HistoryInput::Closed => false,
    }
}

/// The result of handling one input.
pub struct HistoryStep {
    /// Whether the plugin keeps running.
    pub keep_running: bool,
    /// The failure of the save that the input made, if it failed.
    pub save_error: Option<HistoryError>,
}

/// What handling `input` does to the plugin `before`, leaving it as `after`
/// with the step `step`: the interval and the clock stay, the input's press
/// is counted, and an input that saves and whose save succeeds leaves
/// nothing pending, having saved what was pending under a day the clock
/// read.
pub open spec fn spec_handled<T: CurrentLocalTime>(
    before: PluginHistory<T>,
    input: HistoryInput,
    after: PluginHistory<T>,
    step: HistoryStep,
) -> bool {
    &&& after.interval() == before.interval()
    &&& after.clock() == before.clock()
    &&& after.counted() == before.counted() + spec_input_count(input)
    &&& spec_input_saves(input, before.interval()) && step.save_error is None ==> {
        let pending = before.unsaved() + spec_input_count(input);
        &&& after.unsaved() == 0
        &&& pending == 0 ==> after.saved() == before.saved()
        &&& pending != 0 ==> exists|t: LocalDateTime|
            #[trigger] spec_reads(before.clock(), t) && after.saved() == before.saved().push(
                (t.spec_date().spec_text(), pending as nat),
            )
    }
}

/// The presses that a run of inputs counts.
pub open spec fn total_count(inputs: Seq<HistoryInput>) -> int
    decreases inputs.len(),
{
    if inputs.len() == 0 {
        0
    } else {
        total_count(inputs.drop_last()) + spec_input_count(inputs.last())
    }
}

/// With no interval, each key press is saved as soon as it is handled: along
/// a run of key events whose saves all succeed, nothing is ever pending, each
/// counted press is saved on its own under a day that the clock read, the
/// others save nothing, and the saved total grows by the presses counted.
pub proof fn lemma_no_interval_saves_each_press<T: CurrentLocalTime>(
    states: Seq<PluginHistory<T>>,
    inputs: Seq<HistoryInput>,
    steps: Seq<HistoryStep>,
)
    requires
        states.len() == inputs.len() + 1,
        steps.len() == inputs.len(),
        states[0].interval() is None,
        states[0].unsaved() == 0,
        forall|i: int|
            #![trigger inputs[i]]
            0 <= i < inputs.len() ==> {
                &&& inputs[i] matches HistoryInput::Received(Event::KeyEvent(_))
                &&& steps[i].save_error is None
                &&& spec_handled(states[i], inputs[i], states[i + 1], steps[i])
            },
    ensures
        forall|i: int|
            #![trigger states[i]]
            0 <= i < states.len() ==> {
                &&& states[i].unsaved() == 0
                &&& states[i].interval() is None
                &&& states[i].clock() == states[0].clock()
            },
        forall|i: int|
            #![trigger inputs[i]]
            0 <= i < inputs.len() ==> {
                ||| spec_input_count(inputs[i]) == 0 && states[i + 1].saved() == states[i].saved()
                ||| exists|t: LocalDateTime|
                    #[trigger] spec_reads(states[0].clock(), t) && states[i + 1].saved()
                        == states[i].saved().push((t.spec_date().spec_text(), 1nat))
            },
        saved_total(states.last().saved()) == saved_total(states[0].saved()) + total_count(inputs),
    decreases inputs.len(),
{
    if inputs.len() > 0 {
        let n = inputs.len() - 1;
        let s0 = states.drop_last();
        let i0 = inputs.drop_last();
        let t0 = steps.drop_last();
        assert forall|i: int| #![trigger i0[i]] 0 <= i < i0.len() implies {
            &&& i0[i] matches HistoryInput::Received(Event::KeyEvent(_))
            &&& t0[i].save_error is None
            &&& spec_handled(s0[i], i0[i], s0[i + 1], t0[i])
        } by {
            assert(inputs[i] == i0[i]);
        }
        lemma_no_interval_saves_each_press(s0, i0, t0);
        assert(inputs[n] == inputs.last());
        assert(s0[n as int] == states[n as int]);
        assert(s0[0] == states[0]);
        assert(states[n as int].unsaved() == 0 && states[n as int].interval() is None);
        assert(spec_handled(states[n as int], inputs[n as int], states[n + 1], steps[n as int]));
        assert forall|i: int| #![trigger states[i]] 0 <= i < states.len() implies {
            &&& states[i].unsaved() == 0
            &&& states[i].interval() is None
            &&& states[i].clock() == states[0].clock()
        } by {
            if i < states.len() - 1 {
                assert(states[i] == s0[i]);
            }
        }
        assert forall|i: int| #![trigger inputs[i]] 0 <= i < inputs.len() implies {
            ||| spec_input_count(inputs[i]) == 0 && states[i + 1].saved() == states[i].saved()
            ||| exists|t: LocalDateTime|
                #[trigger] spec_reads(states[0].clock(), t) && states[i + 1].saved()
                    == states[i].saved().push((t.spec_date().spec_text(), 1nat))
        } by {
            if i < n {
                assert(inputs[i] == i0[i]);
                assert(states[i] == s0[i] && states[i + 1] == s0[i + 1]);
            } else {
                assert(states[i].unsaved() == 0);
                assert(states[i].clock() == states[0].clock());
            }
        }
    }
}

/// `--interval` followed by the decimal text of a number sets the seconds
/// between two saves to that number, whatever they were, and keeps the
/// database file.
pub proof fn lemma_interval_option_sets_interval(
    c: PluginHistoryConfig,
    arg: ArgToken,
    value: String,
    n: u64,
)
    requires
        is_long(arg, "interval"@),
        value@ == decimal(n as nat),
    ensures
        c.spec_apply(arg, Some(value)) matches Ok(c2) && c2.dump_interval == n && c2.db_path
            == c.db_path,
{
    reveal_strlit("interval");
    reveal_strlit("db-path");
    assert("interval"@ != "db-path"@) by {
        assert("interval"@.len() != "db-path"@.len());
    }
    assert(!is_long(arg, "db-path"@));
    lemma_parse_decimal_round_trip(n);
    assert(spec_parse_u64(value@) == Some(n));
}

/// `--db-path` followed by a path sets the database file to that path,
/// whatever it was, and keeps the seconds between two saves.
pub proof fn lemma_db_path_option_sets_path(c: PluginHistoryConfig, arg: ArgToken, value: String)
    requires
        is_long(arg, "db-path"@),
    ensures
        c.spec_apply(arg, Some(value)) matches Ok(c2) && c2.db_path == value && c2.dump_interval
            == c.dump_interval,
{
}

/// Only presses of regular keys are counted: a key event counts exactly when
/// it is a press and its key is none of the two shifts, controls, alts and
/// meta keys.
pub proof fn lemma_counts_regular_presses(event: KbdEvent)
    ensures
        spec_counts(event) <==> event.state == KbdKeyState::Pressed && !{
            ||| event.code == Keycode::KEY_LEFTSHIFT
            ||| event.code == Keycode::KEY_RIGHTSHIFT
            ||| event.code == Keycode::KEY_LEFTCTRL
            ||| event.code == Keycode::KEY_RIGHTCTRL
            ||| event.code == Keycode::KEY_LEFTALT
            ||| event.code == Keycode::KEY_RIGHTALT
            ||| event.code == Keycode::KEY_LEFTMETA
            ||| event.code == Keycode::KEY_RIGHTMETA
        },
{
    lemma_modifiers_are_exactly(event.code);
}

/// The factory of the history plugin.
pub struct PluginHistoryFactory;

impl PluginFactory for PluginHistoryFactory {
    fn cli_name(&self) -> (n: &'static str)
        ensures
            n@ == "history"@,
    {
        "history"
    }

    fn help(&self) -> (h: String)
        ensures
            h@ == HISTORY_HELP@,
    {
        String::from_str(HISTORY_HELP)
    }
}

/// The description of the history plugin and its options.
pub const HISTORY_HELP: &'static str = "\
Stores the number of keyboard presses for each day in a database.
Only regular keys are counted, modifiers (like Shift) are ignored.
Useful to monitor your performance on the computer (if you run this program as a service).
Options:
    --db-path <path>
        Absolute path to the db where to store the number of daily keyboard presses.

        [default: /var/lib/keyprod/history.db]

    --interval <sec>
        Interval between saving events to the database. Increasing the value can reduce the load
        on the system, as keyboard events will be summed up locally for longer and synced with the
        database less often. If the value is 0, changes to the database will be saved with each
        keystroke.

        [default: 5]
";

} // verus!
