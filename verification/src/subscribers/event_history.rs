//! The history subscriber: adds each press of a regular key to the day's
//! total in an SQLite database at once.
use vstd::prelude::*;

use crate::kbd_event::KbdEvent;
use crate::plugins::history::{spec_counts, spec_reads, spec_save_params};
use crate::args::texts;
use crate::sqlite::{
    day_total, db_calls, db_path, execute, lemma_day_total_push, DbCall, CREATE_TABLE_SQL, UPSERT_SQL,
};
use crate::text::{decimal, path_join, spec_path_join, u64_to_decimal};
use crate::time::{CalendarDate, CurrentLocalTime, LocalDateTime};

verus! {

/// The name of the database file in the state directory.
pub const DB_NAME: &'static str = "history.db";

/// The database file in the state directory `state_dir`.
pub open spec fn spec_history_db_path(state_dir: Seq<char>) -> Seq<char> {
    spec_path_join(spec_path_join(Seq::empty(), state_dir), DB_NAME@)
}

/// The database file in the state directory `state_dir`.
pub fn history_db_path(state_dir: &str) -> (p: String)
    ensures
        p@ == spec_history_db_path(state_dir@),
{
    let dir = path_join("", state_dir);
    proof {
        reveal_strlit("");
    }
    path_join(dir.as_str(), DB_NAME)
}

/// The per-day totals of key presses in an SQLite database, with the ghost
/// log of the saves that the database acknowledged (the day's text and the
/// number of presses).
pub struct KeycodeStatisticsSql {
    db_con: rusqlite::Connection,
    saved: Ghost<Seq<(Seq<char>, nat)>>,
}

impl KeycodeStatisticsSql {
    /// The saves that the database acknowledged, oldest first.
    pub closed spec fn saved(&self) -> Seq<(Seq<char>, nat)> {
        self.saved@
    }

    /// The connection to the database.
    pub closed spec fn db(&self) -> rusqlite::Connection {
        self.db_con
    }

    /// The calls that changed the database through its connection and
    /// succeeded.
    pub closed spec fn statements(&self) -> Seq<DbCall> {
        db_calls(self.db_con)
    }

    /// The path that the database was opened at.
    pub closed spec fn location(&self) -> Seq<char> {
        db_path(self.db_con)
    }

    /// Takes the database and creates its table if it is missing.
    pub fn new(db_con: rusqlite::Connection) -> (r: Result<KeycodeStatisticsSql, rusqlite::Error>)
        ensures
            r matches Ok(s) ==> s.saved() == Seq::<(Seq<char>, nat)>::empty() && s.location()
                == db_path(db_con) && s.statements() == db_calls(db_con).push(
                DbCall::Execute(CREATE_TABLE_SQL@, Seq::<Seq<char>>::empty()),
            ),
    {
        let mut obj = KeycodeStatisticsSql { db_con, saved: Ghost(Seq::empty()) };
        match obj.create_table() {
            Ok(()) => Ok(obj),
            Err(e) => Err(e),
        }
    }

    fn create_table(&mut self) -> (r: Result<(), rusqlite::Error>)
        ensures
            final(self).saved() == old(self).saved(),
            final(self).location() == old(self).location(),
            r is Ok ==> final(self).statements() == old(self).statements().push(
                DbCall::Execute(CREATE_TABLE_SQL@, Seq::<Seq<char>>::empty()),
            ),
            r is Err ==> final(self).statements() == old(self).statements(),
    {
        let no_params: Vec<String> = Vec::new();
        assert(texts(no_params@) =~= Seq::<Seq<char>>::empty());
        match execute(&mut self.db_con, CREATE_TABLE_SQL, no_params) {
            Ok(_) => Ok(()),
            Err(e) => Err(e),
        }
    }

    /// Adds `cnt` presses to the total of the day `date`.
    pub fn save_keypress(&mut self, cnt: u32, date: &CalendarDate) -> (r: Result<(), rusqlite::Error>)
        ensures
            r is Ok ==> final(self).saved() == old(self).saved().push((date.spec_text(), cnt as nat)),
            r is Err ==> final(self).saved() == old(self).saved(),
            final(self).location() == old(self).location(),
            r is Ok ==> final(self).statements() == old(self).statements().push(
                DbCall::Execute(UPSERT_SQL@, spec_save_params(date.spec_text(), cnt as nat)),
            ),
            r is Err ==> final(self).statements() == old(self).statements(),
    {
        let mut params: Vec<String> = Vec::new();
        params.push(date.to_text());
        params.push(u64_to_decimal(cnt as u64));
        assert(texts(params@) =~= spec_save_params(date.spec_text(), cnt as nat));
        match execute(&mut self.db_con, UPSERT_SQL, params) {
            Ok(_) => {
                proof {
                    self.saved@ = self.saved@.push((date.spec_text(), cnt as nat));
                }
                Ok(())
            },
            Err(e) => Err(e),
        }
    }

    /// The connection to the database.
    pub fn connection(&self) -> (c: &rusqlite::Connection)
        ensures
            *c == self.db(),
    {
        &self.db_con
    }
}

/// The logic of the history subscriber: the database and the clock.
pub struct EventHistoryLogic<T: CurrentLocalTime> {
    stats: KeycodeStatisticsSql,
    time: T,
    clock_reads: Ghost<nat>,
}

impl<T: CurrentLocalTime> EventHistoryLogic<T> {
    /// The saves that the database acknowledged, oldest first.
    pub closed spec fn saved(&self) -> Seq<(Seq<char>, nat)> {
        self.stats.saved()
    }

    /// The connection to the database.
    pub closed spec fn db(&self) -> rusqlite::Connection {
        self.stats.db()
    }

    /// The source of the current local time.
    pub closed spec fn clock(&self) -> T {
        self.time
    }

    /// The database.
    pub closed spec fn store(&self) -> KeycodeStatisticsSql {
        self.stats
    }

    /// How many times the clock has been read.
    pub closed spec fn clock_reads(&self) -> nat {
        self.clock_reads@
    }

    /// Takes the database, creating its table if missing, and the clock.
    pub fn new(db_con: rusqlite::Connection, time: T) -> (r: Result<Self, rusqlite::Error>)
        ensures
            r matches Ok(h) ==> h.saved() == Seq::<(Seq<char>, nat)>::empty() && h.clock() == time
                && h.clock_reads() == 0 && h.store().location() == db_path(db_con)
                && h.store().statements() == db_calls(db_con).push(
                DbCall::Execute(CREATE_TABLE_SQL@, Seq::<Seq<char>>::empty()),
            ),
    {
        match KeycodeStatisticsSql::new(db_con) {
            Ok(stats) => Ok(EventHistoryLogic { stats, time, clock_reads: Ghost(0) }),
            Err(e) => Err(e),
        }
    }

    /// Adds a press of a regular key to today's total at once; releases,
    /// repeats and modifier keys are not counted and touch nothing.
    pub fn register_keypress(&mut self, event: KbdEvent) -> (r: Result<(), rusqlite::Error>)
        ensures
            !spec_counts(event) ==> r is Ok && final(self).saved() == old(self).saved(),
            spec_counts(event) && r is Ok ==> exists|t: LocalDateTime|
                #[trigger] spec_reads(old(self).clock(), t) && final(self).saved() == old(
                    self,
                ).saved().push((t.spec_date().spec_text(), 1nat))
                    && final(self).store().statements() == old(self).store().statements().push(
                    DbCall::Execute(UPSERT_SQL@, spec_save_params(t.spec_date().spec_text(), 1nat)),
                ) && forall|day: Seq<char>|
                    #[trigger] day_total(final(self).saved(), day) == day_total(old(self).saved(), day)
                        + if day == t.spec_date().spec_text() {
                        1nat
                    } else {
                        0
                    },
            !spec_counts(event) || r is Err ==> final(self).store().statements() == old(
                self,
            ).store().statements(),
            final(self).clock() == old(self).clock(),
            final(self).clock_reads() == old(self).clock_reads() + if spec_counts(event) {
                1nat
            } else {
                0nat
            },
            r is Err ==> final(self).saved() == old(self).saved(),
    {
        if !event.is_press() {
            return Ok(());
        }
        if !event.code.is_modifier() {
            let now = self.time.now();
            assert(spec_reads(self.time, now));
            self.clock_reads = Ghost(self.clock_reads@ + 1);
            let date = now.date_naive();
            let ghost before = self.saved();
            let r = self.stats.save_keypress(1, &date);
            assert forall|day: Seq<char>|
                r is Ok implies #[trigger] day_total(self.saved(), day) == day_total(before, day)
                    + if day == now.spec_date().spec_text() {
                    1nat
                } else {
                    0
                } by {
                lemma_day_total_push(before, (now.spec_date().spec_text(), 1nat), day);
            }
            assert(r is Ok ==> spec_reads(old(self).clock(), now) && self.saved() == old(
                self,
            ).saved().push((now.spec_date().spec_text(), 1nat)) && self.store().statements()
                == old(self).store().statements().push(
                DbCall::Execute(UPSERT_SQL@, spec_save_params(now.spec_date().spec_text(), 1nat)),
            ));
            return r;
        }
        Ok(())
    }

    /// The database.
    pub fn stats(&self) -> (s: &KeycodeStatisticsSql)
        ensures
            s.saved() == self.saved(),
            s.db() == self.db(),
            *s == self.store(),
    {
        &self.stats
    }
}

} // verus!
