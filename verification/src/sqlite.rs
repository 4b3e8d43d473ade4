//! The SQLite calls that the key press statistics make, through `rusqlite`.
use vstd::prelude::*;

use crate::args::texts;

verus! {

#[verifier::external_type_specification]
#[verifier::external_body]
pub struct ExConnection(rusqlite::Connection);

#[verifier::external_type_specification]
#[verifier::external_body]
pub struct ExError(rusqlite::Error);

/// A call that changed a database through its connection.
pub enum DbCall {
    /// A statement run with the texts of its parameters.
    Execute(Seq<char>, Seq<Seq<char>>),
    /// A pragma set to a value.
    Pragma(Seq<char>, Seq<char>),
}

/// The path that the connection was opened at; `":memory:"` for a database
/// in memory, which is the name that `rusqlite` opens it by.
pub uninterp spec fn db_path(c: rusqlite::Connection) -> Seq<char>;

/// The calls that changed the database through the connection and that
/// succeeded, oldest first.
pub uninterp spec fn db_calls(c: rusqlite::Connection) -> Seq<DbCall>;

/// Calls `rusqlite::Connection::open`, which opens the database file at
/// `path`, creating it if it is missing. Whether that succeeds depends on the
/// file system; an opened connection is at `path` and has changed nothing
/// yet.
#[verifier::external_body]
pub(crate) fn open(path: &str) -> (r: Result<rusqlite::Connection, rusqlite::Error>)
    ensures
        r matches Ok(c) ==> db_path(c) == path@ && db_calls(c) == Seq::<DbCall>::empty(),
{
    rusqlite::Connection::open(path)
}

/// Calls `rusqlite::Connection::open_in_memory`, which opens a new database
/// that lives in memory only, by the name `":memory:"`. An opened connection
/// has changed nothing yet.
#[verifier::external_body]
pub(crate) fn open_in_memory() -> (r: Result<rusqlite::Connection, rusqlite::Error>)
    ensures
        r matches Ok(c) ==> db_path(c) == ":memory:"@ && db_calls(c) == Seq::<DbCall>::empty(),
{
    rusqlite::Connection::open_in_memory()
}

/// Calls `rusqlite::Connection::pragma_update` on the main database, which
/// sets the pragma `name` to `value`. Whether that succeeds depends on the
/// database; a success is recorded among the connection's calls.
#[verifier::external_body]
pub(crate) fn pragma_update(
    conn: &mut rusqlite::Connection,
    name: &str,
    value: &str,
) -> (r: Result<(), rusqlite::Error>)
    ensures
        db_path(*final(conn)) == db_path(*old(conn)),
        r is Ok ==> db_calls(*final(conn)) == db_calls(*old(conn)).push(
            DbCall::Pragma(name@, value@),
        ),
        r is Err ==> db_calls(*final(conn)) == db_calls(*old(conn)),
{
    conn.pragma_update(None, name, value)
}

/// Calls `rusqlite::Connection::execute`, which runs the statement `sql`
/// with `params` bound to `?1`, `?2`, ... in order, and returns the number of
/// rows it changed. Whether it succeeds, and what it changes, lives in the
/// database; a success is recorded among the connection's calls with the
/// statement and its parameters.
#[verifier::external_body]
pub(crate) fn execute(
    conn: &mut rusqlite::Connection,
    sql: &str,
    params: Vec<String>,
) -> (r: Result<usize, rusqlite::Error>)
    ensures
        db_path(*final(conn)) == db_path(*old(conn)),
        r is Ok ==> db_calls(*final(conn)) == db_calls(*old(conn)).push(
            DbCall::Execute(sql@, texts(params@)),
        ),
        r is Err ==> db_calls(*final(conn)) == db_calls(*old(conn)),
{
    conn.execute(sql, rusqlite::params_from_iter(params))
}

/// The sum of the counts of a log of saved key presses.
pub open spec fn saved_total(log: Seq<(Seq<char>, nat)>) -> nat
    decreases log.len(),
{
    if log.len() == 0 {
        0
    } else {
        saved_total(log.drop_last()) + log.last().1
    }
}

/// Saving one more count adds it to the total.
pub proof fn lemma_saved_total_push(log: Seq<(Seq<char>, nat)>, entry: (Seq<char>, nat))
    ensures
        saved_total(log.push(entry)) == saved_total(log) + entry.1,
{
    assert(log.push(entry).drop_last() =~= log);
}

/// The number of presses that a log of saves holds for the day whose text
/// is `day`: the day's row in the table of daily counts.
pub open spec fn day_total(log: Seq<(Seq<char>, nat)>, day: Seq<char>) -> nat
    decreases log.len(),
{
    if log.len() == 0 {
        0
    } else if log.last().0 == day {
        day_total(log.drop_last(), day) + log.last().1
    } else {
        day_total(log.drop_last(), day)
    }
}

/// A save adds its count to the total of its own day and leaves the total of
/// every other day as it was.
pub proof fn lemma_day_total_push(log: Seq<(Seq<char>, nat)>, entry: (Seq<char>, nat), day: Seq<char>)
    ensures
        day_total(log.push(entry), day) == day_total(log, day) + if entry.0 == day {
            entry.1
        } else {
            0
        },
{
    assert(log.push(entry).drop_last() =~= log);
}

/// The statement that creates the table of daily key press counts.
pub const CREATE_TABLE_SQL: &'static str = "
            CREATE TABLE IF NOT EXISTS Statistics (
                Date TEXT PRIMARY KEY,
                KeypressCnt INT NOT NULL DEFAULT 0
            )
        ";

/// The statement that adds `?2` key presses to the count of the day `?1`.
pub const UPSERT_SQL: &'static str = "
            INSERT INTO Statistics(Date, KeypressCnt)
            VALUES(?1, ?2)
            ON CONFLICT(date)
            DO UPDATE SET KeypressCnt = KeypressCnt + ?2
         ";

} // verus!
