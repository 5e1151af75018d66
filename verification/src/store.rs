//! The dictionary store: one SQLite file per dictionary, read through `rusqlite`.
//!
//! What a store answers depends on the file behind it, so the calls into
//! `rusqlite` promise nothing. Every answer is shaped by verified code before
//! the navigation state sees it.

use vstd::prelude::*;
use rusqlite::Connection;
use crate::text::{is_clean, normalize_newlines, prefix_pattern, starts_with, with_newlines};
use crate::text::{lemma_newlines_clean};

verus! {

/// `rusqlite::Connection`, an open database. It is carried about and handed
/// back to `rusqlite`; nothing is known of what is inside.
#[verifier::external_type_specification]
#[verifier::external_body]
pub struct ExConnection(rusqlite::Connection);

/// `rusqlite::Error`, what a failed call into `rusqlite` returns. Only the
/// fact that there was an error is used.
#[verifier::external_type_specification]
#[verifier::external_body]
pub struct ExSqlError(rusqlite::Error);

/// The text shown when a query matches no word.
pub const NOT_FOUND: &'static str = "Not found!";

/// The statement that lists the words of a dictionary in the store's order.
pub const WORDS_SQL: &'static str = "SELECT word FROM dictionary";

/// The statement that finds the records whose word matches a pattern.
pub const LOOKUP_SQL: &'static str =
    "SELECT ROWID, word, definition FROM dictionary WHERE word GLOB ?1";

/// Why a dictionary could not be loaded.
#[derive(Clone, Copy, Debug, PartialEq, Eq, Structural)]
pub enum StoreError {
    /// The list of dictionaries has no entry at the index asked for.
    NoSuchDictionary,
    /// The store's file could not be opened.
    CannotOpen,
    /// The store was opened, but its words could not be read.
    CannotRead,
}

impl StoreError {
    /// The words that tell the user of the error.
    pub open spec fn words(self) -> Seq<char> {
        match self {
            StoreError::NoSuchDictionary => "There is no such dictionary"@,
            StoreError::CannotOpen => "The dictionary could not be opened"@,
            StoreError::CannotRead => "The dictionary could not be read"@,
        }
    }

    /// Tells the user of the error.
    pub fn message(self) -> (told: &'static str)
        ensures
            told@ == self.words(),
    {
        match self {
            StoreError::NoSuchDictionary => "There is no such dictionary",
            StoreError::CannotOpen => "The dictionary could not be opened",
            StoreError::CannotRead => "The dictionary could not be read",
        }
    }
}

/// One record as the store hands it out, before it is shaped for display.
pub struct StoreRow {
    pub rowid: i64,
    pub word: String,
    pub definition: String,
}

/// The answer to a lookup.
#[derive(Debug)]
pub struct DicEntry {
    /// The word's place in the dictionary's order, counted from 0.
    pub index: usize,
    pub word: String,
    pub definition: String,
    /// Whether the lookup matched a word. Where it did not, `index` is no
    /// place in the dictionary.
    pub found: bool,
}

impl StoreRow {
    /// Whether the record's row number is one that the store gives to a record:
    /// they count from 1.
    pub open spec fn has_position(self) -> bool {
        1 <= self.rowid && self.rowid - 1 <= usize::MAX
    }

    /// Whether the record answers a search for the words that begin with `query`.
    pub open spec fn answers(self, query: Seq<char>) -> bool {
        self.has_position() && query.is_prefix_of(self.word@)
    }
}

impl DicEntry {
    /// The entry that stands for "no match".
    pub open spec fn is_missing(self) -> bool {
        &&& !self.found
        &&& self.index == 0
        &&& self.word@ == Seq::<char>::empty()
        &&& self.definition@ == NOT_FOUND@
    }

    /// The entry made from the record `row`.
    pub open spec fn is_from(self, row: StoreRow) -> bool {
        &&& self.found
        &&& self.index == row.rowid - 1
        &&& self.word@ == row.word@
        &&& self.definition@ == with_newlines(row.definition@)
    }

    /// An entry is either the one for "no match" or carries a definition that
    /// is ready for display.
    pub open spec fn wf(self) -> bool {
        &&& is_clean(self.definition@)
        &&& !self.found ==> self.is_missing()
    }

    /// The entry returned when nothing matches.
    pub fn missing() -> (entry: DicEntry)
        ensures
            entry.is_missing(),
            entry.wf(),
    {
        proof {
            lemma_not_found_clean();
        }
        DicEntry {
            index: 0,
            word: String::new(),
            definition: NOT_FOUND.to_owned(),
            found: false,
        }
    }

    /// Shapes what the store answered to a search for `query`. A record counts
    /// only if its word really begins with `query` and its row number is a
    /// place in the dictionary; its definition is made ready for display.
    pub fn from_row(row: StoreRow, query: &str) -> (entry: DicEntry)
        ensures
            entry.wf(),
            row.answers(query@) ==> entry.is_from(row),
            !row.answers(query@) ==> entry.is_missing(),
    {
        if row.rowid < 1 || (row.rowid - 1) as u64 > usize::MAX as u64 {
            return DicEntry::missing();
        }
        if !starts_with(row.word.as_str(), query) {
            return DicEntry::missing();
        }
        proof {
            lemma_newlines_clean(row.definition@);
        }
        let definition = normalize_newlines(row.definition.as_str());
        DicEntry { index: (row.rowid - 1) as usize, word: row.word, definition, found: true }
    }
}

impl Default for DicEntry {
    fn default() -> (entry: DicEntry)
        ensures
            !entry.found,
            entry.index == 0,
            entry.word@ == Seq::<char>::empty(),
            entry.definition@ == Seq::<char>::empty(),
    {
        DicEntry { index: 0, word: String::new(), definition: String::new(), found: false }
    }
}

/// The text shown for "no match" holds no carriage return.
pub proof fn lemma_not_found_clean()
    ensures
        is_clean(NOT_FOUND@),
{
    reveal_strlit("Not found!");
}

/// Calls `rusqlite::Connection::open`. Whether the file opens depends on the
/// file system, so nothing is claimed of the outcome.
#[verifier::external_body]
fn open_connection(path: &str) -> (opened: Result<Connection, rusqlite::Error>) {
    Connection::open(path)
}

/// Runs the statement `sql`, which takes no parameter, through
/// `Connection::prepare` and `Statement::query_map`, and reads the first column
/// of every row with `Row::get` as text. Nothing is claimed of the outcome.
#[verifier::external_body]
fn select_texts(conn: &Connection, sql: &str) -> (texts: Result<Vec<String>, rusqlite::Error>) {
    let mut statement = conn.prepare(sql)?;
    let rows = statement.query_map(rusqlite::NO_PARAMS, |row| row.get(0))?;
    rows.collect()
}

/// Runs the statement `sql` with `pattern` as its one parameter through
/// `Connection::query_row`, and reads the first row's three columns with
/// `Row::get`. A statement that gives no row is an error of its own. Nothing
/// is claimed of the outcome.
#[verifier::external_body]
fn select_first(conn: &Connection, sql: &str, pattern: &str) -> (first: Result<
    StoreRow,
    rusqlite::Error,
>) {
    conn.query_row(
        sql,
        &[pattern],
        |row| Ok(StoreRow { rowid: row.get(0)?, word: row.get(1)?, definition: row.get(2)? }),
    )
}

/// Opens the dictionary kept in the file at `path`. Whether it opens is for
/// the file system to say; what is made of the outcome is said by
/// `opened_store`.
pub fn open_store(path: &str) -> (opened: Result<Connection, StoreError>)
    ensures
        opened matches Err(e) ==> e == StoreError::CannotOpen,
{
    let outcome = open_connection(path);
    opened_store(outcome)
}

/// The words of the dictionary behind `conn`, as `listed_words` takes them.
pub fn retrieve_db_index(conn: &Connection) -> (words: Result<Vec<String>, StoreError>)
    ensures
        words matches Err(e) ==> e == StoreError::CannotRead,
{
    let outcome = select_texts(conn, WORDS_SQL);
    listed_words(outcome)
}

/// What is made of the outcome of opening a store's file: the open store
/// itself, or the error that says that it could not be opened.
pub fn opened_store(outcome: Result<Connection, rusqlite::Error>) -> (opened: Result<
    Connection,
    StoreError,
>)
    ensures
        outcome matches Ok(conn) ==> opened == Ok::<Connection, StoreError>(conn),
        outcome is Err ==> opened == Err::<Connection, StoreError>(StoreError::CannotOpen),
{
    match outcome {
        Ok(conn) => Ok(conn),
        Err(_) => Err(StoreError::CannotOpen),
    }
}

/// What is made of the outcome of listing a store's words: the words as they
/// came, or the error that says that they could not be read.
pub fn listed_words(outcome: Result<Vec<String>, rusqlite::Error>) -> (words: Result<
    Vec<String>,
    StoreError,
>)
    ensures
        outcome matches Ok(list) ==> words == Ok::<Vec<String>, StoreError>(list),
        outcome is Err ==> words == Err::<Vec<String>, StoreError>(StoreError::CannotRead),
{
    match outcome {
        Ok(list) => Ok(list),
        Err(_) => Err(StoreError::CannotRead),
    }
}

/// Looks up the first word of the dictionary that begins with `query`. A store
/// that fails, or answers with a record that does not begin with `query`,
/// counts as "no match".
pub fn lookup_prefix(conn: &Connection, query: &str) -> (entry: DicEntry)
    ensures
        entry.wf(),
        entry.found ==> query@.is_prefix_of(entry.word@),
{
    let pattern = prefix_pattern(query);
    match select_first(conn, LOOKUP_SQL, pattern.as_str()) {
        Ok(row) => DicEntry::from_row(row, query),
        Err(_) => DicEntry::missing(),
    }
}

} // verus!
