//! The navigation state of the browser and its operations.
//!
//! The state keeps its selection inside the word list and its active
//! dictionary inside the list of dictionaries at all times; no operation
//! asks anything of its caller.

use vstd::prelude::*;
use rusqlite::Connection;
use crate::nav::{clamp_index, lemma_neighbour, neighbour, texts, Direction, Nav};
use crate::store::{lookup_prefix, open_store, retrieve_db_index, DicEntry, StoreError, NOT_FOUND};
use crate::store::{lemma_not_found_clean};
use crate::text::{database_path, display_width, text_width, DICPATH};
use crate::text;

verus! {

/// The state of the browser: the query being typed, the highlighted word and
/// its definition, and the dictionary they come from.
pub struct App {
    input: String,
    definition: String,
    selected_index: usize,
    dictionary_index: usize,
    database_path: String,
    /// The open store of the active dictionary, if one was loaded.
    conn: Option<Connection>,
    word_index: Vec<String>,
    /// The directory that holds the dictionaries' files.
    directory: String,
    /// The names of the dictionaries on offer.
    databases: Vec<String>,
}

impl View for App {
    type V = Nav;

    closed spec fn view(&self) -> Nav {
        Nav {
            query: self.input@,
            definition: self.definition@,
            selection: self.selected_index as nat,
            words: texts(self.word_index@),
            dictionary: self.dictionary_index as nat,
            dictionaries: texts(self.databases@),
            directory: self.directory@,
            path: self.database_path@,
        }
    }
}

impl App {
    /// What holds of every state: its description is in order.
    #[verifier::type_invariant]
    pub open spec fn inv(self) -> bool {
        self@.wf()
    }

    /// The open store of the active dictionary, if one was loaded.
    pub closed spec fn store(self) -> Option<Connection> {
        self.conn
    }

    /// A browser without dictionaries, looking for them in the usual directory.
    pub fn default() -> (app: App)
        ensures
            app@ == Nav::empty(DICPATH@, Seq::empty()),
            app.store() is None,
    {
        let app = App::with_databases(DICPATH.to_owned(), Vec::new());
        assert(texts(Seq::<String>::empty()) == Seq::<Seq<char>>::empty());
        app
    }

    /// A browser for the dictionaries named `databases`, kept in `directory`.
    /// None of them is loaded yet.
    pub fn with_databases(directory: String, databases: Vec<String>) -> (app: App)
        ensures
            app@ == Nav::empty(directory@, texts(databases@)),
            app.store() is None,
    {
        let app = App {
            input: String::new(),
            definition: String::new(),
            selected_index: 0,
            dictionary_index: 0,
            database_path: String::new(),
            conn: None,
            word_index: Vec::new(),
            directory,
            databases,
        };
        assert(texts(app.word_index@) == Seq::<Seq<char>>::empty());
        app
    }

    /// Appends `c` to the query.
    pub fn push_char(&mut self, c: char)
        ensures
            final(self)@ == old(self)@.typed(c),
            final(self)@.wf(),
            final(self).store() == old(self).store(),
    {
        proof {
            use_type_invariant(&*self);
        }
        // The query is edited outside the state and put back.
        let mut typed = String::new();
        core::mem::swap(&mut self.input, &mut typed);
        text::push_char(&mut typed, c);
        self.input = typed;
    }

    /// Takes the last character off the query. An empty query stays empty.
    pub fn pop_char(&mut self)
        ensures
            final(self)@ == old(self)@.erased(),
            final(self)@.wf(),
            final(self).store() == old(self).store(),
    {
        proof {
            use_type_invariant(&*self);
        }
        let mut typed = String::new();
        core::mem::swap(&mut self.input, &mut typed);
        let _ = text::pop_char(&mut typed);
        self.input = typed;
    }

    /// Moves the selection by `delta` places, stopping at either end of the
    /// word list. The definition is left as it is.
    fn move_selection(&mut self, delta: i32)
        ensures
            final(self)@ == old(self)@.moved(delta as int),
            final(self)@.wf(),
            final(self).store() == old(self).store(),
    {
        proof {
            use_type_invariant(&*self);
        }
        let len = self.word_index.len();
        if len == 0 {
            return ;
        }
        let candidate: i128 = self.selected_index as i128 + delta as i128;
        self.selected_index = clamp_to(candidate, len);
    }

    /// Puts the selection on the word drawn on row `row_offset` of a list that
    /// shows `viewport_height` rows, stopping at either end of the word list.
    /// The definition is left as it is.
    fn select_row(&mut self, row_offset: i32, viewport_height: i32)
        ensures
            final(self)@ == old(self)@.clicked(row_offset as int, viewport_height as int),
            final(self)@.wf(),
            final(self).store() == old(self).store(),
    {
        proof {
            use_type_invariant(&*self);
        }
        let len = self.word_index.len();
        if len == 0 {
            return ;
        }
        let selection: i128 = self.selected_index as i128;
        let candidate: i128 = if selection >= viewport_height as i128 {
            selection - (viewport_height as i128 - row_offset as i128 - 1)
        } else {
            row_offset as i128
        };
        self.selected_index = clamp_to(candidate, len);
    }

    /// Puts `entry`'s definition on display.
    pub fn show(&mut self, entry: DicEntry)
        ensures
            final(self)@ == old(self)@.showing(entry.definition@),
            final(self)@.wf(),
            final(self).store() == old(self).store(),
    {
        proof {
            use_type_invariant(&*self);
        }
        self.definition = entry.definition;
    }

    /// Takes in the store's answer to the submitted query: a match moves the
    /// selection to its place and shows its definition; anything else shows
    /// that nothing was found and leaves the selection where it is. Either way
    /// the query is used up. Returns whether the answer was taken as a match.
    pub fn accept(&mut self, entry: DicEntry) -> (found: bool)
        ensures
            final(self)@ == old(self)@.answered(entry),
            final(self)@.wf(),
            found == (entry.found && entry.index < old(self)@.words.len()),
            final(self).store() == old(self).store(),
    {
        proof {
            use_type_invariant(&*self);
        }
        self.input = String::new();
        if entry.found && entry.index < self.word_index.len() {
            self.selected_index = entry.index;
            self.definition = entry.definition;
            true
        } else {
            self.definition = NOT_FOUND.to_owned();
            false
        }
    }

    /// Puts the freshly opened store `conn` of the dictionary kept in `db_path`
    /// in place of the old one, with the `words` read from it, and moves the
    /// selection to the top. The definition is left as it is.
    fn install(&mut self, db_path: String, conn: Connection, words: Vec<String>)
        ensures
            final(self)@ == old(self)@.loaded(db_path@, texts(words@)),
            final(self)@.wf(),
            final(self).store() == Some(conn),
    {
        proof {
            use_type_invariant(&*self);
        }
        self.selected_index = 0;
        self.database_path = db_path;
        self.conn = Some(conn);
        self.word_index = words;
    }

    /// Asks the open store for the first word that begins with `query`.
    /// Without an open store nothing is found.
    pub fn query_db(&self, query: &str) -> (entry: DicEntry)
        ensures
            entry.wf(),
            entry.found ==> query@.is_prefix_of(entry.word@),
            self.store() is None ==> entry.is_missing(),
    {
        match &self.conn {
            Some(conn) => lookup_prefix(conn, query),
            None => DicEntry::missing(),
        }
    }

    /// Fetches the definition of the selected word again. Without words there
    /// is nothing to fetch and nothing changes.
    pub fn update(&mut self)
        ensures
            final(self)@.refreshes(old(self)@),
            final(self)@.wf(),
            final(self).store() == old(self).store(),
    {
        proof {
            use_type_invariant(&*self);
        }
        if self.word_index.len() > 0 {
            let entry = self.query_db(self.word_index[self.selected_index].as_str());
            self.show(entry);
        }
    }

    /// Moves the selection by `i` places, stopping at either end of the word
    /// list, and fetches the definition of the word it lands on. With words in
    /// the list the selection is one of their places, whatever `i` is.
    pub fn update_by_index(&mut self, i: i32)
        ensures
            final(self)@.refreshes(old(self)@.moved(i as int)),
            final(self)@.wf(),
            final(self)@.words.len() > 0 ==> final(self)@.selection < final(self)@.words.len(),
            final(self).store() == old(self).store(),
    {
        self.move_selection(i);
        self.update();
    }

    /// Selects the word drawn on row `row_offset` of a list that shows
    /// `viewport_height` rows, and fetches its definition.
    pub fn select_at(&mut self, row_offset: i32, viewport_height: i32)
        ensures
            final(self)@.refreshes(old(self)@.clicked(row_offset as int, viewport_height as int)),
            final(self)@.wf(),
            final(self).store() == old(self).store(),
    {
        self.select_row(row_offset, viewport_height);
        self.update();
    }

    /// Looks the typed query up and uses it up. A match is selected and its
    /// definition shown; without one the selection stays and the display says
    /// that nothing was found. Returns whether there was a match.
    pub fn submit_query(&mut self) -> (found: bool)
        ensures
            final(self)@.resolves(old(self)@, found),
            final(self)@.wf(),
            final(self).store() == old(self).store(),
    {
        proof {
            lemma_not_found_clean();
        }
        let entry = self.query_db(self.input.as_str());
        self.accept(entry)
    }

    /// Makes the dictionary kept in the file `db_path` the one that is browsed,
    /// given its freshly opened store `conn` and the `words` read from it: they
    /// replace the old ones, the selection goes to the top and the definition
    /// of the first word is fetched.
    pub fn load(&mut self, db_path: String, conn: Connection, words: Vec<String>)
        ensures
            final(self)@.reloads(old(self)@, db_path@),
            final(self)@.words == texts(words@),
            final(self)@.wf(),
            final(self).store() == Some(conn),
    {
        self.install(db_path, conn, words);
        self.update();
    }

    /// Opens the dictionary kept in the file `db_path` and makes it the one
    /// that is browsed: its words replace the old ones, the selection goes to
    /// the top and the definition of the first word is fetched. If the store
    /// cannot be opened or read, nothing changes.
    pub fn create(&mut self, db_path: String) -> (done: Result<(), StoreError>)
        ensures
            final(self)@.wf(),
            done is Ok ==> final(self)@.reloads(old(self)@, db_path@),
            done is Ok ==> final(self).store() is Some,
            done is Err ==> *final(self) == *old(self),
            done matches Err(e) ==> e == StoreError::CannotOpen || e == StoreError::CannotRead,
    {
        proof {
            use_type_invariant(&*self);
        }
        let conn = match open_store(db_path.as_str()) {
            Ok(conn) => conn,
            Err(e) => {
                return Err(e);
            },
        };
        let words = match retrieve_db_index(&conn) {
            Ok(words) => words,
            Err(e) => {
                return Err(e);
            },
        };
        self.load(db_path, conn, words);
        Ok(())
    }

    /// Makes the dictionary at place `index` of the list the active one and
    /// loads it. If there is no such dictionary, or its store cannot be opened
    /// or read, nothing changes.
    pub fn load_dictionary(&mut self, index: usize) -> (done: Result<(), StoreError>)
        ensures
            final(self)@.wf(),
            index >= old(self)@.dictionaries.len() ==> done == Err::<(), StoreError>(
                StoreError::NoSuchDictionary,
            ),
            done is Ok ==> index < old(self)@.dictionaries.len(),
            done is Ok ==> final(self)@.reloads(
                old(self)@.turned_to(index as nat),
                old(self)@.path_of(index as int),
            ),
            done is Ok ==> final(self).store() is Some,
            done is Err ==> *final(self) == *old(self),
            done matches Err(e) ==> index >= old(self)@.dictionaries.len()
                || e == StoreError::CannotOpen || e == StoreError::CannotRead,
    {
        proof {
            use_type_invariant(&*self);
        }
        if index >= self.databases.len() {
            return Err(StoreError::NoSuchDictionary);
        }
        let db_path = database_path(self.directory.as_str(), self.databases[index].as_str());
        match self.create(db_path) {
            Ok(()) => {
                self.dictionary_index = index;
                Ok(())
            },
            Err(e) => Err(e),
        }
    }

    /// Goes to the next or the previous dictionary of the list, from the last
    /// on to the first and from the first back to the last, and loads it. If
    /// there is no dictionary, or the store cannot be opened or read, nothing
    /// changes.
    pub fn switch_dictionary(&mut self, direction: Direction) -> (done: Result<(), StoreError>)
        ensures
            final(self)@.wf(),
            old(self)@.dictionaries.len() == 0 ==> done == Err::<(), StoreError>(
                StoreError::NoSuchDictionary,
            ),
            done is Ok ==> final(self)@.reloads(
                old(self)@.turned(direction),
                old(self)@.path_of(old(self)@.turned(direction).dictionary as int),
            ),
            done is Ok ==> final(self).store() is Some,
            done is Err ==> *final(self) == *old(self),
            done matches Err(e) ==> old(self)@.dictionaries.len() == 0
                || e == StoreError::CannotOpen || e == StoreError::CannotRead,
    {
        proof {
            use_type_invariant(&*self);
        }
        let count = self.databases.len();
        if count == 0 {
            return Err(StoreError::NoSuchDictionary);
        }
        let target = match direction {
            Direction::Next => if self.dictionary_index == count - 1 {
                0
            } else {
                self.dictionary_index + 1
            },
            Direction::Prev => if self.dictionary_index == 0 {
                count - 1
            } else {
                self.dictionary_index - 1
            },
        };
        assert(target == neighbour(self.dictionary_index as int, count as int, direction)) by {
            lemma_neighbour(self.dictionary_index as int, count as int);
        }
        self.load_dictionary(target)
    }

    /// Where the terminal's cursor stands while the query is typed: behind the
    /// query's last character in the input box. `None` if that column is
    /// beyond the columns a terminal can address.
    pub fn cursor(&self) -> (place: Option<(u16, u16)>)
        ensures
            place == cursor_place(display_width(self@.query)),
    {
        let width = text_width(self.input.as_str());
        if width % 0x1_0000 + 4 <= 0xffff {
            Some((cursor_column(width), CURSOR_LINE))
        } else {
            None
        }
    }

    /// The text typed so far.
    pub fn input(&self) -> (typed: &str)
        ensures
            typed@ == self@.query,
    {
        self.input.as_str()
    }

    /// The definition on display.
    pub fn definition(&self) -> (shown: &str)
        ensures
            shown@ == self@.definition,
    {
        self.definition.as_str()
    }

    /// The place of the highlighted word in the word list.
    pub fn selected_index(&self) -> (place: usize)
        ensures
            place == self@.selection,
            self@.words.len() > 0 ==> place < self@.words.len(),
    {
        proof {
            use_type_invariant(self);
        }
        self.selected_index
    }

    /// The place of the active dictionary in the list of dictionaries.
    pub fn dictionary_index(&self) -> (place: usize)
        ensures
            place == self@.dictionary,
            self@.dictionaries.len() > 0 ==> place < self@.dictionaries.len(),
    {
        proof {
            use_type_invariant(self);
        }
        self.dictionary_index
    }

    /// The file of the active dictionary.
    pub fn database_path(&self) -> (path: &str)
        ensures
            path@ == self@.path,
    {
        self.database_path.as_str()
    }

    /// The words of the active dictionary, in the dictionary's order.
    pub fn word_index(&self) -> (words: &Vec<String>)
        ensures
            texts(words@) == self@.words,
    {
        &self.word_index
    }

    /// The names of the dictionaries on offer.
    pub fn databases(&self) -> (names: &Vec<String>)
        ensures
            texts(names@) == self@.dictionaries,
    {
        &self.databases
    }

    /// Whether a dictionary's store is open.
    pub fn is_open(&self) -> (open: bool)
        ensures
            open == self.store() is Some,
    {
        self.conn.is_some()
    }
}

/// The line of the terminal on which the query is typed.
pub const CURSOR_LINE: u16 = 5;

/// The column of the cursor behind a query that is `width` columns wide. The
/// width counts in the terminal's 16 bits.
pub open spec fn column_behind(width: nat) -> nat {
    width % 0x1_0000 + 4
}

/// The cursor's column and line behind a query that is `width` columns wide,
/// if the column is one that a terminal can address.
pub open spec fn cursor_place(width: nat) -> Option<(u16, u16)> {
    if column_behind(width) <= u16::MAX {
        Some((column_behind(width) as u16, CURSOR_LINE))
    } else {
        None
    }
}

/// The column of the cursor behind a query that is `width` columns wide.
pub fn cursor_column(width: usize) -> (column: u16)
    requires
        column_behind(width as nat) <= u16::MAX,
    ensures
        column == column_behind(width as nat),
{
    let narrow: u16 = #[verifier::truncate] (width as u16);
    assert(narrow == width % 0x1_0000) by (bit_vector)
        requires
            narrow == width as u16,
    ;
    4 + narrow
}

/// `candidate` brought into the places of a list of `len` items.
fn clamp_to(candidate: i128, len: usize) -> (index: usize)
    requires
        len > 0,
    ensures
        index == clamp_index(candidate as int, len as int),
        index < len,
{
    if candidate < 0 {
        0
    } else if candidate >= len as i128 {
        len - 1
    } else {
        candidate as usize
    }
}

} // verus!
