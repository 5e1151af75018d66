//! The navigation state as a mathematical value, and the steps it can take.
//!
//! The executable state in `app` is described by a `Nav`; each operation there
//! promises one of the steps below.

use vstd::prelude::*;
use crate::store::{DicEntry, NOT_FOUND};
use crate::text::{is_clean, DICEXTENSION};

verus! {

/// Which neighbour in the list of dictionaries to switch to.
#[derive(Clone, Copy, Debug, PartialEq, Eq, Structural)]
pub enum Direction {
    Next,
    Prev,
}

/// The texts of a list of strings.
pub open spec fn texts(words: Seq<String>) -> Seq<Seq<char>> {
    words.map_values(|word: String| word@)
}

/// What the browser shows and edits.
pub struct Nav {
    /// The text typed so far.
    pub query: Seq<char>,
    /// The definition on display.
    pub definition: Seq<char>,
    /// The place of the highlighted word in `words`.
    pub selection: nat,
    /// The words of the active dictionary, in the dictionary's order.
    pub words: Seq<Seq<char>>,
    /// The place of the active dictionary in `dictionaries`.
    pub dictionary: nat,
    /// The names of the dictionaries on offer.
    pub dictionaries: Seq<Seq<char>>,
    /// The directory that holds the dictionaries' files.
    pub directory: Seq<char>,
    /// The file of the active dictionary.
    pub path: Seq<char>,
}

/// `candidate` brought into the places of a list of `len > 0` items.
pub open spec fn clamp_index(candidate: int, len: int) -> nat {
    if candidate < 0 {
        0
    } else if candidate >= len {
        (len - 1) as nat
    } else {
        candidate as nat
    }
}

/// The place that a click on row `row` of the list asks for, where the list
/// shows `height` rows and the word at `selection` is highlighted. Once the
/// selection has passed the first page the list has scrolled so that the
/// selection stands on its last row; before that the list stands at its top.
pub open spec fn click_target(selection: int, row: int, height: int) -> int {
    if selection >= height {
        selection - (height - row - 1)
    } else {
        row
    }
}

/// The place of the dictionary reached from place `index` of `count > 0`
/// dictionaries, going round at both ends.
pub open spec fn neighbour(index: int, count: int, direction: Direction) -> int {
    match direction {
        Direction::Next => (index + 1) % count,
        Direction::Prev => (index + count - 1) % count,
    }
}

/// Going round the list without division: one step on from the last place is
/// the first, one step back from the first is the last.
pub proof fn lemma_neighbour(index: int, count: int)
    requires
        0 <= index < count,
    ensures
        neighbour(index, count, Direction::Next) == if index == count - 1 {
            0
        } else {
            index + 1
        },
        neighbour(index, count, Direction::Prev) == if index == 0 {
            count - 1
        } else {
            index - 1
        },
{
    vstd::arithmetic::div_mod::lemma_small_mod(0, count as nat);
    if index < count - 1 {
        vstd::arithmetic::div_mod::lemma_small_mod((index + 1) as nat, count as nat);
    } else {
        vstd::arithmetic::div_mod::lemma_mod_self_0(count);
    }
    if index > 0 {
        vstd::arithmetic::div_mod::lemma_mod_add_multiples_vanish(index - 1, count);
        vstd::arithmetic::div_mod::lemma_small_mod((index - 1) as nat, count as nat);
    } else {
        vstd::arithmetic::div_mod::lemma_small_mod((count - 1) as nat, count as nat);
    }
}

impl Nav {
    /// The state before any dictionary is loaded, with `dictionaries` on offer
    /// in `directory`.
    pub open spec fn empty(directory: Seq<char>, dictionaries: Seq<Seq<char>>) -> Nav {
        Nav {
            query: Seq::empty(),
            definition: Seq::empty(),
            selection: 0,
            words: Seq::empty(),
            dictionary: 0,
            dictionaries,
            directory,
            path: Seq::empty(),
        }
    }

    /// The selection is a place in the word list and the active dictionary a
    /// place in the list of dictionaries, wherever the list has a place.
    pub open spec fn wf(self) -> bool {
        &&& self.words.len() > 0 ==> self.selection < self.words.len()
        &&& self.dictionaries.len() > 0 ==> self.dictionary < self.dictionaries.len()
    }

    /// After `c` was typed.
    pub open spec fn typed(self, c: char) -> Nav {
        Nav { query: self.query.push(c), ..self }
    }

    /// After the last typed character was taken back.
    pub open spec fn erased(self) -> Nav {
        if self.query.len() == 0 {
            self
        } else {
            Nav { query: self.query.drop_last(), ..self }
        }
    }

    /// After all of `typed` was typed, in order.
    pub open spec fn typed_all(self, typed: Seq<char>) -> Nav
        decreases typed.len(),
    {
        if typed.len() == 0 {
            self
        } else {
            self.typed_all(typed.drop_last()).typed(typed.last())
        }
    }

    /// After `count` characters were taken back, one at a time.
    pub open spec fn erased_times(self, count: nat) -> Nav
        decreases count,
    {
        if count == 0 {
            self
        } else {
            self.erased().erased_times((count - 1) as nat)
        }
    }

    /// With the selection moved by `delta` places and kept inside the word
    /// list. An empty list leaves nothing to move.
    pub open spec fn moved(self, delta: int) -> Nav {
        if self.words.len() == 0 {
            self
        } else {
            Nav { selection: clamp_index(self.selection + delta, self.words.len() as int), ..self }
        }
    }

    /// With the selection on the word drawn on row `row` of a list of `height`
    /// rows, kept inside the word list.
    pub open spec fn clicked(self, row: int, height: int) -> Nav {
        if self.words.len() == 0 {
            self
        } else {
            Nav {
                selection: clamp_index(
                    click_target(self.selection as int, row, height),
                    self.words.len() as int,
                ),
                ..self
            }
        }
    }

    /// With `text` on display.
    pub open spec fn showing(self, text: Seq<char>) -> Nav {
        Nav { definition: text, ..self }
    }

    /// After the query was submitted and the store answered `entry`. A match
    /// whose place lies outside the word list counts as none; without a match
    /// the selection stays.
    pub open spec fn answered(self, entry: DicEntry) -> Nav {
        if entry.found && entry.index < self.words.len() {
            Nav {
                query: Seq::empty(),
                selection: entry.index as nat,
                definition: entry.definition@,
                ..self
            }
        } else {
            Nav { query: Seq::empty(), definition: NOT_FOUND@, ..self }
        }
    }

    /// With the words `words` of the dictionary kept in the file `path` in
    /// place of the old ones, and the selection at the top.
    pub open spec fn loaded(self, path: Seq<char>, words: Seq<Seq<char>>) -> Nav {
        Nav { path, words, selection: 0, ..self }
    }

    /// With the dictionary at place `dictionary` as the active one.
    pub open spec fn turned_to(self, dictionary: nat) -> Nav {
        Nav { dictionary, ..self }
    }

    /// With the neighbour of the active dictionary as the active one. Without
    /// dictionaries there is none to turn to.
    pub open spec fn turned(self, direction: Direction) -> Nav {
        if self.dictionaries.len() == 0 {
            self
        } else {
            self.turned_to(
                neighbour(self.dictionary as int, self.dictionaries.len() as int, direction) as nat,
            )
        }
    }

    /// The file of the dictionary at place `index`.
    pub open spec fn path_of(self, index: int) -> Seq<char> {
        self.directory + self.dictionaries[index] + DICEXTENSION@
    }

    /// Whether `self` is `pre` with its definition fetched again: nothing else
    /// differs, what was fetched is ready for display, and without words there
    /// is nothing to fetch.
    pub open spec fn refreshes(self, pre: Nav) -> bool {
        &&& self == pre.showing(self.definition)
        &&& pre.words.len() > 0 ==> is_clean(self.definition)
        &&& pre.words.len() == 0 ==> self == pre
    }

    /// Whether `self` is `pre` after its query was submitted, with or without a
    /// match: the query is used up; without a match the selection stays and the
    /// display says so.
    pub open spec fn resolves(self, pre: Nav, found: bool) -> bool {
        &&& self == Nav {
            query: Seq::empty(),
            selection: self.selection,
            definition: self.definition,
            ..pre
        }
        &&& is_clean(self.definition)
        &&& found ==> self.selection < self.words.len()
        &&& !found ==> self.selection == pre.selection && self.definition == NOT_FOUND@
    }

    /// Whether `self` is `pre` after a dictionary was loaded from `path`: the
    /// selection is back at the top, and the definition was fetched again if
    /// there is a word to fetch it for.
    pub open spec fn reloads(self, pre: Nav, path: Seq<char>) -> bool {
        &&& self == pre.loaded(path, self.words).showing(self.definition)
        &&& self.words.len() > 0 ==> is_clean(self.definition)
        &&& self.words.len() == 0 ==> self.definition == pre.definition
    }
}

/// However far the selection is moved, it stays a place in the word list.
pub proof fn lemma_moved_in_range(nav: Nav, delta: int)
    requires
        nav.words.len() > 0,
    ensures
        nav.moved(delta).selection < nav.moved(delta).words.len(),
        nav.moved(delta).words == nav.words,
{
}

/// Moving by no place changes nothing but, perhaps, the definition that is
/// fetched again; done twice, it leaves the selection where it was, and the
/// second fetch changes nothing if the store answers as it did to the first.
pub proof fn lemma_move_by_zero(pre: Nav, once: Nav, twice: Nav)
    requires
        pre.wf(),
        once.refreshes(pre.moved(0)),
        twice.refreshes(once.moved(0)),
    ensures
        pre.moved(0) == pre,
        once.selection == pre.selection,
        twice.selection == pre.selection,
        once.definition == pre.definition ==> once == pre,
        twice.definition == once.definition ==> twice == once,
{
}

/// Going to the next dictionary and back to the previous one ends at the
/// dictionary where it began, and so does the way round.
pub proof fn lemma_there_and_back(index: int, count: int)
    requires
        0 <= index < count,
    ensures
        neighbour(neighbour(index, count, Direction::Next), count, Direction::Prev) == index,
        neighbour(neighbour(index, count, Direction::Prev), count, Direction::Next) == index,
        0 <= neighbour(index, count, Direction::Next) < count,
        0 <= neighbour(index, count, Direction::Prev) < count,
{
    lemma_neighbour(index, count);
    lemma_neighbour(neighbour(index, count, Direction::Next), count);
    lemma_neighbour(neighbour(index, count, Direction::Prev), count);
}

/// A switch to the next dictionary followed by a switch to the previous one
/// leaves the state with the dictionary it began with, loaded afresh from the
/// same file: the word list is the one that the store lists for it.
pub proof fn lemma_next_then_prev(pre: Nav, between: Nav, post: Nav)
    requires
        pre.wf(),
        pre.dictionaries.len() > 0,
        between.reloads(
            pre.turned(Direction::Next),
            pre.path_of(pre.turned(Direction::Next).dictionary as int),
        ),
        post.reloads(
            between.turned(Direction::Prev),
            between.path_of(between.turned(Direction::Prev).dictionary as int),
        ),
    ensures
        post.dictionary == pre.dictionary,
        post.path == pre.path_of(pre.dictionary as int),
        post == pre.loaded(pre.path_of(pre.dictionary as int), post.words).showing(
            post.definition,
        ),
        post.words == pre.words && post.definition == pre.definition && pre.selection == 0
            && pre.path == pre.path_of(pre.dictionary as int) ==> post == pre,
{
    lemma_there_and_back(pre.dictionary as int, pre.dictionaries.len() as int);
}

/// Without a match the display says so and the selection stays; the query is
/// used up.
pub proof fn lemma_no_match(nav: Nav, entry: DicEntry)
    requires
        !entry.found,
    ensures
        nav.answered(entry).definition == NOT_FOUND@,
        nav.answered(entry).selection == nav.selection,
        nav.answered(entry).words == nav.words,
        nav.answered(entry).query.len() == 0,
{
}

/// Typing appends to the query and touches nothing else.
pub proof fn lemma_typed_all(nav: Nav, typed: Seq<char>)
    ensures
        nav.typed_all(typed) == (Nav { query: nav.query + typed, ..nav }),
    decreases typed.len(),
{
    if typed.len() > 0 {
        lemma_typed_all(nav, typed.drop_last());
        assert((nav.query + typed.drop_last()).push(typed.last()) == nav.query + typed);
    }
}

/// Taking back `count` characters, of a query that has as many, cuts them off
/// its end and touches nothing else.
pub proof fn lemma_erased_times(nav: Nav, count: nat)
    requires
        count <= nav.query.len(),
    ensures
        nav.erased_times(count) == (Nav { query: nav.query.take(nav.query.len() - count), ..nav }),
    decreases count,
{
    if count == 0 {
        assert(nav.query.take(nav.query.len() as int) == nav.query);
    } else {
        lemma_erased_times(nav.erased(), (count - 1) as nat);
        assert(nav.query.drop_last().take(nav.query.len() - count) == nav.query.take(
            nav.query.len() - count,
        ));
    }
}

/// Typing any characters and then taking back as many gives the state before
/// them; so does typing one and taking it back; and taking a character back
/// from an empty query changes nothing.
pub proof fn lemma_type_then_erase(nav: Nav, typed: Seq<char>, c: char)
    ensures
        nav.typed_all(typed).erased_times(typed.len()) == nav,
        nav.typed(c).erased() == nav,
        nav.query.len() == 0 ==> nav.erased() == nav,
{
    lemma_typed_all(nav, typed);
    lemma_erased_times(nav.typed_all(typed), typed.len());
    assert((nav.query + typed).take(nav.query.len() as int) == nav.query);
    assert(nav.query.push(c).drop_last() == nav.query);
}

/// A click on a row of a list that has not scrolled selects the word at that
/// place; a click on a row of a list that has scrolled selects the word drawn
/// there, the selection standing on the list's last row.
pub proof fn lemma_click(nav: Nav, row: int, height: int)
    requires
        nav.wf(),
        0 <= row < height,
    ensures
        nav.selection < height && row < nav.words.len() ==> nav.clicked(row, height).selection
            == row,
        nav.selection >= height && nav.words.len() > 0 ==> nav.clicked(row, height).selection
            == nav.selection - (height - 1 - row),
        nav.words.len() > 0 ==> nav.clicked(row, height).selection < nav.words.len(),
{
}

} // verus!
