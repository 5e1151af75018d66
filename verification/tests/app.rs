use dicrs::app::{cursor_column, App};
use dicrs::nav::Direction;
use dicrs::store::{DicEntry, StoreError};
use rusqlite::Connection;

fn dictionary(name: &str, rows: &[(&str, &str)]) -> Connection {
    let path = format!("/tmp/{}.db", name);
    let conn = Connection::open(path).unwrap();
    conn.execute("DROP TABLE IF EXISTS dictionary", rusqlite::NO_PARAMS).unwrap();
    conn.execute("CREATE TABLE dictionary (word TEXT, definition TEXT)", rusqlite::NO_PARAMS)
        .unwrap();
    for (word, definition) in rows {
        conn.execute("INSERT INTO dictionary (word, definition) VALUES (?1, ?2)", &[word, definition])
            .unwrap();
    }
    conn
}

fn numbered(name: &str, count: usize) -> Connection {
    let words: Vec<String> = (0..count).map(|i| format!("w{:03}", i)).collect();
    let definitions: Vec<String> = (0..count).map(|i| format!("definition {}", i)).collect();
    let rows: Vec<(&str, &str)> =
        words.iter().zip(definitions.iter()).map(|(w, d)| (w.as_str(), d.as_str())).collect();
    dictionary(name, &rows)
}

fn browser(names: &[&str]) -> App {
    let mut app =
        App::with_databases("/tmp/".to_string(), names.iter().map(|n| n.to_string()).collect());
    app.load_dictionary(0).unwrap();
    app
}

fn entry(index: usize, word: &str, definition: &str) -> DicEntry {
    DicEntry { index, word: word.to_string(), definition: definition.to_string(), found: true }
}

#[test]
fn a_new_browser_is_empty() {
    let app = App::default();
    assert_eq!(app.input(), "");
    assert_eq!(app.definition(), "");
    assert_eq!(app.selected_index(), 0);
    assert_eq!(app.dictionary_index(), 0);
    assert_eq!(app.database_path(), "");
    assert!(app.word_index().is_empty());
    assert!(app.databases().is_empty());
    assert!(!app.is_open());
}

#[test]
fn loading_shows_the_first_word() {
    let _keep = dictionary("dicrs_app_load", &[("apple", "a fruit"), ("cat", "a feline")]);
    let app = browser(&["dicrs_app_load"]);
    assert_eq!(app.word_index(), &vec!["apple", "cat"]);
    assert_eq!(app.selected_index(), 0);
    assert_eq!(app.definition(), "a fruit");
    assert_eq!(app.database_path(), "/tmp/dicrs_app_load.db");
    assert_eq!(app.dictionary_index(), 0);
    assert!(app.is_open());
}

#[test]
fn create_opens_the_file_it_is_given() {
    let _keep = dictionary("dicrs_app_create", &[("cat", "a feline\ra pet")]);
    let mut app = App::default();
    app.push_char('x');
    assert_eq!(app.create("/tmp/dicrs_app_create.db".to_string()), Ok(()));
    assert_eq!(app.word_index(), &vec!["cat"]);
    assert_eq!(app.definition(), "a feline\na pet");
    assert_eq!(app.database_path(), "/tmp/dicrs_app_create.db");
    assert_eq!(app.input(), "x");
}

#[test]
fn create_that_fails_changes_nothing() {
    let _keep = dictionary("dicrs_app_create_fail", &[("cat", "a feline"), ("dog", "a canine")]);
    let mut app = browser(&["dicrs_app_create_fail"]);
    app.update_by_index(1);
    assert_eq!(
        app.create("/tmp/dicrs_no_such_directory/x.db".to_string()),
        Err(StoreError::CannotOpen)
    );
    assert_eq!(app.word_index(), &vec!["cat", "dog"]);
    assert_eq!(app.selected_index(), 1);
    assert_eq!(app.definition(), "a canine");
    assert_eq!(app.database_path(), "/tmp/dicrs_app_create_fail.db");

    let bare = Connection::open("/tmp/dicrs_app_create_bare.db").unwrap();
    bare.execute("DROP TABLE IF EXISTS dictionary", rusqlite::NO_PARAMS).unwrap();
    assert_eq!(
        app.create("/tmp/dicrs_app_create_bare.db".to_string()),
        Err(StoreError::CannotRead)
    );
    assert_eq!(app.word_index(), &vec!["cat", "dog"]);
    assert_eq!(app.selected_index(), 1);
    assert_eq!(app.definition(), "a canine");
    app.update_by_index(-1);
    assert_eq!(app.definition(), "a feline");
}

#[test]
fn move_by_stays_inside_the_word_list() {
    let _keep = numbered("dicrs_app_move", 5);
    let mut app = browser(&["dicrs_app_move"]);
    for delta in [1, 10, -1, -10, 3, i32::MAX, i32::MIN, 0, 4, 5, -4, -5] {
        app.update_by_index(delta);
        assert!(app.selected_index() < 5);
    }
}

#[test]
fn move_by_clamps_at_both_ends() {
    let _keep = numbered("dicrs_app_clamp", 5);
    let mut app = browser(&["dicrs_app_clamp"]);
    app.update_by_index(1);
    assert_eq!(app.selected_index(), 1);
    assert_eq!(app.definition(), "definition 1");
    app.update_by_index(10);
    assert_eq!(app.selected_index(), 4);
    assert_eq!(app.definition(), "definition 4");
    app.update_by_index(1);
    assert_eq!(app.selected_index(), 4);
    app.update_by_index(-1);
    assert_eq!(app.selected_index(), 3);
    assert_eq!(app.definition(), "definition 3");
    app.update_by_index(-10);
    assert_eq!(app.selected_index(), 0);
    assert_eq!(app.definition(), "definition 0");
    app.update_by_index(i32::MAX);
    assert_eq!(app.selected_index(), 4);
    app.update_by_index(i32::MIN);
    assert_eq!(app.selected_index(), 0);
}

#[test]
fn move_by_zero_changes_nothing() {
    let _keep = numbered("dicrs_app_zero", 5);
    let mut app = browser(&["dicrs_app_zero"]);
    app.update_by_index(2);
    for _ in 0..3 {
        app.update_by_index(0);
        assert_eq!(app.selected_index(), 2);
        assert_eq!(app.definition(), "definition 2");
    }
}

#[test]
fn update_fetches_the_definition_of_the_selection() {
    let _keep = numbered("dicrs_app_update", 5);
    let mut app = browser(&["dicrs_app_update"]);
    app.update_by_index(3);
    app.show(entry(0, "other", "something else"));
    assert_eq!(app.definition(), "something else");
    app.update();
    assert_eq!(app.selected_index(), 3);
    assert_eq!(app.definition(), "definition 3");
}

#[test]
fn load_takes_the_words_it_is_given() {
    let conn = numbered("dicrs_app_load_given", 5);
    let mut app = App::default();
    app.push_char('q');
    app.load(
        "/tmp/dicrs_app_load_given.db".to_string(),
        conn,
        vec!["w003".to_string(), "w001".to_string()],
    );
    assert_eq!(app.word_index(), &vec!["w003", "w001"]);
    assert_eq!(app.selected_index(), 0);
    assert_eq!(app.definition(), "definition 3");
    assert_eq!(app.database_path(), "/tmp/dicrs_app_load_given.db");
    assert_eq!(app.input(), "q");
    assert!(app.is_open());
    app.update_by_index(1);
    assert_eq!(app.definition(), "definition 1");
}

#[test]
fn a_match_beyond_the_word_list_counts_as_none() {
    let conn = numbered("dicrs_app_beyond", 5);
    let mut app = App::default();
    app.load(
        "/tmp/dicrs_app_beyond.db".to_string(),
        conn,
        vec!["w000".to_string(), "w001".to_string()],
    );
    app.update_by_index(1);
    for c in "w004".chars() {
        app.push_char(c);
    }
    assert!(!app.submit_query());
    assert_eq!(app.selected_index(), 1);
    assert_eq!(app.definition(), "Not found!");
    assert_eq!(app.input(), "");
}

#[test]
fn an_empty_dictionary_makes_navigation_a_no_op() {
    let _keep = dictionary("dicrs_app_empty", &[]);
    let mut app = browser(&["dicrs_app_empty"]);
    assert!(app.word_index().is_empty());
    assert_eq!(app.definition(), "");
    app.update_by_index(1);
    app.update_by_index(-1);
    app.select_at(3, 10);
    app.update();
    assert_eq!(app.selected_index(), 0);
    assert_eq!(app.definition(), "");
}

#[test]
fn an_empty_dictionary_keeps_the_definition_on_display() {
    let _a = dictionary("dicrs_app_empty_after_a", &[("cat", "a feline")]);
    let _b = dictionary("dicrs_app_empty_after_b", &[]);
    let mut app = browser(&["dicrs_app_empty_after_a", "dicrs_app_empty_after_b"]);
    assert_eq!(app.switch_dictionary(Direction::Next), Ok(()));
    assert!(app.word_index().is_empty());
    assert_eq!(app.dictionary_index(), 1);
    assert_eq!(app.definition(), "a feline");
}

#[test]
fn navigation_without_a_dictionary_is_a_no_op() {
    let mut app = App::default();
    app.update_by_index(1);
    app.select_at(0, 10);
    app.update();
    assert_eq!(app.selected_index(), 0);
    assert_eq!(app.definition(), "");
}

#[test]
fn submit_without_a_dictionary_finds_nothing() {
    let mut app = App::default();
    app.push_char('c');
    assert!(!app.submit_query());
    assert_eq!(app.definition(), "Not found!");
    assert_eq!(app.input(), "");
}

#[test]
fn submit_query_selects_the_match() {
    let _keep = dictionary(
        "dicrs_app_submit",
        &[("apple", "a fruit"), ("bird", "it flies"), ("cat", "a feline"), ("dog", "a canine")],
    );
    let mut app = browser(&["dicrs_app_submit"]);
    for c in "cat".chars() {
        app.push_char(c);
    }
    assert!(app.submit_query());
    assert_eq!(app.definition(), "a feline");
    assert_eq!(app.selected_index(), 2);
    assert_eq!(app.word_index()[app.selected_index()], "cat");
    assert_eq!(app.input(), "");
}

#[test]
fn submit_query_matches_by_prefix() {
    let _keep = dictionary(
        "dicrs_app_submit_prefix",
        &[("apple", "a fruit"), ("cat", "a feline"), ("catalog", "a list")],
    );
    let mut app = browser(&["dicrs_app_submit_prefix"]);
    app.push_char('c');
    assert!(app.submit_query());
    assert_eq!(app.selected_index(), 1);
    assert_eq!(app.definition(), "a feline");
}

#[test]
fn submit_query_without_a_match_keeps_the_selection() {
    let _keep = dictionary(
        "dicrs_app_submit_none",
        &[("apple", "a fruit"), ("bird", "it flies"), ("cat", "a feline")],
    );
    let mut app = browser(&["dicrs_app_submit_none"]);
    app.update_by_index(2);
    for c in "zebra".chars() {
        app.push_char(c);
    }
    assert!(!app.submit_query());
    assert_eq!(app.definition(), "Not found!");
    assert_eq!(app.selected_index(), 2);
    assert_eq!(app.input(), "");
}

#[test]
fn accept_takes_a_match_inside_the_word_list() {
    let _keep = numbered("dicrs_app_accept", 5);
    let mut app = browser(&["dicrs_app_accept"]);
    app.push_char('w');
    assert!(app.accept(entry(4, "w004", "the last")));
    assert_eq!(app.selected_index(), 4);
    assert_eq!(app.definition(), "the last");
    assert_eq!(app.input(), "");
}

#[test]
fn accept_refuses_a_place_outside_the_word_list() {
    let _keep = numbered("dicrs_app_accept_out", 5);
    let mut app = browser(&["dicrs_app_accept_out"]);
    app.update_by_index(3);
    app.push_char('w');
    assert!(!app.accept(entry(5, "w005", "one too far")));
    assert_eq!(app.selected_index(), 3);
    assert_eq!(app.definition(), "Not found!");
    assert_eq!(app.input(), "");
    assert!(!app.accept(entry(usize::MAX, "far", "far off")));
    assert_eq!(app.selected_index(), 3);
}

#[test]
fn accept_of_no_match_keeps_the_selection() {
    let _keep = numbered("dicrs_app_accept_none", 5);
    let mut app = browser(&["dicrs_app_accept_none"]);
    app.update_by_index(2);
    assert!(!app.accept(DicEntry::missing()));
    assert_eq!(app.selected_index(), 2);
    assert_eq!(app.definition(), "Not found!");
    let unmatched = DicEntry {
        index: 4,
        word: "w004".to_string(),
        definition: "unused".to_string(),
        found: false,
    };
    assert!(!app.accept(unmatched));
    assert_eq!(app.selected_index(), 2);
    assert_eq!(app.definition(), "Not found!");
}

#[test]
fn show_replaces_the_definition_only() {
    let _keep = numbered("dicrs_app_show", 5);
    let mut app = browser(&["dicrs_app_show"]);
    app.update_by_index(1);
    app.push_char('q');
    app.show(entry(3, "other", "shown"));
    assert_eq!(app.definition(), "shown");
    assert_eq!(app.selected_index(), 1);
    assert_eq!(app.input(), "q");
}

#[test]
fn query_db_asks_the_open_store() {
    let _keep = dictionary("dicrs_app_query", &[("apple", "a fruit"), ("cat", "a feline")]);
    let app = browser(&["dicrs_app_query"]);
    let found = app.query_db("cat");
    assert!(found.found);
    assert_eq!(found.index, 1);
    assert_eq!(found.word, "cat");
    assert_eq!(found.definition, "a feline");
    let missing = app.query_db("dog");
    assert!(!missing.found);
    assert_eq!(missing.definition, "Not found!");
    assert!(!App::default().query_db("cat").found);
}

#[test]
fn push_then_pop_restores_the_query() {
    let mut app = App::default();
    app.push_char('a');
    app.push_char('b');
    for n in 0..5 {
        for i in 0..n {
            app.push_char(char::from(b'c' + i as u8));
        }
        for _ in 0..n {
            app.pop_char();
        }
        assert_eq!(app.input(), "ab");
    }
    app.push_char('é');
    assert_eq!(app.input(), "abé");
    app.pop_char();
    assert_eq!(app.input(), "ab");
}

#[test]
fn pop_takes_the_last_character() {
    let mut app = App::default();
    for c in "cat".chars() {
        app.push_char(c);
    }
    assert_eq!(app.input(), "cat");
    app.pop_char();
    assert_eq!(app.input(), "ca");
    app.pop_char();
    app.pop_char();
    assert_eq!(app.input(), "");
}

#[test]
fn pop_on_an_empty_query_is_a_no_op() {
    let mut app = App::default();
    app.pop_char();
    assert_eq!(app.input(), "");
    app.push_char('a');
    app.pop_char();
    app.pop_char();
    app.pop_char();
    assert_eq!(app.input(), "");
}

#[test]
fn click_on_row_zero_of_a_fresh_list_selects_the_first_word() {
    let _keep = numbered("dicrs_app_click_fresh", 50);
    let mut app = browser(&["dicrs_app_click_fresh"]);
    app.select_at(0, 10);
    assert_eq!(app.selected_index(), 0);
    assert_eq!(app.definition(), "definition 0");
}

#[test]
fn click_on_a_row_of_an_unscrolled_list_selects_that_place() {
    let _keep = numbered("dicrs_app_click_top", 50);
    let mut app = browser(&["dicrs_app_click_top"]);
    app.select_at(7, 10);
    assert_eq!(app.selected_index(), 7);
    assert_eq!(app.definition(), "definition 7");
    app.select_at(9, 10);
    assert_eq!(app.selected_index(), 9);
    app.select_at(3, 10);
    assert_eq!(app.selected_index(), 3);
}

#[test]
fn click_on_a_row_of_a_scrolled_list_follows_the_scroll() {
    let _keep = numbered("dicrs_app_click_scrolled", 50);
    let mut app = browser(&["dicrs_app_click_scrolled"]);
    app.update_by_index(25);
    assert_eq!(app.selected_index(), 25);
    app.select_at(9, 10);
    assert_eq!(app.selected_index(), 25);
    app.select_at(3, 10);
    assert_eq!(app.selected_index(), 19);
    assert_eq!(app.definition(), "definition 19");
    app.select_at(0, 10);
    assert_eq!(app.selected_index(), 10);
    app.select_at(0, 10);
    assert_eq!(app.selected_index(), 1);
    app.select_at(5, 10);
    assert_eq!(app.selected_index(), 5);
}

#[test]
fn click_on_the_border_row_of_a_scrolled_list_moves_one_down() {
    let _keep = numbered("dicrs_app_click_border", 50);
    let mut app = browser(&["dicrs_app_click_border"]);
    app.update_by_index(25);
    app.select_at(10, 10);
    assert_eq!(app.selected_index(), 26);
    assert_eq!(app.definition(), "definition 26");
}

#[test]
fn click_is_clamped_to_the_word_list() {
    let _keep = numbered("dicrs_app_click_clamp", 5);
    let mut app = browser(&["dicrs_app_click_clamp"]);
    app.select_at(8, 10);
    assert_eq!(app.selected_index(), 4);
    assert_eq!(app.definition(), "definition 4");
    app.select_at(-3, 10);
    assert_eq!(app.selected_index(), 0);
    app.update_by_index(4);
    app.select_at(i32::MAX, 2);
    assert_eq!(app.selected_index(), 4);
    app.select_at(i32::MIN, 2);
    assert_eq!(app.selected_index(), 0);
    app.update_by_index(4);
    app.select_at(0, i32::MIN);
    assert_eq!(app.selected_index(), 4);
    app.select_at(i32::MIN, i32::MAX);
    assert_eq!(app.selected_index(), 0);
}

#[test]
fn next_then_prev_restores_the_dictionary() {
    let _a = dictionary("dicrs_app_round_a", &[("apple", "a fruit"), ("cat", "a feline")]);
    let _b = dictionary("dicrs_app_round_b", &[("chat", "un félin")]);
    let _c = dictionary("dicrs_app_round_c", &[("Katze", "ein Tier")]);
    let mut app = browser(&["dicrs_app_round_a", "dicrs_app_round_b", "dicrs_app_round_c"]);
    let words = app.word_index().clone();
    assert_eq!(app.switch_dictionary(Direction::Next), Ok(()));
    assert_eq!(app.dictionary_index(), 1);
    assert_eq!(app.word_index(), &vec!["chat"]);
    assert_eq!(app.definition(), "un félin");
    assert_eq!(app.database_path(), "/tmp/dicrs_app_round_b.db");
    assert_eq!(app.switch_dictionary(Direction::Prev), Ok(()));
    assert_eq!(app.dictionary_index(), 0);
    assert_eq!(app.word_index(), &words);
    assert_eq!(app.definition(), "a fruit");
    assert_eq!(app.database_path(), "/tmp/dicrs_app_round_a.db");
}

#[test]
fn switching_wraps_at_both_ends() {
    let _a = dictionary("dicrs_app_wrap_a", &[("a", "1")]);
    let _b = dictionary("dicrs_app_wrap_b", &[("b", "2")]);
    let _c = dictionary("dicrs_app_wrap_c", &[("c", "3")]);
    let mut app = browser(&["dicrs_app_wrap_a", "dicrs_app_wrap_b", "dicrs_app_wrap_c"]);
    assert_eq!(app.switch_dictionary(Direction::Prev), Ok(()));
    assert_eq!(app.dictionary_index(), 2);
    assert_eq!(app.word_index(), &vec!["c"]);
    assert_eq!(app.switch_dictionary(Direction::Next), Ok(()));
    assert_eq!(app.dictionary_index(), 0);
    assert_eq!(app.word_index(), &vec!["a"]);
    assert_eq!(app.switch_dictionary(Direction::Next), Ok(()));
    assert_eq!(app.switch_dictionary(Direction::Next), Ok(()));
    assert_eq!(app.dictionary_index(), 2);
    assert_eq!(app.definition(), "3");
}

#[test]
fn switching_with_one_dictionary_loads_it_again() {
    let _a = dictionary("dicrs_app_single", &[("a", "1"), ("b", "2")]);
    let mut app = browser(&["dicrs_app_single"]);
    app.update_by_index(1);
    assert_eq!(app.switch_dictionary(Direction::Next), Ok(()));
    assert_eq!(app.dictionary_index(), 0);
    assert_eq!(app.selected_index(), 0);
    assert_eq!(app.definition(), "1");
    assert_eq!(app.switch_dictionary(Direction::Prev), Ok(()));
    assert_eq!(app.dictionary_index(), 0);
}

#[test]
fn switching_resets_the_selection_and_keeps_the_query() {
    let _a = dictionary("dicrs_app_reset_a", &[("a", "1"), ("b", "2"), ("c", "3")]);
    let _b = dictionary("dicrs_app_reset_b", &[("x", "24"), ("y", "25")]);
    let mut app = browser(&["dicrs_app_reset_a", "dicrs_app_reset_b"]);
    app.update_by_index(2);
    app.push_char('q');
    assert_eq!(app.switch_dictionary(Direction::Next), Ok(()));
    assert_eq!(app.selected_index(), 0);
    assert_eq!(app.definition(), "24");
    assert_eq!(app.input(), "q");
}

#[test]
fn a_switch_that_fails_keeps_the_dictionary() {
    let _a = dictionary("dicrs_app_keep_a", &[("a", "1"), ("b", "2")]);
    let mut app = browser(&["dicrs_app_keep_a", "dicrs_no_such_directory/b"]);
    app.update_by_index(1);
    assert_eq!(app.switch_dictionary(Direction::Next), Err(StoreError::CannotOpen));
    assert_eq!(app.dictionary_index(), 0);
    assert_eq!(app.word_index(), &vec!["a", "b"]);
    assert_eq!(app.selected_index(), 1);
    assert_eq!(app.definition(), "2");
    assert_eq!(app.database_path(), "/tmp/dicrs_app_keep_a.db");
    app.update_by_index(-1);
    assert_eq!(app.definition(), "1");
}

#[test]
fn a_switch_without_dictionaries_fails() {
    let mut app = App::default();
    assert_eq!(app.switch_dictionary(Direction::Next), Err(StoreError::NoSuchDictionary));
    assert_eq!(app.switch_dictionary(Direction::Prev), Err(StoreError::NoSuchDictionary));
    assert_eq!(app.dictionary_index(), 0);
}

#[test]
fn loading_a_dictionary_that_is_not_listed_fails() {
    let _a = dictionary("dicrs_app_listed", &[("a", "1")]);
    let mut app = browser(&["dicrs_app_listed"]);
    assert_eq!(app.load_dictionary(1), Err(StoreError::NoSuchDictionary));
    assert_eq!(app.load_dictionary(usize::MAX), Err(StoreError::NoSuchDictionary));
    assert_eq!(app.dictionary_index(), 0);
    assert_eq!(app.word_index(), &vec!["a"]);
}

#[test]
fn loading_a_dictionary_without_its_table_fails() {
    let _a = dictionary("dicrs_app_table_a", &[("a", "1")]);
    let bare = Connection::open("/tmp/dicrs_app_table_b.db").unwrap();
    bare.execute("DROP TABLE IF EXISTS dictionary", rusqlite::NO_PARAMS).unwrap();
    let mut app = browser(&["dicrs_app_table_a", "dicrs_app_table_b"]);
    assert_eq!(app.load_dictionary(1), Err(StoreError::CannotRead));
    assert_eq!(app.dictionary_index(), 0);
    assert_eq!(app.word_index(), &vec!["a"]);
}

#[test]
fn the_cursor_stands_behind_the_query() {
    let mut app = App::default();
    assert_eq!(app.cursor(), Some((4, 5)));
    for c in "cat".chars() {
        app.push_char(c);
    }
    assert_eq!(app.cursor(), Some((7, 5)));
}

#[test]
fn the_cursor_counts_columns_not_characters() {
    let mut app = App::default();
    for c in "日本".chars() {
        app.push_char(c);
    }
    assert_eq!(app.cursor(), Some((8, 5)));
    let mut accent = App::default();
    accent.push_char('e');
    accent.push_char('\u{301}');
    assert_eq!(accent.cursor(), Some((5, 5)));
}

#[test]
fn cursor_column_adds_the_box_offset() {
    assert_eq!(cursor_column(0), 4);
    assert_eq!(cursor_column(10), 14);
    assert_eq!(cursor_column(65531), 65535);
    assert_eq!(cursor_column(65536), 4);
}
