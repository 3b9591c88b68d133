use flash_client::card::Card;
use flash_client::deck::Deck;
use flash_client::screen::{Action, EditMode, Key, Screen, ScreenOptions, ScreenState};

fn card(title: &str, sections: &[&str]) -> Card {
    Card::from_parts(
        title.to_string(),
        sections.iter().map(|s| s.to_string()).collect(),
        0,
    )
}

fn names(list: &[&str]) -> Vec<String> {
    list.iter().map(|s| s.to_string()).collect()
}

fn screen(decks: &[&str]) -> Screen {
    Screen::new(ScreenOptions::new("/decks"), names(decks))
}

fn type_text(s: &mut Screen, text: &str) {
    for ch in text.chars() {
        assert!(matches!(s.handle_key(Key::Char(ch)), Action::Nothing));
    }
}

/// Opens the selected deck in the viewer with the given contents.
fn open_viewer(s: &mut Screen, deck: Deck) {
    match s.handle_key(Key::Enter) {
        Action::LoadDeck(name) => assert_eq!(&name, deck.deck_title()),
        other => panic!("unexpected {:?}", other),
    }
    s.deck_loaded(Some(deck));
    assert_eq!(s.state(), ScreenState::DeckViewer);
}

/// Opens the selected deck in the editor with the given contents.
fn open_editor(s: &mut Screen, deck: Deck) {
    s.handle_key(Key::Char('e'));
    assert_eq!(s.edit_mode(), EditMode::EditMenu(0));
    s.handle_key(Key::Down);
    assert_eq!(s.edit_mode(), EditMode::EditMenu(1));
    match s.handle_key(Key::Enter) {
        Action::LoadDeck(name) => assert_eq!(&name, deck.deck_title()),
        other => panic!("unexpected {:?}", other),
    }
    s.deck_loaded(Some(deck));
    assert_eq!(s.state(), ScreenState::DeckEditor);
    assert_eq!(s.edit_mode(), EditMode::Browse);
    assert_eq!(s.edit_menu_cursor(), 0);
}

#[test]
fn new_session_sorts_deck_names() {
    let s = screen(&["Spanish", "French", "German"]);
    assert_eq!(s.local_decks_names(), &names(&["French", "German", "Spanish"]));
    assert_eq!(s.state(), ScreenState::LocalMenu);
    assert_eq!(s.edit_mode(), EditMode::Browse);
    assert_eq!(s.local_menu_cursor(), 0);
    assert_eq!(s.options().local_directory(), "/decks");
    assert!(!s.edit_failed());
}

#[test]
fn local_menu_cursor_is_clamped() {
    let mut s = screen(&["A", "B"]);
    s.handle_key(Key::Up);
    assert_eq!(s.local_menu_cursor(), 0);
    for _ in 0..5 {
        s.handle_key(Key::Down);
    }
    assert_eq!(s.local_menu_cursor(), 2);
}

#[test]
fn viewer_rolls_over_cards() {
    let mut s = screen(&["Lang"]);
    let deck = Deck::new(
        "Lang",
        vec![card("Intro", &["Q1", "A1"]), card("Basics", &["Q2"])],
    );
    open_viewer(&mut s, deck);
    assert_eq!((s.current_deck().cur_card(), s.current_deck().current_section()), (0, 0));
    for _ in 0..3 {
        assert!(matches!(s.handle_key(Key::Right), Action::Nothing));
    }
    assert_eq!((s.current_deck().cur_card(), s.current_deck().current_section()), (1, 0));
    s.handle_key(Key::Left);
    assert_eq!((s.current_deck().cur_card(), s.current_deck().current_section()), (0, 1));
}

#[test]
fn add_section_after_current() {
    let mut s = screen(&["Lang"]);
    open_editor(&mut s, Deck::new("Lang", vec![card("Only", &["X"])]));
    s.handle_key(Key::Char('e'));
    assert_eq!(s.edit_mode(), EditMode::EditContent);
    assert_eq!(s.text_buffer(), "X");
    s.handle_key(Key::Backspace);
    type_text(&mut s, "Y");
    assert_eq!(s.text_buffer(), "Y");
    s.handle_key(Key::Ctrl('a'));
    let deck = s.current_deck();
    let stored = deck.stored_cards();
    assert_eq!(stored[0].sections(), &names(&["Y", ""]));
    assert_eq!(s.text_buffer(), "");
    assert_eq!(deck.current_section(), 0);
    assert_eq!(deck.shown_text(), "Y");
    assert_eq!(deck.cur_card(), 0);
    assert_eq!(s.edit_mode(), EditMode::EditContent);
}

#[test]
fn existing_deck_name_is_refused() {
    let mut s = screen(&["Spanish"]);
    s.handle_key(Key::Down);
    assert_eq!(s.local_menu_cursor(), 1);
    s.handle_key(Key::Enter);
    assert_eq!(s.edit_mode(), EditMode::AddItem);
    type_text(&mut s, "Spanish");
    assert!(matches!(s.handle_key(Key::Enter), Action::Nothing));
    assert!(s.edit_failed());
    assert_eq!(s.edit_mode(), EditMode::AddItem);
    assert_eq!(s.local_menu_cursor(), 1);
    assert_eq!(s.local_decks_names(), &names(&["Spanish"]));
    s.handle_key(Key::Backspace);
    assert!(!s.edit_failed());
    assert_eq!(s.text_buffer(), "Spanis");
}

#[test]
fn empty_deck_in_viewer() {
    let mut s = screen(&["Empty"]);
    open_viewer(&mut s, Deck::new("Empty", Vec::new()));
    let deck = s.current_deck();
    assert_eq!(deck.deck_title(), "Empty");
    assert_eq!(deck.progress(), (0, 0));
    assert_eq!(deck.shown_text(), "");
    s.handle_key(Key::Right);
    s.handle_key(Key::Left);
    let deck = s.current_deck();
    assert_eq!((deck.cur_card(), deck.len(), deck.progress()), (0, 0, (0, 0)));
}

#[test]
fn deleting_only_card_leaves_add_entry_selected() {
    let mut s = screen(&["Lang"]);
    open_editor(&mut s, Deck::new("Lang", vec![card("Only", &["X"])]));
    match s.handle_key(Key::Char('d')) {
        Action::DeleteCard(deck, file) => {
            assert_eq!(deck, "Lang");
            assert_eq!(file, "Only.json");
        }
        other => panic!("unexpected {:?}", other),
    }
    assert!(matches!(s.io_finished(true), Action::Nothing));
    assert_eq!(s.current_deck().len(), 0);
    assert_eq!(s.edit_menu_cursor(), 0);
    assert_eq!(s.current_deck().get_card_names().len(), s.edit_menu_cursor());
}

#[test]
fn failed_card_deletion_sets_flag() {
    let mut s = screen(&["Lang"]);
    open_editor(&mut s, Deck::new("Lang", vec![card("Only", &["X"])]));
    s.handle_key(Key::Char('d'));
    s.io_finished(false);
    assert!(s.edit_failed());
    assert_eq!(s.current_deck().len(), 1);
}

#[test]
fn viewer_escape_returns_to_menu() {
    let mut s = screen(&["Lang"]);
    open_viewer(&mut s, Deck::new("Lang", vec![card("a", &["1"])]));
    s.handle_key(Key::Esc);
    assert_eq!(s.state(), ScreenState::LocalMenu);
    assert_eq!(s.current_deck().len(), 0);
    assert_eq!(s.current_deck().deck_title(), "");
}

#[test]
fn unreadable_deck_keeps_menu() {
    let mut s = screen(&["Lang"]);
    assert!(matches!(s.handle_key(Key::Enter), Action::LoadDeck(_)));
    s.deck_loaded(None);
    assert_eq!(s.state(), ScreenState::LocalMenu);
    assert_eq!(s.edit_mode(), EditMode::Browse);
}

#[test]
fn keys_wait_for_outside_work() {
    let mut s = screen(&["Lang"]);
    s.handle_key(Key::Enter);
    assert!(matches!(s.handle_key(Key::Down), Action::Nothing));
    assert_eq!(s.local_menu_cursor(), 0);
    assert!(matches!(s.io_finished(true), Action::Nothing));
    assert_eq!(s.state(), ScreenState::LocalMenu);
}

#[test]
fn quit_from_menu_and_viewer() {
    let mut s = screen(&[]);
    assert!(matches!(s.handle_key(Key::Char('q')), Action::Quit));
    let mut s = screen(&["Lang"]);
    open_viewer(&mut s, Deck::new("Lang", Vec::new()));
    assert!(matches!(s.handle_key(Key::Char('q')), Action::Quit));
}

#[test]
fn editor_quit_saves_first() {
    let mut s = screen(&["Lang"]);
    open_editor(&mut s, Deck::new("Lang", vec![card("a", &["1"])]));
    assert!(matches!(s.handle_key(Key::Char('q')), Action::SaveDeck));
    assert!(matches!(s.io_finished(true), Action::Quit));
}

#[test]
fn editor_quit_stays_when_save_fails() {
    let mut s = screen(&["Lang"]);
    open_editor(&mut s, Deck::new("Lang", vec![card("a", &["1"])]));
    s.handle_key(Key::Char('q'));
    assert!(matches!(s.io_finished(false), Action::Nothing));
    assert!(s.edit_failed());
    assert_eq!(s.state(), ScreenState::DeckEditor);
}

#[test]
fn editor_escape_saves_and_returns_to_deck_menu() {
    let mut s = screen(&["Lang"]);
    open_editor(&mut s, Deck::new("Lang", vec![card("a", &["1"])]));
    assert!(matches!(s.handle_key(Key::Esc), Action::SaveDeck));
    assert!(matches!(s.io_finished(true), Action::Nothing));
    assert_eq!(s.state(), ScreenState::LocalMenu);
    assert_eq!(s.edit_mode(), EditMode::EditMenu(0));
    assert_eq!(s.current_deck().len(), 0);
    s.handle_key(Key::Esc);
    assert_eq!(s.edit_mode(), EditMode::Browse);
}

#[test]
fn create_deck_inserts_before_add_entry() {
    let mut s = screen(&["B"]);
    s.handle_key(Key::Down);
    s.handle_key(Key::Enter);
    type_text(&mut s, "Ax");
    s.handle_key(Key::Backspace);
    match s.handle_key(Key::Enter) {
        Action::CreateDeck(name) => assert_eq!(name, "A"),
        other => panic!("unexpected {:?}", other),
    }
    s.io_finished(true);
    assert_eq!(s.local_decks_names(), &names(&["B", "A"]));
    assert_eq!(s.edit_mode(), EditMode::Browse);
    assert_eq!(s.text_buffer(), "");
}

#[test]
fn create_deck_failure_keeps_field() {
    let mut s = screen(&[]);
    s.handle_key(Key::Enter);
    type_text(&mut s, "New");
    s.handle_key(Key::Enter);
    s.io_finished(false);
    assert!(s.edit_failed());
    assert_eq!(s.edit_mode(), EditMode::AddItem);
    assert_eq!(s.text_buffer(), "New");
    assert!(s.local_decks_names().is_empty());
}

#[test]
fn empty_name_cancels() {
    let mut s = screen(&[]);
    s.handle_key(Key::Enter);
    assert!(matches!(s.handle_key(Key::Enter), Action::Nothing));
    assert_eq!(s.edit_mode(), EditMode::Browse);
}

#[test]
fn rename_deck_replaces_name() {
    let mut s = screen(&["Old", "Other"]);
    s.handle_key(Key::Char('e'));
    s.handle_key(Key::Enter);
    assert_eq!(s.edit_mode(), EditMode::EditContent);
    assert_eq!(s.text_buffer(), "Old");
    for _ in 0..3 {
        s.handle_key(Key::Backspace);
    }
    type_text(&mut s, "New");
    match s.handle_key(Key::Enter) {
        Action::RenameDeck(from, to) => {
            assert_eq!(from, "Old");
            assert_eq!(to, "New");
        }
        other => panic!("unexpected {:?}", other),
    }
    s.io_finished(true);
    assert_eq!(s.local_decks_names(), &names(&["New", "Other"]));
}

#[test]
fn rename_to_existing_name_is_refused() {
    let mut s = screen(&["Old", "Other"]);
    s.handle_key(Key::Char('e'));
    s.handle_key(Key::Enter);
    for _ in 0..3 {
        s.handle_key(Key::Backspace);
    }
    type_text(&mut s, "Other");
    assert!(matches!(s.handle_key(Key::Enter), Action::Nothing));
    assert!(s.edit_failed());
}

#[test]
fn delete_deck_removes_name() {
    let mut s = screen(&["A", "B"]);
    s.handle_key(Key::Down);
    s.handle_key(Key::Down);
    assert!(matches!(s.handle_key(Key::Char('d')), Action::Nothing));
    s.handle_key(Key::Up);
    match s.handle_key(Key::Char('d')) {
        Action::DeleteDeck(name) => assert_eq!(name, "B"),
        other => panic!("unexpected {:?}", other),
    }
    s.io_finished(true);
    assert_eq!(s.local_decks_names(), &names(&["A"]));
    assert_eq!(s.local_menu_cursor(), 1);
}

#[test]
fn add_card_saves_and_reloads() {
    let mut s = screen(&["Lang"]);
    open_editor(&mut s, Deck::new("Lang", vec![card("a", &["1"])]));
    s.handle_key(Key::Down);
    s.handle_key(Key::Enter);
    assert_eq!(s.edit_mode(), EditMode::AddItem);
    type_text(&mut s, "a");
    assert!(matches!(s.handle_key(Key::Enter), Action::Nothing));
    assert!(s.edit_failed());
    type_text(&mut s, "b");
    assert!(matches!(s.handle_key(Key::Enter), Action::SaveDeck));
    assert_eq!(s.current_deck().get_card_names(), names(&["a", "ab"]));
    match s.io_finished(true) {
        Action::LoadDeck(name) => assert_eq!(name, "Lang"),
        other => panic!("unexpected {:?}", other),
    }
    s.deck_loaded(Some(Deck::new(
        "Lang",
        vec![card("ab", &[]), card("a", &["1"])],
    )));
    assert_eq!(s.edit_mode(), EditMode::Browse);
    assert_eq!(s.text_buffer(), "");
    assert_eq!(s.current_deck().get_card_names(), names(&["ab", "a"]));
}

#[test]
fn add_card_rolls_back_when_save_fails() {
    let mut s = screen(&["Lang"]);
    open_editor(&mut s, Deck::new("Lang", vec![card("a", &["1"])]));
    s.handle_key(Key::Down);
    s.handle_key(Key::Enter);
    type_text(&mut s, "b");
    s.handle_key(Key::Enter);
    assert!(matches!(s.io_finished(false), Action::Nothing));
    assert!(s.edit_failed());
    assert_eq!(s.edit_mode(), EditMode::AddItem);
    assert_eq!(s.current_deck().get_card_names(), names(&["a"]));
}

#[test]
fn editing_an_empty_card_preallocates_a_section() {
    let mut s = screen(&["Lang"]);
    open_editor(&mut s, Deck::new("Lang", vec![card("a", &[])]));
    s.handle_key(Key::Char('e'));
    assert_eq!(s.text_buffer(), "");
    assert_eq!(s.current_deck().stored_cards()[0].sections(), &names(&[""]));
    type_text(&mut s, "hi");
    s.handle_key(Key::Enter);
    assert_eq!(s.edit_mode(), EditMode::Browse);
    assert_eq!(s.current_deck().stored_cards()[0].sections(), &names(&["hi"]));
}

#[test]
fn section_arrows_commit_and_reseed() {
    let mut s = screen(&["Lang"]);
    open_editor(
        &mut s,
        Deck::new("Lang", vec![card("a", &["1", "2"]), card("b", &["3"])]),
    );
    s.handle_key(Key::Char('e'));
    type_text(&mut s, "!");
    s.handle_key(Key::Right);
    assert_eq!(s.text_buffer(), "2");
    s.handle_key(Key::Right);
    assert_eq!(s.text_buffer(), "2");
    assert_eq!(s.current_deck().cur_card(), 0);
    s.handle_key(Key::Left);
    assert_eq!(s.text_buffer(), "1!");
    s.handle_key(Key::Esc);
    assert_eq!(s.edit_mode(), EditMode::Browse);
    assert_eq!(s.current_deck().stored_cards()[0].sections(), &names(&["1!", "2"]));
}

#[test]
fn ctrl_d_deletes_sections() {
    let mut s = screen(&["Lang"]);
    open_editor(&mut s, Deck::new("Lang", vec![card("a", &["1", "2"])]));
    s.handle_key(Key::Char('e'));
    s.handle_key(Key::Right);
    s.handle_key(Key::Ctrl('d'));
    assert_eq!(s.text_buffer(), "1");
    assert_eq!(s.current_deck().current_section(), 0);
    s.handle_key(Key::Ctrl('d'));
    assert_eq!(s.text_buffer(), "");
    assert_eq!(s.current_deck().stored_cards()[0].sections().len(), 0);
    type_text(&mut s, "z");
    s.handle_key(Key::Ctrl('d'));
    assert_eq!(s.text_buffer(), "z");
    s.handle_key(Key::Right);
    assert_eq!(s.current_deck().stored_cards()[0].sections(), &names(&["z"]));
}

#[test]
fn editor_card_cursor_is_clamped() {
    let mut s = screen(&["Lang"]);
    open_editor(&mut s, Deck::new("Lang", vec![card("a", &["1"])]));
    for _ in 0..4 {
        s.handle_key(Key::Down);
    }
    assert_eq!(s.edit_menu_cursor(), 1);
    assert!(matches!(s.handle_key(Key::Char('e')), Action::Nothing));
    assert_eq!(s.edit_mode(), EditMode::Browse);
    assert!(matches!(s.handle_key(Key::Char('d')), Action::Nothing));
}
