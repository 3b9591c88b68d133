use vstd::prelude::*;

use crate::card::{card_file_name, Card, CardView};
use crate::cursor::{offset_state, stepped};
use crate::deck::{cursor_after_removal, Deck, DeckView};
use crate::text::{find_text, name_le, pop_char, push_char, sort_texts, texts};

verus! {

/// The top-level mode of the session.
#[derive(Clone, Copy, Debug, PartialEq, Eq, Structural)]
pub enum ScreenState {
    LocalMenu,
    DeckViewer,
    DeckEditor,
}

/// The modal sub-state layered on the local menu or the deck editor.
/// `EditMenu` carries the selection in the two-entry deck menu
/// (rename the deck / edit its cards). On the local menu `AddItem` names a
/// new deck and `EditContent` renames the selected one; in the deck editor
/// `AddItem` names a new card and `EditContent` edits the sections of a card.
#[derive(Clone, Copy, Debug, PartialEq, Eq, Structural)]
pub enum EditMode {
    EditMenu(usize),
    AddItem,
    EditContent,
    Browse,
}

/// A key press, as the session sees it.
#[derive(Clone, Copy, Debug, PartialEq, Eq, Structural)]
pub enum Key {
    /// A character typed without Ctrl.
    Char(char),
    /// A character typed with Ctrl held.
    Ctrl(char),
    Up,
    Down,
    Left,
    Right,
    Enter,
    Esc,
    Backspace,
}

/// Outside work the session asks for after an event. Each one but `Nothing`
/// and `Quit` is answered by `deck_loaded` (for `LoadDeck`) or `io_finished`
/// (for the others).
#[derive(Debug)]
pub enum Action {
    Nothing,
    /// Leave the event loop.
    Quit,
    /// Read the deck directory of this name under the storage root.
    LoadDeck(String),
    /// Create a deck directory of this name.
    CreateDeck(String),
    /// Rename a deck directory (old name, new name).
    RenameDeck(String, String),
    /// Remove a deck directory with everything in it.
    DeleteDeck(String),
    /// Remove a card file (deck name, file name).
    DeleteCard(String, String),
    /// Write the open deck (see `Deck::stored_cards`) into its directory.
    SaveDeck,
}

pub enum ActionView {
    Nothing,
    Quit,
    LoadDeck(Seq<char>),
    CreateDeck(Seq<char>),
    RenameDeck(Seq<char>, Seq<char>),
    DeleteDeck(Seq<char>),
    DeleteCard(Seq<char>, Seq<char>),
    SaveDeck,
}

impl View for Action {
    type V = ActionView;

    open spec fn view(&self) -> ActionView {
        match self {
            Action::Nothing => ActionView::Nothing,
            Action::Quit => ActionView::Quit,
            Action::LoadDeck(n) => ActionView::LoadDeck(n@),
            Action::CreateDeck(n) => ActionView::CreateDeck(n@),
            Action::RenameDeck(a, b) => ActionView::RenameDeck(a@, b@),
            Action::DeleteDeck(n) => ActionView::DeleteDeck(n@),
            Action::DeleteCard(d, f) => ActionView::DeleteCard(d@, f@),
            Action::SaveDeck => ActionView::SaveDeck,
        }
    }
}

/// The outside work the session is waiting on, and what it will do with the answer.
#[derive(Clone, Copy, Debug, PartialEq, Eq, Structural)]
pub enum Pending {
    Idle,
    /// Loading the selected deck to show it in this screen.
    Open(ScreenState),
    /// Loading the edited deck again after a card was added.
    Reload,
    Create,
    Rename,
    RemoveDeck,
    RemoveCard,
    SaveThenQuit,
    SaveThenLeave,
    SaveNewCard,
}

/// Where the decks live.
#[derive(Debug)]
pub struct ScreenOptions {
    local_directory: String,
}

impl ScreenOptions {
    /// The storage root.
    pub closed spec fn root(&self) -> Seq<char> {
        self.local_directory@
    }

    pub fn new(local_path: &str) -> (r: ScreenOptions)
        ensures
            r.root() == local_path@,
    {
        ScreenOptions { local_directory: String::from_str(local_path) }
    }

    pub fn local_directory(&self) -> (r: &String)
        ensures
            r@ == self.root(),
    {
        &self.local_directory
    }
}

/// The session state, as mathematical values.
pub struct ScreenView {
    pub state: ScreenState,
    pub mode: EditMode,
    /// Selection in the deck list; `names.len()` is the "Add new deck..." entry.
    pub local_cursor: nat,
    /// Selection in the card list; the number of cards is the "Add new card..." entry.
    pub edit_cursor: nat,
    pub names: Seq<Seq<char>>,
    pub deck: DeckView,
    pub buffer: Seq<char>,
    pub failed: bool,
    pub pending: Pending,
    /// The storage root.
    pub root: Seq<char>,
}

/// A deck with no title and no cards.
pub open spec fn empty_deck() -> DeckView {
    DeckView { title: Seq::empty(), cards: Seq::empty(), current_card: 0 }
}

/// A text with its last character taken off, if it has one.
pub open spec fn popped(s: Seq<char>) -> Seq<char> {
    if s.len() == 0 {
        s
    } else {
        s.drop_last()
    }
}

impl ScreenView {
    pub open spec fn wf(self) -> bool {
        let n = self.names.len();
        let cards = self.deck.cards.len();
        &&& self.local_cursor <= n
        &&& self.deck.wf()
        &&& self.state == ScreenState::DeckViewer ==> self.mode == EditMode::Browse
        &&& self.state != ScreenState::LocalMenu ==> self.local_cursor < n
        &&& self.mode matches EditMode::EditMenu(sel) ==> self.state == ScreenState::LocalMenu
            && sel <= 1 && self.local_cursor < n
        &&& self.state == ScreenState::LocalMenu && self.mode == EditMode::EditContent
            ==> self.local_cursor < n
        &&& self.state == ScreenState::DeckEditor ==> self.edit_cursor <= cards
        &&& self.state == ScreenState::DeckEditor && self.mode == EditMode::EditContent ==> cards
            > 0
        &&& (self.mode == EditMode::Browse || self.mode is EditMenu) ==> self.buffer.len() == 0
        &&& self.pending_wf()
    }

    /// What each kind of awaited work needs to hold while it is outstanding.
    pub open spec fn pending_wf(self) -> bool {
        let n = self.names.len();
        let cards = self.deck.cards.len();
        match self.pending {
            Pending::Idle => true,
            Pending::Open(target) => self.state == ScreenState::LocalMenu && self.local_cursor < n
                && ((target == ScreenState::DeckViewer && self.mode == EditMode::Browse) || (target
                == ScreenState::DeckEditor && self.mode == EditMode::EditMenu(1))),
            Pending::Reload => self.state == ScreenState::DeckEditor && self.mode
                == EditMode::AddItem,
            Pending::Create => self.state == ScreenState::LocalMenu && self.mode
                == EditMode::AddItem,
            Pending::Rename => self.state == ScreenState::LocalMenu && self.mode
                == EditMode::EditContent,
            Pending::RemoveDeck => self.state == ScreenState::LocalMenu && self.mode
                == EditMode::Browse && self.local_cursor < n,
            Pending::RemoveCard => self.state == ScreenState::DeckEditor && self.mode
                == EditMode::Browse && self.edit_cursor < cards,
            Pending::SaveThenQuit => self.state == ScreenState::DeckEditor && self.mode
                == EditMode::Browse,
            Pending::SaveThenLeave => self.state == ScreenState::DeckEditor && self.mode
                == EditMode::Browse,
            Pending::SaveNewCard => self.state == ScreenState::DeckEditor && self.mode
                == EditMode::AddItem && cards > 0 && self.edit_cursor < cards && (
                self.deck.current_card + 1 < cards
                || self.deck.current_card == 0),
        }
    }

    /// The state with the naming failure cleared, as every key press does first.
    pub open spec fn cleared(self) -> ScreenView {
        ScreenView { failed: false, ..self }
    }

    /// The state back from a failed outside operation: flagged, nothing awaited.
    pub open spec fn refused(self) -> ScreenView {
        ScreenView { failed: true, pending: Pending::Idle, ..self }
    }
}

/// The keys of a text field: a character is added, Backspace takes one off,
/// Esc drops the text and leaves the field; other keys do nothing. Enter is
/// handled by each field.
pub open spec fn typed(s: ScreenView, t: ScreenView, key: Key, r: ActionView) -> bool {
    let c = s.cleared();
    &&& r == ActionView::Nothing
    &&& match key {
        Key::Char(ch) => t == ScreenView { buffer: c.buffer.push(ch), ..c },
        Key::Backspace => t == ScreenView { buffer: popped(c.buffer), ..c },
        Key::Esc => t == ScreenView { mode: EditMode::Browse, buffer: Seq::empty(), ..c },
        _ => t == c,
    }
}

/// Enter on an empty text field leaves it.
pub open spec fn left_empty_field(s: ScreenView, t: ScreenView, r: ActionView) -> bool {
    t == ScreenView { mode: EditMode::Browse, ..s.cleared() } && r == ActionView::Nothing
}

/// Local menu, no modal state: browsing the deck list.
pub open spec fn browse_decks(s: ScreenView, t: ScreenView, key: Key, r: ActionView) -> bool {
    let c = s.cleared();
    let n = s.names.len();
    let i = s.local_cursor;
    if key == Key::Up || key == Key::Down {
        t == ScreenView { local_cursor: stepped(i, 1, key == Key::Down, n), ..c } && r
            == ActionView::Nothing
    } else if key == Key::Enter && i == n {
        t == ScreenView { mode: EditMode::AddItem, ..c } && r == ActionView::Nothing
    } else if key == Key::Enter {
        t == ScreenView { pending: Pending::Open(ScreenState::DeckViewer), ..c } && r
            == ActionView::LoadDeck(s.names[i as int])
    } else if key == Key::Char('e') && i < n {
        t == ScreenView { mode: EditMode::EditMenu(0), ..c } && r == ActionView::Nothing
    } else if key == Key::Char('d') && i < n {
        t == ScreenView { pending: Pending::RemoveDeck, ..c } && r == ActionView::DeleteDeck(
            s.names[i as int],
        )
    } else if key == Key::Char('q') {
        t == c && r == ActionView::Quit
    } else {
        t == c && r == ActionView::Nothing
    }
}

/// Local menu, deck menu open with selection `sel`.
pub open spec fn deck_menu(s: ScreenView, t: ScreenView, key: Key, r: ActionView, sel: nat) -> bool {
    let c = s.cleared();
    let name = s.names[s.local_cursor as int];
    if key == Key::Up || key == Key::Down {
        t == ScreenView {
            mode: EditMode::EditMenu(stepped(sel, 1, key == Key::Down, 1) as usize),
            ..c
        } && r == ActionView::Nothing
    } else if key == Key::Enter && sel == 0 {
        t == ScreenView { mode: EditMode::EditContent, buffer: name, ..c } && r
            == ActionView::Nothing
    } else if key == Key::Enter {
        t == ScreenView { pending: Pending::Open(ScreenState::DeckEditor), ..c } && r
            == ActionView::LoadDeck(name)
    } else if key == Key::Esc {
        t == ScreenView { mode: EditMode::Browse, ..c } && r == ActionView::Nothing
    } else {
        t == c && r == ActionView::Nothing
    }
}

/// Local menu, naming a new deck. A name already in the list is refused at once.
pub open spec fn name_new_deck(s: ScreenView, t: ScreenView, key: Key, r: ActionView) -> bool {
    let c = s.cleared();
    if key == Key::Enter {
        if s.buffer.len() == 0 {
            left_empty_field(s, t, r)
        } else if s.names.contains(s.buffer) {
            t == ScreenView { failed: true, ..c } && r == ActionView::Nothing
        } else {
            t == ScreenView { pending: Pending::Create, ..c } && r == ActionView::CreateDeck(
                s.buffer,
            )
        }
    } else {
        typed(s, t, key, r)
    }
}

/// Local menu, renaming the selected deck.
pub open spec fn rename_deck(s: ScreenView, t: ScreenView, key: Key, r: ActionView) -> bool {
    let c = s.cleared();
    if key == Key::Enter {
        if s.buffer.len() == 0 {
            left_empty_field(s, t, r)
        } else if s.names.contains(s.buffer) {
            t == ScreenView { failed: true, ..c } && r == ActionView::Nothing
        } else {
            t == ScreenView { pending: Pending::Rename, ..c } && r == ActionView::RenameDeck(
                s.names[s.local_cursor as int],
                s.buffer,
            )
        }
    } else {
        typed(s, t, key, r)
    }
}

/// Deck viewer: studying the open deck.
pub open spec fn study(s: ScreenView, t: ScreenView, key: Key, r: ActionView) -> bool {
    let c = s.cleared();
    if key == Key::Right {
        t == ScreenView { deck: s.deck.advanced(true), ..c } && r == ActionView::Nothing
    } else if key == Key::Left {
        t == ScreenView { deck: s.deck.retreated(true), ..c } && r == ActionView::Nothing
    } else if key == Key::Esc {
        t == ScreenView { state: ScreenState::LocalMenu, deck: empty_deck(), ..c } && r
            == ActionView::Nothing
    } else if key == Key::Char('q') {
        t == c && r == ActionView::Quit
    } else {
        t == c && r == ActionView::Nothing
    }
}

/// The deck as the section editor opens on card `i`: that card becomes
/// current and gets an empty section if it has none.
pub open spec fn opened_on(d: DeckView, i: nat) -> DeckView {
    let d1 = DeckView { current_card: i, ..d };
    d1.with_current(d1.current().padded())
}

/// Deck editor, no modal state: browsing the card list.
pub open spec fn browse_cards(s: ScreenView, t: ScreenView, key: Key, r: ActionView) -> bool {
    let c = s.cleared();
    let n = s.deck.cards.len();
    let i = s.edit_cursor;
    if key == Key::Up || key == Key::Down {
        t == ScreenView { edit_cursor: stepped(i, 1, key == Key::Down, n), ..c } && r
            == ActionView::Nothing
    } else if key == Key::Char('e') && i < n {
        t == ScreenView {
            mode: EditMode::EditContent,
            deck: opened_on(s.deck, i),
            buffer: opened_on(s.deck, i).shown(),
            ..c
        } && r == ActionView::Nothing
    } else if key == Key::Char('d') && i < n {
        t == ScreenView { pending: Pending::RemoveCard, ..c } && r == ActionView::DeleteCard(
            s.deck.title,
            card_file_name(s.deck.cards[i as int].title),
        )
    } else if key == Key::Enter && i == n {
        t == ScreenView { mode: EditMode::AddItem, ..c } && r == ActionView::Nothing
    } else if key == Key::Char('q') {
        t == ScreenView { pending: Pending::SaveThenQuit, ..c } && r == ActionView::SaveDeck
    } else if key == Key::Esc {
        t == ScreenView { pending: Pending::SaveThenLeave, ..c } && r == ActionView::SaveDeck
    } else {
        t == c && r == ActionView::Nothing
    }
}

/// Deck editor, naming a new card. A title the deck already has is refused;
/// otherwise the card is added and the deck saved.
pub open spec fn name_new_card(s: ScreenView, t: ScreenView, key: Key, r: ActionView) -> bool {
    let c = s.cleared();
    if key == Key::Enter {
        if s.buffer.len() == 0 {
            left_empty_field(s, t, r)
        } else if s.deck.titles().contains(s.buffer) {
            t == ScreenView { failed: true, ..c } && r == ActionView::Nothing
        } else {
            t == ScreenView {
                deck: DeckView {
                    cards: s.deck.cards.push(
                        CardView { title: s.buffer, sections: Seq::empty(), current_section: 0 },
                    ),
                    ..s.deck
                },
                pending: Pending::SaveNewCard,
                ..c
            } && r == ActionView::SaveDeck
        }
    } else {
        typed(s, t, key, r)
    }
}

/// The deck with the text being edited written into the current section.
pub open spec fn committed(s: ScreenView) -> DeckView {
    s.deck.with_current(s.deck.current().with_text(s.buffer))
}

/// Deck editor, editing the sections of the current card.
pub open spec fn edit_sections(s: ScreenView, t: ScreenView, key: Key, r: ActionView) -> bool {
    let c = s.cleared();
    let d1 = committed(s);
    if key == Key::Ctrl('a') {
        t == ScreenView {
            deck: d1.with_current(d1.current().with_section_after()),
            buffer: Seq::empty(),
            ..c
        } && r == ActionView::Nothing
    } else if key == Key::Ctrl('d') {
        if s.deck.current().sections.len() == 0 {
            t == c && r == ActionView::Nothing
        } else {
            let d2 = s.deck.with_current(s.deck.current().without_current());
            t == ScreenView { deck: d2, buffer: d2.shown(), ..c } && r == ActionView::Nothing
        }
    } else if key == Key::Right {
        t == ScreenView { deck: d1.advanced(false), buffer: d1.advanced(false).shown(), ..c } && r
            == ActionView::Nothing
    } else if key == Key::Left {
        t == ScreenView { deck: d1.retreated(false), buffer: d1.retreated(false).shown(), ..c }
            && r == ActionView::Nothing
    } else if key == Key::Enter {
        t == ScreenView { mode: EditMode::Browse, deck: d1, buffer: Seq::empty(), ..c } && r
            == ActionView::Nothing
    } else {
        typed(s, t, key, r)
    }
}

/// What a key press does, by screen and modal state. While outside work is
/// awaited, keys are ignored.
pub open spec fn key_step(s: ScreenView, t: ScreenView, key: Key, r: ActionView) -> bool {
    if s.pending != Pending::Idle {
        t == s && r == ActionView::Nothing
    } else {
        match s.state {
            ScreenState::LocalMenu => match s.mode {
                EditMode::Browse => browse_decks(s, t, key, r),
                EditMode::EditMenu(sel) => deck_menu(s, t, key, r, sel as nat),
                EditMode::AddItem => name_new_deck(s, t, key, r),
                EditMode::EditContent => rename_deck(s, t, key, r),
            },
            ScreenState::DeckViewer => study(s, t, key, r),
            ScreenState::DeckEditor => match s.mode {
                EditMode::Browse => browse_cards(s, t, key, r),
                EditMode::AddItem => name_new_card(s, t, key, r),
                EditMode::EditContent => edit_sections(s, t, key, r),
                EditMode::EditMenu(_) => t == s && r == ActionView::Nothing,
            },
        }
    }
}

/// What the answer to a `LoadDeck` does. An opened deck switches screens;
/// one that could not be read leaves the session where it was. After a card
/// was added, the deck read back replaces the one in memory.
pub open spec fn load_step(s: ScreenView, t: ScreenView, loaded: Option<DeckView>) -> bool {
    match s.pending {
        Pending::Open(target) => match loaded {
            Some(d) => t == ScreenView {
                state: target,
                mode: EditMode::Browse,
                deck: d,
                edit_cursor: 0,
                pending: Pending::Idle,
                ..s
            },
            None => t == ScreenView { pending: Pending::Idle, ..s },
        },
        Pending::Reload => match loaded {
            Some(d) => t == ScreenView {
                deck: d,
                edit_cursor: if s.edit_cursor <= d.cards.len() {
                    s.edit_cursor
                } else {
                    d.cards.len()
                },
                mode: EditMode::Browse,
                buffer: Seq::empty(),
                pending: Pending::Idle,
                ..s
            },
            None => t == ScreenView {
                mode: EditMode::Browse,
                buffer: Seq::empty(),
                pending: Pending::Idle,
                ..s
            },
        },
        _ => t == s,
    }
}

/// What the answer to a create, rename, delete or save does. A failure sets
/// the naming failure flag and leaves the session in the same mode.
pub open spec fn io_step(s: ScreenView, t: ScreenView, ok: bool, r: ActionView) -> bool {
    let idle = ScreenView { pending: Pending::Idle, ..s };
    match s.pending {
        Pending::Create => r == ActionView::Nothing && if ok {
            t == ScreenView {
                names: s.names.push(s.buffer),
                buffer: Seq::empty(),
                mode: EditMode::Browse,
                ..idle
            }
        } else {
            t == s.refused()
        },
        Pending::Rename => r == ActionView::Nothing && if ok {
            t == ScreenView {
                names: s.names.update(s.local_cursor as int, s.buffer),
                buffer: Seq::empty(),
                mode: EditMode::Browse,
                ..idle
            }
        } else {
            t == s.refused()
        },
        Pending::RemoveDeck => r == ActionView::Nothing && if ok {
            t == ScreenView { names: s.names.remove(s.local_cursor as int), ..idle }
        } else {
            t == s.refused()
        },
        Pending::RemoveCard => r == ActionView::Nothing && if ok {
            t == ScreenView {
                deck: DeckView {
                    cards: s.deck.cards.remove(s.edit_cursor as int),
                    current_card: cursor_after_removal(
                        s.deck.current_card,
                        s.deck.cards.len(),
                    ),
                    ..s.deck
                },
                ..idle
            }
        } else {
            t == s.refused()
        },
        Pending::SaveThenQuit => if ok {
            t == idle && r == ActionView::Quit
        } else {
            t == s.refused() && r == ActionView::Nothing
        },
        Pending::SaveThenLeave => r == ActionView::Nothing && if ok {
            t == ScreenView {
                state: ScreenState::LocalMenu,
                mode: EditMode::EditMenu(0),
                deck: empty_deck(),
                edit_cursor: 0,
                ..idle
            }
        } else {
            t == s.refused()
        },
        Pending::SaveNewCard => if ok {
            t == ScreenView { pending: Pending::Reload, ..s } && r == ActionView::LoadDeck(
                s.names[s.local_cursor as int],
            )
        } else {
            t == ScreenView {
                deck: DeckView { cards: s.deck.cards.drop_last(), ..s.deck },
                ..s.refused()
            } && r == ActionView::Nothing
        },
        _ => t == s && r == ActionView::Nothing,
    }
}

/// The session's fields; `Screen` keeps them well formed.
struct Navigator {
    state: ScreenState,
    edit_mode: EditMode,
    local_menu_cursor: usize,
    edit_menu_cursor: usize,
    local_decks_names: Vec<String>,
    current_deck: Deck,
    edit_failed: bool,
    text_buffer: String,
    options: ScreenOptions,
    pending: Pending,
}

impl View for Navigator {
    type V = ScreenView;

    closed spec fn view(&self) -> ScreenView {
        ScreenView {
            state: self.state,
            mode: self.edit_mode,
            local_cursor: self.local_menu_cursor as nat,
            edit_cursor: self.edit_menu_cursor as nat,
            names: texts(self.local_decks_names@),
            deck: self.current_deck@,
            buffer: self.text_buffer@,
            failed: self.edit_failed,
            pending: self.pending,
            root: self.options.root(),
        }
    }
}

/// Moves a list cursor one place, kept in `[0, max]`.
fn step_cursor(pos: usize, forward: bool, max: usize) -> (r: usize)
    ensures
        r == stepped(pos as nat, 1, forward, max as nat),
{
    match offset_state(Some(pos), 1, forward, max) {
        Some(p) => p,
        None => pos,
    }
}

impl Navigator {
    /// A session at the local menu with no decks and no storage root.
    fn blank() -> (r: Navigator)
        ensures
            r@.wf(),
    {
        let r = Navigator {
            state: ScreenState::LocalMenu,
            edit_mode: EditMode::Browse,
            local_menu_cursor: 0,
            edit_menu_cursor: 0,
            local_decks_names: Vec::new(),
            current_deck: Deck::default(),
            edit_failed: false,
            text_buffer: String::new(),
            options: ScreenOptions { local_directory: String::new() },
            pending: Pending::Idle,
        };
        proof {
            assert(r@.buffer =~= Seq::empty());
        }
        r
    }

    /// The keys of a text field other than Enter.
    fn type_in_field(&mut self, key: Key) -> (r: Action)
        requires
            old(self)@.wf(),
            !old(self)@.failed,
            old(self)@.pending == Pending::Idle,
            old(self)@.mode == EditMode::AddItem || old(self)@.mode == EditMode::EditContent,
        ensures
            final(self)@.wf(),
            typed(old(self)@, final(self)@, key, r@),
    {
        match key {
            Key::Char(ch) => {
                push_char(&mut self.text_buffer, ch);
            },
            Key::Backspace => {
                pop_char(&mut self.text_buffer);
            },
            Key::Esc => {
                self.text_buffer = String::new();
                self.edit_mode = EditMode::Browse;
            },
            _ => {},
        }
        Action::Nothing
    }

    fn browse_decks(&mut self, key: Key) -> (r: Action)
        requires
            old(self)@.wf(),
            !old(self)@.failed,
            old(self)@.pending == Pending::Idle,
            old(self)@.state == ScreenState::LocalMenu,
            old(self)@.mode == EditMode::Browse,
        ensures
            final(self)@.wf(),
            browse_decks(old(self)@, final(self)@, key, r@),
    {
        let n: usize = self.local_decks_names.len();
        let i: usize = self.local_menu_cursor;
        match key {
            Key::Up => {
                self.local_menu_cursor = step_cursor(i, false, n);
                Action::Nothing
            },
            Key::Down => {
                self.local_menu_cursor = step_cursor(i, true, n);
                Action::Nothing
            },
            Key::Enter => {
                if i == n {
                    self.edit_mode = EditMode::AddItem;
                    Action::Nothing
                } else {
                    self.pending = Pending::Open(ScreenState::DeckViewer);
                    Action::LoadDeck(self.local_decks_names[i].clone())
                }
            },
            Key::Char(ch) => {
                if ch == 'e' && i < n {
                    self.edit_mode = EditMode::EditMenu(0);
                    Action::Nothing
                } else if ch == 'd' && i < n {
                    self.pending = Pending::RemoveDeck;
                    Action::DeleteDeck(self.local_decks_names[i].clone())
                } else if ch == 'q' {
                    Action::Quit
                } else {
                    Action::Nothing
                }
            },
            _ => Action::Nothing,
        }
    }

    fn deck_menu(&mut self, key: Key, sel: usize) -> (r: Action)
        requires
            old(self)@.wf(),
            !old(self)@.failed,
            old(self)@.pending == Pending::Idle,
            old(self)@.state == ScreenState::LocalMenu,
            old(self)@.mode == EditMode::EditMenu(sel),
        ensures
            final(self)@.wf(),
            deck_menu(old(self)@, final(self)@, key, r@, sel as nat),
    {
        let i: usize = self.local_menu_cursor;
        match key {
            Key::Up => {
                self.edit_mode = EditMode::EditMenu(step_cursor(sel, false, 1));
                Action::Nothing
            },
            Key::Down => {
                self.edit_mode = EditMode::EditMenu(step_cursor(sel, true, 1));
                Action::Nothing
            },
            Key::Enter => {
                if sel == 0 {
                    self.text_buffer = self.local_decks_names[i].clone();
                    self.edit_mode = EditMode::EditContent;
                    Action::Nothing
                } else {
                    self.pending = Pending::Open(ScreenState::DeckEditor);
                    Action::LoadDeck(self.local_decks_names[i].clone())
                }
            },
            Key::Esc => {
                self.edit_mode = EditMode::Browse;
                Action::Nothing
            },
            _ => Action::Nothing,
        }
    }

    fn name_new_deck(&mut self, key: Key) -> (r: Action)
        requires
            old(self)@.wf(),
            !old(self)@.failed,
            old(self)@.pending == Pending::Idle,
            old(self)@.state == ScreenState::LocalMenu,
            old(self)@.mode == EditMode::AddItem,
        ensures
            final(self)@.wf(),
            name_new_deck(old(self)@, final(self)@, key, r@),
    {
        if key == Key::Enter {
            if self.text_buffer.as_str().is_empty() {
                self.edit_mode = EditMode::Browse;
                Action::Nothing
            } else if find_text(&self.local_decks_names, &self.text_buffer).is_some() {
                self.edit_failed = true;
                Action::Nothing
            } else {
                self.pending = Pending::Create;
                Action::CreateDeck(self.text_buffer.clone())
            }
        } else {
            self.type_in_field(key)
        }
    }

    fn rename_deck(&mut self, key: Key) -> (r: Action)
        requires
            old(self)@.wf(),
            !old(self)@.failed,
            old(self)@.pending == Pending::Idle,
            old(self)@.state == ScreenState::LocalMenu,
            old(self)@.mode == EditMode::EditContent,
        ensures
            final(self)@.wf(),
            rename_deck(old(self)@, final(self)@, key, r@),
    {
        if key == Key::Enter {
            if self.text_buffer.as_str().is_empty() {
                self.edit_mode = EditMode::Browse;
                Action::Nothing
            } else if find_text(&self.local_decks_names, &self.text_buffer).is_some() {
                self.edit_failed = true;
                Action::Nothing
            } else {
                self.pending = Pending::Rename;
                Action::RenameDeck(
                    self.local_decks_names[self.local_menu_cursor].clone(),
                    self.text_buffer.clone(),
                )
            }
        } else {
            self.type_in_field(key)
        }
    }

    fn study(&mut self, key: Key) -> (r: Action)
        requires
            old(self)@.wf(),
            !old(self)@.failed,
            old(self)@.pending == Pending::Idle,
            old(self)@.state == ScreenState::DeckViewer,
        ensures
            final(self)@.wf(),
            study(old(self)@, final(self)@, key, r@),
    {
        match key {
            Key::Right => {
                self.current_deck.increment_deck(true);
                Action::Nothing
            },
            Key::Left => {
                self.current_deck.decrement_deck(true);
                Action::Nothing
            },
            Key::Esc => {
                self.current_deck = Deck::default();
                self.state = ScreenState::LocalMenu;
                Action::Nothing
            },
            Key::Char(ch) => {
                if ch == 'q' {
                    Action::Quit
                } else {
                    Action::Nothing
                }
            },
            _ => Action::Nothing,
        }
    }

    fn browse_cards(&mut self, key: Key) -> (r: Action)
        requires
            old(self)@.wf(),
            !old(self)@.failed,
            old(self)@.pending == Pending::Idle,
            old(self)@.state == ScreenState::DeckEditor,
            old(self)@.mode == EditMode::Browse,
        ensures
            final(self)@.wf(),
            browse_cards(old(self)@, final(self)@, key, r@),
    {
        let n: usize = self.current_deck.len();
        let i: usize = self.edit_menu_cursor;
        match key {
            Key::Up => {
                self.edit_menu_cursor = step_cursor(i, false, n);
                Action::Nothing
            },
            Key::Down => {
                self.edit_menu_cursor = step_cursor(i, true, n);
                Action::Nothing
            },
            Key::Char(ch) => {
                if ch == 'e' && i < n {
                    self.current_deck.set_current_card(i);
                    self.current_deck.ensure_section();
                    self.text_buffer = self.current_deck.shown_text();
                    self.edit_mode = EditMode::EditContent;
                    Action::Nothing
                } else if ch == 'd' && i < n {
                    self.pending = Pending::RemoveCard;
                    Action::DeleteCard(
                        self.current_deck.deck_title().clone(),
                        self.current_deck.saved_name_of(i),
                    )
                } else if ch == 'q' {
                    self.pending = Pending::SaveThenQuit;
                    Action::SaveDeck
                } else {
                    Action::Nothing
                }
            },
            Key::Enter => {
                if i == n {
                    self.edit_mode = EditMode::AddItem;
                }
                Action::Nothing
            },
            Key::Esc => {
                self.pending = Pending::SaveThenLeave;
                Action::SaveDeck
            },
            _ => Action::Nothing,
        }
    }

    fn name_new_card(&mut self, key: Key) -> (r: Action)
        requires
            old(self)@.wf(),
            !old(self)@.failed,
            old(self)@.pending == Pending::Idle,
            old(self)@.state == ScreenState::DeckEditor,
            old(self)@.mode == EditMode::AddItem,
        ensures
            final(self)@.wf(),
            name_new_card(old(self)@, final(self)@, key, r@),
    {
        if key == Key::Enter {
            if self.text_buffer.as_str().is_empty() {
                self.edit_mode = EditMode::Browse;
                Action::Nothing
            } else if self.current_deck.has_card_titled(&self.text_buffer) {
                self.edit_failed = true;
                Action::Nothing
            } else {
                let ghost before = self.current_deck@;
                proof {
                    assert(before.wf());
                }
                self.current_deck.push_card(Card::new(self.text_buffer.clone()));
                self.pending = Pending::SaveNewCard;
                Action::SaveDeck
            }
        } else {
            self.type_in_field(key)
        }
    }

    fn edit_sections(&mut self, key: Key) -> (r: Action)
        requires
            old(self)@.wf(),
            !old(self)@.failed,
            old(self)@.pending == Pending::Idle,
            old(self)@.state == ScreenState::DeckEditor,
            old(self)@.mode == EditMode::EditContent,
        ensures
            final(self)@.wf(),
            edit_sections(old(self)@, final(self)@, key, r@),
    {
        match key {
            Key::Ctrl(ch) => {
                if ch == 'a' {
                    self.current_deck.commit_text(self.text_buffer.clone());
                    self.current_deck.insert_section_after();
                    self.text_buffer = String::new();
                    Action::Nothing
                } else if ch == 'd' {
                    if self.current_deck.current_section_count() > 0 {
                        self.current_deck.delete_section();
                        self.text_buffer = self.current_deck.shown_text();
                    }
                    Action::Nothing
                } else {
                    Action::Nothing
                }
            },
            Key::Right => {
                self.current_deck.commit_text(self.text_buffer.clone());
                self.current_deck.increment_deck(false);
                self.text_buffer = self.current_deck.shown_text();
                Action::Nothing
            },
            Key::Left => {
                self.current_deck.commit_text(self.text_buffer.clone());
                self.current_deck.decrement_deck(false);
                self.text_buffer = self.current_deck.shown_text();
                Action::Nothing
            },
            Key::Enter => {
                self.current_deck.commit_text(self.text_buffer.clone());
                self.text_buffer = String::new();
                self.edit_mode = EditMode::Browse;
                Action::Nothing
            },
            _ => self.type_in_field(key),
        }
    }

    fn handle_key(&mut self, key: Key) -> (r: Action)
        requires
            old(self)@.wf(),
        ensures
            final(self)@.wf(),
            key_step(old(self)@, final(self)@, key, r@),
    {
        if self.pending != Pending::Idle {
            return Action::Nothing;
        }
        self.edit_failed = false;
        match self.state {
            ScreenState::LocalMenu => match self.edit_mode {
                EditMode::Browse => self.browse_decks(key),
                EditMode::EditMenu(sel) => self.deck_menu(key, sel),
                EditMode::AddItem => self.name_new_deck(key),
                EditMode::EditContent => self.rename_deck(key),
            },
            ScreenState::DeckViewer => self.study(key),
            ScreenState::DeckEditor => match self.edit_mode {
                EditMode::Browse => self.browse_cards(key),
                EditMode::AddItem => self.name_new_card(key),
                EditMode::EditContent => self.edit_sections(key),
                EditMode::EditMenu(_) => Action::Nothing,
            },
        }
    }

    fn deck_loaded(&mut self, loaded: Option<Deck>)
        requires
            old(self)@.wf(),
        ensures
            final(self)@.wf(),
            load_step(
                old(self)@,
                final(self)@,
                match loaded {
                    Some(d) => Some(d@),
                    None => None,
                },
            ),
    {
        match self.pending {
            Pending::Open(target) => {
                match loaded {
                    Some(d) => {
                        let _ = d.len();
                        self.current_deck = d;
                        self.state = target;
                        self.edit_mode = EditMode::Browse;
                        self.edit_menu_cursor = 0;
                    },
                    None => {},
                }
                self.pending = Pending::Idle;
            },
            Pending::Reload => {
                match loaded {
                    Some(d) => {
                        let n: usize = d.len();
                        self.current_deck = d;
                        if self.edit_menu_cursor > n {
                            self.edit_menu_cursor = n;
                        }
                    },
                    None => {},
                }
                self.edit_mode = EditMode::Browse;
                self.text_buffer = String::new();
                self.pending = Pending::Idle;
            },
            _ => {},
        }
    }

    fn io_finished(&mut self, ok: bool) -> (r: Action)
        requires
            old(self)@.wf(),
        ensures
            final(self)@.wf(),
            io_step(old(self)@, final(self)@, ok, r@),
    {
        let ghost s = self@;
        match self.pending {
            Pending::Create => {
                if ok {
                    self.local_decks_names.push(self.text_buffer.clone());
                    proof {
                        assert(self@.names =~= s.names.push(s.buffer));
                    }
                    self.text_buffer = String::new();
                    self.edit_mode = EditMode::Browse;
                } else {
                    self.edit_failed = true;
                }
                self.pending = Pending::Idle;
                Action::Nothing
            },
            Pending::Rename => {
                if ok {
                    self.local_decks_names.set(self.local_menu_cursor, self.text_buffer.clone());
                    proof {
                        assert(self@.names =~= s.names.update(s.local_cursor as int, s.buffer));
                    }
                    self.text_buffer = String::new();
                    self.edit_mode = EditMode::Browse;
                } else {
                    self.edit_failed = true;
                }
                self.pending = Pending::Idle;
                Action::Nothing
            },
            Pending::RemoveDeck => {
                if ok {
                    self.local_decks_names.remove(self.local_menu_cursor);
                    proof {
                        assert(self@.names =~= s.names.remove(s.local_cursor as int));
                    }
                } else {
                    self.edit_failed = true;
                }
                self.pending = Pending::Idle;
                Action::Nothing
            },
            Pending::RemoveCard => {
                if ok {
                    self.current_deck.remove_card(self.edit_menu_cursor);
                } else {
                    self.edit_failed = true;
                }
                self.pending = Pending::Idle;
                Action::Nothing
            },
            Pending::SaveThenQuit => {
                self.pending = Pending::Idle;
                if ok {
                    Action::Quit
                } else {
                    self.edit_failed = true;
                    Action::Nothing
                }
            },
            Pending::SaveThenLeave => {
                if ok {
                    self.state = ScreenState::LocalMenu;
                    self.edit_mode = EditMode::EditMenu(0);
                    self.current_deck = Deck::default();
                    self.edit_menu_cursor = 0;
                } else {
                    self.edit_failed = true;
                }
                self.pending = Pending::Idle;
                Action::Nothing
            },
            Pending::SaveNewCard => {
                if ok {
                    self.pending = Pending::Reload;
                    Action::LoadDeck(self.local_decks_names[self.local_menu_cursor].clone())
                } else {
                    let n: usize = self.current_deck.len();
                    self.current_deck.remove_card(n - 1);
                    proof {
                        assert(self@.deck.cards =~= s.deck.cards.drop_last());
                    }
                    self.edit_failed = true;
                    self.pending = Pending::Idle;
                    Action::Nothing
                }
            },
            _ => Action::Nothing,
        }
    }
}

/// The navigation state machine of a session: the screen and modal state,
/// the list cursors, the open deck and the text being typed. It does no
/// outside work itself: each event returns an `Action`, whose outcome is
/// handed back through `deck_loaded` or `io_finished`.
pub struct Screen {
    nav: Navigator,
}

impl View for Screen {
    type V = ScreenView;

    closed spec fn view(&self) -> ScreenView {
        self.nav@
    }
}

impl Screen {
    #[verifier::type_invariant]
    spec fn inv(self) -> bool {
        self.nav@.wf()
    }

    /// A session on the local menu, listing the given deck names in order.
    pub fn new(options: ScreenOptions, deck_names: Vec<String>) -> (r: Screen)
        ensures
            r@.wf(),
            r@.state == ScreenState::LocalMenu,
            r@.mode == EditMode::Browse,
            r@.local_cursor == 0,
            r@.edit_cursor == 0,
            r@.names.to_multiset() == texts(deck_names@).to_multiset(),
            r@.names.len() == deck_names@.len(),
            forall|i: int, j: int|
                0 <= i < j < r@.names.len() ==> name_le(#[trigger] r@.names[i], #[trigger] r@.names[j]),
            r@.deck == empty_deck(),
            r@.buffer.len() == 0,
            !r@.failed,
            r@.pending == Pending::Idle,
            r@.root == options.root(),
    {
        let mut names: Vec<String> = deck_names;
        sort_texts(&mut names);
        proof {
            vstd::seq_lib::to_multiset_len(texts(names@));
            vstd::seq_lib::to_multiset_len(texts(deck_names@));
        }
        let nav = Navigator {
            state: ScreenState::LocalMenu,
            edit_mode: EditMode::Browse,
            local_menu_cursor: 0,
            edit_menu_cursor: 0,
            local_decks_names: names,
            current_deck: Deck::default(),
            edit_failed: false,
            text_buffer: String::new(),
            options: options,
            pending: Pending::Idle,
        };
        Screen { nav }
    }

    /// Takes a key press; returns the outside work it calls for.
    pub fn handle_key(&mut self, key: Key) -> (r: Action)
        ensures
            final(self)@.wf(),
            key_step(old(self)@, final(self)@, key, r@),
    {
        proof {
            use_type_invariant(&*self);
        }
        let mut nav = Navigator::blank();
        std::mem::swap(&mut self.nav, &mut nav);
        let r = nav.handle_key(key);
        std::mem::swap(&mut self.nav, &mut nav);
        r
    }

    /// Takes the answer to `Action::LoadDeck`: the deck read, or `None` when
    /// its directory could not be read.
    pub fn deck_loaded(&mut self, loaded: Option<Deck>)
        ensures
            final(self)@.wf(),
            load_step(
                old(self)@,
                final(self)@,
                match loaded {
                    Some(d) => Some(d@),
                    None => None,
                },
            ),
    {
        proof {
            use_type_invariant(&*self);
        }
        let mut nav = Navigator::blank();
        std::mem::swap(&mut self.nav, &mut nav);
        nav.deck_loaded(loaded);
        std::mem::swap(&mut self.nav, &mut nav);
    }

    /// Takes the outcome of the other actions: whether the outside operation succeeded.
    pub fn io_finished(&mut self, ok: bool) -> (r: Action)
        ensures
            final(self)@.wf(),
            io_step(old(self)@, final(self)@, ok, r@),
    {
        proof {
            use_type_invariant(&*self);
        }
        let mut nav = Navigator::blank();
        std::mem::swap(&mut self.nav, &mut nav);
        let r = nav.io_finished(ok);
        std::mem::swap(&mut self.nav, &mut nav);
        r
    }

    pub fn state(&self) -> (r: ScreenState)
        ensures
            r == self@.state,
    {
        self.nav.state
    }

    pub fn edit_mode(&self) -> (r: EditMode)
        ensures
            r == self@.mode,
    {
        self.nav.edit_mode
    }

    /// The selection in the deck list; the number of decks stands for "Add new deck...".
    pub fn local_menu_cursor(&self) -> (r: usize)
        ensures
            r == self@.local_cursor,
    {
        self.nav.local_menu_cursor
    }

    /// The selection in the card list; the number of cards stands for "Add new card...".
    pub fn edit_menu_cursor(&self) -> (r: usize)
        ensures
            r == self@.edit_cursor,
    {
        self.nav.edit_menu_cursor
    }

    pub fn local_decks_names(&self) -> (r: &Vec<String>)
        ensures
            texts(r@) == self@.names,
    {
        &self.nav.local_decks_names
    }

    pub fn current_deck(&self) -> (r: &Deck)
        ensures
            r@ == self@.deck,
    {
        &self.nav.current_deck
    }

    pub fn text_buffer(&self) -> (r: &String)
        ensures
            r@ == self@.buffer,
    {
        &self.nav.text_buffer
    }

    pub fn edit_failed(&self) -> (r: bool)
        ensures
            r == self@.failed,
    {
        self.nav.edit_failed
    }

    pub fn options(&self) -> (r: &ScreenOptions)
        ensures
            r.root() == self@.root,
    {
        &self.nav.options
    }
}

} // verus!

verus! {

/// Deleting the only card of the open deck (the `d` key on it in the deck
/// editor, then the file removal succeeding) leaves the deck without cards
/// and the "Add new card..." entry as the only entry, selected.
pub proof fn lemma_delete_only_card(
    s: ScreenView,
    m: ScreenView,
    t: ScreenView,
    r1: ActionView,
    r2: ActionView,
)
    requires
        s.wf(),
        s.state == ScreenState::DeckEditor,
        s.mode == EditMode::Browse,
        s.pending == Pending::Idle,
        s.deck.cards.len() == 1,
        s.edit_cursor == 0,
        key_step(s, m, Key::Char('d'), r1),
        io_step(m, t, true, r2),
    ensures
        r1 == ActionView::DeleteCard(s.deck.title, card_file_name(s.deck.cards[0].title)),
        t.deck.cards.len() == 0,
        t.edit_cursor == t.deck.cards.len(),
        t.edit_cursor == 0,
        t.state == ScreenState::DeckEditor,
{
}

} // verus!

verus! {

/// Ctrl-A in the section editor writes the typed text into the current
/// section, adds an empty section right after it, and clears the text; the
/// section cursor and the card cursor stay where they were, and the other
/// cards are untouched. On a card of one section the card ends with the
/// typed text followed by an empty section.
pub proof fn lemma_add_section_keeps_cursor(s: ScreenView, t: ScreenView, r: ActionView)
    requires
        s.wf(),
        s.state == ScreenState::DeckEditor,
        s.mode == EditMode::EditContent,
        s.pending == Pending::Idle,
        s.deck.current().wf(),
        key_step(s, t, Key::Ctrl('a'), r),
    ensures
        r == ActionView::Nothing,
        t.state == ScreenState::DeckEditor,
        t.mode == EditMode::EditContent,
        t.buffer.len() == 0,
        t.deck.current_card == s.deck.current_card,
        t.deck.cards.len() == s.deck.cards.len(),
        t.deck.current().current_section == s.deck.current().current_section,
        t.deck.current().sections == s.deck.current().with_text(s.buffer).sections.insert(
            s.deck.current().current_section + 1 as int,
            Seq::empty(),
        ),
        forall|i: int|
            0 <= i < s.deck.cards.len() && i != s.deck.current_card ==> #[trigger] t.deck.cards[i]
                == s.deck.cards[i],
        s.deck.current().sections.len() == 1 ==> t.deck.current().sections == seq![
            s.buffer,
            Seq::<char>::empty(),
        ] && t.deck.current().current_section == 0,
{
    let c = s.deck.current();
    if c.sections.len() == 1 {
        assert(c.with_text(s.buffer).sections =~= seq![s.buffer]);
        assert(seq![s.buffer].insert(1, Seq::<char>::empty()) =~= seq![
            s.buffer,
            Seq::<char>::empty(),
        ]);
    }
}

/// Naming a new deck after one already in the list is refused at once: the
/// failure is flagged, the list, the selection and the typed name stay, the
/// field stays open, and no directory is asked for.
pub proof fn lemma_existing_deck_name_refused(s: ScreenView, t: ScreenView, r: ActionView)
    requires
        s.wf(),
        s.state == ScreenState::LocalMenu,
        s.mode == EditMode::AddItem,
        s.pending == Pending::Idle,
        s.buffer.len() > 0,
        s.names.contains(s.buffer),
        key_step(s, t, Key::Enter, r),
    ensures
        r == ActionView::Nothing,
        t.failed,
        t.names == s.names,
        t.local_cursor == s.local_cursor,
        t.state == ScreenState::LocalMenu,
        t.mode == EditMode::AddItem,
        t.buffer == s.buffer,
        t.pending == Pending::Idle,
{
}

} // verus!
