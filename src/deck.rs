use vstd::prelude::*;

use crate::card::{card_file_name, Card, CardView};
use crate::text::{contains_str, find_text, occurs_in, texts};

verus! {

/// A named, ordered collection of cards with a cursor on the active card.
#[derive(Debug)]
pub struct Deck {
    deck_title: String,
    contents: Vec<Card>,
    cur_card: usize,
}

/// What a deck is, as mathematical values.
pub struct DeckView {
    pub title: Seq<char>,
    pub cards: Seq<CardView>,
    pub current_card: nat,
}

/// The views of a run of cards.
pub open spec fn views(v: Seq<Card>) -> Seq<CardView> {
    v.map_values(|c: Card| c@)
}

/// The views of a run of cards that may each be missing.
pub open spec fn option_views(v: Seq<Option<Card>>) -> Seq<Option<CardView>> {
    v.map_values(|o: Option<Card>| match o {
        Some(c) => Some(c@),
        None => None,
    })
}

/// The cards that are present, in order.
pub open spec fn kept(s: Seq<Option<CardView>>) -> Seq<CardView>
    decreases s.len(),
{
    if s.len() == 0 {
        Seq::empty()
    } else {
        let rest = kept(s.subrange(1, s.len() as int));
        match s[0] {
            Some(c) => seq![c] + rest,
            None => rest,
        }
    }
}

/// The names in a directory listing that are card files: those holding `.json`.
pub open spec fn card_files(names: Seq<Seq<char>>) -> Seq<Seq<char>>
    decreases names.len(),
{
    if names.len() == 0 {
        Seq::empty()
    } else {
        let rest = card_files(names.drop_last());
        if occurs_in(".json"@, names.last()) {
            rest.push(names.last())
        } else {
            rest
        }
    }
}

/// A card as it is saved: the cursor is not kept.
pub open spec fn stored(c: CardView) -> CardView {
    CardView { current_section: 0, ..c }
}

/// What identifies a card's content: its title and its sections.
pub open spec fn content(c: CardView) -> (Seq<char>, Seq<Seq<char>>) {
    (c.title, c.sections)
}

/// Where the card cursor goes when one of `len` cards is taken out: it
/// stays if it still points at a card, else it moves to the new last card,
/// or to the start of an empty deck.
pub open spec fn cursor_after_removal(cursor: nat, len: nat) -> nat {
    if cursor + 1 < len {
        cursor
    } else if len >= 2 {
        (len - 2) as nat
    } else {
        0
    }
}

impl DeckView {
    /// The card cursor stays below `max(1, number of cards)`.
    pub open spec fn wf(self) -> bool {
        self.current_card < if self.cards.len() == 0 {
            1
        } else {
            self.cards.len()
        }
    }

    pub open spec fn current(self) -> CardView {
        self.cards[self.current_card as int]
    }

    /// The deck with its current card replaced.
    pub open spec fn with_current(self, c: CardView) -> DeckView {
        DeckView { cards: self.cards.update(self.current_card as int, c), ..self }
    }

    pub open spec fn titles(self) -> Seq<Seq<char>> {
        self.cards.map_values(|c: CardView| c.title)
    }

    /// One step forward: the current card's next section; when the card has
    /// none left and `wrap` is set, the next card (its own cursor untouched);
    /// nothing past the last card, nothing on an empty deck.
    pub open spec fn advanced(self, wrap: bool) -> DeckView {
        if self.cards.len() == 0 {
            self
        } else if self.current().current_section + 1 < self.current().sections.len() {
            self.with_current(self.current().advanced())
        } else if wrap && self.current_card + 1 < self.cards.len() {
            DeckView { current_card: self.current_card + 1, ..self }
        } else {
            self
        }
    }

    /// One step back, the mirror of `advanced`.
    pub open spec fn retreated(self, wrap: bool) -> DeckView {
        if self.cards.len() == 0 {
            self
        } else if self.current().current_section > 0 {
            self.with_current(self.current().retreated())
        } else if wrap && self.current_card > 0 {
            DeckView { current_card: (self.current_card - 1) as nat, ..self }
        } else {
            self
        }
    }

    /// The text on show: the current card's section, or nothing in an empty deck.
    pub open spec fn shown(self) -> Seq<char> {
        if self.cards.len() == 0 {
            Seq::empty()
        } else {
            self.current().shown()
        }
    }
}

impl View for Deck {
    type V = DeckView;

    closed spec fn view(&self) -> DeckView {
        DeckView {
            title: self.deck_title@,
            cards: views(self.contents@),
            current_card: self.cur_card as nat,
        }
    }
}

impl Default for Deck {
    /// A deck with no title and no cards.
    fn default() -> (r: Deck)
        ensures
            r@ == (DeckView { title: Seq::empty(), cards: Seq::empty(), current_card: 0 }),
    {
        let r = Deck { deck_title: String::new(), contents: Vec::new(), cur_card: 0 };
        assert(r@.cards =~= Seq::empty());
        r
    }
}

impl Deck {
    #[verifier::type_invariant]
    spec fn inv(self) -> bool {
        self@.wf()
    }

    /// Takes the cards out, leaving the deck empty with its cursor on the start.
    fn take_cards(&mut self) -> (r: Vec<Card>)
        ensures
            views(r@) == old(self)@.cards,
            final(self)@ == (DeckView { cards: Seq::empty(), current_card: 0, ..old(self)@ }),
    {
        self.cur_card = 0;
        let mut taken: Vec<Card> = Vec::new();
        std::mem::swap(&mut self.contents, &mut taken);
        assert(views(self.contents@) =~= Seq::empty());
        taken
    }

    /// Puts cards into a deck emptied by `take_cards`.
    fn put_cards(&mut self, cards: Vec<Card>, cur_card: usize)
        requires
            old(self)@.cards.len() == 0,
            cur_card < if cards@.len() == 0 {
                1
            } else {
                cards@.len()
            },
        ensures
            final(self)@ == (DeckView {
                cards: views(cards@),
                current_card: cur_card as nat,
                ..old(self)@
            }),
    {
        self.cur_card = 0;
        let mut given: Vec<Card> = cards;
        std::mem::swap(&mut self.contents, &mut given);
        self.cur_card = cur_card;
    }

    /// A deck of the given cards, the first one active.
    pub fn new(title: &str, cards: Vec<Card>) -> (r: Deck)
        ensures
            r@ == (DeckView { title: title@, cards: views(cards@), current_card: 0 }),
    {
        Deck { deck_title: String::from_str(title), contents: cards, cur_card: 0 }
    }

    /// The deck read back from a directory named `title`: the cards that
    /// could be read, in the order given; the ones that could not are left out.
    pub fn from_loaded(title: String, loaded: Vec<Option<Card>>) -> (r: Deck)
        ensures
            r@ == (DeckView { title: title@, cards: kept(option_views(loaded@)), current_card: 0 }),
    {
        let mut rest: Vec<Option<Card>> = loaded;
        let mut cards: Vec<Card> = Vec::new();
        while rest.len() > 0
            invariant
                kept(option_views(loaded@)) == views(cards@) + kept(option_views(rest@)),
            decreases rest.len(),
        {
            let ghost before = option_views(rest@);
            let item = rest.remove(0);
            proof {
                assert(before.subrange(1, before.len() as int) =~= option_views(rest@));
            }
            match item {
                Some(c) => {
                    cards.push(c);
                },
                None => {},
            }
            assert(kept(option_views(loaded@)) =~= views(cards@) + kept(option_views(rest@)));
        }
        assert(views(cards@) + kept(option_views(rest@)) =~= views(cards@));
        Deck { deck_title: title, contents: cards, cur_card: 0 }
    }

    /// Advances the study position. The current card moves to its next
    /// section; a card with none left hands over to the next card when
    /// `wrap_into_next_card` is set. Nothing moves past the last card.
    pub fn increment_deck(&mut self, wrap_into_next_card: bool)
        ensures
            final(self)@ == old(self)@.advanced(wrap_into_next_card),
            final(self)@.wf(),
    {
        proof {
            use_type_invariant(&*self);
        }
        if self.contents.len() == 0 {
            return ;
        }
        let cur: usize = self.cur_card;
        let mut cards = self.take_cards();
        let moved = cards[cur].increment_section();
        let next: usize = if moved.is_none() && wrap_into_next_card && cur + 1 < cards.len() {
            cur + 1
        } else {
            cur
        };
        assert(views(cards@) =~= (if moved.is_some() {
            old(self)@.cards.update(cur as int, old(self)@.current().advanced())
        } else {
            old(self)@.cards
        }));
        self.put_cards(cards, next);
    }

    /// Steps the study position back, the mirror of `increment_deck`.
    pub fn decrement_deck(&mut self, wrap_into_next_card: bool)
        ensures
            final(self)@ == old(self)@.retreated(wrap_into_next_card),
            final(self)@.wf(),
    {
        proof {
            use_type_invariant(&*self);
        }
        if self.contents.len() == 0 {
            return ;
        }
        let cur: usize = self.cur_card;
        let mut cards = self.take_cards();
        let moved = cards[cur].decrement_section();
        let next: usize = if moved.is_none() && wrap_into_next_card && cur > 0 {
            cur - 1
        } else {
            cur
        };
        assert(views(cards@) =~= (if moved.is_some() {
            old(self)@.cards.update(cur as int, old(self)@.current().retreated())
        } else {
            old(self)@.cards
        }));
        self.put_cards(cards, next);
    }

    /// The number of cards.
    pub fn len(&self) -> (r: usize)
        ensures
            r == self@.cards.len(),
            self@.wf(),
    {
        proof {
            use_type_invariant(self);
        }
        self.contents.len()
    }

    pub fn deck_title(&self) -> (r: &String)
        ensures
            r@ == self@.title,
    {
        &self.deck_title
    }

    /// The position of the active card.
    pub fn cur_card(&self) -> (r: usize)
        ensures
            r == self@.current_card,
            self@.wf(),
    {
        proof {
            use_type_invariant(self);
        }
        self.cur_card
    }

    /// The titles of the cards, in order.
    pub fn get_card_names(&self) -> (r: Vec<String>)
        ensures
            texts(r@) == self@.titles(),
    {
        let mut names: Vec<String> = Vec::new();
        let mut i: usize = 0;
        while i < self.contents.len()
            invariant
                i <= self.contents@.len(),
                names@.len() == i,
                forall|j: int| 0 <= j < i ==> #[trigger] names@[j]@ == self.contents@[j]@.title,
            decreases self.contents@.len() - i,
        {
            names.push(self.contents[i].title().clone());
            i = i + 1;
        }
        assert(texts(names@) =~= self@.titles());
        names
    }

    /// Whether a card of the deck has this title.
    pub fn has_card_titled(&self, title: &String) -> (r: bool)
        ensures
            r == self@.titles().contains(title@),
    {
        let names = self.get_card_names();
        find_text(&names, title).is_some()
    }

    /// The cards in the form they are saved in (see `Card::stored`).
    pub fn stored_cards(&self) -> (r: Vec<Card>)
        ensures
            views(r@) == self@.cards.map_values(|c: CardView| stored(c)),
    {
        let mut out: Vec<Card> = Vec::new();
        let mut i: usize = 0;
        while i < self.contents.len()
            invariant
                i <= self.contents@.len(),
                out@.len() == i,
                forall|j: int| 0 <= j < i ==> #[trigger] out@[j]@ == stored(self.contents@[j]@),
            decreases self.contents@.len() - i,
        {
            out.push(self.contents[i].stored());
            i = i + 1;
        }
        assert(views(out@) =~= self@.cards.map_values(|c: CardView| stored(c)));
        out
    }

    /// The text on show: the current card's section, or an empty string.
    pub fn shown_text(&self) -> (r: String)
        ensures
            r@ == self@.shown(),
    {
        proof {
            use_type_invariant(self);
        }
        if self.contents.len() == 0 {
            String::new()
        } else {
            self.contents[self.cur_card].shown_text()
        }
    }

    /// The title of the active card, or an empty string in an empty deck.
    pub fn current_title(&self) -> (r: String)
        ensures
            self@.cards.len() == 0 ==> r@ == Seq::<char>::empty(),
            self@.cards.len() > 0 ==> r@ == self@.current().title,
    {
        proof {
            use_type_invariant(self);
        }
        if self.contents.len() == 0 {
            String::new()
        } else {
            self.contents[self.cur_card].title().clone()
        }
    }

    /// Study progress: the number of the active card counting from one
    /// (zero in an empty deck), and the number of cards.
    pub fn progress(&self) -> (r: (usize, usize))
        ensures
            r.1 == self@.cards.len(),
            r.0 == (if self@.cards.len() == 0 {
                0
            } else {
                self@.current_card + 1
            }),
    {
        proof {
            use_type_invariant(self);
        }
        if self.contents.len() == 0 {
            (0, 0)
        } else {
            (self.cur_card + 1, self.contents.len())
        }
    }

    /// The name of the file the card at `index` is saved to.
    pub fn saved_name_of(&self, index: usize) -> (r: String)
        requires
            index < self@.cards.len(),
        ensures
            r@ == card_file_name(self@.cards[index as int].title),
    {
        self.contents[index].saved_name()
    }

    /// The section position inside the active card (zero in an empty deck).
    pub fn current_section(&self) -> (r: usize)
        ensures
            r == (if self@.cards.len() == 0 {
                0
            } else {
                self@.current().current_section
            }),
    {
        proof {
            use_type_invariant(self);
        }
        if self.contents.len() == 0 {
            0
        } else {
            self.contents[self.cur_card].current_section()
        }
    }

    /// The number of sections of the active card.
    pub fn current_section_count(&self) -> (r: usize)
        requires
            self@.cards.len() > 0,
        ensures
            r == self@.current().sections.len(),
    {
        proof {
            use_type_invariant(self);
        }
        self.contents[self.cur_card].len()
    }

    /// Makes the card at `index` the active one.
    pub fn set_current_card(&mut self, index: usize)
        requires
            index < old(self)@.cards.len(),
        ensures
            final(self)@ == (DeckView { current_card: index as nat, ..old(self)@ }),
    {
        self.cur_card = index;
    }

    /// Adds a card at the end.
    pub fn push_card(&mut self, card: Card)
        ensures
            final(self)@ == (DeckView { cards: old(self)@.cards.push(card@), ..old(self)@ }),
    {
        proof {
            use_type_invariant(&*self);
        }
        let cur: usize = self.cur_card;
        let mut cards = self.take_cards();
        cards.push(card);
        assert(views(cards@) =~= old(self)@.cards.push(card@));
        self.put_cards(cards, cur);
    }

    /// Removes the card at `index`; the cursor follows `cursor_after_removal`.
    pub fn remove_card(&mut self, index: usize)
        requires
            index < old(self)@.cards.len(),
        ensures
            final(self)@ == (DeckView {
                cards: old(self)@.cards.remove(index as int),
                current_card: cursor_after_removal(
                    old(self)@.current_card,
                    old(self)@.cards.len(),
                ),
                ..old(self)@
            }),
    {
        proof {
            use_type_invariant(&*self);
        }
        let cur: usize = self.cur_card;
        let mut cards = self.take_cards();
        let n: usize = cards.len();
        cards.remove(index);
        assert(views(cards@) =~= old(self)@.cards.remove(index as int));
        let next: usize = if cur + 1 < n {
            cur
        } else if n >= 2 {
            n - 2
        } else {
            0
        };
        self.put_cards(cards, next);
    }

    /// Writes `text` into the active card's current section (see `Card::commit_text`).
    pub fn commit_text(&mut self, text: String)
        requires
            old(self)@.cards.len() > 0,
        ensures
            final(self)@ == old(self)@.with_current(old(self)@.current().with_text(text@)),
            final(self)@.current().sections.len() > 0,
    {
        proof {
            use_type_invariant(&*self);
        }
        let cur: usize = self.cur_card;
        let mut cards = self.take_cards();
        cards[cur].commit_text(text);
        assert(views(cards@) =~= old(self)@.with_current(old(self)@.current().with_text(text@)).cards);
        self.put_cards(cards, cur);
    }

    /// Gives the active card an empty section if it has none.
    pub fn ensure_section(&mut self)
        requires
            old(self)@.cards.len() > 0,
        ensures
            final(self)@ == old(self)@.with_current(old(self)@.current().padded()),
    {
        proof {
            use_type_invariant(&*self);
        }
        let cur: usize = self.cur_card;
        let mut cards = self.take_cards();
        cards[cur].ensure_section();
        assert(views(cards@) =~= old(self)@.with_current(old(self)@.current().padded()).cards);
        self.put_cards(cards, cur);
    }

    /// Inserts an empty section after the active card's current one; the
    /// card's cursor stays where it was.
    pub fn insert_section_after(&mut self)
        requires
            old(self)@.cards.len() > 0,
            old(self)@.current().sections.len() > 0,
        ensures
            final(self)@ == old(self)@.with_current(old(self)@.current().with_section_after()),
    {
        proof {
            use_type_invariant(&*self);
        }
        let cur: usize = self.cur_card;
        let mut cards = self.take_cards();
        cards[cur].insert_section_after();
        assert(views(cards@) =~= old(self)@.with_current(old(self)@.current().with_section_after()).cards);
        self.put_cards(cards, cur);
    }

    /// Removes the active card's current section (see `Card::delete_section`).
    pub fn delete_section(&mut self)
        requires
            old(self)@.cards.len() > 0,
        ensures
            final(self)@ == old(self)@.with_current(old(self)@.current().without_current()),
    {
        proof {
            use_type_invariant(&*self);
        }
        let cur: usize = self.cur_card;
        let mut cards = self.take_cards();
        cards[cur].delete_section();
        assert(views(cards@) =~= old(self)@.with_current(old(self)@.current().without_current()).cards);
        self.put_cards(cards, cur);
    }
}

/// Picks the card files out of the names a deck directory holds.
pub fn card_file_names(names: &Vec<String>) -> (r: Vec<String>)
    ensures
        texts(r@) == card_files(texts(names@)),
{
    let mut out: Vec<String> = Vec::new();
    let mut i: usize = 0;
    while i < names.len()
        invariant
            i <= names@.len(),
            texts(out@) == card_files(texts(names@.subrange(0, i as int))),
        decreases names@.len() - i,
    {
        let keep = contains_str(names[i].as_str(), ".json");
        proof {
            assert(texts(names@.subrange(0, i + 1)).drop_last() =~= texts(
                names@.subrange(0, i as int),
            ));
            assert(texts(names@.subrange(0, i + 1)).last() == names@[i as int]@);
        }
        if keep {
            out.push(names[i].clone());
        }
        i = i + 1;
        assert(texts(out@) =~= card_files(texts(names@.subrange(0, i as int))));
    }
    assert(names@.subrange(0, names@.len() as int) =~= names@);
    out
}

} // verus!

verus! {

/// The deck after `n` steps forward.
pub open spec fn advanced_times(d: DeckView, wrap: bool, n: nat) -> DeckView
    decreases n,
{
    if n == 0 {
        d
    } else {
        advanced_times(d, wrap, (n - 1) as nat).advanced(wrap)
    }
}

/// Stepping a deck forward or back, with or without moving between cards,
/// keeps its card cursor below `max(1, number of cards)`.
pub proof fn lemma_moves_keep_card_in_range(d: DeckView, wrap: bool)
    requires
        d.wf(),
    ensures
        d.advanced(wrap).wf(),
        d.retreated(wrap).wf(),
        d.advanced(wrap).cards.len() == d.cards.len(),
        d.retreated(wrap).cards.len() == d.cards.len(),
{
}

/// On a deck of one card with one section, stepping forward any number of
/// times changes nothing: both cursors stay at the start.
pub proof fn lemma_single_section_deck_stays(d: DeckView, n: nat)
    requires
        d.wf(),
        d.cards.len() == 1,
        d.cards[0].wf(),
        d.cards[0].sections.len() == 1,
    ensures
        advanced_times(d, true, n) == d,
        d.current_card == 0,
        d.cards[0].current_section == 0,
    decreases n,
{
    if n > 0 {
        lemma_single_section_deck_stays(d, (n - 1) as nat);
    }
}

/// A card is in the kept list exactly when it is present in the input.
pub proof fn lemma_kept_contains(s: Seq<Option<CardView>>, c: CardView)
    ensures
        kept(s).contains(c) <==> s.contains(Some(c)),
    decreases s.len(),
{
    if s.len() > 0 {
        let tail = s.subrange(1, s.len() as int);
        lemma_kept_contains(tail, c);
        if s.contains(Some(c)) && s[0] != Some(c) {
            let j = choose|j: int| 0 <= j < s.len() && s[j] == Some(c);
            assert(tail[j - 1] == Some(c));
        }
        if tail.contains(Some(c)) {
            let j = choose|j: int| 0 <= j < tail.len() && tail[j] == Some(c);
            assert(s[j + 1] == Some(c));
        }
        match s[0] {
            Some(h) => {
                let k = seq![h] + kept(tail);
                if kept(tail).contains(c) {
                    let j = choose|j: int| 0 <= j < kept(tail).len() && kept(tail)[j] == c;
                    assert(k[j + 1] == c);
                }
                if k.contains(c) && h != c {
                    let j = choose|j: int| 0 <= j < k.len() && k[j] == c;
                    assert(kept(tail)[j - 1] == c);
                }
                if h == c {
                    assert(k[0] == c);
                    assert(s[0] == Some(c));
                }
            },
            None => {},
        }
    }
}

/// Every saved card file name is one that loading picks up.
pub proof fn lemma_saved_names_are_card_files(titles: Seq<Seq<char>>)
    ensures
        card_files(titles.map_values(|t: Seq<char>| card_file_name(t))) == titles.map_values(
            |t: Seq<char>| card_file_name(t),
        ),
    decreases titles.len(),
{
    let names = titles.map_values(|t: Seq<char>| card_file_name(t));
    if titles.len() > 0 {
        lemma_saved_names_are_card_files(titles.drop_last());
        assert(names.drop_last() =~= titles.drop_last().map_values(
            |t: Seq<char>| card_file_name(t),
        ));
        let t = titles.last();
        let j = ".json"@;
        assert((t + j).subrange(t.len() as int, t.len() + j.len() as int) =~= j);
        assert(occurs_in(j, names.last()));
        assert(names.drop_last().push(names.last()) =~= names);
    }
}

/// Saving a deck and loading it back: every file written is read as a card
/// file, and when the cards read back are the saved ones (in whatever order
/// the directory lists them), the deck holds the same titles with the same
/// sections.
pub proof fn lemma_save_then_load(d: DeckView, loaded: Seq<Option<CardView>>)
    requires
        loaded.to_set() == d.cards.map_values(|c: CardView| Some(stored(c))).to_set(),
    ensures
        ({
            let names = d.titles().map_values(|t: Seq<char>| card_file_name(t));
            card_files(names) == names
        }),
        kept(loaded).map_values(|c: CardView| content(c)).to_set() == d.cards.map_values(
            |c: CardView| content(c),
        ).to_set(),
{
    lemma_saved_names_are_card_files(d.titles());
    let saved = d.cards.map_values(|c: CardView| Some(stored(c)));
    let got = kept(loaded).map_values(|c: CardView| content(c));
    let want = d.cards.map_values(|c: CardView| content(c));
    assert forall|p| got.to_set().contains(p) implies want.to_set().contains(p) by {
        let j = choose|j: int| 0 <= j < got.len() && got[j] == p;
        let c = kept(loaded)[j];
        lemma_kept_contains(loaded, c);
        assert(kept(loaded).contains(c));
        assert(loaded.to_set().contains(Some(c)));
        assert(saved.to_set().contains(Some(c)));
        let i = choose|i: int| 0 <= i < saved.len() && saved[i] == Some(c);
        assert(want[i] == p);
    }
    assert forall|p| want.to_set().contains(p) implies got.to_set().contains(p) by {
        let i = choose|i: int| 0 <= i < want.len() && want[i] == p;
        let c = stored(d.cards[i]);
        assert(saved[i] == Some(c));
        assert(saved.to_set().contains(Some(c)));
        assert(loaded.contains(Some(c)));
        lemma_kept_contains(loaded, c);
        let j = choose|j: int| 0 <= j < kept(loaded).len() && kept(loaded)[j] == c;
        assert(got[j] == p);
    }
    assert(got.to_set() =~= want.to_set());
}

} // verus!
