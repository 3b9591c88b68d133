use vstd::prelude::*;

use crate::text::{clone_texts, texts};

verus! {

/// A flashcard: a title and an ordered run of text sections, with a cursor
/// on the section being shown.
#[derive(Debug)]
pub struct Card {
    title: String,
    sections: Vec<String>,
    current_section: usize,
}

/// What a card is, as mathematical values.
pub struct CardView {
    pub title: Seq<char>,
    pub sections: Seq<Seq<char>>,
    pub current_section: nat,
}

impl CardView {
    /// The cursor stays below `max(1, number of sections)`.
    pub open spec fn wf(self) -> bool {
        self.current_section < if self.sections.len() == 0 {
            1
        } else {
            self.sections.len()
        }
    }

    /// The text on show: the current section, or nothing on a card without sections.
    pub open spec fn shown(self) -> Seq<char> {
        if self.sections.len() == 0 {
            Seq::empty()
        } else {
            self.sections[self.current_section as int]
        }
    }

    /// The card after a step forward: the next section if there is one,
    /// else unchanged.
    pub open spec fn advanced(self) -> CardView {
        if self.current_section + 1 < self.sections.len() {
            CardView { current_section: self.current_section + 1, ..self }
        } else {
            self
        }
    }

    /// The card after a step back: the previous section if there is one,
    /// else unchanged.
    pub open spec fn retreated(self) -> CardView {
        if self.current_section > 0 {
            CardView { current_section: (self.current_section - 1) as nat, ..self }
        } else {
            self
        }
    }

    /// The card with its current section replaced by `text`; on a card
    /// without sections `text` becomes the first.
    pub open spec fn with_text(self, text: Seq<char>) -> CardView {
        CardView {
            sections: if self.sections.len() == 0 {
                seq![text]
            } else {
                self.sections.update(self.current_section as int, text)
            },
            ..self
        }
    }

    /// The card given one empty section if it has none.
    pub open spec fn padded(self) -> CardView {
        if self.sections.len() == 0 {
            CardView { sections: seq![Seq::empty()], ..self }
        } else {
            self
        }
    }

    /// The card with an empty section inserted after the current one; the
    /// cursor stays on the current section.
    pub open spec fn with_section_after(self) -> CardView {
        CardView {
            sections: self.sections.insert(self.current_section + 1 as int, Seq::empty()),
            ..self
        }
    }

    /// The card without its current section, the cursor one step back (or
    /// still on the first); a card without sections stays as it is.
    pub open spec fn without_current(self) -> CardView {
        if self.sections.len() == 0 {
            self
        } else {
            CardView {
                sections: self.sections.remove(self.current_section as int),
                current_section: if self.current_section > 0 {
                    (self.current_section - 1) as nat
                } else {
                    0
                },
                ..self
            }
        }
    }
}

impl View for Card {
    type V = CardView;

    closed spec fn view(&self) -> CardView {
        CardView {
            title: self.title@,
            sections: texts(self.sections@),
            current_section: self.current_section as nat,
        }
    }
}

/// The name of the file that holds a card with this title.
pub open spec fn card_file_name(title: Seq<char>) -> Seq<char> {
    title + ".json"@
}

impl Card {
    #[verifier::type_invariant]
    spec fn inv(self) -> bool {
        self@.wf()
    }

    /// A new card with no sections.
    pub fn new(title: String) -> (r: Card)
        ensures
            r@ == (CardView { title: title@, sections: Seq::empty(), current_section: 0 }),
            r@.wf(),
    {
        let r = Card { title: title, sections: Vec::new(), current_section: 0 };
        assert(r@.sections =~= Seq::empty());
        r
    }

    /// A card rebuilt from stored parts. A stored cursor that does not point at
    /// a section is set back to the first one.
    pub fn from_parts(title: String, sections: Vec<String>, current_section: usize) -> (r: Card)
        ensures
            r@.title == title@,
            r@.sections == texts(sections@),
            r@.current_section == (if current_section < sections@.len() {
                current_section
            } else {
                0
            }),
            r@.wf(),
    {
        let cur: usize = if current_section < sections.len() {
            current_section
        } else {
            0
        };
        Card { title: title, sections: sections, current_section: cur }
    }

    /// A copy of the card in the form it is saved in: same title and sections,
    /// cursor on the first section.
    pub fn stored(&self) -> (r: Card)
        ensures
            r@ == (CardView { current_section: 0, ..self@ }),
            r@.wf(),
    {
        proof {
            use_type_invariant(self);
        }
        Card { title: self.title.clone(), sections: clone_texts(&self.sections), current_section: 0 }
    }

    /// The name of the file the card is saved to: its title with `.json` added.
    pub fn saved_name(&self) -> (r: String)
        ensures
            r@ == card_file_name(self@.title),
    {
        self.title.clone().concat(".json")
    }

    /// Moves to the next section. Returns the new position, or `None` when the
    /// card has no further section, in which case the cursor stays.
    pub fn increment_section(&mut self) -> (r: Option<usize>)
        ensures
            final(self)@ == old(self)@.advanced(),
            final(self)@.wf(),
            r == (if old(self)@.current_section + 1 < old(self)@.sections.len() {
                Some(final(self)@.current_section as usize)
            } else {
                None
            }),
    {
        proof {
            use_type_invariant(&*self);
        }
        if self.sections.len() > 0 && self.current_section < self.sections.len() - 1 {
            self.current_section = self.current_section + 1;
            Some(self.current_section)
        } else {
            None
        }
    }

    /// Moves to the previous section. Returns the new position, or `None` on
    /// the first section, in which case the cursor stays.
    pub fn decrement_section(&mut self) -> (r: Option<usize>)
        ensures
            final(self)@ == old(self)@.retreated(),
            final(self)@.wf(),
            r == (if old(self)@.current_section > 0 {
                Some(final(self)@.current_section as usize)
            } else {
                None
            }),
    {
        proof {
            use_type_invariant(&*self);
        }
        if self.current_section > 0 {
            self.current_section = self.current_section - 1;
            Some(self.current_section)
        } else {
            None
        }
    }

    /// The title.
    pub fn title(&self) -> (r: &String)
        ensures
            r@ == self@.title,
    {
        &self.title
    }

    /// The sections, in order.
    pub fn sections(&self) -> (r: &Vec<String>)
        ensures
            texts(r@) == self@.sections,
    {
        &self.sections
    }

    /// The position of the section on show.
    pub fn current_section(&self) -> (r: usize)
        ensures
            r == self@.current_section,
            self@.wf(),
    {
        proof {
            use_type_invariant(self);
        }
        self.current_section
    }

    /// The number of sections.
    pub fn len(&self) -> (r: usize)
        ensures
            r == self@.sections.len(),
            self@.wf(),
    {
        proof {
            use_type_invariant(self);
        }
        self.sections.len()
    }

    /// The text on show: the current section, or an empty string.
    pub fn shown_text(&self) -> (r: String)
        ensures
            r@ == self@.shown(),
    {
        proof {
            use_type_invariant(self);
        }
        if self.sections.len() == 0 {
            String::new()
        } else {
            self.sections[self.current_section].clone()
        }
    }

    /// Takes the sections out, leaving the card empty with its cursor on the start.
    fn take_sections(&mut self) -> (r: Vec<String>)
        ensures
            texts(r@) == old(self)@.sections,
            final(self)@ == (CardView {
                sections: Seq::empty(),
                current_section: 0,
                ..old(self)@
            }),
    {
        self.current_section = 0;
        let mut taken: Vec<String> = Vec::new();
        std::mem::swap(&mut self.sections, &mut taken);
        assert(texts(self.sections@) =~= Seq::empty());
        taken
    }

    /// Puts sections into a card emptied by `take_sections`.
    fn put_sections(&mut self, sections: Vec<String>, current_section: usize)
        requires
            old(self)@.sections.len() == 0,
            current_section < if sections@.len() == 0 {
                1
            } else {
                sections@.len()
            },
        ensures
            final(self)@ == (CardView {
                sections: texts(sections@),
                current_section: current_section as nat,
                ..old(self)@
            }),
    {
        self.current_section = 0;
        let mut given: Vec<String> = sections;
        std::mem::swap(&mut self.sections, &mut given);
        self.current_section = current_section;
    }

    /// Writes `text` into the current section; a card without sections gets
    /// it as its first section.
    pub fn commit_text(&mut self, text: String)
        ensures
            final(self)@.wf(),
            final(self)@ == old(self)@.with_text(text@),
    {
        proof {
            use_type_invariant(&*self);
        }
        let cur: usize = self.current_section;
        let mut secs = self.take_sections();
        if secs.len() == 0 {
            secs.push(text);
        } else {
            secs.set(cur, text);
        }
        assert(texts(secs@) =~= old(self)@.with_text(text@).sections);
        self.put_sections(secs, cur);
    }

    /// Gives a card without sections one empty section to write into.
    pub fn ensure_section(&mut self)
        ensures
            final(self)@.wf(),
            final(self)@ == old(self)@.padded(),
    {
        proof {
            use_type_invariant(&*self);
        }
        if self.sections.len() == 0 {
            let mut secs = self.take_sections();
            secs.push(String::new());
            self.put_sections(secs, 0);
        }
        assert(self@.sections =~= old(self)@.padded().sections);
    }

    /// Inserts an empty section right after the current one; the cursor stays
    /// where it was.
    pub fn insert_section_after(&mut self)
        requires
            old(self)@.sections.len() > 0,
        ensures
            final(self)@.wf(),
            final(self)@ == old(self)@.with_section_after(),
    {
        proof {
            use_type_invariant(&*self);
        }
        let n: usize = self.sections.len();
        assert(self.current_section < n);
        let cur: usize = self.current_section;
        let at: usize = cur + 1;
        let mut secs = self.take_sections();
        secs.insert(at, String::new());
        assert(texts(secs@) =~= old(self)@.sections.insert(at as int, Seq::empty()));
        self.put_sections(secs, cur);
    }

    /// Removes the current section and steps back one place (staying on the
    /// first). A card without sections is left as it is.
    pub fn delete_section(&mut self)
        ensures
            final(self)@.wf(),
            final(self)@ == old(self)@.without_current(),
    {
        proof {
            use_type_invariant(&*self);
        }
        if self.sections.len() > 0 {
            let cur: usize = self.current_section;
            let mut secs = self.take_sections();
            secs.remove(cur);
            assert(texts(secs@) =~= old(self)@.sections.remove(cur as int));
            let back: usize = if cur > 0 {
                cur - 1
            } else {
                0
            };
            self.put_sections(secs, back);
        }
    }
}

} // verus!

verus! {

/// Every move of a card keeps its cursor below `max(1, number of sections)`.
pub proof fn lemma_card_moves_keep_section_in_range(c: CardView, text: Seq<char>)
    requires
        c.wf(),
    ensures
        c.advanced().wf(),
        c.retreated().wf(),
        c.with_text(text).wf(),
        c.padded().wf(),
        c.without_current().wf(),
        c.sections.len() > 0 ==> c.with_section_after().wf(),
{
}

} // verus!
