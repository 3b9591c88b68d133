//! Flashcard decks, and the keyboard-driven session that studies and edits
//! them: cards with a section cursor, decks with a card cursor, and the
//! navigation state machine that turns key presses into state changes and
//! requests for outside work (reading, writing, renaming and removing decks
//! and cards).

pub mod card;
pub mod cursor;
pub mod deck;
pub mod screen;
pub mod text;
