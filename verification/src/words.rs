//! Grammatical categories, lexical records, and the backing word collection.

use vstd::prelude::*;

verus! {

/// The grammatical category of a word: the tag of the closed sum of word
/// kinds that genes range over.
#[derive(Clone, Copy, Debug, PartialEq, Eq, Structural)]
pub enum WordType {
    Noun,
    Verb,
    Adverb,
    Adjective,
    Conjunction,
    Preposition,
    Determiner,
}

/// The sub-kind of an adjective.
#[derive(Clone, Copy, Debug, PartialEq, Eq, Structural)]
pub enum AdjectiveType {
    Interrogative,
    Distributive,
    Numeral,
    Proper,
    Descriptive,
    Possessive,
    Quantative,
    Demonstrative,
}

/// A noun record: a surface form, an optional plural form, and whether the
/// noun is proper.
pub struct Noun {
    pub singular: String,
    pub plural: Option<String>,
    pub proper: bool,
}

/// A verb record: one surface form per tense.
pub struct Verb {
    pub past: String,
    pub present: String,
    pub future: String,
}

/// An adjective record: a surface form and its sub-kind.
pub struct Adjective {
    pub word: String,
    pub adjective_type: AdjectiveType,
}

/// The word collection: one list of records per grammatical category, loaded
/// once before a run and read-only afterwards.
pub struct Lexicon {
    pub nouns: Vec<Noun>,
    pub verbs: Vec<Verb>,
    pub adverbs: Vec<String>,
    pub adjectives: Vec<Adjective>,
    pub prepositions: Vec<String>,
    pub determiners: Vec<String>,
    pub conjunctions: Vec<String>,
}

impl Lexicon {
    /// How many records the collection holds for a category.
    pub open spec fn spec_count_of(&self, word_type: WordType) -> int {
        match word_type {
            WordType::Noun => self.nouns@.len() as int,
            WordType::Verb => self.verbs@.len() as int,
            WordType::Adverb => self.adverbs@.len() as int,
            WordType::Adjective => self.adjectives@.len() as int,
            WordType::Preposition => self.prepositions@.len() as int,
            WordType::Determiner => self.determiners@.len() as int,
            WordType::Conjunction => self.conjunctions@.len() as int,
        }
    }

    /// How many records the collection holds for a category.
    pub fn count_of(&self, word_type: WordType) -> (n: usize)
        ensures
            n == self.spec_count_of(word_type),
    {
        match word_type {
            WordType::Noun => self.nouns.len(),
            WordType::Verb => self.verbs.len(),
            WordType::Adverb => self.adverbs.len(),
            WordType::Adjective => self.adjectives.len(),
            WordType::Preposition => self.prepositions.len(),
            WordType::Determiner => self.determiners.len(),
            WordType::Conjunction => self.conjunctions.len(),
        }
    }

    /// Whether the collection holds at least one record for a category.
    pub fn has_category(&self, word_type: WordType) -> (b: bool)
        ensures
            b == (self.spec_count_of(word_type) > 0),
    {
        self.count_of(word_type) > 0
    }

    /// Whether a surface form belongs to the collection under the given
    /// category: the form of one of that category's records.
    pub open spec fn spec_contains(&self, word_type: WordType, text: Seq<char>) -> bool {
        match word_type {
            WordType::Noun => exists|i: int|
                0 <= i < self.nouns@.len() && (self.nouns@[i].singular@ == text
                    || (self.nouns@[i].plural is Some && self.nouns@[i].plural->0@ == text)),
            WordType::Verb => exists|i: int|
                0 <= i < self.verbs@.len() && (self.verbs@[i].past@ == text
                    || self.verbs@[i].present@ == text || self.verbs@[i].future@ == text),
            WordType::Adverb => exists|i: int|
                0 <= i < self.adverbs@.len() && self.adverbs@[i]@ == text,
            WordType::Adjective => exists|i: int|
                0 <= i < self.adjectives@.len() && self.adjectives@[i].word@ == text,
            WordType::Preposition => exists|i: int|
                0 <= i < self.prepositions@.len() && self.prepositions@[i]@ == text,
            WordType::Determiner => exists|i: int|
                0 <= i < self.determiners@.len() && self.determiners@[i]@ == text,
            WordType::Conjunction => exists|i: int|
                0 <= i < self.conjunctions@.len() && self.conjunctions@[i]@ == text,
        }
    }
}

} // verus!
