//! Per-category probability weights, read from the run configuration.
//!
//! Weights are fixed-point values in parts per million: `SCALE` stands for a
//! probability of 1.0. A table is accepted when the floor of its total weight,
//! taken in whole units, is at most one — that is, when the total is below
//! 2.0. This floor-based rule deliberately admits totals above 1.0;
//! `add_up_strict` offers the tighter rule that the total is at most 1.0, for
//! callers that want it.

use vstd::prelude::*;

use crate::SCALE;

verus! {

/// A table of per-category weights that can validate itself.
pub trait Rates: Sized {
    /// The total weight of the table, as a mathematical integer.
    spec fn spec_total(&self) -> int;

    /// The total weight of the table.
    fn total(&self) -> (t: u64)
        ensures
            t == self.spec_total(),
    ;

    /// The floor-based acceptance rule: the whole-unit part of the total is at
    /// most one, so any total below 2.0 is accepted.
    fn add_up(&self) -> (b: bool)
        ensures
            b == (self.spec_total() < 2 * SCALE),
    ;

    /// The tighter acceptance rule: the total weight is at most 1.0.
    fn add_up_strict(&self) -> (b: bool)
        ensures
            b == (self.spec_total() <= SCALE),
    ;
}

/// Weights for drawing the grammatical category of a fresh word.
pub struct WordTypeRates {
    pub noun: u32,
    pub verb: u32,
    pub adverb: u32,
    pub adjective: u32,
    pub preposition: u32,
    pub determiner: u32,
    pub conjunction: u32,
}

impl Rates for WordTypeRates {
    open spec fn spec_total(&self) -> int {
        self.noun + self.verb + self.adverb + self.adjective + self.preposition
            + self.determiner + self.conjunction
    }

    fn total(&self) -> (t: u64) {
        self.noun as u64 + self.verb as u64 + self.adverb as u64 + self.adjective as u64
            + self.preposition as u64 + self.determiner as u64 + self.conjunction as u64
    }

    fn add_up(&self) -> (b: bool) {
        self.total() < 2 * SCALE
    }

    fn add_up_strict(&self) -> (b: bool) {
        self.total() <= SCALE
    }
}

/// Weights over the sub-kinds of nouns.
pub struct NounTypeRates {
    pub common: u32,
    pub proper: u32,
    pub concrete: u32,
    pub abstractness: u32,
    pub countable: u32,
    pub uncountable: u32,
    pub collective: u32,
}

impl Rates for NounTypeRates {
    open spec fn spec_total(&self) -> int {
        self.common + self.proper + self.concrete + self.abstractness + self.countable
            + self.uncountable + self.collective
    }

    fn total(&self) -> (t: u64) {
        self.common as u64 + self.proper as u64 + self.concrete as u64 + self.abstractness as u64
            + self.countable as u64 + self.uncountable as u64 + self.collective as u64
    }

    fn add_up(&self) -> (b: bool) {
        self.total() < 2 * SCALE
    }

    fn add_up_strict(&self) -> (b: bool) {
        self.total() <= SCALE
    }
}

/// Weights over the sub-kinds of adjectives.
pub struct AdjectiveTypeRates {
    pub interrogative: u32,
    pub distributive: u32,
    pub numeral: u32,
    pub proper: u32,
    pub descriptive: u32,
    pub possessive: u32,
    pub quantitative: u32,
    pub demonstrative: u32,
}

impl Rates for AdjectiveTypeRates {
    open spec fn spec_total(&self) -> int {
        self.interrogative + self.distributive + self.numeral + self.proper + self.descriptive
            + self.possessive + self.quantitative + self.demonstrative
    }

    fn total(&self) -> (t: u64) {
        self.interrogative as u64 + self.distributive as u64 + self.numeral as u64
            + self.proper as u64 + self.descriptive as u64 + self.possessive as u64
            + self.quantitative as u64 + self.demonstrative as u64
    }

    fn add_up(&self) -> (b: bool) {
        self.total() < 2 * SCALE
    }

    fn add_up_strict(&self) -> (b: bool) {
        self.total() <= SCALE
    }
}

/// Weights over the sub-kinds of verbs.
pub struct VerbTypeRates {
    pub action: u32,
    pub transitive: u32,
    pub intransitive: u32,
    pub auxiliary: u32,
    pub linking: u32,
    pub modal: u32,
    pub regular: u32,
    pub irregular: u32,
}

impl Rates for VerbTypeRates {
    open spec fn spec_total(&self) -> int {
        self.action + self.transitive + self.intransitive + self.auxiliary + self.linking
            + self.modal + self.regular + self.irregular
    }

    fn total(&self) -> (t: u64) {
        self.action as u64 + self.transitive as u64 + self.intransitive as u64
            + self.auxiliary as u64 + self.linking as u64 + self.modal as u64
            + self.regular as u64 + self.irregular as u64
    }

    fn add_up(&self) -> (b: bool) {
        self.total() < 2 * SCALE
    }

    fn add_up_strict(&self) -> (b: bool) {
        self.total() <= SCALE
    }
}

/// Weights over the sub-kinds of adverbs.
pub struct AdverbTypeRates {
    pub time: u32,
    pub frequency: u32,
    pub place: u32,
    pub degree: u32,
    pub manner: u32,
    pub conjunctive: u32,
}

impl Rates for AdverbTypeRates {
    open spec fn spec_total(&self) -> int {
        self.time + self.frequency + self.place + self.degree + self.manner + self.conjunctive
    }

    fn total(&self) -> (t: u64) {
        self.time as u64 + self.frequency as u64 + self.place as u64 + self.degree as u64
            + self.manner as u64 + self.conjunctive as u64
    }

    fn add_up(&self) -> (b: bool) {
        self.total() < 2 * SCALE
    }

    fn add_up_strict(&self) -> (b: bool) {
        self.total() <= SCALE
    }
}

/// Weights over the sub-kinds of prepositions.
pub struct PrepositionTypeRates {
    pub place: u32,
    pub time: u32,
    pub movement: u32,
    pub purpose: u32,
}

impl Rates for PrepositionTypeRates {
    open spec fn spec_total(&self) -> int {
        self.place + self.time + self.movement + self.purpose
    }

    fn total(&self) -> (t: u64) {
        self.place as u64 + self.time as u64 + self.movement as u64 + self.purpose as u64
    }

    fn add_up(&self) -> (b: bool) {
        self.total() < 2 * SCALE
    }

    fn add_up_strict(&self) -> (b: bool) {
        self.total() <= SCALE
    }
}

/// Weights over the sub-kinds of determiners.
pub struct DeterminerTypeRates {
    pub article: u32,
    pub demonstrative: u32,
    pub distributive: u32,
    pub interrogative: u32,
    pub possessive: u32,
    pub quantifier: u32,
    pub relative: u32,
    pub negative: u32,
}

impl Rates for DeterminerTypeRates {
    open spec fn spec_total(&self) -> int {
        self.interrogative + self.demonstrative + self.distributive + self.relative
            + self.possessive + self.article + self.quantifier + self.negative
    }

    fn total(&self) -> (t: u64) {
        self.interrogative as u64 + self.demonstrative as u64 + self.distributive as u64
            + self.relative as u64 + self.possessive as u64 + self.article as u64
            + self.quantifier as u64 + self.negative as u64
    }

    fn add_up(&self) -> (b: bool) {
        self.total() < 2 * SCALE
    }

    fn add_up_strict(&self) -> (b: bool) {
        self.total() <= SCALE
    }
}

/// Weights over the sub-kinds of conjunctions.
pub struct ConjunctionTypeRates {
    pub coordinating: u32,
    pub subordinating: u32,
    pub correlative: u32,
}

impl Rates for ConjunctionTypeRates {
    open spec fn spec_total(&self) -> int {
        self.subordinating + self.coordinating + self.correlative
    }

    fn total(&self) -> (t: u64) {
        self.subordinating as u64 + self.coordinating as u64 + self.correlative as u64
    }

    fn add_up(&self) -> (b: bool) {
        self.total() < 2 * SCALE
    }

    fn add_up_strict(&self) -> (b: bool) {
        self.total() <= SCALE
    }
}

} // verus!
