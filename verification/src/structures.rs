//! Target category structures, one per supported sentence length.

use vstd::prelude::*;

use crate::words::WordType;

verus! {

/// The target structure for a given word count: the category expected at each
/// gene position. Lengths from three through seven have a structure of their
/// own; any other length falls back to the eight-word structure.
pub open spec fn spec_structure_for(word_count: int) -> Seq<WordType> {
    if word_count == 3 {
        seq![WordType::Noun, WordType::Verb, WordType::Noun]
    } else if word_count == 4 {
        seq![WordType::Adjective, WordType::Noun, WordType::Verb, WordType::Noun]
    } else if word_count == 5 {
        seq![
            WordType::Adjective,
            WordType::Noun,
            WordType::Adverb,
            WordType::Verb,
            WordType::Noun,
        ]
    } else if word_count == 6 {
        seq![
            WordType::Adjective,
            WordType::Noun,
            WordType::Adverb,
            WordType::Verb,
            WordType::Adjective,
            WordType::Noun,
        ]
    } else if word_count == 7 {
        seq![
            WordType::Determiner,
            WordType::Noun,
            WordType::Adverb,
            WordType::Verb,
            WordType::Determiner,
            WordType::Noun,
            WordType::Preposition,
        ]
    } else {
        seq![
            WordType::Noun,
            WordType::Verb,
            WordType::Conjunction,
            WordType::Determiner,
            WordType::Adjective,
            WordType::Noun,
            WordType::Verb,
            WordType::Adverb,
        ]
    }
}

/// Builds the target structure for a word count.
pub fn structure_for_word_count(word_count: usize) -> (structure: Vec<WordType>)
    ensures
        structure@ == spec_structure_for(word_count as int),
{
    let structure: Vec<WordType> = if word_count == 3 {
        vec![WordType::Noun, WordType::Verb, WordType::Noun]
    } else if word_count == 4 {
        vec![WordType::Adjective, WordType::Noun, WordType::Verb, WordType::Noun]
    } else if word_count == 5 {
        vec![
            WordType::Adjective,
            WordType::Noun,
            WordType::Adverb,
            WordType::Verb,
            WordType::Noun,
        ]
    } else if word_count == 6 {
        vec![
            WordType::Adjective,
            WordType::Noun,
            WordType::Adverb,
            WordType::Verb,
            WordType::Adjective,
            WordType::Noun,
        ]
    } else if word_count == 7 {
        vec![
            WordType::Determiner,
            WordType::Noun,
            WordType::Adverb,
            WordType::Verb,
            WordType::Determiner,
            WordType::Noun,
            WordType::Preposition,
        ]
    } else {
        vec![
            WordType::Noun,
            WordType::Verb,
            WordType::Conjunction,
            WordType::Determiner,
            WordType::Adjective,
            WordType::Noun,
            WordType::Verb,
            WordType::Adverb,
        ]
    };
    proof {
        assert(structure@ =~= spec_structure_for(word_count as int));
    }
    structure
}

} // verus!
