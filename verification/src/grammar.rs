//! Grammar scoring through the nlprule checker.
//!
//! The checker's serialized models are decoded once at startup; during a run
//! the only call is `suggest`, whose suggestion count feeds the grammar
//! component of the fitness score. What the checker returns depends on the
//! loaded model, so nothing is assumed of it: the fitness functions take the
//! count as an argument and are verified for every value of it.

use vstd::prelude::*;
use vstd::string::StringExecFns;

use crate::chromosome::GeneType;

verus! {

/// Declares nlprule::Tokenizer, the checker's sentence segmenter; opaque
/// here, only carried between loading and the suggest call.
#[verifier::external_type_specification]
#[verifier::external_body]
pub struct ExTokenizer(nlprule::Tokenizer);

/// Declares nlprule::Rules, the checker's rule set; opaque here, only carried
/// between loading and the suggest call.
#[verifier::external_type_specification]
#[verifier::external_body]
pub struct ExRules(nlprule::Rules);

/// Declares nlprule::Error, the reason a model failed to decode; mapped to
/// `ModelError` right after the call.
#[verifier::external_type_specification]
#[verifier::external_body]
pub struct ExError(nlprule::Error);

/// A serialized grammar model could not be decoded.
#[derive(Debug)]
pub struct ModelError;

/// The tokenizer and the rule set of the grammar checker, decoded and ready.
pub struct GrammarChecker {
    pub tokenizer: nlprule::Tokenizer,
    pub rules: nlprule::Rules,
}

/// Relies on nlprule::Tokenizer::from_reader: decodes a serialized tokenizer
/// model from its bytes, or reports why it is not valid.
#[verifier::external_body]
fn tokenizer_from_reader(bytes: &Vec<u8>) -> Result<nlprule::Tokenizer, nlprule::Error> {
    nlprule::Tokenizer::from_reader(bytes.as_slice())
}

/// Relies on nlprule::Rules::from_reader: decodes a serialized rule-set model
/// from its bytes, or reports why it is not valid.
#[verifier::external_body]
fn rules_from_reader(bytes: &Vec<u8>) -> Result<nlprule::Rules, nlprule::Error> {
    nlprule::Rules::from_reader(bytes.as_slice())
}

/// Relies on nlprule::Rules::suggest: the suggestions the checker raises
/// against the text. Only their number is used, and it depends on the loaded
/// model, of which nothing is assumed.
#[verifier::external_body]
fn suggestion_count(
    rules: &nlprule::Rules,
    tokenizer: &nlprule::Tokenizer,
    text: &str,
) -> usize {
    rules.suggest(text, tokenizer).len()
}

impl GrammarChecker {
    /// Decodes both serialized models; a checker exists only for bytes that
    /// decode.
    pub fn load(tokenizer_bytes: &Vec<u8>, rules_bytes: &Vec<u8>) -> Result<
        GrammarChecker,
        ModelError,
    > {
        let tokenizer = match tokenizer_from_reader(tokenizer_bytes) {
            Ok(tokenizer) => tokenizer,
            Err(_) => {
                return Err(ModelError);
            },
        };
        let rules = match rules_from_reader(rules_bytes) {
            Ok(rules) => rules,
            Err(_) => {
                return Err(ModelError);
            },
        };
        Ok(GrammarChecker { tokenizer, rules })
    }

    /// How many suggestions the checker raises against the text.
    pub fn suggestions_for(&self, text: &str) -> usize {
        suggestion_count(&self.rules, &self.tokenizer, text)
    }
}

/// The words of the first `n` genes run together, in order.
pub open spec fn spec_concat_words(genes: Seq<GeneType>, n: int) -> Seq<char>
    decreases n,
{
    if n <= 0 {
        Seq::empty()
    } else {
        spec_concat_words(genes, n - 1) + genes[n - 1].word@
    }
}

/// Concatenates the gene words into the text handed to the grammar checker.
pub fn concat_words(genes: &Vec<GeneType>) -> (text: String)
    ensures
        text@ == spec_concat_words(genes@, genes@.len() as int),
{
    let mut text = String::new();
    let mut i: usize = 0;
    while i < genes.len()
        invariant
            0 <= i <= genes@.len(),
            text@ == spec_concat_words(genes@, i as int),
        decreases genes@.len() - i,
    {
        text.append(genes[i].word.as_str());
        i = i + 1;
    }
    text
}

} // verus!
