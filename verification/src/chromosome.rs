//! The sentence-generation domain: a gene is one word tagged with its
//! grammatical category, an individual is an ordered word sequence scored by
//! how well its category sequence conforms to a target structure.

use vstd::prelude::*;

use crate::SCALE;
use crate::grammar::{concat_words, GrammarChecker};
use crate::individual::Individual;
use crate::rng::RandomSource;
use crate::sampler::{all_listed_backed, covers_all_draws, draw};
use crate::words::{AdjectiveType, Lexicon, WordType};

verus! {

/// The read-only data of one sentence-generation run: the word collection,
/// the sampler's threshold table, the target category structure, the scoring
/// parameters, and — when grammar scoring is on — the decoded grammar
/// checker. Weights are fixed-point values in parts per million.
pub struct SentenceContext {
    pub lexicon: Lexicon,
    pub thresholds: Vec<(u64, WordType)>,
    pub structure: Vec<WordType>,
    pub word_count: usize,
    pub mutation_probability: u64,
    pub structure_weight: u32,
    pub grammar_weight: u32,
    pub use_structure_fitness: bool,
    pub use_grammar_fitness: bool,
    pub checker: Option<GrammarChecker>,
}

impl SentenceContext {
    /// Every draw of the sampler is guaranteed to yield a word: the threshold
    /// table catches every draw and each listed category has a backing
    /// record. Callers must establish this by configuration validation;
    /// without it a draw may exhaust its retries.
    pub open spec fn spec_draw_ready(&self) -> bool {
        covers_all_draws(self.thresholds@) && all_listed_backed(self.thresholds@, &self.lexicon)
    }
}

/// One gene: a word's surface form tagged with its grammatical category.
pub struct GeneType {
    pub word: String,
    pub word_type: WordType,
}

impl Clone for GeneType {
    fn clone(&self) -> (res: Self)
        ensures
            res == *self,
    {
        GeneType { word: self.word.clone(), word_type: self.word_type }
    }
}

/// The gene's surface form belongs to the context's word collection under the
/// gene's own category tag.
pub open spec fn spec_gene_ok(ctx: &SentenceContext, gene: GeneType) -> bool {
    ctx.lexicon.spec_contains(gene.word_type, gene.word@)
}

/// A uniformly random entry of a word list.
fn pick_string(list: &Vec<String>, rng: &mut RandomSource) -> (text: String)
    requires
        list@.len() > 0,
    ensures
        exists|i: int| 0 <= i < list@.len() && list@[i]@ == text@,
{
    let index = rng.next_below(list.len() as u64) as usize;
    list[index].clone()
}

/// A noun drawn uniformly, then given a sub-attribute by a second draw: its
/// plural form when one exists and the draw asks for it, its singular form
/// otherwise.
fn pick_noun(lexicon: &Lexicon, rng: &mut RandomSource) -> (gene: GeneType)
    requires
        lexicon.nouns@.len() > 0,
    ensures
        gene.word_type == WordType::Noun,
        lexicon.spec_contains(WordType::Noun, gene.word@),
{
    let index = rng.next_below(lexicon.nouns.len() as u64) as usize;
    let noun = &lexicon.nouns[index];
    let plural_draw = rng.next_below(2);
    let text: String = if plural_draw == 1 {
        match &noun.plural {
            Some(plural) => plural.clone(),
            None => noun.singular.clone(),
        }
    } else {
        noun.singular.clone()
    };
    GeneType { word: text, word_type: WordType::Noun }
}

/// A verb drawn uniformly, its tense picked by a second, independent draw.
fn pick_verb(lexicon: &Lexicon, rng: &mut RandomSource) -> (gene: GeneType)
    requires
        lexicon.verbs@.len() > 0,
    ensures
        gene.word_type == WordType::Verb,
        lexicon.spec_contains(WordType::Verb, gene.word@),
{
    let index = rng.next_below(lexicon.verbs.len() as u64) as usize;
    let verb = &lexicon.verbs[index];
    let tense = rng.next_below(3);
    let text: String = if tense == 0 {
        verb.past.clone()
    } else if tense == 1 {
        verb.present.clone()
    } else {
        verb.future.clone()
    };
    GeneType { word: text, word_type: WordType::Verb }
}

/// The adjective sub-kind selected by a uniform draw over all eight kinds.
fn adjective_type_of_draw(value: u64) -> (t: AdjectiveType)
    requires
        value < 8,
{
    match value {
        0 => AdjectiveType::Interrogative,
        1 => AdjectiveType::Distributive,
        2 => AdjectiveType::Numeral,
        3 => AdjectiveType::Proper,
        4 => AdjectiveType::Descriptive,
        5 => AdjectiveType::Possessive,
        6 => AdjectiveType::Quantative,
        _ => AdjectiveType::Demonstrative,
    }
}

/// An adjective picked by its sub-kind: a second draw chooses a target
/// sub-kind, the first record of that sub-kind is taken, and when no record
/// matches, a uniformly random adjective of the category stands in.
fn pick_adjective(lexicon: &Lexicon, rng: &mut RandomSource) -> (gene: GeneType)
    requires
        lexicon.adjectives@.len() > 0,
    ensures
        gene.word_type == WordType::Adjective,
        lexicon.spec_contains(WordType::Adjective, gene.word@),
{
    let target = adjective_type_of_draw(rng.next_below(8));
    let mut i: usize = 0;
    while i < lexicon.adjectives.len()
        invariant
            0 <= i <= lexicon.adjectives@.len(),
        decreases lexicon.adjectives@.len() - i,
    {
        if lexicon.adjectives[i].adjective_type == target {
            return GeneType {
                word: lexicon.adjectives[i].word.clone(),
                word_type: WordType::Adjective,
            };
        }
        i = i + 1;
    }
    let index = rng.next_below(lexicon.adjectives.len() as u64) as usize;
    GeneType { word: lexicon.adjectives[index].word.clone(), word_type: WordType::Adjective }
}

/// Draws a category from the sampler and then a concrete word of that
/// category, with the per-category nested sub-draws. `None` when the sampler
/// exhausted its retries; with a draw-ready context the selection always
/// succeeds.
pub fn select_word(ctx: &SentenceContext, rng: &mut RandomSource) -> (selected: Option<GeneType>)
    ensures
        match selected {
            Some(gene) => spec_gene_ok(ctx, gene),
            None => true,
        },
        ctx.spec_draw_ready() ==> selected is Some,
{
    match draw(&ctx.thresholds, &ctx.lexicon, rng) {
        Some(word_type) => {
            let gene = match word_type {
                WordType::Noun => pick_noun(&ctx.lexicon, rng),
                WordType::Verb => pick_verb(&ctx.lexicon, rng),
                WordType::Adverb => GeneType {
                    word: pick_string(&ctx.lexicon.adverbs, rng),
                    word_type: WordType::Adverb,
                },
                WordType::Adjective => pick_adjective(&ctx.lexicon, rng),
                WordType::Preposition => GeneType {
                    word: pick_string(&ctx.lexicon.prepositions, rng),
                    word_type: WordType::Preposition,
                },
                WordType::Determiner => GeneType {
                    word: pick_string(&ctx.lexicon.determiners, rng),
                    word_type: WordType::Determiner,
                },
                WordType::Conjunction => GeneType {
                    word: pick_string(&ctx.lexicon.conjunctions, rng),
                    word_type: WordType::Conjunction,
                },
            };
            Some(gene)
        },
        None => None,
    }
}

impl GeneType {
    /// A fresh gene, drawn from the sampler's distribution. With a context
    /// that is not draw-ready the sampler can miss; the gene then falls back
    /// to an empty noun form, which a draw-ready context never produces.
    pub fn generate(ctx: &SentenceContext, rng: &mut RandomSource) -> (gene: GeneType)
        ensures
            ctx.spec_draw_ready() ==> spec_gene_ok(ctx, gene),
    {
        match select_word(ctx, rng) {
            Some(gene) => gene,
            None => GeneType { word: String::new(), word_type: WordType::Noun },
        }
    }

    /// With the context's mutation probability, replaces the gene's content
    /// by a freshly generated value, exactly as `generate` draws it; no-op
    /// otherwise. A zero probability never changes the gene; a probability of
    /// one replaces it on every call.
    pub fn mutate(&mut self, ctx: &SentenceContext, rng: &mut RandomSource)
        ensures
            ctx.mutation_probability == 0 ==> *final(self) == *old(self),
            *final(self) == *old(self) || (ctx.spec_draw_ready() ==> spec_gene_ok(
                ctx,
                *final(self),
            )),
            ctx.mutation_probability >= SCALE && ctx.spec_draw_ready() ==> spec_gene_ok(
                ctx,
                *final(self),
            ),
    {
        let u = rng.next_below(SCALE);
        if u < ctx.mutation_probability {
            *self = GeneType::generate(ctx, rng);
        }
    }
}

/// How many positions of the gene sequence, among the first `n`, disagree
/// with the target structure's category.
pub open spec fn spec_structure_errors(
    structure: Seq<WordType>,
    genes: Seq<GeneType>,
    n: int,
) -> int
    decreases n,
{
    if n <= 0 {
        0
    } else {
        spec_structure_errors(structure, genes, n - 1) + if genes[n - 1].word_type != structure[n
            - 1] {
            1int
        } else {
            0int
        }
    }
}

/// The structural error count: positions where the gene's category disagrees
/// with the target structure, compared up to the shorter of the two.
pub open spec fn spec_structure_error_count(
    structure: Seq<WordType>,
    genes: Seq<GeneType>,
) -> int {
    let n = if structure.len() <= genes.len() {
        structure.len() as int
    } else {
        genes.len() as int
    };
    spec_structure_errors(structure, genes, n)
}

proof fn lemma_structure_errors_bound(structure: Seq<WordType>, genes: Seq<GeneType>, n: int)
    requires
        n >= 0,
    ensures
        0 <= spec_structure_errors(structure, genes, n) <= n,
    decreases n,
{
    if n > 0 {
        lemma_structure_errors_bound(structure, genes, n - 1);
    }
}

/// Counts the positions where the gene's category disagrees with the target
/// structure, up to the shorter of the two sequences.
pub fn structure_error_count(structure: &Vec<WordType>, genes: &Vec<GeneType>) -> (errors: usize)
    ensures
        errors == spec_structure_error_count(structure@, genes@),
{
    let n: usize = if structure.len() <= genes.len() {
        structure.len()
    } else {
        genes.len()
    };
    let mut errors: usize = 0;
    let mut i: usize = 0;
    while i < n
        invariant
            0 <= i <= n,
            n <= structure@.len(),
            n <= genes@.len(),
            errors == spec_structure_errors(structure@, genes@, i as int),
            errors <= i,
        decreases n - i,
    {
        if genes[i].word_type != structure[i] {
            errors = errors + 1;
        }
        i = i + 1;
    }
    errors
}

/// The fitness of a gene sequence under the context's scoring parameters:
/// two weighted components, each a weight divided by one more than its error
/// count, summed. The structural component counts the positions whose
/// category disagrees with the target structure (zero when structural scoring
/// is off); the grammar component takes the grammar checker's suggestion
/// count as given. Each component is bounded by its weight, decreases as its
/// errors grow, and never divides by zero; an error count at the integer
/// limit keeps its divisor at that limit.
pub open spec fn spec_sentence_fitness(
    ctx: &SentenceContext,
    genes: Seq<GeneType>,
    grammar_errors: u64,
) -> int {
    let structure_errors = if ctx.use_structure_fitness {
        spec_structure_error_count(ctx.structure@, genes)
    } else {
        0
    };
    let structure_denominator = if structure_errors + 1 <= u64::MAX {
        structure_errors + 1
    } else {
        u64::MAX as int
    };
    let grammar_denominator = if grammar_errors < u64::MAX {
        grammar_errors as int + 1
    } else {
        u64::MAX as int
    };
    ctx.structure_weight as int / structure_denominator + ctx.grammar_weight as int
        / grammar_denominator
}

/// Computes the fitness score of a gene sequence, given the grammar checker's
/// suggestion count for the assembled text (zero when grammar scoring is
/// off).
pub fn sentence_fitness(ctx: &SentenceContext, genes: &Vec<GeneType>, grammar_errors: u64) -> (score:
    u64)
    ensures
        score == spec_sentence_fitness(ctx, genes@, grammar_errors),
{
    let errors: usize = if ctx.use_structure_fitness {
        structure_error_count(&ctx.structure, genes)
    } else {
        0
    };
    proof {
        if ctx.use_structure_fitness {
            let n = if ctx.structure@.len() <= genes@.len() {
                ctx.structure@.len() as int
            } else {
                genes@.len() as int
            };
            lemma_structure_errors_bound(ctx.structure@, genes@, n);
        }
    }
    let wide: u64 = errors as u64;
    let structure_denominator: u64 = if wide < u64::MAX {
        wide + 1
    } else {
        u64::MAX
    };
    let grammar_denominator: u64 = if grammar_errors < u64::MAX {
        grammar_errors + 1
    } else {
        u64::MAX
    };
    ctx.structure_weight as u64 / structure_denominator + ctx.grammar_weight as u64
        / grammar_denominator
}

/// Splices two gene sequences: the first `split1` genes of `a` followed by
/// the genes of `b` from `split2` on.
fn splice(a: &Vec<GeneType>, b: &Vec<GeneType>, split1: usize, split2: usize) -> (spliced: Vec<
    GeneType,
>)
    requires
        split1 <= a@.len(),
        split2 <= b@.len(),
    ensures
        spliced@ == a@.take(split1 as int) + b@.skip(split2 as int),
{
    let mut spliced: Vec<GeneType> = Vec::new();
    let mut i: usize = 0;
    while i < split1
        invariant
            0 <= i <= split1,
            split1 <= a@.len(),
            spliced@.len() == i,
            forall|k: int| 0 <= k < i ==> spliced@[k] == a@[k],
        decreases split1 - i,
    {
        spliced.push(a[i].clone());
        i = i + 1;
    }
    let mut j: usize = split2;
    while j < b.len()
        invariant
            split2 <= j <= b@.len(),
            split1 <= a@.len(),
            spliced@.len() == split1 + (j - split2),
            forall|k: int| 0 <= k < split1 ==> spliced@[k] == a@[k],
            forall|k: int|
                split1 <= k < spliced@.len() ==> spliced@[k] == b@[split2 + (k - split1)],
        decreases b@.len() - j,
    {
        spliced.push(b[j].clone());
        j = j + 1;
    }
    proof {
        assert(spliced@ =~= a@.take(split1 as int) + b@.skip(split2 as int));
    }
    spliced
}

/// One candidate sentence: an ordered word-gene sequence with a cached
/// fitness score.
pub struct Chromosome {
    pub genes: Vec<GeneType>,
    pub fitness: Option<u64>,
}

impl Individual for Chromosome {
    type GeneType = GeneType;

    type Context = SentenceContext;

    open spec fn spec_genes(&self) -> Seq<GeneType> {
        self.genes@
    }

    open spec fn spec_fitness(&self) -> Option<u64> {
        self.fitness
    }

    open spec fn spec_gene_count(ctx: &SentenceContext) -> int {
        ctx.word_count as int
    }

    open spec fn spec_mutation_rate(ctx: &SentenceContext) -> u64 {
        ctx.mutation_probability
    }

    fn new(ctx: &SentenceContext, rng: &mut RandomSource) -> (individual: Self)
        ensures
            ctx.spec_draw_ready() ==> forall|i: int|
                0 <= i < individual.spec_genes().len() ==> spec_gene_ok(
                    ctx,
                    #[trigger] individual.spec_genes()[i],
                ),
    {
        let mut genes: Vec<GeneType> = Vec::new();
        let mut i: usize = 0;
        while i < ctx.word_count
            invariant
                0 <= i <= ctx.word_count,
                genes@.len() == i,
                ctx.spec_draw_ready() ==> forall|k: int|
                    0 <= k < i ==> spec_gene_ok(ctx, #[trigger] genes@[k]),
            decreases ctx.word_count - i,
        {
            genes.push(GeneType::generate(ctx, rng));
            i = i + 1;
        }
        Chromosome { genes, fitness: None }
    }

    fn mutate_genes(&mut self, ctx: &SentenceContext, rng: &mut RandomSource)
        ensures
            ctx.mutation_probability >= SCALE && ctx.spec_draw_ready() ==> forall|i: int|
                0 <= i < final(self).spec_genes().len() ==> spec_gene_ok(
                    ctx,
                    #[trigger] final(self).spec_genes()[i],
                ),
    {
        let mut new_genes: Vec<GeneType> = Vec::new();
        let mut i: usize = 0;
        let n = self.genes.len();
        while i < n
            invariant
                0 <= i <= n,
                *self == *old(self),
                n == self.genes@.len(),
                new_genes@.len() == i,
                ctx.mutation_probability == 0 ==> forall|k: int|
                    0 <= k < i ==> new_genes@[k] == self.genes@[k],
                ctx.mutation_probability >= SCALE && ctx.spec_draw_ready() ==> forall|k: int|
                    0 <= k < i ==> spec_gene_ok(ctx, #[trigger] new_genes@[k]),
            decreases n - i,
        {
            let mut gene = self.genes[i].clone();
            gene.mutate(ctx, rng);
            new_genes.push(gene);
            i = i + 1;
        }
        proof {
            if ctx.mutation_probability == 0 {
                assert(new_genes@ =~= self.genes@);
            }
        }
        self.genes = new_genes;
        self.fitness = None;
    }

    fn fitness(&self) -> (f: Option<u64>) {
        self.fitness
    }

    fn calculate_fitness(&mut self, ctx: &SentenceContext)
        ensures
            exists|grammar_errors: u64|
                final(self).spec_fitness() == Some(
                    #[trigger] spec_sentence_fitness(
                        ctx,
                        old(self).spec_genes(),
                        grammar_errors,
                    ) as u64,
                ),
            !(ctx.use_grammar_fitness && ctx.checker is Some) ==> final(self).spec_fitness()
                == Some(spec_sentence_fitness(ctx, old(self).spec_genes(), 0) as u64),
    {
        let grammar_errors: u64 = if ctx.use_grammar_fitness {
            match &ctx.checker {
                Some(checker) => {
                    let text = concat_words(&self.genes);
                    checker.suggestions_for(text.as_str()) as u64
                },
                None => 0,
            }
        } else {
            0
        };
        let score = sentence_fitness(ctx, &self.genes, grammar_errors);
        self.fitness = Some(score);
        proof {
            assert(0 <= spec_sentence_fitness(ctx, old(self).spec_genes(), grammar_errors)
                <= u64::MAX);
            assert(self.spec_fitness() == Some(
                spec_sentence_fitness(ctx, old(self).spec_genes(), grammar_errors) as u64,
            ));
        }
    }

    fn duplicate(&self) -> (copy: Self) {
        let n = self.genes.len();
        let genes = splice(&self.genes, &self.genes, n, n);
        proof {
            assert(genes@ =~= self.genes@);
        }
        Chromosome { genes, fitness: self.fitness }
    }

    fn crossover_at(&self, other: &Self, split1: usize, split2: usize) -> (children: (Self, Self)) {
        let child1 = Chromosome {
            genes: splice(&self.genes, &other.genes, split1, split2),
            fitness: None,
        };
        let child2 = Chromosome {
            genes: splice(&other.genes, &self.genes, split2, split1),
            fitness: None,
        };
        (child1, child2)
    }

    fn gene_count(&self) -> (n: usize) {
        self.genes.len()
    }
}

impl Chromosome {
    /// The gene sequence.
    pub fn genes(&self) -> (genes: &Vec<GeneType>)
        ensures
            genes@ == self.genes@,
    {
        &self.genes
    }

    /// Mutable access to the gene sequence. A caller that changes a gene must
    /// recompute the fitness: the cache is meaningful only for the genes it
    /// was computed over.
    pub fn genes_mut(&mut self) -> (genes: &mut Vec<GeneType>)
        ensures
            *genes == old(self).genes,
            (*final(self)) == (Chromosome { genes: *final(genes), fitness: old(self).fitness }),
    {
        &mut self.genes
    }

    /// Mutable access to the fitness cache.
    pub fn fitness_mut(&mut self) -> (fitness: &mut Option<u64>)
        ensures
            *fitness == old(self).fitness,
            (*final(self)) == (Chromosome { genes: old(self).genes, fitness: *final(fitness) }),
    {
        &mut self.fitness
    }
}

} // verus!
