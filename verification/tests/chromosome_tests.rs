use evolia::chromosome::{
    sentence_fitness, select_word, structure_error_count, Chromosome, GeneType, SentenceContext,
};
use evolia::individual::Individual;
use evolia::rng::RandomSource;
use evolia::sampler::build_thresholds;
use evolia::words::{Adjective, AdjectiveType, Lexicon, Noun, Verb, WordType};
use evolia::SCALE;

fn small_lexicon() -> Lexicon {
    Lexicon {
        nouns: vec![
            Noun {
                singular: "cat".to_string(),
                plural: Some("cats".to_string()),
                proper: false,
            },
            Noun {
                singular: "tree".to_string(),
                plural: None,
                proper: false,
            },
        ],
        verbs: vec![Verb {
            past: "ran".to_string(),
            present: "runs".to_string(),
            future: "will run".to_string(),
        }],
        adverbs: vec!["fast".to_string()],
        adjectives: vec![Adjective {
            word: "green".to_string(),
            adjective_type: AdjectiveType::Descriptive,
        }],
        prepositions: vec!["on".to_string()],
        determiners: vec!["the".to_string()],
        conjunctions: vec!["and".to_string()],
    }
}

fn ready_context(mutation_probability: u64) -> SentenceContext {
    let rates: Vec<(WordType, u32)> = vec![
        (WordType::Noun, 400_000),
        (WordType::Verb, 300_000),
        (WordType::Adjective, 300_000),
    ];
    SentenceContext {
        lexicon: small_lexicon(),
        thresholds: build_thresholds(&rates),
        structure: vec![WordType::Noun, WordType::Verb, WordType::Noun],
        word_count: 3,
        mutation_probability,
        structure_weight: SCALE as u32,
        grammar_weight: 0,
        use_structure_fitness: true,
        use_grammar_fitness: false,
        checker: None,
    }
}

fn gene(word: &str, word_type: WordType) -> GeneType {
    GeneType {
        word: word.to_string(),
        word_type,
    }
}

fn word_belongs(lexicon: &Lexicon, g: &GeneType) -> bool {
    match g.word_type {
        WordType::Noun => lexicon.nouns.iter().any(|n| {
            n.singular == g.word || n.plural.as_deref() == Some(g.word.as_str())
        }),
        WordType::Verb => lexicon
            .verbs
            .iter()
            .any(|v| v.past == g.word || v.present == g.word || v.future == g.word),
        WordType::Adverb => lexicon.adverbs.iter().any(|w| *w == g.word),
        WordType::Adjective => lexicon.adjectives.iter().any(|a| a.word == g.word),
        WordType::Preposition => lexicon.prepositions.iter().any(|w| *w == g.word),
        WordType::Determiner => lexicon.determiners.iter().any(|w| *w == g.word),
        WordType::Conjunction => lexicon.conjunctions.iter().any(|w| *w == g.word),
    }
}

#[test]
fn generated_chromosome_has_configured_arity_and_no_fitness() {
    let ctx = ready_context(50_000);
    let mut rng = RandomSource::seeded(1);
    let individual = Chromosome::new(&ctx, &mut rng);
    assert_eq!(individual.genes.len(), 3);
    assert_eq!(individual.fitness, None);
    for g in &individual.genes {
        assert!(word_belongs(&ctx.lexicon, g));
    }
}

#[test]
fn select_word_draws_from_the_collection() {
    let ctx = ready_context(0);
    let mut rng = RandomSource::seeded(2);
    for _ in 0..200 {
        let g = select_word(&ctx, &mut rng).expect("a ready context always yields a word");
        assert!(word_belongs(&ctx.lexicon, &g));
    }
}

#[test]
fn zero_mutation_probability_changes_nothing() {
    let ctx = ready_context(0);
    let mut rng = RandomSource::seeded(3);
    let mut individual = Chromosome {
        genes: vec![
            gene("cat", WordType::Noun),
            gene("runs", WordType::Verb),
            gene("tree", WordType::Noun),
        ],
        fitness: Some(7),
    };
    let before: Vec<(String, WordType)> = individual
        .genes
        .iter()
        .map(|g| (g.word.clone(), g.word_type))
        .collect();
    for _ in 0..20 {
        individual.mutate_genes(&ctx, &mut rng);
        let after: Vec<(String, WordType)> = individual
            .genes
            .iter()
            .map(|g| (g.word.clone(), g.word_type))
            .collect();
        assert_eq!(before, after);
        assert_eq!(individual.fitness, None);
    }
}

#[test]
fn full_mutation_probability_regenerates_every_gene() {
    // With a probability of one, every gene must be replaced by exactly the
    // value a fresh generation would draw: replaying the same seeded source
    // (one mutation draw, then the generation draws, per gene) reproduces the
    // mutated genes.
    let ctx = ready_context(SCALE);
    let mut individual = Chromosome {
        genes: vec![
            gene("cat", WordType::Noun),
            gene("runs", WordType::Verb),
            gene("tree", WordType::Noun),
        ],
        fitness: Some(7),
    };
    let mut rng = RandomSource::seeded(99);
    individual.mutate_genes(&ctx, &mut rng);
    let mut replay = RandomSource::seeded(99);
    for g in &individual.genes {
        let u = replay.next_below(SCALE);
        assert!(u < SCALE);
        let expected = GeneType::generate(&ctx, &mut replay);
        assert_eq!(g.word, expected.word);
        assert_eq!(g.word_type, expected.word_type);
    }
    assert_eq!(individual.fitness, None);
}

#[test]
fn selection_misses_on_an_unbacked_collection() {
    // The thresholds list only nouns, but the collection has none: every draw
    // is a miss, the sampler gives up, and generation falls back to an empty
    // noun gene.
    let rates: Vec<(WordType, u32)> = vec![(WordType::Noun, 1_000_000)];
    let ctx = SentenceContext {
        lexicon: Lexicon {
            nouns: Vec::new(),
            verbs: vec![Verb {
                past: "ran".to_string(),
                present: "runs".to_string(),
                future: "will run".to_string(),
            }],
            adverbs: Vec::new(),
            adjectives: Vec::new(),
            prepositions: Vec::new(),
            determiners: Vec::new(),
            conjunctions: Vec::new(),
        },
        thresholds: build_thresholds(&rates),
        structure: vec![WordType::Noun],
        word_count: 1,
        mutation_probability: 0,
        structure_weight: SCALE as u32,
        grammar_weight: 0,
        use_structure_fitness: true,
        use_grammar_fitness: false,
        checker: None,
    };
    let mut rng = RandomSource::seeded(77);
    assert!(select_word(&ctx, &mut rng).is_none());
    let fallback = GeneType::generate(&ctx, &mut rng);
    assert_eq!(fallback.word, "");
    assert_eq!(fallback.word_type, WordType::Noun);
}

#[test]
fn structure_errors_count_mismatched_positions() {
    let structure = vec![WordType::Noun, WordType::Verb, WordType::Noun];
    let genes = vec![
        gene("cat", WordType::Noun),
        gene("green", WordType::Adjective),
        gene("fast", WordType::Adverb),
    ];
    assert_eq!(structure_error_count(&structure, &genes), 2);
    let conforming = vec![
        gene("cat", WordType::Noun),
        gene("runs", WordType::Verb),
        gene("tree", WordType::Noun),
    ];
    assert_eq!(structure_error_count(&structure, &conforming), 0);
    // the comparison stops at the shorter sequence
    let short = vec![gene("green", WordType::Adjective)];
    assert_eq!(structure_error_count(&structure, &short), 1);
}

#[test]
fn sentence_fitness_divides_weight_by_errors_plus_one() {
    let ctx = ready_context(0);
    let conforming = vec![
        gene("cat", WordType::Noun),
        gene("runs", WordType::Verb),
        gene("tree", WordType::Noun),
    ];
    assert_eq!(sentence_fitness(&ctx, &conforming, 0), SCALE);
    let one_off = vec![
        gene("cat", WordType::Noun),
        gene("runs", WordType::Verb),
        gene("fast", WordType::Adverb),
    ];
    assert_eq!(sentence_fitness(&ctx, &one_off, 0), SCALE / 2);
    let all_off = vec![
        gene("green", WordType::Adjective),
        gene("fast", WordType::Adverb),
        gene("on", WordType::Preposition),
    ];
    assert_eq!(sentence_fitness(&ctx, &all_off, 0), SCALE / 4);
}

#[test]
fn disabled_structure_fitness_scores_full_weight() {
    let mut ctx = ready_context(0);
    ctx.use_structure_fitness = false;
    let all_off = vec![gene("fast", WordType::Adverb); 3];
    assert_eq!(sentence_fitness(&ctx, &all_off, 0), SCALE);
}

#[test]
fn grammar_component_composes_with_the_structural_one() {
    let mut ctx = ready_context(0);
    ctx.structure_weight = 500_000;
    ctx.grammar_weight = 500_000;
    let one_off = vec![
        gene("cat", WordType::Noun),
        gene("runs", WordType::Verb),
        gene("fast", WordType::Adverb),
    ];
    // one structural error and two grammar suggestions:
    // 500000 / 2 + 500000 / 3
    assert_eq!(sentence_fitness(&ctx, &one_off, 2), 250_000 + 166_666);
    // no grammar suggestions: the grammar component is the full weight
    assert_eq!(sentence_fitness(&ctx, &one_off, 0), 250_000 + 500_000);
}

#[test]
fn calculate_fitness_caches_the_score_and_keeps_genes() {
    let ctx = ready_context(0);
    let mut individual = Chromosome {
        genes: vec![
            gene("cat", WordType::Noun),
            gene("runs", WordType::Verb),
            gene("tree", WordType::Noun),
        ],
        fitness: None,
    };
    individual.calculate_fitness(&ctx);
    assert_eq!(individual.fitness, Some(SCALE));
    assert_eq!(individual.fitness(), Some(SCALE));
    assert_eq!(individual.genes.len(), 3);
    assert_eq!(individual.genes[0].word, "cat");
}

#[test]
fn duplicate_copies_genes_and_fitness() {
    let original = Chromosome {
        genes: vec![gene("cat", WordType::Noun), gene("runs", WordType::Verb)],
        fitness: Some(41),
    };
    let copy = original.duplicate();
    assert_eq!(copy.fitness, Some(41));
    assert_eq!(copy.genes.len(), 2);
    assert_eq!(copy.genes[0].word, "cat");
    assert_eq!(copy.genes[1].word, "runs");
}

#[test]
fn accessors_expose_genes_and_fitness() {
    let mut individual = Chromosome {
        genes: vec![gene("cat", WordType::Noun)],
        fitness: Some(5),
    };
    assert_eq!(individual.genes().len(), 1);
    assert_eq!(individual.gene_count(), 1);
    *individual.fitness_mut() = None;
    assert_eq!(individual.fitness, None);
    individual.genes_mut().push(gene("tree", WordType::Noun));
    assert_eq!(individual.genes.len(), 2);
}
