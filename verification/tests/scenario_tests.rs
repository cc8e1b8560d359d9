use evolia::chromosome::{Chromosome, SentenceContext};
use evolia::individual::Individual;
use evolia::population::{run_evolution, EngineConfig};
use evolia::rng::RandomSource;
use evolia::sampler::build_thresholds;
use evolia::words::{Lexicon, Noun, Verb, WordType};
use evolia::SCALE;

const ITEM_VALUES: [u64; 12] = [10, 50, 20, 70, 30, 100, 15, 45, 60, 25, 90, 35];
const ITEM_WEIGHTS: [u64; 12] = [1, 3, 2, 5, 1, 4, 1, 2, 3, 2, 4, 2];
const MAX_WEIGHT: u64 = 10;

struct KnapsackContext {
    values: Vec<u64>,
    weights: Vec<u64>,
    max_weight: u64,
    mutation_probability: u64,
}

struct KnapsackIndividual {
    genes: Vec<bool>,
    fitness: Option<u64>,
}

fn knapsack_score(ctx: &KnapsackContext, genes: &[bool]) -> u64 {
    let mut value: u64 = 0;
    let mut weight: u64 = 0;
    for (i, selected) in genes.iter().enumerate() {
        if *selected {
            value += ctx.values[i];
            weight += ctx.weights[i];
        }
    }
    if weight <= ctx.max_weight {
        1 + value
    } else {
        0
    }
}

impl Individual for KnapsackIndividual {
    type GeneType = bool;
    type Context = KnapsackContext;

    fn new(ctx: &KnapsackContext, rng: &mut RandomSource) -> Self {
        let genes: Vec<bool> = (0..ctx.values.len())
            .map(|_| rng.next_below(2) == 1)
            .collect();
        KnapsackIndividual {
            genes,
            fitness: None,
        }
    }

    fn mutate_genes(&mut self, ctx: &KnapsackContext, rng: &mut RandomSource) {
        for g in self.genes.iter_mut() {
            if rng.next_below(SCALE) < ctx.mutation_probability {
                *g = rng.next_below(2) == 1;
            }
        }
        self.fitness = None;
    }

    fn fitness(&self) -> Option<u64> {
        self.fitness
    }

    fn calculate_fitness(&mut self, ctx: &KnapsackContext) {
        self.fitness = Some(knapsack_score(ctx, &self.genes));
    }

    fn duplicate(&self) -> Self {
        KnapsackIndividual {
            genes: self.genes.clone(),
            fitness: self.fitness,
        }
    }

    fn crossover_at(&self, other: &Self, split1: usize, split2: usize) -> (Self, Self) {
        let mut genes1: Vec<bool> = self.genes[..split1].to_vec();
        genes1.extend_from_slice(&other.genes[split2..]);
        let mut genes2: Vec<bool> = other.genes[..split2].to_vec();
        genes2.extend_from_slice(&self.genes[split1..]);
        (
            KnapsackIndividual {
                genes: genes1,
                fitness: None,
            },
            KnapsackIndividual {
                genes: genes2,
                fitness: None,
            },
        )
    }

    fn gene_count(&self) -> usize {
        self.genes.len()
    }
}

fn exhaustive_optimum() -> u64 {
    let mut best: u64 = 0;
    for mask in 0u32..(1 << 12) {
        let mut value: u64 = 0;
        let mut weight: u64 = 0;
        for i in 0..12 {
            if mask & (1 << i) != 0 {
                value += ITEM_VALUES[i];
                weight += ITEM_WEIGHTS[i];
            }
        }
        if weight <= MAX_WEIGHT && value > best {
            best = value;
        }
    }
    best
}

#[test]
fn knapsack_run_reaches_the_exhaustive_optimum() {
    let ctx = KnapsackContext {
        values: ITEM_VALUES.to_vec(),
        weights: ITEM_WEIGHTS.to_vec(),
        max_weight: MAX_WEIGHT,
        mutation_probability: 80_000,
    };
    let config = EngineConfig {
        generations: 150,
        population_count: 80,
        crossover_probability: 600_000,
    };
    let mut rng = RandomSource::seeded(2024);
    let population: Vec<KnapsackIndividual> = run_evolution(&ctx, &config, &mut rng);
    assert_eq!(population.len(), config.population_count);
    let best = &population[0];
    let mut value: u64 = 0;
    let mut weight: u64 = 0;
    for (i, selected) in best.genes.iter().enumerate() {
        if *selected {
            value += ITEM_VALUES[i];
            weight += ITEM_WEIGHTS[i];
        }
    }
    assert!(weight <= MAX_WEIGHT, "best selection overweight: {}", weight);
    assert_eq!(value, exhaustive_optimum());
}

fn sentence_lexicon() -> Lexicon {
    Lexicon {
        nouns: vec![
            Noun {
                singular: "cat".to_string(),
                plural: Some("cats".to_string()),
                proper: false,
            },
            Noun {
                singular: "bird".to_string(),
                plural: Some("birds".to_string()),
                proper: false,
            },
        ],
        verbs: vec![Verb {
            past: "chased".to_string(),
            present: "chases".to_string(),
            future: "will chase".to_string(),
        }],
        adverbs: vec!["quickly".to_string()],
        adjectives: Vec::new(),
        prepositions: Vec::new(),
        determiners: Vec::new(),
        conjunctions: Vec::new(),
    }
}

#[test]
fn sentence_run_converges_to_the_target_structure() {
    let rates: Vec<(WordType, u32)> = vec![
        (WordType::Noun, 500_000),
        (WordType::Verb, 300_000),
        (WordType::Adverb, 200_000),
    ];
    let target = vec![WordType::Noun, WordType::Verb, WordType::Noun];
    let ctx = SentenceContext {
        lexicon: sentence_lexicon(),
        thresholds: build_thresholds(&rates),
        structure: target.clone(),
        word_count: 3,
        mutation_probability: 100_000,
        structure_weight: SCALE as u32,
        grammar_weight: 0,
        use_structure_fitness: true,
        use_grammar_fitness: false,
        checker: None,
    };
    let config = EngineConfig {
        generations: 40,
        population_count: 20,
        crossover_probability: 600_000,
    };
    // Over many seeded runs the best individual must match the target
    // category sequence nearly always.
    let mut hits: u32 = 0;
    let runs: u32 = 40;
    for seed in 0..runs {
        let mut rng = RandomSource::seeded(1000 + seed as u64);
        let population: Vec<Chromosome> = run_evolution(&ctx, &config, &mut rng);
        let best = &population[0];
        let categories: Vec<WordType> = best.genes.iter().map(|g| g.word_type).collect();
        if categories == target {
            assert_eq!(best.fitness, Some(SCALE));
            hits += 1;
        }
    }
    assert!(
        hits * 100 >= runs * 95,
        "only {} of {} runs reached the target structure",
        hits,
        runs
    );
}
