//! The population manager: one generation cycle evaluates every individual,
//! ranks the population by descending fitness, recombines the two best,
//! carries those two forward unchanged, and backfills with fresh random
//! individuals, keeping the population size constant across generations.

use vstd::multiset::Multiset;
use vstd::prelude::*;

use crate::SCALE;
use crate::crossover::single_point_crossover;
use crate::individual::Individual;
use crate::rng::RandomSource;

verus! {

/// The run parameters of the engine: how many generations to run, how many
/// individuals the population holds, and the crossover probability in parts
/// per million.
pub struct EngineConfig {
    pub generations: usize,
    pub population_count: usize,
    pub crossover_probability: u64,
}

impl EngineConfig {
    /// Whether the configuration can drive a run: the population must hold at
    /// least the two retained elites and their two children, and the
    /// crossover probability must be a probability.
    pub fn is_runnable(&self) -> (b: bool)
        ensures
            b == (self.population_count >= 4 && self.crossover_probability <= SCALE),
    {
        self.population_count >= 4 && self.crossover_probability <= SCALE
    }
}

/// The fitness score of an evaluated individual.
pub open spec fn spec_score<I: Individual>(x: I) -> int {
    x.spec_fitness()->0 as int
}

/// Every individual of the sequence carries a computed fitness.
pub open spec fn all_evaluated<I: Individual>(population: Seq<I>) -> bool {
    forall|i: int| 0 <= i < population.len() ==> (#[trigger] population[i]).spec_fitness() is Some
}

/// The sequence is ranked by non-increasing fitness.
pub open spec fn sorted_descending<I: Individual>(population: Seq<I>) -> bool {
    forall|i: int, j: int|
        0 <= i <= j < population.len() ==> spec_score(#[trigger] population[i]) >= spec_score(
            #[trigger] population[j],
        )
}

/// Holds of the individuals whose cached fitness is exactly `v`: filtering a
/// population by it selects one tie class of the ranking.
pub open spec fn score_filter<I: Individual>(v: u64) -> spec_fn(I) -> bool {
    |x: I| x.spec_fitness() == Some(v)
}

/// Filtering a sequence by a predicate no element satisfies leaves nothing.
proof fn lemma_filter_none<A>(s: Seq<A>, pred: spec_fn(A) -> bool)
    requires
        forall|i: int| 0 <= i < s.len() ==> !pred(#[trigger] s[i]),
    ensures
        s.filter(pred) == Seq::<A>::empty(),
    decreases s.len(),
{
    reveal(Seq::filter);
    if s.len() > 0 {
        lemma_filter_none(s.drop_last(), pred);
    }
}

/// Some individual of the population carries exactly the given gene sequence.
pub open spec fn retains_genes<I: Individual>(
    population: Seq<I>,
    genes: Seq<I::GeneType>,
) -> bool {
    exists|i: int| 0 <= i < population.len() && (#[trigger] population[i]).spec_genes() == genes
}

/// The individual scores at least as high as every member of the population.
pub open spec fn is_max_score<I: Individual>(population: Seq<I>, x: I) -> bool {
    forall|b: int|
        0 <= b < population.len() ==> spec_score(x) >= spec_score(#[trigger] population[b])
}

/// Every individual of the sequence has the arity a fresh individual has
/// under this context.
pub open spec fn uniform_arity<I: Individual>(population: Seq<I>, ctx: &I::Context) -> bool {
    forall|i: int|
        0 <= i < population.len() ==> (#[trigger] population[i]).spec_genes().len()
            == I::spec_gene_count(ctx)
}

/// Generates a population of fresh random individuals; none has a fitness
/// yet.
pub fn generate_population<I: Individual>(
    ctx: &I::Context,
    population_size: usize,
    rng: &mut RandomSource,
) -> (population: Vec<I>)
    ensures
        population@.len() == population_size,
        forall|i: int|
            0 <= i < population_size ==> (#[trigger] population@[i]).spec_fitness() is None,
        uniform_arity(population@, ctx),
{
    let mut population: Vec<I> = Vec::new();
    let mut i: usize = 0;
    while i < population_size
        invariant
            0 <= i <= population_size,
            population@.len() == i,
            forall|k: int| 0 <= k < i ==> (#[trigger] population@[k]).spec_fitness() is None,
            uniform_arity(population@, ctx),
        decreases population_size - i,
    {
        population.push(I::new(ctx, rng));
        i = i + 1;
    }
    population
}

/// Computes the fitness of every individual, writing each result back to the
/// individual's own slot; no gene is touched.
pub fn evaluate_population<I: Individual>(population: &mut Vec<I>, ctx: &I::Context)
    ensures
        final(population)@.len() == old(population)@.len(),
        all_evaluated(final(population)@),
        forall|i: int|
            0 <= i < old(population)@.len() ==> (#[trigger] final(population)@[i]).spec_genes()
                == old(population)@[i].spec_genes(),
{
    let n = population.len();
    let mut evaluated: Vec<I> = Vec::new();
    let mut i: usize = 0;
    while i < n
        invariant
            0 <= i <= n,
            *population == *old(population),
            n == population@.len(),
            evaluated@.len() == i,
            all_evaluated(evaluated@),
            forall|k: int|
                0 <= k < i ==> (#[trigger] evaluated@[k]).spec_genes()
                    == population@[k].spec_genes(),
        decreases n - i,
    {
        let mut individual = population[i].duplicate();
        individual.calculate_fitness(ctx);
        evaluated.push(individual);
        i = i + 1;
    }
    *population = evaluated;
}

/// The index of the first individual of maximal fitness: no later individual
/// scores higher, and every earlier one scores strictly lower, so ties keep
/// the earliest.
fn index_of_first_max<I: Individual>(population: &Vec<I>) -> (idx: usize)
    requires
        population@.len() > 0,
        all_evaluated(population@),
    ensures
        idx < population@.len(),
        forall|j: int|
            0 <= j < population@.len() ==> spec_score(population@[idx as int]) >= spec_score(
                #[trigger] population@[j],
            ),
        forall|j: int|
            0 <= j < idx ==> spec_score(population@[idx as int]) > spec_score(
                #[trigger] population@[j],
            ),
{
    let mut idx: usize = 0;
    let mut best: u64 = population[0].fitness().unwrap();
    let mut i: usize = 1;
    while i < population.len()
        invariant
            0 <= idx < i <= population@.len(),
            all_evaluated(population@),
            best == spec_score(population@[idx as int]),
            forall|j: int|
                0 <= j < i ==> best >= spec_score(#[trigger] population@[j]),
            forall|j: int| 0 <= j < idx ==> best > spec_score(#[trigger] population@[j]),
        decreases population@.len() - i,
    {
        let score = population[i].fitness().unwrap();
        if score > best {
            idx = i;
            best = score;
        }
        i = i + 1;
    }
    idx
}

/// Ranks the population by descending fitness. The result is a permutation of
/// the input (the multiset of individuals is unchanged), and the sort is
/// stable: within each tie class — the individuals sharing one fitness value —
/// the original relative order is kept, since the earliest individual of
/// maximal fitness is extracted first.
pub fn sort_population_descending<I: Individual>(population: &mut Vec<I>)
    requires
        all_evaluated(old(population)@),
    ensures
        final(population)@.len() == old(population)@.len(),
        final(population)@.to_multiset() == old(population)@.to_multiset(),
        all_evaluated(final(population)@),
        sorted_descending(final(population)@),
        forall|k: int|
            0 <= k < final(population)@.len() ==> old(population)@.contains(
                #[trigger] final(population)@[k],
            ),
        forall|v: u64| #[trigger]
            final(population)@.filter(score_filter::<I>(v)) == old(population)@.filter(
                score_filter::<I>(v),
            ),
{
    broadcast use vstd::seq_lib::group_to_multiset_ensures;
    broadcast use vstd::multiset::group_multiset_axioms;

    let ghost original = population@;
    let mut ranked: Vec<I> = Vec::new();
    proof {
        assert forall|v: u64|
            ranked@.filter(#[trigger] score_filter::<I>(v)) + population@.filter(
                score_filter::<I>(v),
            ) == original.filter(score_filter::<I>(v)) by {
            let pred = score_filter::<I>(v);
            lemma_filter_none(ranked@, pred);
            assert(ranked@.filter(pred) + population@.filter(pred) =~= original.filter(pred));
        }
    }
    while population.len() > 0
        invariant
            all_evaluated(population@),
            all_evaluated(ranked@),
            sorted_descending(ranked@),
            ranked@.len() + population@.len() == original.len(),
            ranked@.to_multiset().add(population@.to_multiset()) =~= original.to_multiset(),
            forall|i: int, j: int|
                0 <= i < ranked@.len() && 0 <= j < population@.len() ==> spec_score(
                    #[trigger] ranked@[i],
                ) >= spec_score(#[trigger] population@[j]),
            forall|k: int| 0 <= k < ranked@.len() ==> original.contains(#[trigger] ranked@[k]),
            forall|k: int| 0 <= k < population@.len() ==> original.contains(
                #[trigger] population@[k],
            ),
            forall|v: u64|
                ranked@.filter(#[trigger] score_filter::<I>(v)) + population@.filter(
                    score_filter::<I>(v),
                ) == original.filter(score_filter::<I>(v)),
        decreases population@.len(),
    {
        let idx = index_of_first_max(population);
        let ghost before = population@;
        let x = population.remove(idx);
        proof {
            assert(before.contains(x));
            assert(population@ == before.remove(idx as int));
            vstd::seq_lib::to_multiset_remove::<I>(before, idx as int);
            vstd::seq_lib::to_multiset_build::<I>(ranked@, x);
            vstd::seq_lib::to_multiset_contains::<I>(before, x);
            assert(population@.to_multiset() =~= before.to_multiset().remove(x));
            assert(ranked@.push(x).to_multiset() =~= ranked@.to_multiset().insert(x));
            assert(before.to_multiset().count(x) > 0);
            assert(ranked@.push(x).to_multiset().add(population@.to_multiset())
                =~= original.to_multiset());
            assert forall|k: int| 0 <= k < population@.len() implies original.contains(
                #[trigger] population@[k],
            ) by {
                if k < idx {
                    assert(population@[k] == before[k]);
                } else {
                    assert(population@[k] == before[k + 1]);
                }
            }
            let ghost prefix = before.subrange(0, idx as int);
            let ghost suffix = before.subrange(idx as int + 1, before.len() as int);
            assert forall|v: u64|
                ranked@.push(x).filter(#[trigger] score_filter::<I>(v)) + population@.filter(
                    score_filter::<I>(v),
                ) == original.filter(score_filter::<I>(v)) by {
                let pred = score_filter::<I>(v);
                assert(before =~= (prefix + seq![x]) + suffix);
                assert(population@ =~= prefix + suffix);
                assert(ranked@.push(x) =~= ranked@ + seq![x]);
                Seq::filter_distributes_over_add(prefix + seq![x], suffix, pred);
                Seq::filter_distributes_over_add(prefix, seq![x], pred);
                Seq::filter_distributes_over_add(prefix, suffix, pred);
                Seq::filter_distributes_over_add(ranked@, seq![x], pred);
                reveal_with_fuel(Seq::filter, 2);
                if pred(x) {
                    assert(seq![x].filter(pred) =~= seq![x]);
                    // idx is the earliest maximum, so everything before it
                    // scores strictly lower than v and no prefix element is
                    // in the tie class of v
                    assert forall|i: int| 0 <= i < prefix.len() implies !pred(
                        #[trigger] prefix[i],
                    ) by {
                        assert(prefix[i] == before[i]);
                        assert(spec_score(before[i]) < spec_score(before[idx as int]));
                    }
                    lemma_filter_none(prefix, pred);
                    assert(ranked@.push(x).filter(pred) + population@.filter(pred)
                        =~= original.filter(pred));
                } else {
                    assert(seq![x].filter(pred) =~= Seq::<I>::empty());
                    assert(ranked@.push(x).filter(pred) + population@.filter(pred)
                        =~= original.filter(pred));
                }
            }
        }
        ranked.push(x);
    }
    proof {
        assert(population@.to_multiset() =~= Multiset::<I>::empty());
        assert(ranked@.to_multiset() =~= original.to_multiset());
        assert forall|v: u64|
            ranked@.filter(#[trigger] score_filter::<I>(v)) == original.filter(
                score_filter::<I>(v),
            ) by {
            let pred = score_filter::<I>(v);
            lemma_filter_none(population@, pred);
            assert(ranked@.filter(pred) =~= ranked@.filter(pred) + population@.filter(pred));
        }
    }
    *population = ranked;
}

/// One generation step: rank the incoming population, recombine the two
/// fittest into two mutated children, retain those two elites unchanged,
/// backfill with fresh random individuals up to the configured population
/// size, evaluate everyone, and rank the new population. The population size
/// and the per-individual arity are invariant across the step.
pub fn advance_generation<I: Individual>(
    population: &mut Vec<I>,
    ctx: &I::Context,
    config: &EngineConfig,
    rng: &mut RandomSource,
)
    requires
        old(population)@.len() == config.population_count,
        config.population_count >= 4,
        all_evaluated(old(population)@),
        uniform_arity(old(population)@, ctx),
        I::spec_gene_count(ctx) + 1 <= u64::MAX,
    ensures
        final(population)@.len() == config.population_count,
        all_evaluated(final(population)@),
        sorted_descending(final(population)@),
        uniform_arity(final(population)@, ctx),
        // elitism: the genes of a best-scoring incoming individual survive
        // into the new population unchanged
        exists|a: int|
            0 <= a < old(population)@.len() && is_max_score::<I>(
                old(population)@,
                #[trigger] old(population)@[a],
            ) && retains_genes::<I>(final(population)@, old(population)@[a].spec_genes()),
{
    broadcast use vstd::seq_lib::group_to_multiset_ensures;

    let ghost incoming = population@;
    sort_population_descending(population);
    let ghost sorted = population@;
    proof {
        assert(population@[0].spec_genes().len() == I::spec_gene_count(ctx));
        assert(population@[1].spec_genes().len() == I::spec_gene_count(ctx));
        // the head of the ranked population is an incoming individual whose
        // score no other incoming individual beats
        assert(incoming.contains(sorted[0]));
        assert forall|b: int| 0 <= b < incoming.len() implies spec_score(sorted[0]) >= spec_score(
            #[trigger] incoming[b],
        ) by {
            vstd::seq_lib::to_multiset_contains::<I>(incoming, incoming[b]);
            vstd::seq_lib::to_multiset_contains::<I>(sorted, incoming[b]);
            assert(sorted.contains(incoming[b]));
            let k = choose|k: int| 0 <= k < sorted.len() && sorted[k] == incoming[b];
            assert(spec_score(sorted[0]) >= spec_score(sorted[k]));
        }
    }
    let (mut child1, mut child2) = single_point_crossover(
        &population[0],
        &population[1],
        config.crossover_probability,
        rng,
    );
    proof {
        let genes1 = population@[0].spec_genes();
        let genes2 = population@[1].spec_genes();
        let k = choose|k: int|
            0 <= k <= genes1.len() && child1.spec_genes() == genes1.take(k) + genes2.skip(k)
                && child2.spec_genes() == genes2.take(k) + genes1.skip(k);
        assert(child1.spec_genes().len() == I::spec_gene_count(ctx));
        assert(child2.spec_genes().len() == I::spec_gene_count(ctx));
    }
    child1.mutate_genes(ctx, rng);
    child2.mutate_genes(ctx, rng);
    let mut next: Vec<I> = generate_population(ctx, config.population_count - 4, rng);
    next.push(child1);
    next.push(child2);
    next.push(population[0].duplicate());
    next.push(population[1].duplicate());
    let ghost elite_slot = next@.len() - 2;
    proof {
        assert(next@[elite_slot].spec_genes() == sorted[0].spec_genes());
    }
    evaluate_population(&mut next, ctx);
    let ghost evaluated = next@;
    proof {
        assert(evaluated[elite_slot].spec_genes() == sorted[0].spec_genes());
    }
    let ghost elite = evaluated[elite_slot];
    sort_population_descending(&mut next);
    proof {
        vstd::seq_lib::to_multiset_contains::<I>(evaluated, elite);
        assert(evaluated.contains(elite));
        vstd::seq_lib::to_multiset_contains::<I>(next@, elite);
        assert(next@.contains(elite));
        let i = choose|i: int| 0 <= i < next@.len() && next@[i] == elite;
        let a = choose|a: int| 0 <= a < incoming.len() && incoming[a] == sorted[0];
        assert(is_max_score::<I>(incoming, incoming[a]));
        assert(next@[i].spec_genes() == incoming[a].spec_genes());
        assert(retains_genes::<I>(next@, incoming[a].spec_genes()));
    }
    *population = next;
}

/// A full run: a fresh random population is evaluated and then advanced for
/// the configured number of generations; the result is the final population
/// ranked by descending fitness, its first individual the best found.
pub fn run_evolution<I: Individual>(
    ctx: &I::Context,
    config: &EngineConfig,
    rng: &mut RandomSource,
) -> (population: Vec<I>)
    requires
        config.population_count >= 4,
        I::spec_gene_count(ctx) + 1 <= u64::MAX,
    ensures
        population@.len() == config.population_count,
        all_evaluated(population@),
        sorted_descending(population@),
        uniform_arity(population@, ctx),
{
    let mut population: Vec<I> = generate_population(ctx, config.population_count, rng);
    evaluate_population(&mut population, ctx);
    let mut generation: usize = 0;
    while generation < config.generations
        invariant
            population@.len() == config.population_count,
            config.population_count >= 4,
            all_evaluated(population@),
            uniform_arity(population@, ctx),
            I::spec_gene_count(ctx) + 1 <= u64::MAX,
        decreases config.generations - generation,
    {
        advance_generation(&mut population, ctx, config, rng);
        generation = generation + 1;
    }
    sort_population_descending(&mut population);
    population
}

} // verus!
