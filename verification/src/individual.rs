//! The capability contract of a candidate solution.
//!
//! An individual is an ordered sequence of genes plus a cached fitness score.
//! The cache is `None` right after any structural change — generation,
//! mutation, crossover — and `Some` only once the fitness has been computed;
//! higher scores are better. The engine in `crossover` and `population` works
//! against this contract alone.

use vstd::prelude::*;

use crate::rng::RandomSource;

verus! {

/// One candidate solution: an ordered gene sequence with a cached fitness.
///
/// `Context` carries whatever read-only data the domain needs to generate,
/// mutate and score genes; the engine threads it through unchanged.
pub trait Individual: Sized {
    /// The atomic decision variable the individual is made of.
    type GeneType;

    /// The read-only domain data: configuration, backing collections, and the
    /// scoring parameters of the fitness evaluator.
    type Context;

    /// The gene sequence. The default stands in only so that unverified
    /// domains outside this crate can implement the trait without ghost code;
    /// a verified implementation overrides it with its real gene view.
    open spec fn spec_genes(&self) -> Seq<Self::GeneType> {
        Seq::empty()
    }

    /// The cached fitness score, `None` until computed. The default stands in
    /// for unverified implementations; a verified one overrides it.
    open spec fn spec_fitness(&self) -> Option<u64> {
        None
    }

    /// How many genes a freshly generated individual has under this context.
    /// The default stands in for unverified implementations; a verified one
    /// overrides it.
    open spec fn spec_gene_count(_ctx: &Self::Context) -> int {
        0
    }

    /// The per-gene mutation probability of the context, in parts per
    /// million. The default stands in for unverified implementations; a
    /// verified one overrides it.
    open spec fn spec_mutation_rate(_ctx: &Self::Context) -> u64 {
        0
    }

    /// Builds a fresh individual of randomly generated genes; its fitness is
    /// not yet computed.
    fn new(ctx: &Self::Context, rng: &mut RandomSource) -> (individual: Self)
        ensures
            individual.spec_fitness() is None,
            individual.spec_genes().len() == Self::spec_gene_count(ctx),
    ;

    /// Mutates every gene independently: each is replaced by a freshly
    /// generated value with the context's mutation probability, and kept
    /// otherwise. The arity never changes, the fitness cache is cleared, and
    /// a zero mutation probability changes no gene.
    fn mutate_genes(&mut self, ctx: &Self::Context, rng: &mut RandomSource)
        ensures
            final(self).spec_fitness() is None,
            final(self).spec_genes().len() == old(self).spec_genes().len(),
            Self::spec_mutation_rate(ctx) == 0 ==> final(self).spec_genes() == old(
                self,
            ).spec_genes(),
    ;

    /// The cached fitness score.
    fn fitness(&self) -> (f: Option<u64>)
        ensures
            f == self.spec_fitness(),
    ;

    /// Computes the fitness of the gene sequence and caches it. The genes are
    /// not touched.
    fn calculate_fitness(&mut self, ctx: &Self::Context)
        ensures
            final(self).spec_fitness() is Some,
            final(self).spec_genes() == old(self).spec_genes(),
    ;

    /// An exact copy: same genes, same cached fitness.
    fn duplicate(&self) -> (copy: Self)
        ensures
            copy.spec_genes() == self.spec_genes(),
            copy.spec_fitness() == self.spec_fitness(),
    ;

    /// Recombines two gene sequences at the given split points: the first
    /// child is this individual's prefix followed by the other's suffix, the
    /// second child the complementary recombination. Children have no fitness
    /// yet.
    fn crossover_at(&self, other: &Self, split1: usize, split2: usize) -> (children: (Self, Self))
        requires
            split1 <= self.spec_genes().len(),
            split2 <= other.spec_genes().len(),
        ensures
            children.0.spec_genes() == self.spec_genes().take(split1 as int)
                + other.spec_genes().skip(split2 as int),
            children.1.spec_genes() == other.spec_genes().take(split2 as int)
                + self.spec_genes().skip(split1 as int),
            children.0.spec_fitness() is None,
            children.1.spec_fitness() is None,
    ;

    /// How many genes the individual holds.
    fn gene_count(&self) -> (n: usize)
        ensures
            n == self.spec_genes().len(),
    ;
}

/// One weighted error component of a composed fitness score: the weight
/// divided by one more than the error count, so the component is bounded by
/// its weight, decreases as the errors grow, never reaches zero by division,
/// and never divides by zero. An error count at the integer limit keeps the
/// divisor at that limit.
pub open spec fn spec_component_score(weight: u64, errors: u64) -> int {
    let denominator = if errors < u64::MAX {
        errors as int + 1
    } else {
        u64::MAX as int
    };
    weight as int / denominator
}

/// The composed fitness of the first `n` components: the sum of their scores.
pub open spec fn spec_composed_fitness(components: Seq<(u64, u64)>, n: int) -> int
    decreases n,
{
    if n <= 0 {
        0
    } else {
        spec_composed_fitness(components, n - 1) + spec_component_score(
            components[n - 1].0,
            components[n - 1].1,
        )
    }
}

/// The sum of the weights of the first `n` components.
pub open spec fn spec_weight_sum(components: Seq<(u64, u64)>, n: int) -> int
    decreases n,
{
    if n <= 0 {
        0
    } else {
        spec_weight_sum(components, n - 1) + components[n - 1].0
    }
}

/// A component score lies between zero and its weight.
proof fn lemma_component_score_bounds(weight: u64, errors: u64)
    ensures
        0 <= spec_component_score(weight, errors) <= weight,
{
    let denominator = if errors < u64::MAX {
        errors as int + 1
    } else {
        u64::MAX as int
    };
    vstd::arithmetic::div_mod::lemma_div_is_ordered_by_denominator(weight as int, 1, denominator);
    vstd::arithmetic::div_mod::lemma_div_pos_is_pos(weight as int, denominator);
    vstd::arithmetic::div_mod::lemma_div_basics(weight as int);
}

/// A composed fitness lies between zero and the sum of the weights.
proof fn lemma_composed_fitness_bounds(components: Seq<(u64, u64)>, n: int)
    requires
        n >= 0,
    ensures
        0 <= spec_composed_fitness(components, n) <= spec_weight_sum(components, n),
    decreases n,
{
    if n > 0 {
        lemma_composed_fitness_bounds(components, n - 1);
        lemma_component_score_bounds(components[n - 1].0, components[n - 1].1);
    }
}

/// Weight sums grow with the number of components.
proof fn lemma_weight_sum_monotone(components: Seq<(u64, u64)>, i: int, j: int)
    requires
        0 <= i <= j,
    ensures
        spec_weight_sum(components, i) <= spec_weight_sum(components, j),
    decreases j - i,
{
    if i < j {
        lemma_weight_sum_monotone(components, i, j - 1);
    }
}

/// The composition contract of a pluggable fitness evaluator: each component
/// is a (weight, error count) pair scored as the weight divided by one more
/// than the error count, and the fitness is the sum of the component scores.
pub fn compose_fitness(components: &Vec<(u64, u64)>) -> (score: u64)
    requires
        spec_weight_sum(components@, components@.len() as int) <= u64::MAX,
    ensures
        score == spec_composed_fitness(components@, components@.len() as int),
{
    let n = components.len();
    let mut score: u64 = 0;
    let mut i: usize = 0;
    while i < n
        invariant
            0 <= i <= n,
            n == components@.len(),
            spec_weight_sum(components@, n as int) <= u64::MAX,
            score == spec_composed_fitness(components@, i as int),
            score <= spec_weight_sum(components@, i as int),
        decreases n - i,
    {
        proof {
            lemma_component_score_bounds(components@[i as int].0, components@[i as int].1);
            lemma_weight_sum_monotone(components@, i + 1, n as int);
        }
        let (weight, errors) = components[i];
        let denominator: u64 = if errors < u64::MAX {
            errors + 1
        } else {
            u64::MAX
        };
        score = score + weight / denominator;
        i = i + 1;
    }
    score
}

} // verus!
