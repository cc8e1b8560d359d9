//! Single-point crossover operators over pairs of parent individuals.
//!
//! With the crossover probability the parents recombine at a split point;
//! otherwise the children are exact gene-level copies of the parents (a
//! deliberate skip, not a degenerate recombination). Children never carry a
//! fitness: callers evaluate before use.

use vstd::prelude::*;

use crate::SCALE;
use crate::individual::Individual;
use crate::rng::RandomSource;

verus! {

/// Fixed-length single-point crossover: both parents have the same arity and
/// share one split point, drawn uniformly from zero through the arity. The
/// children's combined length always equals the parents' combined length, and
/// a zero crossover probability returns gene-level copies of the parents.
pub fn single_point_crossover<I: Individual>(
    parent1: &I,
    parent2: &I,
    crossover_probability: u64,
    rng: &mut RandomSource,
) -> (children: (I, I))
    requires
        parent1.spec_genes().len() == parent2.spec_genes().len(),
        parent1.spec_genes().len() + 1 <= u64::MAX,
    ensures
        children.0.spec_fitness() is None,
        children.1.spec_fitness() is None,
        exists|k: int|
            0 <= k <= parent1.spec_genes().len() && children.0.spec_genes()
                == parent1.spec_genes().take(k) + parent2.spec_genes().skip(k)
                && children.1.spec_genes() == parent2.spec_genes().take(k)
                + parent1.spec_genes().skip(k),
        children.0.spec_genes().len() + children.1.spec_genes().len()
            == parent1.spec_genes().len() + parent2.spec_genes().len(),
        crossover_probability == 0 ==> children.0.spec_genes() == parent1.spec_genes()
            && children.1.spec_genes() == parent2.spec_genes(),
{
    let n = parent1.gene_count();
    let u = rng.next_below(SCALE);
    let split: usize = if u < crossover_probability {
        rng.next_below(n as u64 + 1) as usize
    } else {
        n
    };
    let children = parent1.crossover_at(parent2, split, split);
    proof {
        let genes1 = parent1.spec_genes();
        let genes2 = parent2.spec_genes();
        assert(genes1.take(n as int) =~= genes1);
        assert(genes2.take(n as int) =~= genes2);
        assert(genes1.skip(n as int) =~= Seq::<I::GeneType>::empty());
        assert(genes2.skip(n as int) =~= Seq::<I::GeneType>::empty());
        if split == n {
            assert(children.0.spec_genes() =~= genes1);
            assert(children.1.spec_genes() =~= genes2);
        }
    }
    children
}

/// Dynamic-length single-point crossover: the parents may differ in arity,
/// and each parent's split point is drawn independently within its own
/// length, so the children's lengths may differ from either parent's. The
/// combined length of the children still equals the parents' combined length,
/// each child being one parent's prefix joined to the other's suffix; a zero
/// crossover probability returns gene-level copies of the parents.
pub fn dynamic_length_single_point_crossover<I: Individual>(
    parent1: &I,
    parent2: &I,
    crossover_probability: u64,
    rng: &mut RandomSource,
) -> (children: (I, I))
    requires
        parent1.spec_genes().len() + 1 <= u64::MAX,
        parent2.spec_genes().len() + 1 <= u64::MAX,
    ensures
        children.0.spec_fitness() is None,
        children.1.spec_fitness() is None,
        exists|k1: int, k2: int|
            0 <= k1 <= parent1.spec_genes().len() && 0 <= k2 <= parent2.spec_genes().len()
                && children.0.spec_genes() == parent1.spec_genes().take(k1)
                + parent2.spec_genes().skip(k2) && children.1.spec_genes()
                == parent2.spec_genes().take(k2) + parent1.spec_genes().skip(k1),
        children.0.spec_genes().len() + children.1.spec_genes().len()
            == parent1.spec_genes().len() + parent2.spec_genes().len(),
        crossover_probability == 0 ==> children.0.spec_genes() == parent1.spec_genes()
            && children.1.spec_genes() == parent2.spec_genes(),
{
    let n1 = parent1.gene_count();
    let n2 = parent2.gene_count();
    let u = rng.next_below(SCALE);
    let (split1, split2): (usize, usize) = if u < crossover_probability {
        let k1 = rng.next_below(n1 as u64 + 1) as usize;
        let k2 = rng.next_below(n2 as u64 + 1) as usize;
        (k1, k2)
    } else {
        (n1, n2)
    };
    let children = parent1.crossover_at(parent2, split1, split2);
    proof {
        let genes1 = parent1.spec_genes();
        let genes2 = parent2.spec_genes();
        assert(genes1.take(n1 as int) =~= genes1);
        assert(genes2.take(n2 as int) =~= genes2);
        assert(genes1.skip(n1 as int) =~= Seq::<I::GeneType>::empty());
        assert(genes2.skip(n2 as int) =~= Seq::<I::GeneType>::empty());
        if split1 == n1 && split2 == n2 {
            assert(children.0.spec_genes() =~= genes1);
            assert(children.1.spec_genes() =~= genes2);
        }
    }
    children
}

} // verus!
