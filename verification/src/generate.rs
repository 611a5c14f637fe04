//! One entry for all dataset variants.

use crate::batch::{outcome_view, Batch, BatchView, Variant};
use crate::error::GenError;
use crate::groupby::{generate_groupby, groupby_in_range, groupby_outcome};
use crate::join::{
    first_pool, generate_join_big, generate_join_medium, generate_join_small, join_big_outcome,
    join_medium_outcome, join_small_outcome, plain_pool, second_pool,
};
use crate::keys::Scale;
use crate::presplit::{
    generate_join_lhs, generate_join_rhs_big, generate_join_rhs_medium, generate_join_rhs_small,
    presplit_outcome,
};
use vstd::prelude::*;

verus! {

/// The dataset variant to generate, with the parameters of that variant.
#[derive(Debug)]
pub enum Params {
    /// The group-by table of `n` rows in `k` groups with `nas` percent of
    /// nulls.
    Groupby { n: i64, k: i64, nas: i64 },
    /// The small join table of `n` rows.
    JoinSmall { n: i64, keys_seed: u64 },
    /// The medium join table of `n` rows.
    JoinMedium { n: i64, keys_seed: u64 },
    /// The big join table of `n` rows with `nas` percent of nulls.
    JoinBig { n: i64, nas: i64, keys_seed: u64 },
    /// The left join table over three key columns.
    JoinLhs { n: i64, k1: Vec<i64>, k2: Vec<i64>, k3: Vec<i64> },
    /// The small right join table over one key column.
    JoinRhsSmall { n: i64, k1: Vec<i64> },
    /// The medium right join table over two key columns.
    JoinRhsMedium { n: i64, k1: Vec<i64>, k2: Vec<i64> },
    /// The big right join table over three key columns.
    JoinRhsBig { n: i64, k1: Vec<i64>, k2: Vec<i64>, k3: Vec<i64> },
}

impl Params {
    /// The variant that the parameters are for.
    pub open spec fn variant(self) -> Variant {
        match self {
            Params::Groupby { .. } => Variant::Groupby,
            Params::JoinSmall { .. } => Variant::JoinSmall,
            Params::JoinMedium { .. } => Variant::JoinMedium,
            Params::JoinBig { .. } => Variant::JoinBig,
            Params::JoinLhs { .. } => Variant::JoinLhs,
            Params::JoinRhsSmall { .. } => Variant::JoinRhsSmall,
            Params::JoinRhsMedium { .. } => Variant::JoinRhsMedium,
            Params::JoinRhsBig { .. } => Variant::JoinRhsBig,
        }
    }

    /// What a call with these parameters returns for `seed` and
    /// `batch_size`: a refusal, or the batch.
    pub open spec fn outcome(self, seed: u64, batch_size: i64) -> Result<BatchView, GenError> {
        match self {
            Params::Groupby { n, k, nas } => groupby_outcome(n, k, nas, seed, batch_size),
            Params::JoinSmall { n, keys_seed } => join_small_outcome(
                n,
                seed,
                keys_seed,
                batch_size,
            ),
            Params::JoinMedium { n, keys_seed } => join_medium_outcome(
                n,
                seed,
                keys_seed,
                batch_size,
            ),
            Params::JoinBig { n, nas, keys_seed } => join_big_outcome(n, nas, seed, batch_size),
            Params::JoinLhs { n, k1, k2, k3 } => presplit_outcome(
                Variant::JoinLhs,
                seq![k1@, k2@, k3@],
                seed,
                batch_size,
            ),
            Params::JoinRhsSmall { n, k1 } => presplit_outcome(
                Variant::JoinRhsSmall,
                seq![k1@],
                seed,
                batch_size,
            ),
            Params::JoinRhsMedium { n, k1, k2 } => presplit_outcome(
                Variant::JoinRhsMedium,
                seq![k1@, k2@],
                seed,
                batch_size,
            ),
            Params::JoinRhsBig { n, k1, k2, k3 } => presplit_outcome(
                Variant::JoinRhsBig,
                seq![k1@, k2@, k3@],
                seed,
                batch_size,
            ),
        }
    }

    /// Whether every sampled integer of the batch `view` lies in the range
    /// or the key pool of its column: the ids and values of the group-by
    /// table in their ranges, the keys of a join table in their pools. The
    /// tables over key columns handed in sample no integer.
    pub open spec fn contains_values_of(self, view: BatchView) -> bool {
        match self {
            Params::Groupby { n, k, nas } => groupby_in_range(view, k, (n / k) as i64),
            Params::JoinSmall { n, keys_seed } => view.columns[0].keys_in(
                first_pool(n, keys_seed),
            ),
            Params::JoinMedium { n, keys_seed } => view.columns[0].keys_in(
                first_pool(n, keys_seed),
            ) && view.columns[1].keys_in(second_pool(n, keys_seed)),
            Params::JoinBig { n, nas, keys_seed } => view.columns[0].keys_in(
                plain_pool(n, Scale::Millions),
            ) && view.columns[1].keys_in(plain_pool(n, Scale::Thousands))
                && view.columns[2].keys_in(plain_pool(n, Scale::Units)),
            _ => true,
        }
    }

    /// The variant that the parameters are for.
    pub fn kind(&self) -> (variant: Variant)
        ensures
            variant == self.variant(),
    {
        match self {
            Params::Groupby { .. } => Variant::Groupby,
            Params::JoinSmall { .. } => Variant::JoinSmall,
            Params::JoinMedium { .. } => Variant::JoinMedium,
            Params::JoinBig { .. } => Variant::JoinBig,
            Params::JoinLhs { .. } => Variant::JoinLhs,
            Params::JoinRhsSmall { .. } => Variant::JoinRhsSmall,
            Params::JoinRhsMedium { .. } => Variant::JoinRhsMedium,
            Params::JoinRhsBig { .. } => Variant::JoinRhsBig,
        }
    }
}

/// Generates one batch of `batch_size` rows of the variant of `params`, from
/// the stream of `seed`. The call either returns the whole batch or, where a
/// parameter is refused, an error and no row. The same arguments give the
/// same batch.
pub fn generate(params: Params, seed: u64, batch_size: i64) -> (made: Result<Batch, GenError>)
    ensures
        outcome_view(made) == params.outcome(seed, batch_size),
        made matches Ok(batch) ==> batch@.variant == params.variant() && batch@.wf()
            && batch@.rows() == batch_size && batch@.mirrored() && params.contains_values_of(
            batch@,
        ),
{
    match params {
        Params::Groupby { n, k, nas } => generate_groupby(n, k, nas, seed, batch_size),
        Params::JoinSmall { n, keys_seed } => generate_join_small(n, seed, keys_seed, batch_size),
        Params::JoinMedium { n, keys_seed } => generate_join_medium(
            n,
            seed,
            keys_seed,
            batch_size,
        ),
        Params::JoinBig { n, nas, keys_seed } => generate_join_big(
            n,
            nas,
            seed,
            keys_seed,
            batch_size,
        ),
        Params::JoinLhs { n, k1, k2, k3 } => generate_join_lhs(n, seed, k1, k2, k3, batch_size),
        Params::JoinRhsSmall { n, k1 } => generate_join_rhs_small(n, seed, k1, batch_size),
        Params::JoinRhsMedium { n, k1, k2 } => generate_join_rhs_medium(
            n,
            seed,
            k1,
            k2,
            batch_size,
        ),
        Params::JoinRhsBig { n, k1, k2, k3 } => generate_join_rhs_big(
            n,
            seed,
            k1,
            k2,
            k3,
            batch_size,
        ),
    }
}

} // verus!
