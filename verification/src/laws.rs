//! What holds of every generation call, proved over the outcome that the
//! contracts of the generating functions state.

use crate::batch::{outcome_view, Batch, BatchView, ColumnView, Variant};
use crate::error::GenError;
use crate::field::lemma_unfold_len;
use crate::generate::Params;
use crate::groupby::{groupby_rows, groupby_step, lemma_groupby_shape};
use crate::join::{
    first_pool, join_big_rows, join_big_step, join_medium_rows, join_medium_step, join_small_rows,
    join_small_step, lemma_join_big_mirrored, lemma_join_big_shape, lemma_join_medium_mirrored,
    lemma_join_medium_shape, lemma_join_small_mirrored, lemma_join_small_shape, plain_pool,
    second_pool,
};
use crate::keys::{
    bounds_consistent, domain_size, lemma_pool_excludes_gap, match_end, permutation, pool_keys,
    tail_start, Scale,
};
use crate::presplit::{lemma_presplit_mirrored, lemma_presplit_shape};
use crate::stream::Stream;
use vstd::prelude::*;

verus! {

/// Whether two sets of parameters are the same: the same variant, the same
/// numbers, and key columns of the same keys.
pub open spec fn same_params(first: Params, second: Params) -> bool {
    match (first, second) {
        (Params::Groupby { n, k, nas }, Params::Groupby { n: n2, k: k2, nas: nas2 }) => n == n2
            && k == k2 && nas == nas2,
        (Params::JoinSmall { n, keys_seed }, Params::JoinSmall { n: n2, keys_seed: keys2 }) => n
            == n2 && keys_seed == keys2,
        (Params::JoinMedium { n, keys_seed }, Params::JoinMedium { n: n2, keys_seed: keys2 }) => n
            == n2 && keys_seed == keys2,
        (
            Params::JoinBig { n, nas, keys_seed },
            Params::JoinBig { n: n2, nas: nas2, keys_seed: keys2 },
        ) => n == n2 && nas == nas2 && keys_seed == keys2,
        (
            Params::JoinLhs { n, k1, k2, k3 },
            Params::JoinLhs { n: n2, k1: k1b, k2: k2b, k3: k3b },
        ) => n == n2 && k1@ == k1b@ && k2@ == k2b@ && k3@ == k3b@,
        (Params::JoinRhsSmall { n, k1 }, Params::JoinRhsSmall { n: n2, k1: k1b }) => n == n2
            && k1@ == k1b@,
        (
            Params::JoinRhsMedium { n, k1, k2 },
            Params::JoinRhsMedium { n: n2, k1: k1b, k2: k2b },
        ) => n == n2 && k1@ == k1b@ && k2@ == k2b@,
        (
            Params::JoinRhsBig { n, k1, k2, k3 },
            Params::JoinRhsBig { n: n2, k1: k1b, k2: k2b, k3: k3b },
        ) => n == n2 && k1@ == k1b@ && k2@ == k2b@ && k3@ == k3b@,
        _ => false,
    }
}

/// Determinism: two calls with the same parameters, the same seed and the
/// same batch size return the same error or batches that hold the same
/// columns.
pub proof fn lemma_generate_deterministic(
    first_params: Params,
    second_params: Params,
    seed: u64,
    batch_size: i64,
    first: Result<Batch, GenError>,
    second: Result<Batch, GenError>,
)
    requires
        same_params(first_params, second_params),
        outcome_view(first) == first_params.outcome(seed, batch_size),
        outcome_view(second) == second_params.outcome(seed, batch_size),
    ensures
        outcome_view(first) == outcome_view(second),
{
}

/// Shape: a batch that a call returns follows the schema of its variant,
/// every column of it has `batch_size` rows, and its columns that are not
/// nullable hold no null.
pub proof fn lemma_outcome_shape(params: Params, seed: u64, batch_size: i64)
    ensures
        params.outcome(seed, batch_size) matches Ok(view) ==> view.variant == params.variant()
            && view.wf() && view.rows() == batch_size && forall|c: int|
            0 <= c < view.columns.len() ==> (#[trigger] view.columns[c]).len() == batch_size && (
            !view.variant.fields()[c].nullable ==> view.columns[c].no_nulls()),
{
    if let Ok(view) = params.outcome(seed, batch_size) {
        let start = Stream::start(seed);
        match params {
            Params::Groupby { n, k, nas } => {
                lemma_unfold_len(groupby_step(k, (n / k) as i64, nas), start, batch_size as nat);
                lemma_groupby_shape(groupby_rows(n, k, nas, seed, batch_size));
            },
            Params::JoinSmall { n, keys_seed } => {
                lemma_unfold_len(
                    join_small_step(first_pool(n, keys_seed)),
                    start,
                    batch_size as nat,
                );
                lemma_join_small_shape(join_small_rows(n, seed, keys_seed, batch_size));
            },
            Params::JoinMedium { n, keys_seed } => {
                lemma_unfold_len(
                    join_medium_step(first_pool(n, keys_seed), second_pool(n, keys_seed)),
                    start,
                    batch_size as nat,
                );
                lemma_join_medium_shape(join_medium_rows(n, seed, keys_seed, batch_size));
            },
            Params::JoinBig { n, nas, keys_seed } => {
                lemma_unfold_len(
                    join_big_step(
                        plain_pool(n, Scale::Millions),
                        plain_pool(n, Scale::Thousands),
                        plain_pool(n, Scale::Units),
                        nas,
                    ),
                    start,
                    batch_size as nat,
                );
                lemma_join_big_shape(join_big_rows(n, nas, seed, batch_size));
            },
            Params::JoinLhs { n, k1, k2, k3 } => {
                let keys = seq![k1@, k2@, k3@];
                lemma_presplit_shape(Variant::JoinLhs, keys, seed, batch_size as nat);
            },
            Params::JoinRhsSmall { n, k1 } => {
                let keys = seq![k1@];
                lemma_presplit_shape(Variant::JoinRhsSmall, keys, seed, batch_size as nat);
            },
            Params::JoinRhsMedium { n, k1, k2 } => {
                let keys = seq![k1@, k2@];
                lemma_presplit_shape(Variant::JoinRhsMedium, keys, seed, batch_size as nat);
            },
            Params::JoinRhsBig { n, k1, k2, k3 } => {
                let keys = seq![k1@, k2@, k3@];
                lemma_presplit_shape(Variant::JoinRhsBig, keys, seed, batch_size as nat);
            },
        }
        assert(view.wf());
        assert forall|c: int| 0 <= c < view.columns.len() implies (#[trigger] view.columns[c]).len()
            == batch_size && (!view.variant.fields()[c].nullable ==> view.columns[c].no_nulls()) by {
            assert(view.columns[c].conforms(view.variant, view.variant.fields()[c], view.rows()));
        }
    }
}

/// Mirrored formatting: in a batch that a call returns, every text column
/// of a join table holds, in each row whose key is not null, `id` and the
/// key of its key column, unpadded. The pairs are `id1` and `id4`, `id2` and
/// `id5`, `id3` and `id6`; in the big join table `id6` goes with `id2`.
pub proof fn lemma_outcome_mirrored(params: Params, seed: u64, batch_size: i64)
    ensures
        params.outcome(seed, batch_size) matches Ok(view) ==> view.mirrored(),
{
    if let Ok(view) = params.outcome(seed, batch_size) {
        match params {
            Params::Groupby { n, k, nas } => {},
            Params::JoinSmall { n, keys_seed } => {
                lemma_join_small_mirrored(join_small_rows(n, seed, keys_seed, batch_size));
            },
            Params::JoinMedium { n, keys_seed } => {
                lemma_join_medium_mirrored(join_medium_rows(n, seed, keys_seed, batch_size));
            },
            Params::JoinBig { n, nas, keys_seed } => {
                lemma_join_big_mirrored(join_big_rows(n, nas, seed, batch_size));
            },
            Params::JoinLhs { n, k1, k2, k3 } => {
                lemma_presplit_mirrored(
                    Variant::JoinLhs,
                    seq![k1@, k2@, k3@],
                    seed,
                    batch_size as nat,
                );
            },
            Params::JoinRhsSmall { n, k1 } => {
                lemma_presplit_mirrored(Variant::JoinRhsSmall, seq![k1@], seed, batch_size as nat);
            },
            Params::JoinRhsMedium { n, k1, k2 } => {
                lemma_presplit_mirrored(
                    Variant::JoinRhsMedium,
                    seq![k1@, k2@],
                    seed,
                    batch_size as nat,
                );
            },
            Params::JoinRhsBig { n, k1, k2, k3 } => {
                lemma_presplit_mirrored(
                    Variant::JoinRhsBig,
                    seq![k1@, k2@, k3@],
                    seed,
                    batch_size as nat,
                );
            },
        }
    }
}

/// Key population: a key column whose keys all come from the pool of `n`
/// rows at `scale` holds none of the keys that the permutation of the domain
/// has in the slice left out, between the matching slice and the tail.
pub proof fn lemma_keys_avoid_gap(
    column: ColumnView,
    n: int,
    scale: Scale,
    stream: Stream,
    row: int,
    gap: int,
)
    requires
        bounds_consistent(n, scale),
        column.keys_in(pool_keys(n, scale, stream)),
        0 <= row < column.len(),
        match_end(n, scale) <= gap < tail_start(n, scale),
    ensures
        column matches ColumnView::Int64(cells) && cells[row] != Some(
            permutation(domain_size(n, scale) as nat, stream).0[gap],
        ),
{
    lemma_pool_excludes_gap(n, scale, stream);
    let cells = column->Int64_0;
    let excluded = permutation(domain_size(n, scale) as nat, stream).0[gap];
    assert(!pool_keys(n, scale, stream).contains(excluded));
    if cells[row] == Some(excluded) {
        assert(pool_keys(n, scale, stream).contains(excluded));
    }
}

} // verus!
