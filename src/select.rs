use vstd::prelude::*;

verus! {

/// The first position at or after `k`, and below `bound`, where `flags` holds `true`.
pub open spec fn first_true_from(flags: Seq<bool>, bound: int, k: nat) -> Option<nat>
    decreases flags.len() - k,
{
    if k >= bound || k >= flags.len() {
        None
    } else if flags[k as int] {
        Some(k)
    } else {
        first_true_from(flags, bound, k + 1)
    }
}

/// The first position below `bound` where `flags` holds `true`.
pub open spec fn first_true_below(flags: Seq<bool>, bound: int) -> Option<nat> {
    first_true_from(flags, bound, 0)
}

/// What the search from `k` finds is a `true` flag in range, with only `false` flags before it;
/// where it finds nothing, no flag in range from `k` on is `true`.
pub proof fn lemma_first_true_from(flags: Seq<bool>, bound: int, k: nat)
    ensures
        match first_true_from(flags, bound, k) {
            Some(i) => k <= i && i < bound && i < flags.len() && flags[i as int] && (forall|j: int|
                k <= j < i ==> !#[trigger] flags[j]),
            None => forall|j: int| k <= j < bound && j < flags.len() ==> !#[trigger] flags[j],
        },
    decreases flags.len() - k,
{
    if k < bound && k < flags.len() && !flags[k as int] {
        lemma_first_true_from(flags, bound, k + 1);
    }
}

/// Position of the first `true` among the first `bound` flags.
pub fn first_true(flags: &Vec<bool>, bound: usize) -> (r: Option<usize>)
    ensures
        r == (match first_true_below(flags@, bound as int) {
            Some(i) => Some(i as usize),
            None => None::<usize>,
        }),
{
    let mut i: usize = 0;
    while i < bound && i < flags.len()
        invariant
            first_true_below(flags@, bound as int) == first_true_from(flags@, bound as int, i as nat),
        decreases flags.len() - i,
    {
        if flags[i] {
            return Some(i);
        }
        i = i + 1;
    }
    None
}

/// Whether a run of probes is over, with `results` gathered so far out of `total` candidates
/// tried in order: one succeeded, or all were tried. Probing stops at the first success.
pub fn probing_done(results: &Vec<bool>, total: usize) -> (r: bool)
    ensures
        r == (first_true_below(results@, total as int) is Some || results@.len() >= total),
{
    results.len() >= total || first_true(results, total).is_some()
}

} // verus!
