//! Work spread over the machine's cores, one index at a time.

use rayon::iter::{IntoParallelIterator, ParallelIterator};
use vstd::prelude::*;

verus! {

/// Ask one question of every index below `n`, on all cores at once.
///
/// Rests on rayon's `into_par_iter`, `map` and `collect` over a range: the
/// iterator is an indexed one, so the collected vector holds one answer for each
/// index, in the order of the indices, each of them what the closure gave there.
#[verifier::external_body]
pub(crate) fn ask_each<F: Fn(usize) -> bool + Sync + Send>(n: usize, question: F) -> (answers: Vec<
    bool,
>)
    requires
        forall|e: usize| e < n ==> call_requires(question, (e,)),
    ensures
        answers@.len() == n,
        forall|e: usize| e < n ==> call_ensures(question, (e,), #[trigger] answers@[e as int]),
{
    (0..n).into_par_iter().map(question).collect()
}

} // verus!
