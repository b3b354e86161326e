//! Results gathered in order: all of them, or the first error.

use vstd::prelude::*;
use crate::schema::SchemaError;

verus! {

/// The values of `results` in order where each is `Ok`; else the error that
/// comes first.
pub open spec fn all_or_first_error<T>(results: Seq<Result<T, SchemaError>>) -> Result<
    Seq<T>,
    SchemaError,
>
    decreases results.len(),
{
    if results.len() == 0 {
        Ok(Seq::empty())
    } else {
        match all_or_first_error(results.drop_last()) {
            Err(e) => Err(e),
            Ok(values) => match results.last() {
                Err(e) => Err(e),
                Ok(v) => Ok(values.push(v)),
            },
        }
    }
}

/// An error among the first `n` results is the error of the whole sequence.
pub proof fn lemma_error_stays<T>(results: Seq<Result<T, SchemaError>>, n: int)
    requires
        0 <= n <= results.len(),
        all_or_first_error(results.take(n)) is Err,
    ensures
        all_or_first_error(results) == all_or_first_error(results.take(n)),
    decreases results.len() - n,
{
    if n < results.len() {
        assert(results.take(n + 1).drop_last() =~= results.take(n));
        lemma_error_stays(results, n + 1);
    } else {
        assert(results.take(n) =~= results);
    }
}

} // verus!
