//! Where in a sequence something holds, and where what was picked from a
//! sequence comes from.

use vstd::prelude::*;

verus! {

/// Whether `at` is the first of the places `0, 1, 2, ...` at which `holds`
/// is true.
pub open spec fn is_first(holds: spec_fn(int) -> bool, at: int) -> bool {
    &&& 0 <= at
    &&& holds(at)
    &&& forall|earlier: int| 0 <= earlier < at ==> !#[trigger] holds(earlier)
}

/// The first of the places `0, 1, 2, ...` at which `holds` is true, if there
/// is any.
pub open spec fn first_where(holds: spec_fn(int) -> bool) -> Option<int> {
    if exists|at: int| 0 <= at && #[trigger] holds(at) {
        Some(choose|at: int| is_first(holds, at))
    } else {
        None
    }
}

/// A place that is the first is the one that [`first_where`] gives.
pub proof fn first_where_is(holds: spec_fn(int) -> bool, at: int)
    requires
        is_first(holds, at),
    ensures
        first_where(holds) == Some(at),
{
    // Of two first places neither comes before the other.
}

/// Where `holds` is true somewhere, [`first_where`] gives the first such
/// place.
pub proof fn first_where_found(holds: spec_fn(int) -> bool)
    requires
        exists|at: int| 0 <= at && #[trigger] holds(at),
    ensures
        first_where(holds) matches Some(at) && is_first(holds, at),
{
    let some = choose|at: int| 0 <= at && #[trigger] holds(at);
    first_below(holds, some);
}

/// At or below a place at which `holds` is true there is a first.
proof fn first_below(holds: spec_fn(int) -> bool, bound: int)
    requires
        0 <= bound,
        holds(bound),
    ensures
        exists|at: int| is_first(holds, at),
    decreases bound,
{
    if exists|earlier: int| 0 <= earlier < bound && #[trigger] holds(earlier) {
        let earlier = choose|earlier: int| 0 <= earlier < bound && #[trigger] holds(earlier);
        first_below(holds, earlier);
    } else {
        assert(is_first(holds, bound));
    }
}

/// Where `holds` is true nowhere, [`first_where`] gives nothing.
pub proof fn first_where_nowhere(holds: spec_fn(int) -> bool)
    requires
        forall|at: int| 0 <= at ==> !#[trigger] holds(at),
    ensures
        first_where(holds) is None,
{
}

/// Whatever `filter_map` lets through comes from an element of the
/// sequence.
pub proof fn filter_map_origin<A, B>(s: Seq<A>, f: spec_fn(A) -> Option<B>, k: int)
    requires
        0 <= k < s.filter_map(f).len(),
    ensures
        exists|i: int| 0 <= i < s.len() && f(#[trigger] s[i]) == Some(s.filter_map(f)[k]),
    decreases s.len(),
{
    if s.len() > 0 {
        let rest = s.drop_last();
        if k < rest.filter_map(f).len() {
            filter_map_origin(rest, f, k);
        }
    }
}

} // verus!
