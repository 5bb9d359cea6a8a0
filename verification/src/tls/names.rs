//! Lists of algorithm names as the engine takes them: joined by colons.

use itertools::Itertools;
use vstd::prelude::*;

verus! {

/// The texts of `parts` in order, with `separator` between each two of them.
pub open spec fn joined(parts: Seq<Seq<char>>, separator: Seq<char>) -> Seq<char>
    decreases parts.len(),
{
    if parts.len() == 0 {
        Seq::empty()
    } else if parts.len() == 1 {
        parts[0]
    } else {
        joined(parts.drop_last(), separator) + separator + parts.last()
    }
}

/// The texts that string slices hold.
pub open spec fn texts(parts: Seq<&str>) -> Seq<Seq<char>> {
    Seq::new(parts.len(), |i: int| parts[i]@)
}

/// Calls `itertools::Itertools::intersperse` and collects what it yields. Trusted: the
/// adaptor yields the items in order with the given element between each two of them, so that
/// the collected text is the parts joined by the separator.
#[verifier::external_body]
pub(crate) fn join(parts: &[&str], separator: &str) -> (text: String)
    ensures
        text@ == joined(texts(parts@), separator@),
{
    Itertools::intersperse(parts.iter().copied(), separator).collect()
}

} // verus!
