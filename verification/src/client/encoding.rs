//! Which encodings a client can speak.

use vstd::prelude::*;

verus! {

/// One of the `supported` encodings is called `encoding`.
pub open spec fn supports(supported: Seq<&'static str>, encoding: Seq<char>) -> bool {
    exists|i: int| 0 <= i < supported.len() && #[trigger] supported[i]@ == encoding
}

/// The supported encoding that is called `encoding`, if there is one.
pub fn find_encoding(encoding: &String, supported: &'static [&'static str]) -> (r: Option<
    &'static str,
>)
    ensures
        r is Some <==> supports(supported@, encoding@),
        r matches Some(found) ==> supported@.contains(found) && found@ == encoding@,
{
    let mut i: usize = 0;
    while i < supported.len()
        invariant
            i <= supported@.len(),
            forall|j: int| 0 <= j < i ==> #[trigger] supported@[j]@ != encoding@,
        decreases supported@.len() - i,
    {
        let candidate: &'static str = supported[i];
        if candidate.to_owned() == *encoding {
            return Some(candidate);
        }
        i += 1;
    }
    None
}

} // verus!
