use vstd::prelude::*;

use crate::mimes::spec_marker_mime;
use crate::nautilus::str_views;
use crate::strs::str_eq;

verus! {

/// Whether a mime-type set (as a list of identifiers) advertises this type.
pub open spec fn has_mime(ms: Seq<Seq<char>>, t: Seq<char>) -> bool {
    exists|i: int| 0 <= i < ms.len() && ms[i] == t
}

/// Whether an advertised mime set carries the recursion-guard marker, i.e.
/// the offer was produced by this bridge.
pub open spec fn spec_self_originated(ms: Seq<Seq<char>>) -> bool {
    has_mime(ms, spec_marker_mime())
}

/// Whether the advertised mime types include the given one.
pub fn contains_mime(mimes: &Vec<String>, t: &str) -> (r: bool)
    ensures
        r == has_mime(str_views(mimes@), t@),
{
    let n = mimes.len();
    let mut i: usize = 0;
    while i < n
        invariant
            n == mimes@.len(),
            i <= n,
            forall|j: int| 0 <= j < i ==> str_views(mimes@)[j] != t@,
        decreases n - i,
    {
        if str_eq(mimes[i].as_str(), t) {
            proof {
                assert(str_views(mimes@)[i as int] == t@);
            }
            return true;
        }
        i += 1;
    }
    false
}

/// The recursion-guard check: true exactly when the reserved marker mime type
/// is advertised, in which case the offer is the bridge's own and is consumed
/// as a terminal, pass-through event.
pub fn is_self_originated(mimes: &Vec<String>) -> (r: bool)
    ensures
        r == spec_self_originated(str_views(mimes@)),
{
    contains_mime(mimes, crate::mimes::marker_mime_type())
}

} // verus!
