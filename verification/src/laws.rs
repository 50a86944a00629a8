use vstd::prelude::*;

use crate::guard::has_mime;
use crate::guard::spec_self_originated;
use crate::mimes::lemma_special_mimes_distinct;
use crate::mimes::spec_marker_mime;
use crate::mimes::spec_uri_list_mime;
use crate::writer::spec_with_marker;

verus! {

/// Republishing never cascades: every offer the writer publishes carries the
/// recursion-guard marker, so when the published offer comes back as a
/// notification advertising exactly its mime types, the guard recognizes it
/// as self-originated — and `on_notify` then returns to Idle with no fetch,
/// no translation and no publish.
pub proof fn lemma_republished_offer_is_skipped(
    sources: Map<Seq<char>, Seq<u8>>,
    advertised: Seq<Seq<char>>,
)
    requires
        forall|t: Seq<char>|
            has_mime(advertised, t) <==> spec_with_marker(sources).dom().contains(t),
    ensures
        spec_self_originated(advertised),
{
    assert(spec_with_marker(sources).dom().contains(spec_marker_mime()));
}

/// The bridge only augments: when at least one rule fired, the published
/// offer keeps every original representation with its original payload (an
/// original wins over a synthesized payload under the same mime type), adds
/// the guard marker, advertises the synthesized URI-list mime type, and its
/// mime set is strictly larger than the original offer's.
pub proof fn lemma_augmentation_only(
    synth: Map<Seq<char>, Seq<u8>>,
    originals: Map<Seq<char>, Seq<u8>>,
)
    requires
        synth.dom().subset_of(set![spec_uri_list_mime()]),
        synth != Map::<Seq<char>, Seq<u8>>::empty(),
        !originals.dom().contains(spec_marker_mime()),
    ensures
        originals.dom().subset_of(
            spec_with_marker(synth.union_prefer_right(originals)).dom(),
        ),
        forall|k: Seq<char>|
            originals.dom().contains(k) ==> spec_with_marker(synth.union_prefer_right(originals))[k]
                == originals[k],
        spec_with_marker(synth.union_prefer_right(originals)).dom().contains(spec_marker_mime()),
        spec_with_marker(synth.union_prefer_right(originals)).dom().contains(spec_uri_list_mime()),
        spec_with_marker(synth.union_prefer_right(originals)).dom() != originals.dom(),
{
    lemma_special_mimes_distinct();
    let p = spec_with_marker(synth.union_prefer_right(originals));
    assert(synth.dom().contains(spec_uri_list_mime())) by {
        if !synth.dom().contains(spec_uri_list_mime()) {
            assert forall|k: Seq<char>| !synth.dom().contains(k) by {
                if synth.dom().contains(k) {
                    assert(set![spec_uri_list_mime()].contains(k));
                }
            }
            assert(synth =~= Map::<Seq<char>, Seq<u8>>::empty());
        }
    }
    assert(p.dom().contains(spec_uri_list_mime()));
    assert(p.dom().contains(spec_marker_mime()));
    assert(!originals.dom().contains(spec_marker_mime()));
    assert forall|k: Seq<char>| originals.dom().contains(k) implies p[k] == originals[k] by {
        assert(k != spec_marker_mime());
        assert(synth.union_prefer_right(originals)[k] == originals[k]);
    }
}

} // verus!
