use vstd::prelude::*;
use vstd::string::StringExecFns;

use crate::mimes::lemma_special_mimes_distinct;
use crate::mimes::marker_mime_type;
use crate::mimes::spec_marker_mime;
use crate::mimes::spec_uri_list_mime;
use crate::mimes::uri_list_mime_type;
use crate::reps::Reps;
use crate::strs::str_eq;

verus! {

#[verifier::external_type_specification]
#[verifier::external_body]
pub struct ExClipboard(x11_clipboard::Clipboard);

/// Why a publish attempt failed.
pub enum PublishError {
    /// The X11 server could not intern an atom for a mime-type name.
    AtomLookup,
    /// Taking selection ownership or serving a payload failed.
    StoreFailed,
}

/// Relies on `x11_clipboard::Context::get_atom`: it interns an atom for the
/// given name on the X11 server; the atom's value depends on the server's
/// state, so nothing is assumed of it.
#[verifier::external_body]
fn x11_get_atom(cb: &x11_clipboard::Clipboard, name: &str) -> (r: Result<u32, ()>) {
    match cb.getter.get_atom(name) {
        Ok(a) => Ok(a),
        Err(_) => Err(()),
    }
}

/// Relies on `x11_clipboard::Clipboard::store`: it takes ownership of the
/// clipboard selection and serves the given payload under the given target
/// atom; the mechanism keeps one (target, value) pair per selection, so a
/// later store replaces an earlier one and the pair stored last is the one it
/// retains and serves.
#[verifier::external_body]
fn x11_store(cb: &x11_clipboard::Clipboard, target: u32, value: Vec<u8>) -> (r: Result<(), ()>) {
    match cb.store(cb.setter.atoms.clipboard, target, value) {
        Ok(()) => Ok(()),
        Err(_) => Err(()),
    }
}

/// The representation set the bridge publishes for the given sources: the
/// sources plus the payload-less recursion-guard marker.
pub open spec fn spec_with_marker(m: Map<Seq<char>, Seq<u8>>) -> Map<Seq<char>, Seq<u8>> {
    m.insert(spec_marker_mime(), Seq::empty())
}

/// The complete offer the writer publishes: the given representations plus
/// the recursion-guard marker with an empty payload, injected unconditionally
/// so any offer the bridge produces is recognizable by construction.
pub fn build_published(sources: Reps) -> (r: Reps)
    requires
        sources.wf(),
    ensures
        r.wf(),
        r@ == spec_with_marker(sources@),
{
    let mut r = sources;
    r.insert(String::from_str(marker_mime_type()), Vec::new());
    r
}

/// A copy of a byte payload.
fn copy_bytes(v: &Vec<u8>) -> (r: Vec<u8>)
    ensures
        r@ == v@,
{
    let n = v.len();
    let mut out: Vec<u8> = Vec::new();
    let mut i: usize = 0;
    while i < n
        invariant
            n == v@.len(),
            i <= n,
            out@ == v@.take(i as int),
        decreases n - i,
    {
        proof {
            assert(v@.take(i + 1) =~= v@.take(i as int).push(v@[i as int]));
        }
        out.push(v[i]);
        i += 1;
    }
    proof {
        assert(v@.take(n as int) =~= v@);
    }
    out
}

/// The (mime, payload) pairs of `spec_with_marker` of the sources, in the
/// order the writer hands them to the X11 mechanism: the guard marker (empty
/// payload) first, the other representations next, and the URI-list text last
/// when one is present.  The mechanism retains the pair stored last, so this
/// order makes the broadly compatible synthesized representation the one it
/// serves.
pub fn published_pairs(sources: &Reps) -> (r: Vec<(String, Vec<u8>)>)
    requires
        sources.wf(),
    ensures
        r@.len() >= 1,
        forall|j: int|
            0 <= j < r@.len() ==> spec_with_marker(sources@).dom().contains(#[trigger] r@[j].0@)
                && spec_with_marker(sources@)[r@[j].0@] == r@[j].1@,
        forall|k: Seq<char>| #[trigger]
            spec_with_marker(sources@).dom().contains(k) ==> exists|j: int|
                0 <= j < r@.len() && r@[j].0@ == k,
        forall|a: int, b: int| 0 <= a < b < r@.len() ==> r@[a].0@ != r@[b].0@,
        spec_with_marker(sources@).dom().contains(spec_uri_list_mime()) ==> r@.last().0@
            == spec_uri_list_mime(),
{
    let ghost wm = spec_with_marker(sources@);
    proof {
        lemma_special_mimes_distinct();
    }
    let mut out: Vec<(String, Vec<u8>)> = Vec::new();
    out.push((String::from_str(marker_mime_type()), Vec::new()));
    let pairs = sources.pairs();
    let n = pairs.len();
    let mut i: usize = 0;
    while i < n
        invariant
            sources.wf(),
            wm == spec_with_marker(sources@),
            spec_marker_mime() != spec_uri_list_mime(),
            n == pairs@.len(),
            i <= n,
            forall|j: int|
                0 <= j < pairs@.len() ==> sources@.dom().contains(#[trigger] pairs@[j].0@)
                    && sources@[pairs@[j].0@] == pairs@[j].1@,
            forall|k: Seq<char>| #[trigger]
                sources@.dom().contains(k) ==> exists|j: int|
                    0 <= j < pairs@.len() && pairs@[j].0@ == k,
            forall|a: int, b: int| 0 <= a < b < pairs@.len() ==> pairs@[a].0@ != pairs@[b].0@,
            out@.len() >= 1,
            out@[0].0@ == spec_marker_mime() && out@[0].1@ == Seq::<u8>::empty(),
            forall|j: int|
                0 <= j < out@.len() ==> wm.dom().contains(#[trigger] out@[j].0@)
                    && wm[out@[j].0@] == out@[j].1@,
            forall|a: int, b: int| 0 <= a < b < out@.len() ==> out@[a].0@ != out@[b].0@,
            forall|j: int|
                1 <= j < out@.len() ==> out@[j].0@ != spec_marker_mime() && #[trigger] out@[j].0@
                    != spec_uri_list_mime(),
            forall|j: int|
                1 <= j < out@.len() ==> exists|jj: int|
                    0 <= jj < i && pairs@[jj].0@ == #[trigger] out@[j].0@,
            forall|jj: int|
                0 <= jj < i && pairs@[jj].0@ != spec_marker_mime() && #[trigger] pairs@[jj].0@
                    != spec_uri_list_mime() ==> exists|j: int|
                    1 <= j < out@.len() && out@[j].0@ == pairs@[jj].0@,
        decreases n - i,
    {
        let skip_marker = str_eq(pairs[i].0.as_str(), marker_mime_type());
        let skip_uri = str_eq(pairs[i].0.as_str(), uri_list_mime_type());
        if !skip_marker && !skip_uri {
            let mime = pairs[i].0.clone();
            let payload = copy_bytes(&pairs[i].1);
            let ghost old_out = out@;
            out.push((mime, payload));
            proof {
                assert(out@[out@.len() - 1].0@ == pairs@[i as int].0@);
                assert forall|jj: int|
                    0 <= jj < i + 1 && pairs@[jj].0@ != spec_marker_mime() && #[trigger] pairs@[jj].0@
                        != spec_uri_list_mime() implies exists|j: int|
                    1 <= j < out@.len() && out@[j].0@ == pairs@[jj].0@ by {
                    if jj == i {
                        assert(out@[out@.len() - 1].0@ == pairs@[jj].0@);
                    } else {
                        let j0 = choose|j0: int|
                            1 <= j0 < old_out.len() && old_out[j0].0@ == pairs@[jj].0@;
                        assert(out@[j0].0@ == pairs@[jj].0@);
                    }
                }
            }
        }
        i += 1;
    }
    match sources.get(uri_list_mime_type()) {
        Some(v) => {
            let payload = copy_bytes(v);
            let ghost old_out = out@;
            out.push((String::from_str(uri_list_mime_type()), payload));
            proof {
                assert(out@.last().0@ == spec_uri_list_mime());
                assert forall|k: Seq<char>| #[trigger] wm.dom().contains(k) implies exists|j: int|
                    0 <= j < out@.len() && out@[j].0@ == k by {
                    if k == spec_marker_mime() {
                        assert(out@[0].0@ == k);
                    } else {
                        assert(sources@.dom().contains(k));
                        if k == spec_uri_list_mime() {
                            assert(out@[out@.len() - 1].0@ == k);
                        } else {
                            let jj = choose|jj: int|
                                0 <= jj < pairs@.len() && pairs@[jj].0@ == k;
                            let j0 = choose|j0: int|
                                1 <= j0 < old_out.len() && old_out[j0].0@ == pairs@[jj].0@;
                            assert(out@[j0].0@ == k);
                        }
                    }
                }
            }
        },
        None => {
            proof {
                assert(!sources@.dom().contains(spec_uri_list_mime()));
                assert forall|k: Seq<char>| #[trigger] wm.dom().contains(k) implies exists|j: int|
                    0 <= j < out@.len() && out@[j].0@ == k by {
                    if k == spec_marker_mime() {
                        assert(out@[0].0@ == k);
                    } else {
                        assert(sources@.dom().contains(k));
                        assert(k != spec_uri_list_mime());
                        let jj = choose|jj: int| 0 <= jj < pairs@.len() && pairs@[jj].0@ == k;
                        assert(pairs@[jj].0@ != spec_marker_mime());
                        assert(pairs@[jj].0@ != spec_uri_list_mime());
                    }
                }
            }
        },
    }
    out
}

/// Publish a representation set as the X11 side's new clipboard offer.  Every
/// mime type of `spec_with_marker` of the sources is first interned to an
/// atom; only when all lookups succeeded does any store happen, so an atom
/// failure returns `Err(AtomLookup)` with the previous offer untouched.  The
/// pairs are then handed to the mechanism one store call at a time, in the
/// order of `published_pairs`.  This mechanism keeps a single (target, value)
/// pair per selection, each store replacing the one before: the publish of
/// the set is therefore not the single atomic ownership transfer the original
/// mechanism offered — a store failure leaves the pairs stored before it, and
/// after success the clipboard serves exactly the pair stored last.  On
/// success that served mime type is returned: the synthesized URI-list
/// representation whenever the sources hold one.
pub fn copy_to_x11_clipboard(cb: &x11_clipboard::Clipboard, sources: Reps) -> (r: Result<
    String,
    PublishError,
>)
    requires
        sources.wf(),
    ensures
        r matches Ok(served) ==> spec_with_marker(sources@).dom().contains(served@),
        r matches Ok(served) ==> (spec_with_marker(sources@).dom().contains(spec_uri_list_mime())
            ==> served@ == spec_uri_list_mime()),
{
    let mut pairs = published_pairs(&sources);
    let served = pairs[pairs.len() - 1].0.clone();
    let mut targets: Vec<(u32, Vec<u8>)> = Vec::new();
    while pairs.len() > 0
        invariant
            spec_with_marker(sources@).dom().contains(served@),
            spec_with_marker(sources@).dom().contains(spec_uri_list_mime()) ==> served@
                == spec_uri_list_mime(),
        decreases pairs.len(),
    {
        let (mime, data) = pairs.remove(0);
        match x11_get_atom(cb, mime.as_str()) {
            Ok(atom) => {
                targets.push((atom, data));
            },
            Err(()) => {
                return Err(PublishError::AtomLookup);
            },
        }
    }
    while targets.len() > 0
        invariant
            spec_with_marker(sources@).dom().contains(served@),
            spec_with_marker(sources@).dom().contains(spec_uri_list_mime()) ==> served@
                == spec_uri_list_mime(),
        decreases targets.len(),
    {
        let (atom, data) = targets.remove(0);
        match x11_store(cb, atom, data) {
            Ok(()) => {},
            Err(()) => {
                return Err(PublishError::StoreFailed);
            },
        }
    }
    Ok(served)
}

} // verus!
