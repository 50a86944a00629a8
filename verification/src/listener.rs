use vstd::prelude::*;
use vstd::string::StringExecFns;

use crate::fetch::classify_fetch;
use crate::fetch::spec_classify;
use crate::fetch::FetchEvent;
use crate::fetch::FetchResult;
use crate::guard::contains_mime;
use crate::guard::has_mime;
use crate::guard::is_self_originated;
use crate::guard::spec_self_originated;
use crate::mimes::nautilus_mime_type;
use crate::mimes::qt_image_mime_type;
use crate::mimes::spec_nautilus_mime;
use crate::mimes::spec_qt_image_mime;
use crate::mimes::spec_uri_list_mime;
use crate::mimes::uri_list_mime_type;
use crate::nautilus::lemma_nautilus_url_is_head;
use crate::nautilus::parse_nautilus_clipboard;
use crate::nautilus::spec_nautilus_url;
use crate::nautilus::str_views;
use crate::reps::some_map;
use crate::reps::Reps;
use crate::strs::spec_encode;
use crate::strs::spec_utf8;
use crate::strs::string_to_bytes;
use crate::strs::utf8_to_string;
use crate::urls::file_path_url_ok;
use crate::urls::file_url_for_path;
use crate::urls::file_url_of;

verus! {

/// The state of one side's listener.  It is Idle between notifications; the
/// remaining states are the stages of processing a single notification, in
/// the order the pipeline runs them.
pub enum State {
    /// Blocked awaiting the next clipboard-change notification.
    Idle,
    /// The offer advertised the opaque image type; its payload is being
    /// fetched.
    FetchingImage { mimes: Vec<String> },
    /// An image payload was fetched; a temporary file is being allocated.
    AwaitingTemp { mimes: Vec<String> },
    /// The copied-files payload is being fetched; `synth` holds what the
    /// image fix synthesized so far.
    FetchingFiles { mimes: Vec<String>, synth: Reps },
    /// At least one rule fired; the original representations are being
    /// fetched so the republished offer augments rather than narrows.
    FetchingOriginals { synth: Reps },
    /// The merged offer was handed to the opposite side's writer.
    Publishing,
}

/// What the listener asks its driver to do next.
pub enum Action {
    /// Await the next clipboard-change notification.
    Wait,
    /// Fetch the payload of this mime type from the source side, bounded by
    /// the fetch timeout.
    Fetch { mime: String },
    /// Persist these bytes to a fresh temporary file that must outlive the
    /// cycle, and hand back its path.
    MakeTempFile { bytes: Vec<u8> },
    /// Fetch the payload of every advertised mime type from the source side.
    FetchAll { mimes: Vec<String> },
    /// Publish these representations, plus the guard marker, as the opposite
    /// side's new offer.
    Publish { reps: Reps },
    /// Abort: an unrecoverable error ends the bridge.
    Fatal,
}

/// Validity of a listener state: synthesized representations are well formed,
/// only ever carry the URI-list output type, and the original representations
/// are only fetched once at least one rule has contributed something.
pub open spec fn state_inv(st: &State) -> bool {
    match st {
        State::FetchingFiles { synth, .. } => synth.wf() && synth@.dom().subset_of(
            set![spec_uri_list_mime()],
        ),
        State::FetchingOriginals { synth } => synth.wf() && synth@.dom().subset_of(
            set![spec_uri_list_mime()],
        ) && synth@ != Map::<Seq<char>, Seq<u8>>::empty(),
        _ => true,
    }
}

/// What the files fix synthesizes from a fetched copied-files payload: the
/// payload must decode as UTF-8 and parse per the copied-files format.
pub open spec fn spec_files_synth(b: Seq<u8>) -> Option<Seq<char>> {
    match spec_utf8(b) {
        Some(s) => spec_nautilus_url(s),
        None => None,
    }
}

/// React to a clipboard-change notification advertising these mime types.  An
/// offer carrying the recursion-guard marker is the bridge's own and is
/// dropped before any fetch or translation work; otherwise the first firing
/// rule's fetch is requested, and an offer no rule matches is left alone.
pub fn on_notify(st: State, mimes: Vec<String>) -> (r: (State, Action))
    ensures
        state_inv(&r.0),
        !(st is Idle) ==> r.0 is Idle && r.1 is Fatal,
        st is Idle && spec_self_originated(str_views(mimes@)) ==> r.0 is Idle && r.1 is Wait,
        st is Idle && !spec_self_originated(str_views(mimes@)) && has_mime(
            str_views(mimes@),
            spec_qt_image_mime(),
        ) ==> (r.0 matches State::FetchingImage { mimes: m } && m@ == mimes@ && (
        r.1 matches Action::Fetch { mime } && mime@ == spec_qt_image_mime())),
        st is Idle && !spec_self_originated(str_views(mimes@)) && !has_mime(
            str_views(mimes@),
            spec_qt_image_mime(),
        ) && has_mime(str_views(mimes@), spec_nautilus_mime()) ==> (r.0 matches
            State::FetchingFiles { mimes: m, synth } && m@ == mimes@ && synth@ == Map::<
            Seq<char>,
            Seq<u8>,
        >::empty() && (r.1 matches Action::Fetch { mime } && mime@ == spec_nautilus_mime())),
        st is Idle && !spec_self_originated(str_views(mimes@)) && !has_mime(
            str_views(mimes@),
            spec_qt_image_mime(),
        ) && !has_mime(str_views(mimes@), spec_nautilus_mime()) ==> r.0 is Idle && r.1 is Wait,
{
    match st {
        State::Idle => {
            if is_self_originated(&mimes) {
                (State::Idle, Action::Wait)
            } else if contains_mime(&mimes, qt_image_mime_type()) {
                let mime = String::from_str(qt_image_mime_type());
                (State::FetchingImage { mimes }, Action::Fetch { mime })
            } else if contains_mime(&mimes, nautilus_mime_type()) {
                let mime = String::from_str(nautilus_mime_type());
                (State::FetchingFiles { mimes, synth: Reps::new() }, Action::Fetch { mime })
            } else {
                (State::Idle, Action::Wait)
            }
        },
        _ => (State::Idle, Action::Fatal),
    }
}

/// React to the outcome of the fetch the listener asked for.  Vanished
/// content abandons the cycle quietly; a hard error is fatal; a fetched
/// payload advances the pipeline: an image payload is sent to a temporary
/// file, a copied-files payload is parsed and, when it yields a URL, its text
/// replaces any image-fix output under the URI-list type (last rule wins).
pub fn on_fetched(st: State, ev: FetchEvent) -> (r: (State, Action))
    requires
        state_inv(&st),
    ensures
        state_inv(&r.0),
        !(st is FetchingImage) && !(st is FetchingFiles) ==> r.0 is Idle && r.1 is Fatal,
        st matches State::FetchingImage { mimes } ==> (spec_classify(ev) matches
            FetchResult::Content(b) ==> (r.0 matches State::AwaitingTemp { mimes: m } && m@
            == mimes@ && (r.1 matches Action::MakeTempFile { bytes } && bytes == b))),
        st is FetchingImage ==> (spec_classify(ev) is Vanished ==> r.0 is Idle && r.1 is Wait),
        st is FetchingImage ==> (spec_classify(ev) is Error ==> r.0 is Idle && r.1 is Fatal),
        st matches State::FetchingFiles { mimes, synth } ==> (spec_classify(ev) matches
            FetchResult::Content(b) ==> (spec_files_synth(b@) matches Some(u) ==> (r.0 matches
            State::FetchingOriginals { synth: s2 } && s2@ == synth@.insert(
            spec_uri_list_mime(),
            spec_encode(u),
        ) && (r.1 matches Action::FetchAll { mimes: m } && m@ == mimes@)))),
        st matches State::FetchingFiles { mimes, synth } ==> (spec_classify(ev) matches
            FetchResult::Content(b) ==> ((spec_files_synth(b@) is None && synth@ != Map::<
            Seq<char>,
            Seq<u8>,
        >::empty()) ==> (r.0 matches State::FetchingOriginals { synth: s2 } && s2@ == synth@ && (
        r.1 matches Action::FetchAll { mimes: m } && m@ == mimes@)))),
        st matches State::FetchingFiles { synth, .. } ==> (spec_classify(ev) matches
            FetchResult::Content(b) ==> ((spec_files_synth(b@) is None && synth@ == Map::<
            Seq<char>,
            Seq<u8>,
        >::empty()) ==> r.0 is Idle && r.1 is Wait)),
        st is FetchingFiles ==> (spec_classify(ev) is Vanished ==> r.0 is Idle && r.1 is Wait),
        st is FetchingFiles ==> (spec_classify(ev) is Error ==> r.0 is Idle && r.1 is Fatal),
{
    match st {
        State::FetchingImage { mimes } => {
            match classify_fetch(ev) {
                FetchResult::Content(b) => (
                    State::AwaitingTemp { mimes },
                    Action::MakeTempFile { bytes: b },
                ),
                FetchResult::Vanished => (State::Idle, Action::Wait),
                FetchResult::Error => (State::Idle, Action::Fatal),
            }
        },
        State::FetchingFiles { mimes, mut synth } => {
            match classify_fetch(ev) {
                FetchResult::Content(b) => {
                    match utf8_to_string(b) {
                        Some(s) => {
                            let mut urls = parse_nautilus_clipboard(s.as_str());
                            proof {
                                lemma_nautilus_url_is_head(s@);
                            }
                            if urls.len() > 0 {
                                let ghost uv = urls@;
                                let u = urls.remove(0);
                                proof {
                                    assert(u@ == str_views(uv)[0]);
                                }
                                synth.insert(
                                    String::from_str(uri_list_mime_type()),
                                    string_to_bytes(u),
                                );
                                proof {
                                    assert(synth@.dom().contains(spec_uri_list_mime()));
                                    assert(synth@ != Map::<Seq<char>, Seq<u8>>::empty());
                                    assert(synth@.dom().subset_of(set![spec_uri_list_mime()])) by {
                                        assert forall|k: Seq<char>|
                                            synth@.dom().contains(k) implies set![
                                            spec_uri_list_mime(),
                                        ].contains(k) by {}
                                    }
                                }
                            }
                        },
                        None => {},
                    }
                    if synth.is_empty() {
                        (State::Idle, Action::Wait)
                    } else {
                        (State::FetchingOriginals { synth }, Action::FetchAll { mimes })
                    }
                },
                FetchResult::Vanished => (State::Idle, Action::Wait),
                FetchResult::Error => (State::Idle, Action::Fatal),
            }
        },
        _ => (State::Idle, Action::Fatal),
    }
}

/// React to the driver's attempt to persist the image payload.  No path means
/// the temporary file could not be allocated or written, which is fatal; a
/// path that is not absolute cannot become a file URL, also fatal.  Otherwise
/// the image fix contributes the file's URL under the URI-list type, and the
/// pipeline goes on to the files fix or to fetching the originals.
pub fn on_temp_path(st: State, path: Option<String>) -> (r: (State, Action))
    ensures
        state_inv(&r.0),
        !(st is AwaitingTemp) ==> r.0 is Idle && r.1 is Fatal,
        st is AwaitingTemp && path is None ==> r.0 is Idle && r.1 is Fatal,
        st is AwaitingTemp ==> (path matches Some(p) ==> (!file_path_url_ok(p@) ==> r.0 is Idle
            && r.1 is Fatal)),
        st matches State::AwaitingTemp { mimes } ==> (path matches Some(p) ==> ((
        file_path_url_ok(p@) && has_mime(str_views(mimes@), spec_nautilus_mime())) ==> (
        r.0 matches State::FetchingFiles { mimes: m, synth } && m@ == mimes@ && synth@ == Map::<
            Seq<char>,
            Seq<u8>,
        >::empty().insert(spec_uri_list_mime(), spec_encode(file_url_of(p@))) && (r.1 matches
            Action::Fetch { mime } && mime@ == spec_nautilus_mime())))),
        st matches State::AwaitingTemp { mimes } ==> (path matches Some(p) ==> ((
        file_path_url_ok(p@) && !has_mime(str_views(mimes@), spec_nautilus_mime())) ==> (
        r.0 matches State::FetchingOriginals { synth } && synth@ == Map::<
            Seq<char>,
            Seq<u8>,
        >::empty().insert(spec_uri_list_mime(), spec_encode(file_url_of(p@))) && (r.1 matches
            Action::FetchAll { mimes: m } && m@ == mimes@)))),
{
    match st {
        State::AwaitingTemp { mimes } => {
            match path {
                Some(p) => {
                    match file_url_for_path(p.as_str()) {
                        Some(u) => {
                            let mut synth = Reps::new();
                            synth.insert(String::from_str(uri_list_mime_type()), string_to_bytes(u));
                            proof {
                                assert(synth@.dom().contains(spec_uri_list_mime()));
                                assert(synth@ != Map::<Seq<char>, Seq<u8>>::empty());
                                assert(synth@.dom().subset_of(set![spec_uri_list_mime()])) by {
                                    assert forall|k: Seq<char>|
                                        synth@.dom().contains(k) implies set![
                                        spec_uri_list_mime(),
                                    ].contains(k) by {}
                                }
                            }
                            if contains_mime(&mimes, nautilus_mime_type()) {
                                let mime = String::from_str(nautilus_mime_type());
                                (State::FetchingFiles { mimes, synth }, Action::Fetch { mime })
                            } else {
                                (State::FetchingOriginals { synth }, Action::FetchAll { mimes })
                            }
                        },
                        None => (State::Idle, Action::Fatal),
                    }
                },
                None => (State::Idle, Action::Fatal),
            }
        },
        _ => (State::Idle, Action::Fatal),
    }
}

/// React to the fetched original representations: merge them over the
/// synthesized ones (an original payload wins over a synthesized one under
/// the same mime type, and a mime type whose fetch failed is omitted) and
/// hand the merged set to the opposite side's writer.
pub fn on_originals(st: State, fetched: Vec<(String, Option<Vec<u8>>)>) -> (r: (State, Action))
    requires
        state_inv(&st),
    ensures
        state_inv(&r.0),
        !(st is FetchingOriginals) ==> r.0 is Idle && r.1 is Fatal,
        st matches State::FetchingOriginals { synth } ==> (r.0 is Publishing && (r.1 matches
            Action::Publish { reps } && reps.wf() && reps@ == synth@.union_prefer_right(
            some_map(fetched@),
        ))),
{
    match st {
        State::FetchingOriginals { mut synth } => {
            synth.extend_with(fetched);
            (State::Publishing, Action::Publish { reps: synth })
        },
        _ => (State::Idle, Action::Fatal),
    }
}

/// React to the writer's outcome: a successful publish completes the cycle
/// and the listener returns to Idle; a failed publish is fatal.
pub fn on_published(st: State, ok: bool) -> (r: (State, Action))
    ensures
        state_inv(&r.0),
        r.0 is Idle,
        st is Publishing && ok ==> r.1 is Wait,
        st is Publishing && !ok ==> r.1 is Fatal,
        !(st is Publishing) ==> r.1 is Fatal,
{
    match st {
        State::Publishing => {
            if ok {
                (State::Idle, Action::Wait)
            } else {
                (State::Idle, Action::Fatal)
            }
        },
        _ => (State::Idle, Action::Fatal),
    }
}

} // verus!
