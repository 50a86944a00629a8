use vstd::prelude::*;

verus! {

/// View of the recursion-guard marker mime type: the reserved identifier that
/// marks an offer as produced by this bridge.  It carries no payload bytes.
pub open spec fn spec_marker_mime() -> Seq<char> {
    "application/x-clipfixd-block-recursive"@
}

/// View of the opaque image mime type that stalls slow consumers.
pub open spec fn spec_qt_image_mime() -> Seq<char> {
    "application/x-qt-image"@
}

/// View of the "copied files" mime type: a line-oriented list of file URLs.
pub open spec fn spec_nautilus_mime() -> Seq<char> {
    "x-special/gnome-copied-files"@
}

/// View of the broadly compatible plain-text URI-list mime type that the
/// translation rules synthesize.
pub open spec fn spec_uri_list_mime() -> Seq<char> {
    "text/uri-list"@
}

/// The reserved mime type that marks an offer as produced by this bridge.
pub fn marker_mime_type() -> (r: &'static str)
    ensures
        r@ == spec_marker_mime(),
{
    "application/x-clipfixd-block-recursive"
}

/// The opaque image mime type that triggers the image-payload fix.
pub fn qt_image_mime_type() -> (r: &'static str)
    ensures
        r@ == spec_qt_image_mime(),
{
    "application/x-qt-image"
}

/// The "copied files" mime type that triggers the files-as-text fix.
pub fn nautilus_mime_type() -> (r: &'static str)
    ensures
        r@ == spec_nautilus_mime(),
{
    "x-special/gnome-copied-files"
}

/// The mime type of the representations that the translation rules synthesize.
pub fn uri_list_mime_type() -> (r: &'static str)
    ensures
        r@ == spec_uri_list_mime(),
{
    "text/uri-list"
}

/// File-name prefix for the temporary files that hold persisted image payloads.
pub fn temp_file_prefix() -> (r: &'static str)
    ensures
        r@ == "clipfixd"@,
{
    "clipfixd"
}

/// File-name suffix for the temporary files that hold persisted image payloads.
pub fn temp_file_suffix() -> (r: &'static str)
    ensures
        r@ == ".png"@,
{
    ".png"
}

/// The four mime identifiers the bridge reserves or reacts to are pairwise
/// distinct, so inserting a synthesized representation or the guard marker
/// never collides with the other special identifiers.
pub proof fn lemma_special_mimes_distinct()
    ensures
        spec_marker_mime() != spec_uri_list_mime(),
        spec_marker_mime() != spec_qt_image_mime(),
        spec_marker_mime() != spec_nautilus_mime(),
        spec_uri_list_mime() != spec_qt_image_mime(),
        spec_uri_list_mime() != spec_nautilus_mime(),
        spec_qt_image_mime() != spec_nautilus_mime(),
{
    reveal_strlit("application/x-clipfixd-block-recursive");
    reveal_strlit("application/x-qt-image");
    reveal_strlit("x-special/gnome-copied-files");
    reveal_strlit("text/uri-list");
    assert(spec_marker_mime().len() == 38);
    assert(spec_qt_image_mime().len() == 22);
    assert(spec_nautilus_mime().len() == 28);
    assert(spec_uri_list_mime().len() == 13);
}

} // verus!
