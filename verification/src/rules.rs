use vstd::prelude::*;

use crate::guard::contains_mime;
use crate::guard::has_mime;
use crate::mimes::nautilus_mime_type;
use crate::mimes::qt_image_mime_type;
use crate::mimes::spec_nautilus_mime;
use crate::mimes::spec_qt_image_mime;
use crate::mimes::spec_uri_list_mime;
use crate::mimes::uri_list_mime_type;
use crate::nautilus::str_views;

verus! {

/// One translation rule of the compatibility table.
#[derive(Clone, Copy, Debug, PartialEq, Eq, Structural)]
pub enum Rule {
    /// Persist an opaque image payload to a file and advertise its URL.
    ImageFix,
    /// Turn a copied-files payload into a plain URI-list text.
    FilesFix,
}

/// The rules that fire for an advertised mime set, in their fixed evaluation
/// order: the image fix first, the files fix second, so on an output-mime
/// collision the files fix (evaluated last) wins.
pub open spec fn spec_rules(ms: Seq<Seq<char>>) -> Seq<Rule> {
    (if has_mime(ms, spec_qt_image_mime()) {
        seq![Rule::ImageFix]
    } else {
        Seq::<Rule>::empty()
    }) + (if has_mime(ms, spec_nautilus_mime()) {
        seq![Rule::FilesFix]
    } else {
        Seq::<Rule>::empty()
    })
}

/// The pure rule table: which translation rules fire for an offer advertising
/// these mime types, in the fixed evaluation order.  Each rule fires at most
/// once per cycle.
pub fn translate(mimes: &Vec<String>) -> (r: Vec<Rule>)
    ensures
        r@ == spec_rules(str_views(mimes@)),
{
    let mut out: Vec<Rule> = Vec::new();
    if contains_mime(mimes, qt_image_mime_type()) {
        out.push(Rule::ImageFix);
    }
    if contains_mime(mimes, nautilus_mime_type()) {
        out.push(Rule::FilesFix);
    }
    proof {
        assert(out@ =~= spec_rules(str_views(mimes@)));
    }
    out
}

/// The mime type whose payload a rule fetches from the source offer.
pub fn rule_fetch_mime(r: &Rule) -> (m: &'static str)
    ensures
        r is ImageFix ==> m@ == spec_qt_image_mime(),
        r is FilesFix ==> m@ == spec_nautilus_mime(),
{
    match r {
        Rule::ImageFix => qt_image_mime_type(),
        Rule::FilesFix => nautilus_mime_type(),
    }
}

/// The mime type of the representation a rule synthesizes: both rules emit a
/// plain URI-list text.
pub fn rule_output_mime(r: &Rule) -> (m: &'static str)
    ensures
        m@ == spec_uri_list_mime(),
{
    match r {
        Rule::ImageFix => uri_list_mime_type(),
        Rule::FilesFix => uri_list_mime_type(),
    }
}

} // verus!
