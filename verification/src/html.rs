//! Cleaning user-written HTML with the `ammonia` crate before it is stored.

use vstd::prelude::*;

verus! {

/// What `ammonia::clean` makes of a text: the HTML with only the crate's
/// default tags, attributes and URL schemes left.
pub uninterp spec fn html_clean_spec(src: Seq<char>) -> Seq<char>;

/// What an `ammonia::Builder` that allows only the given tags, each with the
/// given attributes (added to the builder's defaults), makes of a text.
pub uninterp spec fn html_clean_allowing_spec(
    src: Seq<char>,
    tags: Seq<Seq<char>>,
    tag_attributes: Seq<(Seq<char>, Seq<Seq<char>>)>,
) -> Seq<char>;

/// The views of a list of string slices.
pub open spec fn str_views(v: Seq<&str>) -> Seq<Seq<char>> {
    Seq::new(v.len(), |i: int| v[i]@)
}

/// The views of a table of tags and their attributes.
pub open spec fn tag_attribute_views(v: Seq<(&str, &[&str])>) -> Seq<(Seq<char>, Seq<Seq<char>>)> {
    Seq::new(v.len(), |i: int| (v[i].0@, str_views(v[i].1@)))
}

/// `ammonia::clean`: cleans a text with the crate's defaults. The result is
/// named by `html_clean_spec`.
#[verifier::external_body]
pub(crate) fn html_clean(src: &str) -> (r: String)
    ensures
        r@ == html_clean_spec(src@),
{
    ammonia::clean(src)
}

/// Whether a tag may not be allowed in a builder: `Builder::clean` asserts
/// that no allowed tag is one whose content it removes (`script`, `style`,
/// the defaults) or an SVG animation tag.
pub open spec fn unsupported_allowed_tag(t: Seq<char>) -> bool {
    t == "script"@ || t == "style"@ || t == "animate"@ || t == "animateTransform"@ || t == "animateMotion"@
        || t == "animateColor"@ || t == "set"@
}

/// The tables with which `Builder::clean` runs without panicking, on top of
/// the defaults: no unsupported allowed tag, no attributes for a tag whose
/// content is removed, and no `rel` attribute for `a` (the default
/// `link_rel` writes it).
pub open spec fn supported_cleaning(tags: Seq<Seq<char>>, tag_attributes: Seq<(Seq<char>, Seq<Seq<char>>)>) -> bool {
    &&& forall|i: int| 0 <= i < tags.len() ==> !unsupported_allowed_tag(#[trigger] tags[i])
    &&& forall|i: int|
        0 <= i < tag_attributes.len() ==> (#[trigger] tag_attributes[i]).0 != "script"@
            && tag_attributes[i].0 != "style"@ && (tag_attributes[i].0 == "a"@ ==> !tag_attributes[i].1.contains(
            "rel"@,
        ))
}

/// `ammonia::Builder::default()`, then `tags` with the allowed tags,
/// `add_tag_attributes` for each row of the table, and `clean`. The result
/// is named by `html_clean_allowing_spec`. `clean` asserts on its
/// configuration (see `supported_cleaning`); the `requires` leaves out the
/// tables on which it would panic.
#[verifier::external_body]
pub(crate) fn html_clean_allowing(
    src: &str,
    tags: &[&'static str],
    tag_attributes: &[(&'static str, &'static [&'static str])],
) -> (r: String)
    requires
        supported_cleaning(str_views(tags@), tag_attribute_views(tag_attributes@)),
    ensures
        r@ == html_clean_allowing_spec(src@, str_views(tags@), tag_attribute_views(tag_attributes@)),
{
    let mut builder = ammonia::Builder::default();
    builder.tags(tags.iter().copied().collect());
    for (tag, attributes) in tag_attributes {
        builder.add_tag_attributes(*tag, attributes.iter());
    }
    builder.clean(src).to_string()
}

} // verus!
