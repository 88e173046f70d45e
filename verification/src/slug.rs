//! URL slugs of names, made by the `slugify` crate.

use vstd::prelude::*;

verus! {

/// The slug that `slugify::slugify(name, "", "-", None)` (the crate's
/// `slugify!` macro with its defaults) makes of a name.
pub uninterp spec fn slug_spec(name: Seq<char>) -> Seq<char>;

/// Whether a character may stand in a slug: a lowercase ASCII letter, a
/// digit or the separator `-`.
pub open spec fn slug_char(c: char) -> bool {
    ('a' <= c && c <= 'z') || ('0' <= c && c <= '9') || c == '-'
}

/// The shape of every slug: letters, digits and single separators, with no
/// separator at either end.
pub open spec fn well_formed_slug(s: Seq<char>) -> bool {
    &&& forall|i: int| 0 <= i < s.len() ==> slug_char(#[trigger] s[i])
    &&& s.len() > 0 ==> s[0] != '-' && s[s.len() - 1] != '-'
    &&& forall|i: int| 0 <= i < s.len() - 1 ==> !(#[trigger] s[i] == '-' && s[i + 1] == '-')
}

/// `slugify::slugify` with no stop words, the separator `-` and no maximum
/// length. The result is named by `slug_spec`. Its shape is what the crate's
/// loop builds: it keeps `a-z` and `0-9`, writes one separator for a run of
/// other characters only after a kept one (so never first, never twice in a
/// row) and drops a separator at the end.
#[verifier::external_body]
pub(crate) fn slugify_name(name: &str) -> (r: String)
    ensures
        r@ == slug_spec(name@),
        well_formed_slug(r@),
{
    slugify::slugify(name, "", "-", None)
}

/// The slug of a name.
pub fn slug_of(name: &str) -> (r: String)
    ensures
        r@ == slug_spec(name@),
        well_formed_slug(r@),
{
    slugify_name(name)
}

/// A slug holds no `/`, `?` or `#`, so a link `<host>/r/<slug>` names one
/// path segment and carries no query or fragment.
pub proof fn lemma_slug_is_one_segment(s: Seq<char>)
    requires
        well_formed_slug(s),
    ensures
        !s.contains('/'),
        !s.contains('?'),
        !s.contains('#'),
{
    if s.contains('/') {
        let i = choose|i: int| 0 <= i < s.len() && s[i] == '/';
        assert(slug_char(s[i]));
    }
    if s.contains('?') {
        let i = choose|i: int| 0 <= i < s.len() && s[i] == '?';
        assert(slug_char(s[i]));
    }
    if s.contains('#') {
        let i = choose|i: int| 0 <= i < s.len() && s[i] == '#';
        assert(slug_char(s[i]));
    }
}

} // verus!
