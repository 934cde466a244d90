//! Deriving the output file path from an extracted title.

use vstd::prelude::*;
use vstd::string::StringExecFns;
use crate::site::Site;
use crate::text::lemma_no_quotes_concat;
use crate::text::lemma_remove_quotes_no_quotes;
use crate::text::no_quotes;
use crate::text::remove_quotes;
use crate::text::spec_remove_quotes;

verus! {

/// The view of an optional string.
pub open spec fn opt_view(s: Option<&str>) -> Option<Seq<char>> {
    match s {
        Some(a) => Some(a@),
        None => None,
    }
}

/// The site-specific name component placed after the title: for the gallery
/// layout the artist name extracted beside the title, for the shop layout a
/// fixed name.
pub open spec fn spec_suffix(site: Site, aux: Option<Seq<char>>) -> Seq<char> {
    match site {
        Site::Artmajeur => aux.unwrap(),
        Site::Evapolak => "EvaPolak"@,
    }
}

/// The derived file path: the images directory, the title with every
/// double-quote removed, a dash, the site-specific name component, and the
/// jpg extension. A pure function of its arguments; characters other than
/// double quotes are kept as they are.
pub open spec fn spec_derive_filename(site: Site, title: Seq<char>, aux: Option<Seq<char>>) -> Seq<
    char,
> {
    "images/"@ + spec_remove_quotes(title) + "-"@ + spec_suffix(site, aux) + ".jpg"@
}

/// Derives the output file path for one extracted page.
pub fn derive_filename(site: Site, title: &str, aux: Option<&str>) -> (r: String)
    requires
        site is Artmajeur ==> aux is Some,
    ensures
        r@ == spec_derive_filename(site, title@, opt_view(aux)),
{
    let cleaned = remove_quotes(title);
    let mut out = String::from_str("images/");
    out.append(cleaned.as_str());
    out.append("-");
    match site {
        Site::Artmajeur => {
            let a = aux.unwrap();
            out.append(a);
        },
        Site::Evapolak => {
            out.append("EvaPolak");
        },
    }
    out.append(".jpg");
    out
}

/// Law: filename derivation is pure: identical (site, title, aux) always
/// yield the identical path, and the path depends on nothing else.
pub proof fn lemma_derive_filename_pure(
    site1: Site,
    title1: Seq<char>,
    aux1: Option<Seq<char>>,
    site2: Site,
    title2: Seq<char>,
    aux2: Option<Seq<char>>,
)
    requires
        site1 == site2,
        title1 == title2,
        aux1 == aux2,
    ensures
        spec_derive_filename(site1, title1, aux1) == spec_derive_filename(site2, title2, aux2),
{
}

/// Law: the derived file path holds no double-quote character, whatever the
/// title, as long as the artist-name component (where one is used) holds
/// none. In particular every double quote of the title is absent from the
/// path.
pub proof fn lemma_derive_filename_no_quotes(site: Site, title: Seq<char>, aux: Option<Seq<char>>)
    requires
        site is Artmajeur ==> aux is Some && no_quotes(aux.unwrap()),
    ensures
        no_quotes(spec_derive_filename(site, title, aux)),
{
    reveal_strlit("images/");
    reveal_strlit("-");
    reveal_strlit(".jpg");
    reveal_strlit("EvaPolak");
    assert(no_quotes("images/"@));
    assert(no_quotes("-"@));
    assert(no_quotes(".jpg"@));
    assert(no_quotes("EvaPolak"@));
    lemma_remove_quotes_no_quotes(title);
    assert(no_quotes(spec_suffix(site, aux)));
    lemma_no_quotes_concat("images/"@, spec_remove_quotes(title));
    lemma_no_quotes_concat("images/"@ + spec_remove_quotes(title), "-"@);
    lemma_no_quotes_concat("images/"@ + spec_remove_quotes(title) + "-"@, spec_suffix(site, aux));
    lemma_no_quotes_concat(
        "images/"@ + spec_remove_quotes(title) + "-"@ + spec_suffix(site, aux),
        ".jpg"@,
    );
}

} // verus!
