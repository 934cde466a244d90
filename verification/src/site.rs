//! Site classification: matching a URL against the table of known site
//! patterns, in priority order.

use vstd::prelude::*;
use crate::errors::ItemError;
use crate::text::contains_seq;
use crate::text::str_contains;

verus! {

/// A supported page layout. Each variant is bound to one URL pattern and one
/// fixed extraction rule.
#[derive(Clone, Copy, Debug, PartialEq, Eq, Structural)]
pub enum Site {
    /// The marketplace layout whose pages carry the artist name beside the
    /// title.
    Artmajeur,
    /// The single-artist shop layout.
    Evapolak,
}

/// The table of (URL pattern, site) pairs, checked in priority order: the
/// first pattern contained in the URL wins.
pub open spec fn spec_patterns() -> Seq<(Seq<char>, Site)> {
    seq![("artmajeur"@, Site::Artmajeur), ("evapolak"@, Site::Evapolak)]
}

/// The classification a table of patterns gives to `url`: the site of the
/// first pattern contained in `url`, if any.
pub open spec fn spec_classify_table(url: Seq<char>, table: Seq<(Seq<char>, Site)>) -> Option<
    Site,
>
    decreases table.len(),
{
    if table.len() == 0 {
        None
    } else if contains_seq(url, table[0].0) {
        Some(table[0].1)
    } else {
        spec_classify_table(url, table.drop_first())
    }
}

/// The site a URL belongs to, per the pattern table.
pub open spec fn spec_classify(url: Seq<char>) -> Option<Site> {
    spec_classify_table(url, spec_patterns())
}

/// The pattern table as executable data, one row per supported site.
pub fn site_patterns() -> (table: Vec<(&'static str, Site)>)
    ensures
        table@.len() == spec_patterns().len(),
        forall|k: int|
            0 <= k < table@.len() ==> (#[trigger] table@[k]).0@ == spec_patterns()[k].0
                && table@[k].1 == spec_patterns()[k].1,
{
    let mut table: Vec<(&'static str, Site)> = Vec::new();
    table.push(("artmajeur", Site::Artmajeur));
    table.push(("evapolak", Site::Evapolak));
    table
}

/// Classifies a URL by the first pattern of the table it contains; fails
/// exactly when the URL contains no known pattern.
pub fn classify(url: &str) -> (r: Result<Site, ItemError>)
    ensures
        match spec_classify(url@) {
            Some(site) => r == Ok::<Site, ItemError>(site),
            None => r == Err::<Site, ItemError>(ItemError::UnrecognizedSite),
        },
{
    let table = site_patterns();
    proof {
        assert(spec_patterns().skip(0) =~= spec_patterns());
    }
    let mut k: usize = 0;
    while k < table.len()
        invariant
            table@.len() == spec_patterns().len(),
            forall|j: int|
                0 <= j < table@.len() ==> (#[trigger] table@[j]).0@ == spec_patterns()[j].0
                    && table@[j].1 == spec_patterns()[j].1,
            0 <= k <= table@.len(),
            spec_classify(url@) == spec_classify_table(url@, spec_patterns().skip(k as int)),
        decreases table@.len() - k,
    {
        proof {
            assert(spec_patterns().skip(k as int)[0] == spec_patterns()[k as int]);
        }
        if str_contains(url, table[k].0) {
            return Ok(table[k].1);
        }
        proof {
            assert(spec_patterns().skip(k as int).drop_first() =~= spec_patterns().skip(
                k as int + 1,
            ));
        }
        k += 1;
    }
    proof {
        assert(spec_patterns().skip(spec_patterns().len() as int) =~= Seq::<(
            Seq<char>,
            Site,
        )>::empty());
    }
    Err(ItemError::UnrecognizedSite)
}

/// Law: a URL containing the first site's pattern and not the second's
/// classifies as the first site; one containing the second's and not the
/// first's classifies as the second; one containing neither is unrecognized.
pub proof fn lemma_classify_patterns(url: Seq<char>)
    ensures
        contains_seq(url, "artmajeur"@) ==> spec_classify(url) == Some(Site::Artmajeur),
        !contains_seq(url, "artmajeur"@) && contains_seq(url, "evapolak"@) ==> spec_classify(url)
            == Some(Site::Evapolak),
        !contains_seq(url, "artmajeur"@) && !contains_seq(url, "evapolak"@) ==> spec_classify(url)
            is None,
{
    let t = spec_patterns();
    let t1 = t.drop_first();
    let t2 = t1.drop_first();
    assert(t[0] == ("artmajeur"@, Site::Artmajeur));
    assert(t1.len() == 1);
    assert(t1[0] == t[1]);
    assert(t[1] == ("evapolak"@, Site::Evapolak));
    assert(t2.len() == 0);
    if !contains_seq(url, "artmajeur"@) {
        assert(spec_classify(url) == spec_classify_table(url, t1));
        if contains_seq(url, "evapolak"@) {
            assert(spec_classify_table(url, t1) == Some(Site::Evapolak));
        } else {
            assert(spec_classify_table(url, t1) == spec_classify_table(url, t2));
            assert(spec_classify_table(url, t2) is None);
        }
    }
}

} // verus!
