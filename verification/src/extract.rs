//! What is scraped from one page, and the decision made on it: either a
//! download order or a classified extraction failure.

use vstd::prelude::*;
use crate::errors::ExtractStep;
use crate::errors::ItemError;
use crate::filename::derive_filename;
use crate::filename::spec_derive_filename;
use crate::site::Site;

verus! {

/// The transient pair scraped from one page: the raw title, the artist name
/// where the layout carries one, and the raw image URL where its attribute
/// was present.
pub struct ExtractedContent {
    /// The raw title text.
    pub title: String,
    /// The artist name read beside the title; present on the gallery layout.
    pub aux: Option<String>,
    /// The image URL read from the page's image attribute, if present.
    pub image_url: Option<String>,
}

/// The mathematical view of `ExtractedContent`.
pub struct ContentModel {
    /// The raw title text.
    pub title: Seq<char>,
    /// The artist name read beside the title, if present.
    pub aux: Option<Seq<char>>,
    /// The image URL, if its attribute was present.
    pub image_url: Option<Seq<char>>,
}

impl View for ExtractedContent {
    type V = ContentModel;

    open spec fn view(&self) -> ContentModel {
        ContentModel {
            title: self.title@,
            aux: match self.aux {
                Some(a) => Some(a@),
                None => None,
            },
            image_url: match self.image_url {
                Some(u) => Some(u@),
                None => None,
            },
        }
    }
}

/// The order to fetch one image: the URL to request and the path to write.
pub struct DownloadPlan {
    /// The image URL to request.
    pub url: String,
    /// The derived file path to write the bytes to.
    pub path: String,
}

/// The mathematical view of `DownloadPlan`.
pub struct PlanModel {
    /// The image URL to request.
    pub url: Seq<char>,
    /// The derived file path.
    pub path: Seq<char>,
}

impl View for DownloadPlan {
    type V = PlanModel;

    open spec fn view(&self) -> PlanModel {
        PlanModel { url: self.url@, path: self.path@ }
    }
}

/// The decision on one page's content: a download order when the required
/// pieces are present, else the extraction failure naming the missing piece.
/// The gallery layout requires the artist name; both layouts require a
/// non-empty image URL.
pub open spec fn spec_plan(site: Site, c: ContentModel) -> Result<PlanModel, ItemError> {
    if site is Artmajeur && c.aux is None {
        Err(ItemError::Extraction(ExtractStep::AuthorLink))
    } else {
        match c.image_url {
            None => Err(ItemError::Extraction(ExtractStep::MissingImageUrl)),
            Some(u) => if u.len() == 0 {
                Err(ItemError::Extraction(ExtractStep::MissingImageUrl))
            } else {
                Ok(PlanModel { url: u, path: spec_derive_filename(site, c.title, c.aux) })
            },
        }
    }
}

/// Decides what to do with one page's extracted content: succeeds with the
/// image URL and the derived file path exactly when the required pieces are
/// present and the image URL is non-empty; fails with the extraction error
/// naming the missing piece otherwise. In particular, when the image URL is
/// absent or empty the item fails and no download order is produced.
pub fn plan_item(site: Site, content: ExtractedContent) -> (r: Result<DownloadPlan, ItemError>)
    ensures
        match spec_plan(site, content@) {
            Ok(p) => r is Ok && r->Ok_0@ == p,
            Err(e) => r == Err::<DownloadPlan, ItemError>(e),
        },
{
    if matches!(site, Site::Artmajeur) && content.aux.is_none() {
        return Err(ItemError::Extraction(ExtractStep::AuthorLink));
    }
    match content.image_url {
        None => Err(ItemError::Extraction(ExtractStep::MissingImageUrl)),
        Some(url) => {
            if url.as_str().unicode_len() == 0 {
                Err(ItemError::Extraction(ExtractStep::MissingImageUrl))
            } else {
                let aux_ref: Option<&str> = match &content.aux {
                    Some(a) => Some(a.as_str()),
                    None => None,
                };
                let path = derive_filename(site, content.title.as_str(), aux_ref);
                Ok(DownloadPlan { url, path })
            }
        },
    }
}

} // verus!
