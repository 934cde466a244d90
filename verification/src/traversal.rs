//! The fixed DOM traversal paths of each site's extraction rule, as data:
//! a sequence of find-child steps ending at the title text, at the artist
//! name where the layout carries one, and at the element whose attribute
//! holds the image URL.

use vstd::prelude::*;
use crate::errors::ExtractStep;
use crate::site::Site;

verus! {

/// How one element is selected from the previous step's element (or from the
/// page root at the first step).
pub enum Selector {
    /// By CSS class name.
    ClassName(&'static str),
    /// By tag name.
    Tag(&'static str),
}

/// The mathematical view of `Selector`.
pub enum SelectorModel {
    /// By CSS class name.
    ClassName(Seq<char>),
    /// By tag name.
    Tag(Seq<char>),
}

impl View for Selector {
    type V = SelectorModel;

    open spec fn view(&self) -> SelectorModel {
        match self {
            Selector::ClassName(c) => SelectorModel::ClassName(c@),
            Selector::Tag(t) => SelectorModel::Tag(t@),
        }
    }
}

/// One traversal step: which element to find, and the extraction step
/// reported when it is absent.
pub struct Step {
    /// Which element to find.
    pub selector: Selector,
    /// The step reported when no matching element is found.
    pub on_missing: ExtractStep,
}

/// The mathematical view of `Step`.
pub struct StepModel {
    /// Which element to find.
    pub selector: SelectorModel,
    /// The step reported when no matching element is found.
    pub on_missing: ExtractStep,
}

impl View for Step {
    type V = StepModel;

    open spec fn view(&self) -> StepModel {
        StepModel { selector: self.selector@, on_missing: self.on_missing }
    }
}

/// `p` is exactly the path `m`, step for step.
pub open spec fn path_matches(p: Seq<Step>, m: Seq<StepModel>) -> bool {
    &&& p.len() == m.len()
    &&& forall|k: int| 0 <= k < p.len() ==> (#[trigger] p[k])@ == m[k]
}

/// The path from the page root to the site's title text element.
pub open spec fn spec_title_path(site: Site) -> Seq<StepModel> {
    match site {
        Site::Artmajeur => seq![
            StepModel {
                selector: SelectorModel::ClassName("d-sm-flex"@),
                on_missing: ExtractStep::GalleryContainer,
            },
            StepModel {
                selector: SelectorModel::ClassName("order-sm-1"@),
                on_missing: ExtractStep::OrderedChild,
            },
            StepModel {
                selector: SelectorModel::ClassName("text-uppercase"@),
                on_missing: ExtractStep::TitleText,
            },
        ],
        Site::Evapolak => seq![
            StepModel {
                selector: SelectorModel::ClassName("art-print-products-show"@),
                on_missing: ExtractStep::ProductShow,
            },
            StepModel { selector: SelectorModel::Tag("h1"@), on_missing: ExtractStep::Heading },
        ],
    }
}

/// The path to the artist-name element, where the layout carries one.
pub open spec fn spec_aux_path(site: Site) -> Option<Seq<StepModel>> {
    match site {
        Site::Artmajeur => Some(
            seq![
                StepModel {
                    selector: SelectorModel::ClassName("d-sm-flex"@),
                    on_missing: ExtractStep::GalleryContainer,
                },
                StepModel {
                    selector: SelectorModel::ClassName("order-sm-1"@),
                    on_missing: ExtractStep::OrderedChild,
                },
                StepModel {
                    selector: SelectorModel::Tag("a"@),
                    on_missing: ExtractStep::AuthorLink,
                },
            ],
        ),
        Site::Evapolak => None,
    }
}

/// The path from the page root to the element whose attribute holds the
/// image URL.
pub open spec fn spec_image_path(site: Site) -> Seq<StepModel> {
    match site {
        Site::Artmajeur => seq![
            StepModel {
                selector: SelectorModel::ClassName("img-main"@),
                on_missing: ExtractStep::MainImage,
            },
        ],
        Site::Evapolak => seq![
            StepModel {
                selector: SelectorModel::ClassName("fancybox-button"@),
                on_missing: ExtractStep::LightboxTrigger,
            },
        ],
    }
}

/// The attribute of the image element that holds the image URL.
pub open spec fn spec_image_attr(site: Site) -> Seq<char> {
    match site {
        Site::Artmajeur => "src"@,
        Site::Evapolak => "href"@,
    }
}

/// The path to the site's title text element, as executable data.
pub fn title_path(site: Site) -> (p: Vec<Step>)
    ensures
        path_matches(p@, spec_title_path(site)),
{
    let mut p: Vec<Step> = Vec::new();
    match site {
        Site::Artmajeur => {
            p.push(
                Step {
                    selector: Selector::ClassName("d-sm-flex"),
                    on_missing: ExtractStep::GalleryContainer,
                },
            );
            p.push(
                Step {
                    selector: Selector::ClassName("order-sm-1"),
                    on_missing: ExtractStep::OrderedChild,
                },
            );
            p.push(
                Step {
                    selector: Selector::ClassName("text-uppercase"),
                    on_missing: ExtractStep::TitleText,
                },
            );
        },
        Site::Evapolak => {
            p.push(
                Step {
                    selector: Selector::ClassName("art-print-products-show"),
                    on_missing: ExtractStep::ProductShow,
                },
            );
            p.push(Step { selector: Selector::Tag("h1"), on_missing: ExtractStep::Heading });
        },
    }
    p
}

/// The path to the artist-name element, as executable data.
pub fn aux_path(site: Site) -> (p: Option<Vec<Step>>)
    ensures
        match spec_aux_path(site) {
            Some(m) => p is Some && path_matches(p.unwrap()@, m),
            None => p is None,
        },
{
    match site {
        Site::Artmajeur => {
            let mut p: Vec<Step> = Vec::new();
            p.push(
                Step {
                    selector: Selector::ClassName("d-sm-flex"),
                    on_missing: ExtractStep::GalleryContainer,
                },
            );
            p.push(
                Step {
                    selector: Selector::ClassName("order-sm-1"),
                    on_missing: ExtractStep::OrderedChild,
                },
            );
            p.push(Step { selector: Selector::Tag("a"), on_missing: ExtractStep::AuthorLink });
            Some(p)
        },
        Site::Evapolak => None,
    }
}

/// The path to the image element, as executable data.
pub fn image_path(site: Site) -> (p: Vec<Step>)
    ensures
        path_matches(p@, spec_image_path(site)),
{
    let mut p: Vec<Step> = Vec::new();
    match site {
        Site::Artmajeur => {
            p.push(
                Step {
                    selector: Selector::ClassName("img-main"),
                    on_missing: ExtractStep::MainImage,
                },
            );
        },
        Site::Evapolak => {
            p.push(
                Step {
                    selector: Selector::ClassName("fancybox-button"),
                    on_missing: ExtractStep::LightboxTrigger,
                },
            );
        },
    }
    p
}

/// The name of the attribute holding the image URL.
pub fn image_attr(site: Site) -> (r: &'static str)
    ensures
        r@ == spec_image_attr(site),
{
    match site {
        Site::Artmajeur => "src",
        Site::Evapolak => "href",
    }
}

} // verus!
