//! The per-item error taxonomy and its report messages.

use vstd::prelude::*;
use vstd::string::StringExecFns;

verus! {

/// The traversal step, or attribute lookup, at which a page's extraction
/// failed.
#[derive(Clone, Copy, Debug, PartialEq, Eq, Structural)]
pub enum ExtractStep {
    /// The structural container of the gallery layout.
    GalleryContainer,
    /// The ordered child holding the title block.
    OrderedChild,
    /// The styled text element holding the title.
    TitleText,
    /// The sibling link element holding the artist name.
    AuthorLink,
    /// The page-level main image element.
    MainImage,
    /// The product-show container of the shop layout.
    ProductShow,
    /// The heading element holding the title.
    Heading,
    /// The lightbox trigger element holding the image link.
    LightboxTrigger,
    /// The image-URL attribute was absent or empty.
    MissingImageUrl,
}

/// Why fetching the image bytes, or writing them, failed.
#[derive(Clone, Copy, Debug, PartialEq, Eq, Structural)]
pub enum DownloadError {
    /// The HTTP response was not a success.
    Fetch,
    /// The destination file could not be created or written.
    Io,
}

/// A per-item failure: any of these moves the item to its failed outcome and
/// lets the batch go on with the next item.
#[derive(Clone, Copy, Debug, PartialEq, Eq, Structural)]
pub enum ItemError {
    /// The URL matched no known site pattern.
    UnrecognizedSite,
    /// The browser failed to load the URL.
    Navigation,
    /// An expected DOM element or attribute was absent.
    Extraction(ExtractStep),
    /// The HTTP response for the image was not a success.
    Fetch,
    /// The image file could not be created or written.
    Io,
}

impl ExtractStep {
    /// The name of the step, for a report line.
    pub open spec fn spec_name(self) -> Seq<char> {
        match self {
            ExtractStep::GalleryContainer => "gallery container"@,
            ExtractStep::OrderedChild => "ordered child"@,
            ExtractStep::TitleText => "title text"@,
            ExtractStep::AuthorLink => "author link"@,
            ExtractStep::MainImage => "main image"@,
            ExtractStep::ProductShow => "product show container"@,
            ExtractStep::Heading => "heading"@,
            ExtractStep::LightboxTrigger => "lightbox trigger"@,
            ExtractStep::MissingImageUrl => "image URL"@,
        }
    }

    /// The name of the step as a string.
    pub fn name(&self) -> (r: String)
        ensures
            r@ == self.spec_name(),
    {
        match self {
            ExtractStep::GalleryContainer => String::from_str("gallery container"),
            ExtractStep::OrderedChild => String::from_str("ordered child"),
            ExtractStep::TitleText => String::from_str("title text"),
            ExtractStep::AuthorLink => String::from_str("author link"),
            ExtractStep::MainImage => String::from_str("main image"),
            ExtractStep::ProductShow => String::from_str("product show container"),
            ExtractStep::Heading => String::from_str("heading"),
            ExtractStep::LightboxTrigger => String::from_str("lightbox trigger"),
            ExtractStep::MissingImageUrl => String::from_str("image URL"),
        }
    }
}

impl ItemError {
    /// The report message for the error.
    pub open spec fn spec_message(self) -> Seq<char> {
        match self {
            ItemError::UnrecognizedSite => "not a valid page name"@,
            ItemError::Navigation => "could not load the page"@,
            ItemError::Extraction(step) => "element not found: "@ + step.spec_name(),
            ItemError::Fetch => "image request failed"@,
            ItemError::Io => "could not write the image file"@,
        }
    }

    /// The report message as a string.
    pub fn message(&self) -> (r: String)
        ensures
            r@ == self.spec_message(),
    {
        match self {
            ItemError::UnrecognizedSite => String::from_str("not a valid page name"),
            ItemError::Navigation => String::from_str("could not load the page"),
            ItemError::Extraction(step) => {
                let mut m = String::from_str("element not found: ");
                let n = step.name();
                m.append(n.as_str());
                m
            },
            ItemError::Fetch => String::from_str("image request failed"),
            ItemError::Io => String::from_str("could not write the image file"),
        }
    }
}

} // verus!
