use gallery_scraper::errors::ExtractStep;
use gallery_scraper::site::Site;
use gallery_scraper::traversal::aux_path;
use gallery_scraper::traversal::image_attr;
use gallery_scraper::traversal::image_path;
use gallery_scraper::traversal::title_path;
use gallery_scraper::traversal::Selector;

fn class_name(sel: &Selector) -> Option<&'static str> {
    match sel {
        Selector::ClassName(c) => Some(c),
        Selector::Tag(_) => None,
    }
}

fn tag(sel: &Selector) -> Option<&'static str> {
    match sel {
        Selector::Tag(t) => Some(t),
        Selector::ClassName(_) => None,
    }
}

#[test]
fn gallery_layout_title_path() {
    let path = title_path(Site::Artmajeur);
    assert_eq!(path.len(), 3);
    assert_eq!(class_name(&path[0].selector), Some("d-sm-flex"));
    assert_eq!(path[0].on_missing, ExtractStep::GalleryContainer);
    assert_eq!(class_name(&path[1].selector), Some("order-sm-1"));
    assert_eq!(path[1].on_missing, ExtractStep::OrderedChild);
    assert_eq!(class_name(&path[2].selector), Some("text-uppercase"));
    assert_eq!(path[2].on_missing, ExtractStep::TitleText);
}

#[test]
fn gallery_layout_author_and_image() {
    let path = aux_path(Site::Artmajeur).expect("the gallery layout carries an artist name");
    assert_eq!(path.len(), 3);
    assert_eq!(tag(&path[2].selector), Some("a"));
    assert_eq!(path[2].on_missing, ExtractStep::AuthorLink);

    let image = image_path(Site::Artmajeur);
    assert_eq!(image.len(), 1);
    assert_eq!(class_name(&image[0].selector), Some("img-main"));
    assert_eq!(image[0].on_missing, ExtractStep::MainImage);
    assert_eq!(image_attr(Site::Artmajeur), "src");
}

#[test]
fn shop_layout_paths() {
    let path = title_path(Site::Evapolak);
    assert_eq!(path.len(), 2);
    assert_eq!(class_name(&path[0].selector), Some("art-print-products-show"));
    assert_eq!(path[0].on_missing, ExtractStep::ProductShow);
    assert_eq!(tag(&path[1].selector), Some("h1"));
    assert_eq!(path[1].on_missing, ExtractStep::Heading);

    assert!(aux_path(Site::Evapolak).is_none());

    let image = image_path(Site::Evapolak);
    assert_eq!(image.len(), 1);
    assert_eq!(class_name(&image[0].selector), Some("fancybox-button"));
    assert_eq!(image[0].on_missing, ExtractStep::LightboxTrigger);
    assert_eq!(image_attr(Site::Evapolak), "href");
}
