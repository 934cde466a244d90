use gallery_scraper::batch::ItemEvents;
use gallery_scraper::batch::PageResult;
use gallery_scraper::batch::ItemState;
use gallery_scraper::batch::on_extracted;
use gallery_scraper::batch::process_item;
use gallery_scraper::batch::run_batch;
use gallery_scraper::errors::DownloadError;
use gallery_scraper::errors::ExtractStep;
use gallery_scraper::errors::ItemError;
use gallery_scraper::extract::ExtractedContent;
use gallery_scraper::extract::plan_item;
use gallery_scraper::filename::derive_filename;
use gallery_scraper::site::Site;
use gallery_scraper::site::classify;
use gallery_scraper::text::remove_quotes;
use gallery_scraper::text::str_contains;

fn good_events(title: &str, aux: Option<&str>, image_url: &str) -> ItemEvents {
    ItemEvents {
        navigated: true,
        extraction: Ok(ExtractedContent {
            title: String::from(title),
            aux: aux.map(String::from),
            image_url: Some(String::from(image_url)),
        }),
        download: Ok(()),
    }
}

#[test]
fn classify_recognizes_each_site() {
    assert!(matches!(
        classify("https://www.artmajeur.com/en/art-gallery/one"),
        Ok(Site::Artmajeur)
    ));
    assert!(matches!(
        classify("https://evapolak.example/prints/two"),
        Ok(Site::Evapolak)
    ));
}

#[test]
fn classify_rejects_unknown_urls() {
    assert!(matches!(
        classify("https://example.com/nothing-here"),
        Err(ItemError::UnrecognizedSite)
    ));
    assert!(matches!(classify(""), Err(ItemError::UnrecognizedSite)));
}

#[test]
fn classify_first_pattern_wins() {
    assert!(matches!(
        classify("https://www.artmajeur.com/redirect?to=evapolak"),
        Ok(Site::Artmajeur)
    ));
}

#[test]
fn classify_is_case_sensitive() {
    assert!(matches!(
        classify("https://www.ArtMajeur.com/en/one"),
        Err(ItemError::UnrecognizedSite)
    ));
}

#[test]
fn str_contains_finds_substrings() {
    assert!(str_contains("abcdef", "cde"));
    assert!(str_contains("abcdef", ""));
    assert!(str_contains("abcdef", "abcdef"));
    assert!(!str_contains("abcdef", "cdf"));
    assert!(!str_contains("ab", "abc"));
}

#[test]
fn remove_quotes_strips_only_double_quotes() {
    assert_eq!(remove_quotes("a\"b\"c"), "abc");
    assert_eq!(remove_quotes("\"\""), "");
    assert_eq!(remove_quotes("no quotes 'single' kept"), "no quotes 'single' kept");
}

#[test]
fn derive_filename_shop_layout_example() {
    let path = derive_filename(Site::Evapolak, "Sunset \"View\"", None);
    assert_eq!(path, "images/Sunset View-EvaPolak.jpg");
}

#[test]
fn derive_filename_gallery_layout_example() {
    let path = derive_filename(Site::Artmajeur, "Portrait", Some("JaneDoe"));
    assert_eq!(path, "images/Portrait-JaneDoe.jpg");
}

#[test]
fn derive_filename_accepts_an_empty_title() {
    assert_eq!(derive_filename(Site::Evapolak, "", None), "images/-EvaPolak.jpg");
    assert_eq!(derive_filename(Site::Artmajeur, "\"", Some("X")), "images/-X.jpg");
}

#[test]
fn derive_filename_is_deterministic() {
    let a = derive_filename(Site::Artmajeur, "Still \"Life\"", Some("JaneDoe"));
    let b = derive_filename(Site::Artmajeur, "Still \"Life\"", Some("JaneDoe"));
    assert_eq!(a, b);
    assert_eq!(a, "images/Still Life-JaneDoe.jpg");
    assert!(!a.contains('"'));
}

#[test]
fn plan_fails_without_image_url() {
    let content = ExtractedContent {
        title: String::from("Portrait"),
        aux: Some(String::from("JaneDoe")),
        image_url: None,
    };
    assert!(matches!(
        plan_item(Site::Artmajeur, content),
        Err(ItemError::Extraction(ExtractStep::MissingImageUrl))
    ));
}

#[test]
fn plan_fails_on_empty_image_url() {
    let content = ExtractedContent {
        title: String::from("Portrait"),
        aux: None,
        image_url: Some(String::new()),
    };
    assert!(matches!(
        plan_item(Site::Evapolak, content),
        Err(ItemError::Extraction(ExtractStep::MissingImageUrl))
    ));
}

#[test]
fn plan_fails_without_author_on_gallery_layout() {
    let content = ExtractedContent {
        title: String::from("Portrait"),
        aux: None,
        image_url: Some(String::from("https://img.example/1.jpg")),
    };
    assert!(matches!(
        plan_item(Site::Artmajeur, content),
        Err(ItemError::Extraction(ExtractStep::AuthorLink))
    ));
}

#[test]
fn plan_orders_download_when_complete() {
    let content = ExtractedContent {
        title: String::from("Sea \"Storm\""),
        aux: None,
        image_url: Some(String::from("https://img.example/sea.jpg")),
    };
    match plan_item(Site::Evapolak, content) {
        Ok(plan) => {
            assert_eq!(plan.url, "https://img.example/sea.jpg");
            assert_eq!(plan.path, "images/Sea Storm-EvaPolak.jpg");
        }
        Err(_) => panic!("expected a download order"),
    }
}

#[test]
fn missing_image_url_never_reaches_download() {
    let extraction = Ok(ExtractedContent {
        title: String::from("Portrait"),
        aux: None,
        image_url: None,
    });
    match on_extracted(Site::Evapolak, extraction) {
        ItemState::Done(PageResult::Failed(ItemError::Extraction(ExtractStep::MissingImageUrl))) => {}
        ItemState::AwaitDownload(_) => panic!("a download was ordered without an image URL"),
        _ => panic!("expected a terminal extraction failure"),
    }
}

#[test]
fn process_item_reports_each_failure_kind() {
    let nav_failed = ItemEvents { navigated: false, ..good_events("t", None, "u") };
    assert!(matches!(
        process_item("https://evapolak.example/p", nav_failed),
        PageResult::Failed(ItemError::Navigation)
    ));

    let extraction_failed = ItemEvents {
        extraction: Err(ExtractStep::Heading),
        ..good_events("t", None, "u")
    };
    assert!(matches!(
        process_item("https://evapolak.example/p", extraction_failed),
        PageResult::Failed(ItemError::Extraction(ExtractStep::Heading))
    ));

    let fetch_failed = ItemEvents {
        download: Err(DownloadError::Fetch),
        ..good_events("t", None, "u")
    };
    assert!(matches!(
        process_item("https://evapolak.example/p", fetch_failed),
        PageResult::Failed(ItemError::Fetch)
    ));

    let write_failed = ItemEvents {
        download: Err(DownloadError::Io),
        ..good_events("t", None, "u")
    };
    assert!(matches!(
        process_item("https://evapolak.example/p", write_failed),
        PageResult::Failed(ItemError::Io)
    ));

    assert!(matches!(
        process_item("https://example.com/p", good_events("t", None, "u")),
        PageResult::Failed(ItemError::UnrecognizedSite)
    ));
}

#[test]
fn batch_keeps_going_after_a_failure() {
    let urls = vec![
        String::from("https://evapolak.example/a"),
        String::from("https://evapolak.example/b"),
        String::from("https://www.artmajeur.com/c"),
    ];
    let events = vec![
        good_events("First", None, "https://img.example/a.jpg"),
        ItemEvents { navigated: false, ..good_events("Second", None, "x") },
        good_events("Third", Some("JaneDoe"), "https://img.example/c.jpg"),
    ];
    let outcomes = run_batch(&urls, events);
    assert_eq!(outcomes.len(), 3);
    match &outcomes[0] {
        PageResult::Downloaded(p) => assert_eq!(p, "images/First-EvaPolak.jpg"),
        _ => panic!("first item should succeed"),
    }
    assert!(matches!(outcomes[1], PageResult::Failed(ItemError::Navigation)));
    match &outcomes[2] {
        PageResult::Downloaded(p) => assert_eq!(p, "images/Third-JaneDoe.jpg"),
        _ => panic!("the item after a failure should still be attempted"),
    }
}

#[test]
fn batch_of_two_sites_downloads_both_in_order() {
    let urls = vec![
        String::from("https://www.artmajeur.com/en/art/one"),
        String::from("https://evapolak.example/prints/two"),
    ];
    let events = vec![
        good_events("Portrait", Some("JaneDoe"), "https://img.example/1.jpg"),
        good_events("Sunset \"View\"", None, "https://img.example/2.jpg"),
    ];
    let outcomes = run_batch(&urls, events);
    assert_eq!(outcomes.len(), 2);
    let first = match &outcomes[0] {
        PageResult::Downloaded(p) => p.clone(),
        _ => panic!("first item should succeed"),
    };
    let second = match &outcomes[1] {
        PageResult::Downloaded(p) => p.clone(),
        _ => panic!("second item should succeed"),
    };
    assert_eq!(first, "images/Portrait-JaneDoe.jpg");
    assert_eq!(second, "images/Sunset View-EvaPolak.jpg");
    assert_ne!(first, second);
    assert!(first.starts_with("images/"));
    assert!(second.starts_with("images/"));
}

#[test]
fn error_messages_name_the_failure() {
    assert_eq!(ItemError::UnrecognizedSite.message(), "not a valid page name");
    assert_eq!(ItemError::Navigation.message(), "could not load the page");
    assert_eq!(
        ItemError::Extraction(ExtractStep::LightboxTrigger).message(),
        "element not found: lightbox trigger"
    );
    assert_eq!(ItemError::Fetch.message(), "image request failed");
    assert_eq!(ItemError::Io.message(), "could not write the image file");
}
