//! The per-item state machine of the batch runner, and the sequential batch
//! itself: one URL at a time, any failure moving the item to its failed
//! outcome without stopping the batch.

use vstd::prelude::*;
use vstd::pervasive::unreached;
use crate::errors::DownloadError;
use crate::errors::ExtractStep;
use crate::errors::ItemError;
use crate::extract::ContentModel;
use crate::extract::DownloadPlan;
use crate::extract::ExtractedContent;
use crate::extract::PlanModel;
use crate::extract::plan_item;
use crate::extract::spec_plan;
use crate::site::Site;
use crate::site::classify;
use crate::site::spec_classify;

verus! {

/// The outcome of processing one URL: the derived file path on success, or
/// the classified failure.
pub enum PageResult {
    /// The image was fetched and written to the named path.
    Downloaded(String),
    /// The item failed; the batch goes on with the next item.
    Failed(ItemError),
}

/// The mathematical view of `PageResult`.
pub enum OutcomeModel {
    /// The image was fetched and written to the named path.
    Downloaded(Seq<char>),
    /// The item failed.
    Failed(ItemError),
}

impl View for PageResult {
    type V = OutcomeModel;

    open spec fn view(&self) -> OutcomeModel {
        match self {
            PageResult::Downloaded(p) => OutcomeModel::Downloaded(p@),
            PageResult::Failed(e) => OutcomeModel::Failed(*e),
        }
    }
}

/// Where one item stands: each per-item step either advances the item or
/// moves it to its terminal outcome.
pub enum ItemState {
    /// Classified; waiting for the browser to load the URL.
    AwaitNavigation(Site),
    /// Navigated; waiting for the page's content to be extracted.
    AwaitExtraction(Site),
    /// Extracted; waiting for the image to be fetched and written.
    AwaitDownload(DownloadPlan),
    /// Terminal: the item's outcome is decided.
    Done(PageResult),
}

/// The mathematical view of `ItemState`.
pub enum StateModel {
    /// Classified; waiting for navigation.
    AwaitNavigation(Site),
    /// Navigated; waiting for extraction.
    AwaitExtraction(Site),
    /// Extracted; waiting for the download.
    AwaitDownload(PlanModel),
    /// Terminal.
    Done(OutcomeModel),
}

impl View for ItemState {
    type V = StateModel;

    open spec fn view(&self) -> StateModel {
        match self {
            ItemState::AwaitNavigation(site) => StateModel::AwaitNavigation(*site),
            ItemState::AwaitExtraction(site) => StateModel::AwaitExtraction(*site),
            ItemState::AwaitDownload(plan) => StateModel::AwaitDownload(plan@),
            ItemState::Done(r) => StateModel::Done(r@),
        }
    }
}

/// An item starts by classifying its URL: an unrecognized URL is a terminal
/// failure, a recognized one waits for navigation.
pub open spec fn spec_start_item(url: Seq<char>) -> StateModel {
    match spec_classify(url) {
        Some(site) => StateModel::AwaitNavigation(site),
        None => StateModel::Done(OutcomeModel::Failed(ItemError::UnrecognizedSite)),
    }
}

/// Starts one item on its URL.
pub fn start_item(url: &str) -> (s: ItemState)
    ensures
        s@ == spec_start_item(url@),
{
    match classify(url) {
        Ok(site) => ItemState::AwaitNavigation(site),
        Err(e) => ItemState::Done(PageResult::Failed(e)),
    }
}

/// A failed navigation is a terminal failure; a successful one waits for
/// extraction.
pub open spec fn spec_on_navigated(site: Site, ok: bool) -> StateModel {
    if ok {
        StateModel::AwaitExtraction(site)
    } else {
        StateModel::Done(OutcomeModel::Failed(ItemError::Navigation))
    }
}

/// Advances an item waiting for navigation.
pub fn on_navigated(site: Site, ok: bool) -> (s: ItemState)
    ensures
        s@ == spec_on_navigated(site, ok),
{
    if ok {
        ItemState::AwaitExtraction(site)
    } else {
        ItemState::Done(PageResult::Failed(ItemError::Navigation))
    }
}

/// A failed traversal step is a terminal failure naming the step; extracted
/// content either yields a download order or fails on a missing piece.
pub open spec fn spec_on_extracted(site: Site, extraction: Result<
    ContentModel,
    ExtractStep,
>) -> StateModel {
    match extraction {
        Err(step) => StateModel::Done(OutcomeModel::Failed(ItemError::Extraction(step))),
        Ok(c) => match spec_plan(site, c) {
            Err(e) => StateModel::Done(OutcomeModel::Failed(e)),
            Ok(p) => StateModel::AwaitDownload(p),
        },
    }
}

/// Advances an item waiting for extraction. When the image URL is absent or
/// empty the item ends failed and no download order exists, so no download
/// is ever performed for it.
pub fn on_extracted(site: Site, extraction: Result<ExtractedContent, ExtractStep>) -> (s:
    ItemState)
    ensures
        s@ == spec_on_extracted(
            site,
            match extraction {
                Ok(c) => Ok(c@),
                Err(step) => Err(step),
            },
        ),
{
    match extraction {
        Err(step) => ItemState::Done(PageResult::Failed(ItemError::Extraction(step))),
        Ok(content) => match plan_item(site, content) {
            Err(e) => ItemState::Done(PageResult::Failed(e)),
            Ok(plan) => ItemState::AwaitDownload(plan),
        },
    }
}

/// The download's result decides the terminal outcome: success keeps the
/// derived path, a fetch or write failure keeps the reason.
pub open spec fn spec_on_downloaded(path: Seq<char>, result: Result<
    (),
    DownloadError,
>) -> OutcomeModel {
    match result {
        Ok(_) => OutcomeModel::Downloaded(path),
        Err(DownloadError::Fetch) => OutcomeModel::Failed(ItemError::Fetch),
        Err(DownloadError::Io) => OutcomeModel::Failed(ItemError::Io),
    }
}

/// Finishes an item waiting for its download.
pub fn on_downloaded(path: String, result: Result<(), DownloadError>) -> (r: PageResult)
    ensures
        r@ == spec_on_downloaded(path@, result),
{
    match result {
        Ok(_) => PageResult::Downloaded(path),
        Err(DownloadError::Fetch) => PageResult::Failed(ItemError::Fetch),
        Err(DownloadError::Io) => PageResult::Failed(ItemError::Io),
    }
}

/// What the outside world reported back for one item: whether navigation
/// succeeded, what extraction found, and how the download ended. Events an
/// item never reaches are ignored.
pub struct ItemEvents {
    /// Whether the browser loaded the URL.
    pub navigated: bool,
    /// What extraction found, or the traversal step that failed.
    pub extraction: Result<ExtractedContent, ExtractStep>,
    /// How the download ended.
    pub download: Result<(), DownloadError>,
}

/// The mathematical view of `ItemEvents`.
pub struct EventsModel {
    /// Whether the browser loaded the URL.
    pub navigated: bool,
    /// What extraction found, or the traversal step that failed.
    pub extraction: Result<ContentModel, ExtractStep>,
    /// How the download ended.
    pub download: Result<(), DownloadError>,
}

impl View for ItemEvents {
    type V = EventsModel;

    open spec fn view(&self) -> EventsModel {
        EventsModel {
            navigated: self.navigated,
            extraction: match self.extraction {
                Ok(c) => Ok(c@),
                Err(step) => Err(step),
            },
            download: self.download,
        }
    }
}

/// The outcome of one item, as a function of its URL and of the events the
/// outside world reports for it alone.
pub open spec fn spec_process_item(url: Seq<char>, ev: EventsModel) -> OutcomeModel {
    match spec_classify(url) {
        None => OutcomeModel::Failed(ItemError::UnrecognizedSite),
        Some(site) => if !ev.navigated {
            OutcomeModel::Failed(ItemError::Navigation)
        } else {
            match ev.extraction {
                Err(step) => OutcomeModel::Failed(ItemError::Extraction(step)),
                Ok(c) => match spec_plan(site, c) {
                    Err(e) => OutcomeModel::Failed(e),
                    Ok(p) => match ev.download {
                        Ok(_) => OutcomeModel::Downloaded(p.path),
                        Err(DownloadError::Fetch) => OutcomeModel::Failed(ItemError::Fetch),
                        Err(DownloadError::Io) => OutcomeModel::Failed(ItemError::Io),
                    },
                },
            }
        },
    }
}

/// Runs one item's state machine to its terminal outcome on the given
/// events.
pub fn process_item(url: &str, ev: ItemEvents) -> (r: PageResult)
    ensures
        r@ == spec_process_item(url@, ev@),
{
    let s0 = start_item(url);
    let site = match s0 {
        ItemState::Done(outcome) => {
            return outcome;
        },
        ItemState::AwaitNavigation(site) => site,
        _ => unreached(),
    };
    let s1 = on_navigated(site, ev.navigated);
    let site = match s1 {
        ItemState::Done(outcome) => {
            return outcome;
        },
        ItemState::AwaitExtraction(site) => site,
        _ => unreached(),
    };
    let s2 = on_extracted(site, ev.extraction);
    let plan = match s2 {
        ItemState::Done(outcome) => {
            return outcome;
        },
        ItemState::AwaitDownload(plan) => plan,
        _ => unreached(),
    };
    on_downloaded(plan.path, ev.download)
}

/// The outcomes of a whole batch: one per URL, in input order, each a
/// function of that item's URL and events alone.
pub open spec fn spec_run_batch(urls: Seq<Seq<char>>, events: Seq<EventsModel>) -> Seq<
    OutcomeModel,
> {
    Seq::new(urls.len(), |k: int| spec_process_item(urls[k], events[k]))
}

/// Processes every URL of the batch in input order, never stopping on a
/// failed item: the report holds exactly one outcome per URL.
pub fn run_batch(urls: &Vec<String>, events: Vec<ItemEvents>) -> (outcomes: Vec<PageResult>)
    requires
        urls@.len() == events@.len(),
    ensures
        outcomes@.len() == urls@.len(),
        forall|k: int|
            0 <= k < urls@.len() ==> (#[trigger] outcomes@[k])@ == spec_process_item(
                urls@[k]@,
                events@[k]@,
            ),
{
    let mut rest = events;
    let ghost all_events = rest@;
    let mut outcomes: Vec<PageResult> = Vec::new();
    let mut k: usize = 0;
    proof {
        assert(all_events.skip(0) =~= all_events);
    }
    while k < urls.len()
        invariant
            urls@.len() == all_events.len(),
            0 <= k <= urls@.len(),
            rest@ == all_events.skip(k as int),
            outcomes@.len() == k,
            forall|j: int|
                0 <= j < k ==> (#[trigger] outcomes@[j])@ == spec_process_item(
                    urls@[j]@,
                    all_events[j]@,
                ),
        decreases urls@.len() - k,
    {
        let ev = rest.remove(0);
        proof {
            assert(all_events.skip(k as int)[0] == all_events[k as int]);
            assert(all_events.skip(k as int).remove(0) =~= all_events.skip(k as int + 1));
        }
        let r = process_item(urls[k].as_str(), ev);
        outcomes.push(r);
        k += 1;
    }
    outcomes
}

/// Law: when extraction found the page's content but the image-URL
/// attribute was absent, the item never ends downloaded, whatever the
/// download event says; where it was classified and navigated, it ends in an
/// extraction-kind failure.
pub proof fn lemma_missing_image_url_never_downloads(url: Seq<char>, ev: EventsModel)
    requires
        ev.extraction is Ok,
        ev.extraction.unwrap().image_url is None,
    ensures
        !(spec_process_item(url, ev) is Downloaded),
        spec_classify(url) is Some && ev.navigated ==> spec_process_item(url, ev) matches
            OutcomeModel::Failed(ItemError::Extraction(_)),
{
}

/// Law: a batch of N URLs yields exactly N outcomes, one per URL, in input
/// order, and each item's outcome is a function of that item's URL and
/// events alone.
pub proof fn lemma_batch_outcome_per_item(urls: Seq<Seq<char>>, events: Seq<EventsModel>)
    requires
        urls.len() == events.len(),
    ensures
        spec_run_batch(urls, events).len() == urls.len(),
        forall|k: int|
            0 <= k < urls.len() ==> spec_run_batch(urls, events)[k] == spec_process_item(
                urls[k],
                events[k],
            ),
{
}

/// Law: one item's failure, of any kind, leaves every other item's outcome
/// unchanged: two batches over the same URLs whose events differ at most at
/// item k agree everywhere else, so every item after a failed one is still
/// attempted with its own result.
pub proof fn lemma_batch_failure_isolated(
    urls: Seq<Seq<char>>,
    ev1: Seq<EventsModel>,
    ev2: Seq<EventsModel>,
    k: int,
)
    requires
        urls.len() == ev1.len(),
        urls.len() == ev2.len(),
        forall|j: int| 0 <= j < urls.len() && j != k ==> ev1[j] == ev2[j],
    ensures
        forall|j: int|
            0 <= j < urls.len() && j != k ==> spec_run_batch(urls, ev1)[j] == spec_run_batch(
                urls,
                ev2,
            )[j],
{
}

} // verus!
