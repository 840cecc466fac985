//! One feed's work, as decisions over plain values: the listing endpoint for
//! a feed name, what a fetched listing yields once classified (a failed fetch
//! yields nothing), and what one item's download step produces given the
//! claim and — only for a fresh claim — the outcome of the single body fetch.
use vstd::prelude::*;
use vstd::string::StringExecFns;

use crate::classifier::classify_items;
use crate::classifier::spec_accepted_urls;
use crate::classifier::ClassifiedItem;
use crate::classifier::FeedItem;
use crate::classifier::FeedItemView;
use crate::store::ClaimOutcome;

verus! {

/// The listing endpoint of a feed: `https://www.reddit.com/r/<name>.json`.
pub open spec fn spec_listing_url(feed: Seq<char>) -> Seq<char> {
    "https://www.reddit.com/r/"@ + feed + ".json"@
}

/// Builds the listing endpoint URL from the feed name.
pub fn feed_listing_url(feed: &str) -> (r: String)
    ensures
        r@ == spec_listing_url(feed@),
{
    let mut url = "https://www.reddit.com/r/".to_owned();
    url.append(feed);
    url.append(".json");
    url
}

/// The URLs one worker goes on to download: none at all when the whole
/// listing fetch failed, else exactly the accepted items' decoded URLs in
/// listing order.
pub open spec fn spec_worker_accepted(fetched: Option<Seq<FeedItemView>>) -> Seq<Seq<char>> {
    match fetched {
        None => Seq::<Seq<char>>::empty(),
        Some(items) => spec_accepted_urls(items),
    }
}

/// Classifies a fetched listing; a feed whose fetch was given up yields an
/// empty result and nothing worse — the failure never leaves the worker.
pub fn worker_accepted(fetched: &Option<Vec<FeedItem>>) -> (r: Vec<ClassifiedItem>)
    ensures
        r.deep_view() == spec_worker_accepted(
            match fetched {
                Some(items) => Some(items.deep_view()),
                None => None,
            },
        ),
{
    match fetched {
        None => Vec::new(),
        Some(items) => classify_items(items),
    }
}

/// What the single body fetch for a freshly claimed item reported.
pub enum BodyFetch {
    /// The bytes were downloaded and written into the claimed file.
    Saved,
    /// The download or the write failed; the item is dropped, not retried.
    Failed,
}

/// One item's download step. A reused path needs no body fetch at all, so
/// `body` is given exactly for fresh claims; a fresh claim keeps its path
/// only if the one body fetch saved it.
pub fn download_result(claim: &ClaimOutcome, body: &Option<BodyFetch>) -> (r: Option<String>)
    requires
        claim.is_fresh() <==> body is Some,
    ensures
        !claim.is_fresh() ==> r is Some,
        claim.is_fresh() && (body matches Some(BodyFetch::Saved)) ==> r is Some,
        claim.is_fresh() && (body matches Some(BodyFetch::Failed)) ==> r is None,
        r is Some ==> r->0@ == claim.path_view(),
{
    match claim {
        ClaimOutcome::AlreadyPresent(path) => Some(path.clone()),
        ClaimOutcome::Fresh(path) => match body {
            Some(BodyFetch::Saved) => Some(path.clone()),
            Some(BodyFetch::Failed) => None,
            None => None,
        },
    }
}

/// Whether an item's claim obliges the worker to download anything: only a
/// fresh claim does; an already present path is reused with no network access.
pub fn download_needed(claim: &ClaimOutcome) -> (r: bool)
    ensures
        r == claim.is_fresh(),
{
    match claim {
        ClaimOutcome::Fresh(_) => true,
        ClaimOutcome::AlreadyPresent(_) => false,
    }
}

} // verus!
