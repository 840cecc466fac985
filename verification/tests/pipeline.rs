use sfwallpaper::aggregate::aggregate;
use sfwallpaper::classifier::classify;
use sfwallpaper::classifier::classify_items;
use sfwallpaper::classifier::FeedItem;
use sfwallpaper::encoding::encoded_name;
use sfwallpaper::entities::decode_url_entities;
use sfwallpaper::retry::backoff_secs;
use sfwallpaper::retry::run_fetch;
use sfwallpaper::setter::choose_candidate;
use sfwallpaper::setter::run_display;
use sfwallpaper::setter::DisplayEvent;
use sfwallpaper::setter::SetterOutcome;
use sfwallpaper::store::target_path;
use sfwallpaper::store::resolve_claim;
use sfwallpaper::store::ClaimOutcome;
use sfwallpaper::store::CreateOutcome;
use sfwallpaper::store::ContentAddressedStore;
use sfwallpaper::worker::download_needed;
use sfwallpaper::worker::download_result;
use sfwallpaper::worker::feed_listing_url;
use sfwallpaper::worker::worker_accepted;
use sfwallpaper::worker::BodyFetch;

const IMGUR_URL: &str = "https://i.imgur.com/abc.jpg";
const IMGUR_NAME: &str = "aHR0cHM6Ly9pLmltZ3VyLmNvbS9hYmMuanBn";

fn item(url: &str, hint: Option<&str>) -> FeedItem {
    FeedItem { url: url.to_owned(), post_hint: hint.map(|h| h.to_owned()) }
}

#[test]
fn encoded_name_exact_values() {
    assert_eq!(encoded_name(IMGUR_URL), IMGUR_NAME);
    assert_eq!(encoded_name("a"), "YQ");
    assert_eq!(encoded_name("ab"), "YWI");
    assert_eq!(encoded_name("abc"), "YWJj");
    assert_eq!(encoded_name(""), "");
}

#[test]
fn encoded_name_distinct_urls_distinct_names() {
    assert_ne!(encoded_name("https://a.test/1"), encoded_name("https://a.test/2"));
    assert_eq!(encoded_name(IMGUR_URL), encoded_name(IMGUR_URL));
}

#[test]
fn decode_entities_replaces_amp() {
    assert_eq!(decode_url_entities("a&amp;b"), "a&b");
    assert_eq!(decode_url_entities("https://x.test/a?b=c&amp;d=e"), "https://x.test/a?b=c&d=e");
    assert_eq!(decode_url_entities("&amp;amp;"), "&amp;");
    assert_eq!(decode_url_entities(""), "");
    assert_eq!(decode_url_entities("plain"), "plain");
}

#[test]
fn classify_accepts_image_hint_any_shape() {
    assert!(classify("https://example.com/x", &Some("image".to_owned())));
    assert!(classify(IMGUR_URL, &Some("image".to_owned())));
}

#[test]
fn classify_rejects_unparsable_url_despite_hint() {
    assert!(!classify("not a url", &Some("image".to_owned())));
    assert!(!classify("", &Some("image".to_owned())));
}

#[test]
fn classify_falls_back_to_image_host_patterns() {
    assert!(classify(IMGUR_URL, &None));
    assert!(classify("https://i.imgur.com/abcd", &None));
    assert!(classify("https://reddituploads.com/abc123?fit=max", &None));
    assert!(!classify("https://example.com/x", &None));
    assert!(!classify("https://reddituploads.com/abc123", &None));
}

#[test]
fn classify_decodes_entities_before_matching() {
    assert!(classify("https://reddituploads.com/abc123?a=1&amp;b=2", &None));
}

#[test]
fn classify_items_keeps_accepted_in_order() {
    let items = vec![
        item(IMGUR_URL, Some("image")),
        item("https://example.com/x", None),
        item("https://i.imgur.com/zzz9", None),
    ];
    let accepted = classify_items(&items);
    assert_eq!(accepted.len(), 2);
    assert_eq!(accepted[0].url, IMGUR_URL);
    assert_eq!(accepted[1].url, "https://i.imgur.com/zzz9");
}

#[test]
fn claim_twice_reuses_same_path() {
    let mut store = ContentAddressedStore::new("/tmp".to_owned(), Vec::new());
    let first = store.claim(IMGUR_URL);
    let expected = target_path("/tmp", IMGUR_URL);
    match &first {
        ClaimOutcome::Fresh(p) => assert_eq!(p, &expected),
        ClaimOutcome::AlreadyPresent(_) => panic!("first claim must be fresh"),
    }
    let second = store.claim(IMGUR_URL);
    match &second {
        ClaimOutcome::AlreadyPresent(p) => assert_eq!(p, &expected),
        ClaimOutcome::Fresh(_) => panic!("second claim must reuse"),
    }
    assert!(!download_needed(&second));
}

#[test]
fn target_path_joins_dir_and_name() {
    assert_eq!(target_path("/tmp", IMGUR_URL), format!("/tmp/{}", IMGUR_NAME));
}

#[test]
fn backoff_doubles_from_five() {
    assert_eq!(backoff_secs(0), 5);
    assert_eq!(backoff_secs(1), 10);
    assert_eq!(backoff_secs(2), 20);
}

#[test]
fn fetch_succeeds_on_fourth_attempt() {
    let run = run_fetch(&vec![false, false, false, true]);
    assert!(run.succeeded);
    assert_eq!(run.attempts, 4);
}

#[test]
fn fetch_gives_up_after_four_failures() {
    let run = run_fetch(&vec![false, false, false, false, true]);
    assert!(!run.succeeded);
    assert_eq!(run.attempts, 4);
}

#[test]
fn fetch_stops_at_first_success() {
    let run = run_fetch(&vec![true, false]);
    assert!(run.succeeded);
    assert_eq!(run.attempts, 1);
}

#[test]
fn failed_feed_contributes_nothing_without_aborting_others() {
    // One worker's fetch failed outright; the other listed one image item.
    let failed: Option<Vec<FeedItem>> = None;
    let ok = Some(vec![item(IMGUR_URL, Some("image"))]);
    let a = worker_accepted(&failed);
    let b = worker_accepted(&ok);
    assert!(a.is_empty());
    assert_eq!(b.len(), 1);
    let pooled = aggregate(&vec![Vec::new(), vec![b[0].url.clone()]]).unwrap();
    assert_eq!(pooled.len(), 1);
}

#[test]
fn aggregate_pools_union_of_successful_workers() {
    let results = vec![
        vec!["/tmp/a".to_owned(), "/tmp/b".to_owned()],
        Vec::new(),
        vec!["/tmp/c".to_owned()],
    ];
    let pool = aggregate(&results).unwrap();
    assert_eq!(pool, vec!["/tmp/a".to_owned(), "/tmp/b".to_owned(), "/tmp/c".to_owned()]);
    assert_eq!(pool.len(), 2 + 0 + 1);
}

#[test]
fn aggregate_empty_pool_is_error() {
    let results: Vec<Vec<String>> = vec![Vec::new(), Vec::new()];
    assert!(aggregate(&results).is_err());
    assert!(aggregate(&Vec::new()).is_err());
}

#[test]
fn display_gives_up_after_three_failures() {
    let events = vec![
        DisplayEvent::Exited(false),
        DisplayEvent::Exited(false),
        DisplayEvent::Exited(false),
        DisplayEvent::Exited(false),
    ];
    let run = run_display(&events);
    assert!(matches!(run.outcome, SetterOutcome::GaveUp));
    assert_eq!(run.attempts, 3);
}

#[test]
fn display_succeeds_on_third_attempt() {
    let events =
        vec![DisplayEvent::Exited(false), DisplayEvent::Exited(false), DisplayEvent::Exited(true)];
    let run = run_display(&events);
    assert!(matches!(run.outcome, SetterOutcome::Succeeded));
    assert_eq!(run.attempts, 3);
}

#[test]
fn display_spawn_failure_is_fatal_at_once() {
    let events = vec![DisplayEvent::SpawnFailed, DisplayEvent::Exited(true)];
    let run = run_display(&events);
    assert!(matches!(run.outcome, SetterOutcome::SpawnFailure));
    assert_eq!(run.attempts, 1);
}

#[test]
fn choose_candidate_picks_from_pool() {
    let pool = vec!["/tmp/a".to_owned(), "/tmp/b".to_owned(), "/tmp/c".to_owned()];
    for _ in 0..20 {
        let picked = choose_candidate(&pool);
        assert!(pool.contains(picked));
    }
    let single = vec!["/tmp/only".to_owned()];
    assert_eq!(choose_candidate(&single).as_str(), "/tmp/only");
}

#[test]
fn feed_listing_url_built_from_name() {
    assert_eq!(feed_listing_url("foo"), "https://www.reddit.com/r/foo.json");
}

#[test]
fn resolve_claim_maps_create_outcomes() {
    let fresh = resolve_claim("/tmp/x".to_owned(), &CreateOutcome::Created).unwrap();
    assert!(matches!(fresh, ClaimOutcome::Fresh(ref p) if p == "/tmp/x"));
    let reused = resolve_claim("/tmp/x".to_owned(), &CreateOutcome::AlreadyExists).unwrap();
    assert!(matches!(reused, ClaimOutcome::AlreadyPresent(ref p) if p == "/tmp/x"));
    assert!(resolve_claim("/tmp/x".to_owned(), &CreateOutcome::Failed).is_err());
}

#[test]
fn download_result_reuse_skips_body_fetch() {
    let claim = ClaimOutcome::AlreadyPresent("/tmp/x".to_owned());
    let kept = download_result(&claim, &None);
    assert_eq!(kept, Some("/tmp/x".to_owned()));
}

#[test]
fn download_result_fresh_follows_body_outcome() {
    let saved = download_result(&ClaimOutcome::Fresh("/tmp/x".to_owned()), &Some(BodyFetch::Saved));
    assert_eq!(saved, Some("/tmp/x".to_owned()));
    let failed =
        download_result(&ClaimOutcome::Fresh("/tmp/x".to_owned()), &Some(BodyFetch::Failed));
    assert_eq!(failed, None);
}

#[test]
fn end_to_end_one_listing_one_image() {
    // Listing with one declared image and one hintless non-image item.
    let listing = Some(vec![item(IMGUR_URL, Some("image")), item("https://example.com/x", None)]);
    let accepted = worker_accepted(&listing);
    assert_eq!(accepted.len(), 1);

    let mut store = ContentAddressedStore::new("/tmp".to_owned(), Vec::new());
    let claim = store.claim(accepted[0].url.as_str());
    assert!(download_needed(&claim));
    let path = download_result(&claim, &Some(BodyFetch::Saved)).unwrap();
    assert_eq!(path, format!("/tmp/{}", IMGUR_NAME));
    assert_eq!(store.present.len(), 1);

    let pool = aggregate(&vec![vec![path]]).unwrap();
    assert_eq!(pool, vec![format!("/tmp/{}", IMGUR_NAME)]);
}

#[test]
fn rerun_against_populated_directory_downloads_nothing() {
    // The same scenario a second time, with the directory already holding the file.
    let existing = vec![format!("/tmp/{}", IMGUR_NAME)];
    let mut store = ContentAddressedStore::new("/tmp".to_owned(), existing);
    let listing = Some(vec![item(IMGUR_URL, Some("image")), item("https://example.com/x", None)]);
    let accepted = worker_accepted(&listing);
    assert_eq!(accepted.len(), 1);

    let claim = store.claim(accepted[0].url.as_str());
    assert!(!download_needed(&claim));
    let path = download_result(&claim, &None).unwrap();
    assert_eq!(path, format!("/tmp/{}", IMGUR_NAME));
    assert_eq!(store.present.len(), 1);

    let pool = aggregate(&vec![vec![path]]).unwrap();
    assert_eq!(pool.len(), 1);
}
