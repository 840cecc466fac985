//! Decides whether a listed feed item is an image worth downloading: the
//! item's URL is entity-decoded, must parse as a URL, and is accepted when
//! the feed declares an image post hint or the URL matches one of the fixed
//! image-host patterns.
use vstd::prelude::*;

use crate::entities::decode_entities;
use crate::entities::decode_url_entities;

verus! {

/// Whether a string parses as a syntactically valid URL.
pub uninterp spec fn url_is_valid(s: Seq<char>) -> bool;

/// Relies on url::Url::parse: whether parsing succeeds depends on the input
/// string alone.
#[verifier::external_body]
fn parse_url_ok(s: &str) -> (r: bool)
    ensures
        r == url_is_valid(s@),
{
    url::Url::parse(s).is_ok()
}

/// Whether a string matches one of the fixed image-host patterns.
pub uninterp spec fn matches_image_pattern(s: Seq<char>) -> bool;

/// Relies on regex::RegexSet::new and RegexSet::is_match: whether the fixed
/// pattern set matches depends on the text alone. The two patterns accept an
/// image-hosting domain with an optional subdomain and an alphanumeric path
/// segment with an optional 3-letter extension, and an upload-hosting domain
/// with an alphanumeric path and a non-empty query string.
#[verifier::external_body]
fn matches_image_host(s: &str) -> (r: bool)
    ensures
        r == matches_image_pattern(s@),
{
    let set = regex::RegexSet::new([
        r"https?://(\w+\.)?imgur.com/[[:alnum:]]+(\.[[:alnum:]]{3})?",
        r"https?://(\w+\.)?reddituploads.com/[[:alnum:]]+\?.+",
    ]).unwrap();
    set.is_match(s)
}

/// One listed post, as the feed describes it.
pub struct FeedItem {
    pub url: String,
    pub post_hint: Option<String>,
}

/// The mathematical shape of a listed post.
pub struct FeedItemView {
    pub url: Seq<char>,
    pub post_hint: Option<Seq<char>>,
}

impl View for FeedItem {
    type V = FeedItemView;

    open spec fn view(&self) -> FeedItemView {
        FeedItemView { url: self.url@, post_hint: self.post_hint.deep_view() }
    }
}

impl DeepView for FeedItem {
    type V = FeedItemView;

    open spec fn deep_view(&self) -> FeedItemView {
        self.view()
    }
}

/// An item is accepted when its entity-decoded URL is valid and either the
/// feed declares it an image or the URL matches an image-host pattern.
pub open spec fn spec_classify(item: FeedItemView) -> bool {
    let norm = decode_entities(item.url);
    url_is_valid(norm) && (item.post_hint == Some("image"@) || matches_image_pattern(norm))
}

/// Classifies one listed item; pure in its inputs and the fixed pattern set.
pub fn classify(url: &str, post_hint: &Option<String>) -> (r: bool)
    ensures
        r == spec_classify(FeedItemView { url: url@, post_hint: post_hint.deep_view() }),
{
    let norm = decode_url_entities(url);
    if !parse_url_ok(norm.as_str()) {
        return false;
    }
    let hint_is_image = match post_hint {
        Some(h) => h.eq(&"image".to_owned()),
        None => false,
    };
    if hint_is_image {
        true
    } else {
        matches_image_host(norm.as_str())
    }
}

/// Law: an item whose decoded URL is valid and that declares an image post
/// hint is accepted whatever shape its URL has; an item whose decoded URL
/// does not parse is rejected whatever its hint says.
pub proof fn lemma_classify_hint_and_validity(item: FeedItemView)
    ensures
        url_is_valid(decode_entities(item.url)) && item.post_hint == Some("image"@)
            ==> spec_classify(item),
        !url_is_valid(decode_entities(item.url)) ==> !spec_classify(item),
{
}

/// An item the classifier accepted, carrying its entity-decoded URL.
pub struct ClassifiedItem {
    pub url: String,
}

impl View for ClassifiedItem {
    type V = Seq<char>;

    open spec fn view(&self) -> Seq<char> {
        self.url@
    }
}

impl DeepView for ClassifiedItem {
    type V = Seq<char>;

    open spec fn deep_view(&self) -> Seq<char> {
        self.view()
    }
}

/// The entity-decoded URLs of the accepted items, in listing order.
pub open spec fn spec_accepted_urls(items: Seq<FeedItemView>) -> Seq<Seq<char>>
    decreases items.len(),
{
    if items.len() == 0 {
        Seq::<Seq<char>>::empty()
    } else {
        let rest = spec_accepted_urls(items.drop_last());
        if spec_classify(items.last()) {
            rest.push(decode_entities(items.last().url))
        } else {
            rest
        }
    }
}

/// Law: every URL that survives classification is the entity-decoded URL of
/// an accepted item, so it parses as a valid URL — downloads never see an
/// unparsable URL.
pub proof fn lemma_accepted_urls_valid(items: Seq<FeedItemView>)
    ensures
        forall|k: int|
            0 <= k < spec_accepted_urls(items).len() ==> url_is_valid(
                #[trigger] spec_accepted_urls(items)[k],
            ),
    decreases items.len(),
{
    if items.len() > 0 {
        lemma_accepted_urls_valid(items.drop_last());
        let rest = spec_accepted_urls(items.drop_last());
        let whole = spec_accepted_urls(items);
        assert forall|k: int| 0 <= k < whole.len() implies url_is_valid(whole[k]) by {
            if spec_classify(items.last()) && k == rest.len() {
                assert(whole[k] == decode_entities(items.last().url));
            } else {
                assert(whole[k] == rest[k]);
            }
        }
    }
}

/// Keeps exactly the accepted items, each under its entity-decoded URL, in
/// listing order.
pub fn classify_items(items: &Vec<FeedItem>) -> (r: Vec<ClassifiedItem>)
    ensures
        r.deep_view() == spec_accepted_urls(items.deep_view()),
{
    let mut out: Vec<ClassifiedItem> = Vec::new();
    let mut i: usize = 0;
    proof {
        assert(items.deep_view().take(0) =~= Seq::<FeedItemView>::empty());
        assert(out.deep_view() =~= spec_accepted_urls(items.deep_view().take(0)));
    }
    while i < items.len()
        invariant
            i <= items.len(),
            items.deep_view().len() == items@.len(),
            out.deep_view() == spec_accepted_urls(items.deep_view().take(i as int)),
        decreases items.len() - i,
    {
        let item = &items[i];
        proof {
            assert(items.deep_view()[i as int] == items@[i as int]@);
        }
        if classify(item.url.as_str(), &item.post_hint) {
            let norm = decode_url_entities(item.url.as_str());
            out.push(ClassifiedItem { url: norm });
        }
        proof {
            let dv = items.deep_view();
            assert(dv.take(i + 1).drop_last() =~= dv.take(i as int));
            assert(dv.take(i + 1).last() == dv[i as int]);
            assert(out.deep_view() =~= spec_accepted_urls(dv.take(i + 1)));
        }
        i += 1;
    }
    proof {
        assert(items.deep_view().take(items@.len() as int) =~= items.deep_view());
    }
    out
}

} // verus!
