//! The "opened" notification of the operating system.
//!
//! One notification carries a list of URLs. Each URL in the `file` scheme is
//! turned into a native path on its own, each path is looked up on its own,
//! and each payload that results gets a delivery of its own. A URL in another
//! scheme, a URL that names no local file and a file that cannot be read
//! leave no trace.

use vstd::prelude::*;
use crate::delivery::{Delivery, DeliveryView, IntentSource};
use crate::payload::{OpenFilePayload, text_view};

verus! {

/// Trusted: makes `url::Url`, a parsed URL, known as an opaque type. A value
/// of it is carried from the notification to the two calls below and is never
/// looked into; what the two calls find in it goes by the names
/// [`scheme_text`] and [`file_path_text`].
#[verifier::external_type_specification]
#[verifier::external_body]
pub struct ExUrl(url::Url);

/// The scheme of the URLs that name local files.
pub const FILE_SCHEME: &'static str = "file";

/// The scheme of `url`, as `url::Url::scheme` gives it.
pub uninterp spec fn scheme_text(url: url::Url) -> Seq<char>;

/// The native path that the path of `url` converts to, as
/// `url::Url::to_file_path` gives it, where it gives one and the path is
/// text. The scheme has no part in it.
pub uninterp spec fn file_path_text(url: url::Url) -> Option<Seq<char>>;

/// The native path that `url` stands for: the converted path where the
/// scheme is `file`, nothing for any other scheme.
pub open spec fn spec_conversion(url: url::Url) -> Option<Seq<char>> {
    if scheme_text(url) == FILE_SCHEME@ {
        file_path_text(url)
    } else {
        None
    }
}

/// The native paths of the URLs of one notification: the path of each URL
/// that stands for one, in the order of the URLs.
pub open spec fn spec_opened_paths(urls: Seq<url::Url>) -> Seq<Seq<char>> {
    present(Seq::new(urls.len(), |i: int| spec_conversion(urls[i])))
}

/// The texts of `paths`, in their order.
pub open spec fn texts(paths: Seq<String>) -> Seq<Seq<char>> {
    paths.map_values(|path: String| path@)
}

/// The texts of `paths` where they are present, in their order.
pub open spec fn optional_texts(paths: Seq<Option<String>>) -> Seq<Option<Seq<char>>> {
    paths.map_values(|path: Option<String>| text_view(path))
}

/// The native path of a URL with the scheme `scheme` whose path converts to
/// `converted`.
pub open spec fn spec_local_path(scheme: Seq<char>, converted: Option<String>) -> Option<String> {
    if scheme == FILE_SCHEME@ {
        converted
    } else {
        None
    }
}

/// The items of `items` that are present, in their order.
pub open spec fn present<T>(items: Seq<Option<T>>) -> Seq<T>
    decreases items.len(),
{
    if items.len() == 0 {
        Seq::empty()
    } else {
        match items.last() {
            Some(item) => present(items.drop_last()).push(item),
            None => present(items.drop_last()),
        }
    }
}

/// Leaving out the absent items never makes a sequence longer.
pub proof fn lemma_present_len<T>(items: Seq<Option<T>>)
    ensures
        present(items).len() <= items.len(),
    decreases items.len(),
{
    if items.len() > 0 {
        lemma_present_len(items.drop_last());
    }
}

/// Taking the texts of the present items is the same as keeping the present
/// ones among the optional texts.
pub proof fn lemma_present_texts(paths: Seq<Option<String>>)
    ensures
        texts(present(paths)) == present(optional_texts(paths)),
    decreases paths.len(),
{
    if paths.len() > 0 {
        lemma_present_texts(paths.drop_last());
        assert(optional_texts(paths).drop_last() == optional_texts(paths.drop_last()));
    }
}

/// Trusted: calls `url::Url::scheme` on `url`, which gives the scheme in
/// lower case and without the colon. The scheme is a part of the URL and of
/// nothing else; the contract gives it the name [`scheme_text`] and says no
/// more of it.
#[verifier::external_body]
fn url_scheme(url: &url::Url) -> (scheme: &str)
    ensures
        scheme@ == scheme_text(*url),
{
    url.scheme()
}

/// Trusted: calls `url::Url::to_file_path` on `url` and hands the path back
/// as text. It is `None` where the call fails, which it does for a URL with a
/// host other than the local one, or where the path is not valid Unicode. The
/// call itself does not look at the scheme. The outcome is decided by the URL
/// under the path rules of the platform the library is built for; the
/// contract gives it the name [`file_path_text`] and says no more of it.
#[verifier::external_body]
fn file_path_of(url: &url::Url) -> (path: Option<String>)
    ensures
        text_view(path) == file_path_text(*url),
{
    match url.to_file_path() {
        Ok(path) => path.to_str().map(String::from),
        Err(()) => None,
    }
}

/// Tells whether `scheme` is the scheme of local files.
pub fn is_file_scheme(scheme: &str) -> (is_file: bool)
    ensures
        is_file == (scheme@ == FILE_SCHEME@),
{
    let given = scheme.to_owned();
    let file = FILE_SCHEME.to_owned();
    given == file
}

/// The native path that one URL stands for, given its scheme and what the
/// conversion of its path gave: the converted path where the scheme is
/// `file`, nothing for any other scheme, whatever the conversion gave.
pub fn local_path(scheme: &str, converted: Option<String>) -> (path: Option<String>)
    ensures
        path == spec_local_path(scheme@, converted),
{
    if is_file_scheme(scheme) {
        converted
    } else {
        None
    }
}

/// Keeps the items that are present, in their order.
pub fn keep_present<T>(items: Vec<Option<T>>) -> (kept: Vec<T>)
    ensures
        kept@ == present(items@),
{
    let ghost all = items@;
    let mut kept: Vec<T> = Vec::new();
    for item in it: items.into_iter()
        invariant
            it.seq() == all,
            kept@ == present(all.take(it.index() as int)),
    {
        proof {
            assert(all.take(it.index() + 1).drop_last() == all.take(it.index() as int));
        }
        match item {
            Some(value) => {
                kept.push(value);
            },
            None => {},
        }
    }
    proof {
        assert(all.take(all.len() as int) == all);
    }
    kept
}

/// The native paths of the URLs of one notification, in the order of the
/// URLs. Each URL is converted on its own; one that is not in the `file`
/// scheme or cannot be converted is left out and does not hinder the others.
pub fn opened_paths(urls: &Vec<url::Url>) -> (paths: Vec<String>)
    ensures
        texts(paths@) == spec_opened_paths(urls@),
        paths@.len() <= urls@.len(),
{
    let mut conversions: Vec<Option<String>> = Vec::new();
    let mut i: usize = 0;
    while i < urls.len()
        invariant
            i <= urls.len(),
            conversions@.len() == i,
            forall|j: int|
                0 <= j < i ==> text_view(#[trigger] conversions@[j]) == spec_conversion(urls@[j]),
        decreases urls.len() - i,
    {
        let url = &urls[i];
        conversions.push(local_path(url_scheme(url), file_path_of(url)));
        i += 1;
    }
    proof {
        lemma_present_len(conversions@);
        lemma_present_texts(conversions@);
        assert(optional_texts(conversions@) == Seq::new(
            urls@.len(),
            |i: int| spec_conversion(urls@[i]),
        ));
    }
    keep_present(conversions)
}

/// Schedules the deliveries of one notification. `resolved` holds, for each
/// path of the notification in order, the payload that the lookup gave or
/// `None` where it gave none. Each payload gets one pending delivery of its
/// own; a failed lookup gets none.
pub fn schedule_opened(resolved: Vec<Option<OpenFilePayload>>) -> (deliveries: Vec<Delivery>)
    ensures
        deliveries@.len() == present(resolved@).len(),
        forall|i: int|
            0 <= i < deliveries@.len() ==> (#[trigger] deliveries@[i])@ == DeliveryView::scheduled(
                IntentSource::OpenedNotification,
                present(resolved@)[i]@,
            ),
{
    let payloads = keep_present(resolved);
    let ghost all = payloads@;
    let mut deliveries: Vec<Delivery> = Vec::new();
    for payload in it: payloads.into_iter()
        invariant
            it.seq() == all,
            deliveries@.len() == it.index(),
            forall|i: int|
                0 <= i < deliveries@.len() ==> (#[trigger] deliveries@[i])@
                    == DeliveryView::scheduled(IntentSource::OpenedNotification, all[i]@),
    {
        deliveries.push(Delivery::schedule(payload, IntentSource::OpenedNotification));
    }
    deliveries
}

} // verus!
