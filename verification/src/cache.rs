//! The in-memory cache of Teawie download URLs, and the rule for when a
//! cached list may still be served.

use std::time::{Duration, Instant};

use vstd::prelude::*;

use crate::content::{image_urls, listing_views, collect_image_urls, Content};
use crate::github::{teawie_subdirectories, teawie_subdirs};

verus! {

#[verifier::external_type_specification]
#[verifier::external_body]
pub struct ExInstant(Instant);

/// `std::time::Instant::now`: a reading of the monotonic clock. What it
/// returns depends on the time of the call, so nothing is stated of it.
#[verifier::external_body]
fn clock_now() -> (t: Instant) {
    Instant::now()
}

/// `std::time::Instant::elapsed`: the time that has passed since `t`. It
/// depends on the time of the call, so nothing is stated of it. (It does not
/// panic: a clock that went backwards gives a zero duration.)
#[verifier::external_body]
fn elapsed_since(t: &Instant) -> (age: Duration) {
    t.elapsed()
}

/// `std::time::Duration::as_nanos`: the whole duration in nanoseconds. A
/// `Duration` is opaque here, so nothing can be stated of the number beyond
/// its type.
#[verifier::external_body]
fn duration_nanos(d: &Duration) -> (nanos: u128) {
    d.as_nanos()
}

/// How long image URLs are cached for, in seconds (one hour).
pub const CACHE_TTL_SECS: u64 = 60 * 60;

/// What a cache holds: nothing yet, or the time of the last write and the
/// URLs written then.
pub type CacheView = Option<(Instant, Seq<Seq<char>>)>;

/// The URLs held in a cache, whatever their age.
pub open spec fn cached_urls(v: CacheView) -> Option<Seq<Seq<char>>> {
    match v {
        Some((_, urls)) => Some(urls),
        None => None,
    }
}

/// A cache entry as handed out by a lookup, viewed.
pub open spec fn entry_view(e: Option<(Instant, Vec<String>)>) -> CacheView {
    match e {
        Some((t, urls)) => Some((t, urls.deep_view())),
        None => None,
    }
}

/// A list of URLs that may be absent, viewed.
pub open spec fn opt_urls_view(r: Option<Vec<String>>) -> Option<Seq<Seq<char>>> {
    match r {
        Some(urls) => Some(urls.deep_view()),
        None => None,
    }
}

/// Basic in-memory cache.
#[derive(Clone, Debug)]
pub struct Cache {
    teawie_download_urls: Option<(Instant, Vec<String>)>,
}

impl View for Cache {
    type V = CacheView;

    closed spec fn view(&self) -> CacheView {
        entry_view(self.teawie_download_urls)
    }
}

impl Cache {
    /// An empty cache.
    pub fn new() -> (c: Self)
        ensures
            c@ is None,
    {
        Cache { teawie_download_urls: None }
    }

    /// Recover Teawie download URLs from the cache if they exist, with the
    /// time they were stored.
    pub fn teawie_download_urls(&self) -> (r: Option<(Instant, Vec<String>)>)
        ensures
            entry_view(r) == self@,
    {
        match &self.teawie_download_urls {
            Some((t, urls)) => {
                let copy = urls.clone();
                proof {
                    assert(copy.deep_view() =~= urls.deep_view());
                }
                Some((*t, copy))
            },
            None => None,
        }
    }

    /// Replace whatever the cache holds by `urls`, stamped with `now`.
    pub fn store_teawie_download_urls(&mut self, now: Instant, urls: Vec<String>)
        ensures
            final(self)@ == Some((now, urls.deep_view())),
    {
        self.teawie_download_urls = Some((now, urls));
    }

    /// Update the Teawie download URLs in the cache, stamped with the current
    /// time: the clock is read once, and that reading and `urls` replace
    /// whatever the cache held.
    pub fn cache_teawie_download_urls(&mut self, urls: Vec<String>)
        ensures
            exists|t: Instant| final(self)@ == Some((t, urls.deep_view())),
    {
        let now = clock_now();
        self.store_teawie_download_urls(now, urls);
    }
}

impl Default for Cache {
    fn default() -> (c: Self)
        ensures
            c@ is None,
    {
        Cache::new()
    }
}

/// The time to live in nanoseconds.
pub open spec fn ttl_nanos() -> int {
    CACHE_TTL_SECS * 1_000_000_000
}

/// Whether an age of `age_nanos` nanoseconds is below the cache's time to live.
pub open spec fn younger_than_ttl(age_nanos: u128) -> bool {
    age_nanos < ttl_nanos()
}

/// What a cache serves when its entry is `age_nanos` nanoseconds old: its URLs
/// while they are younger than the time to live, else nothing.
pub open spec fn served_urls(v: CacheView, age_nanos: u128) -> Option<Seq<Seq<char>>> {
    match v {
        Some((_, urls)) => if younger_than_ttl(age_nanos) {
            Some(urls)
        } else {
            None
        },
        None => None,
    }
}

/// Whether cached URLs of the given age (in nanoseconds) may still be served.
pub fn is_fresh(age_nanos: u128) -> (r: bool)
    ensures
        r == younger_than_ttl(age_nanos),
{
    age_nanos < (CACHE_TTL_SECS as u128) * 1_000_000_000
}

/// The cached `urls` if their age (in nanoseconds) is below the time to live,
/// else nothing.
pub fn urls_if_fresh(urls: Vec<String>, age_nanos: u128) -> (r: Option<Vec<String>>)
    ensures
        r == (if younger_than_ttl(age_nanos) {
            Some(urls)
        } else {
            None
        }),
{
    if is_fresh(age_nanos) {
        Some(urls)
    } else {
        None
    }
}

/// The URLs in the cache, if there are any and they are not older than the
/// time to live. How old they are is read from the clock: the result is what
/// the cache serves at that age.
pub fn cached_image_urls(cache: &Cache) -> (r: Option<Vec<String>>)
    ensures
        exists|age: u128| opt_urls_view(r) == served_urls(cache@, age),
        cache@ is None ==> r is None,
        r matches Some(urls) ==> cached_urls(cache@) == Some(urls.deep_view()),
{
    match cache.teawie_download_urls() {
        Some((stored_at, urls)) => {
            let age = elapsed_since(&stored_at);
            let age_nanos: u128 = duration_nanos(&age);
            let r = urls_if_fresh(urls, age_nanos);
            proof {
                assert(opt_urls_view(r) == served_urls(cache@, age_nanos));
            }
            r
        },
        None => {
            proof {
                assert(opt_urls_view(None) == served_urls(cache@, 0));
            }
            None
        },
    }
}

/// What answering a request for all image URLs takes.
pub enum UrlsPlan {
    /// Serve these URLs from the cache.
    Cached(Vec<String>),
    /// Fetch the listings of these directories, then refresh the cache.
    Fetch(Vec<String>),
}

/// Decide how to get all image URLs: from the cache while its URLs are fresh,
/// else by fetching the listings of the archive's Teawie directories.
pub fn plan_image_urls(cache: &Cache) -> (plan: UrlsPlan)
    ensures
        exists|age: u128|
            #![trigger served_urls(cache@, age)]
            match plan {
                UrlsPlan::Cached(urls) => served_urls(cache@, age) == Some(urls.deep_view()),
                UrlsPlan::Fetch(dirs) => served_urls(cache@, age) is None && dirs.deep_view()
                    == teawie_subdirs(),
            },
        plan matches UrlsPlan::Cached(urls) ==> cached_urls(cache@) == Some(urls.deep_view()),
        plan matches UrlsPlan::Fetch(dirs) ==> dirs.deep_view() == teawie_subdirs(),
        cache@ is None ==> plan is Fetch,
{
    match cached_image_urls(cache) {
        Some(urls) => UrlsPlan::Cached(urls),
        None => UrlsPlan::Fetch(teawie_subdirectories()),
    }
}

/// Find the image URLs in freshly fetched listings, store them in the cache
/// stamped with `now`, and hand them back.
pub fn store_image_urls(cache: &mut Cache, now: Instant, directories: &Vec<Vec<Content>>) -> (images: Vec<String>)
    ensures
        images.deep_view() == image_urls(listing_views(directories@).flatten()),
        final(cache)@ == Some((now, images.deep_view())),
{
    let images = collect_image_urls(directories);
    let copy = images.clone();
    proof {
        assert(copy.deep_view() =~= images.deep_view());
    }
    cache.store_teawie_download_urls(now, copy);
    images
}

/// Find the image URLs in freshly fetched listings, store them in the cache
/// stamped with the current time (read once from the clock), and hand them back.
pub fn refresh_image_urls(cache: &mut Cache, directories: &Vec<Vec<Content>>) -> (images: Vec<
    String,
>)
    ensures
        images.deep_view() == image_urls(listing_views(directories@).flatten()),
        exists|t: Instant| final(cache)@ == Some((t, images.deep_view())),
{
    let now = clock_now();
    store_image_urls(cache, now, directories)
}

/// Cached URLs are served for exactly one hour: an age is below the time to
/// live if and only if it is under 3600 seconds.
pub proof fn lemma_ttl_is_one_hour(age_nanos: u128)
    ensures
        younger_than_ttl(age_nanos) <==> age_nanos < 3_600_000_000_000,
{
}

/// A list stored at `now` is what the cache serves for the following hour,
/// and nothing is served from it once the hour has passed.
pub proof fn lemma_stored_list_served_for_an_hour(
    now: Instant,
    urls: Seq<Seq<char>>,
    age_nanos: u128,
)
    ensures
        served_urls(Some((now, urls)), age_nanos) == (if age_nanos < 3_600_000_000_000 {
            Some(urls)
        } else {
            None
        }),
{
}

/// Whatever a cache holds, an entry that is an hour old or older is never
/// served, and a younger one is served exactly as stored.
pub proof fn lemma_stale_entries_are_not_served(v: CacheView, age_nanos: u128)
    ensures
        age_nanos >= 3_600_000_000_000 ==> served_urls(v, age_nanos) is None,
        age_nanos < 3_600_000_000_000 ==> served_urls(v, age_nanos) == cached_urls(v),
{
}

} // verus!
