use teawie_api::cache::{cached_image_urls, is_fresh, refresh_image_urls, urls_if_fresh, Cache, CACHE_TTL_SECS};
use std::time::{Duration, Instant};

use teawie_api::cache::{plan_image_urls, store_image_urls, UrlsPlan};
use teawie_api::content::Content;
use teawie_api::github::teawie_subdirectories;

fn urls(xs: &[&str]) -> Vec<String> {
    xs.iter().map(|s| s.to_string()).collect()
}

#[test]
fn new_cache_is_empty() {
    let c = Cache::new();
    assert!(c.teawie_download_urls().is_none());
    assert!(Cache::default().teawie_download_urls().is_none());
    assert!(cached_image_urls(&c).is_none());
}

#[test]
fn lookup_gives_back_what_was_cached() {
    let mut c = Cache::new();
    c.cache_teawie_download_urls(urls(&["a", "b"]));
    let (_, found) = c.teawie_download_urls().expect("cached");
    assert_eq!(found, urls(&["a", "b"]));
}

#[test]
fn later_write_replaces_earlier() {
    let mut c = Cache::new();
    c.cache_teawie_download_urls(urls(&["a"]));
    c.cache_teawie_download_urls(urls(&["b", "c"]));
    assert_eq!(c.teawie_download_urls().unwrap().1, urls(&["b", "c"]));
}

#[test]
fn freshly_cached_urls_are_served() {
    let mut c = Cache::new();
    c.cache_teawie_download_urls(urls(&["x"]));
    assert_eq!(cached_image_urls(&c), Some(urls(&["x"])));
}

#[test]
fn time_to_live_is_one_hour() {
    assert_eq!(CACHE_TTL_SECS, 3600);
    assert!(is_fresh(0));
    assert!(is_fresh(Duration::new(3599, 999_999_999).as_nanos()));
    assert!(!is_fresh(Duration::from_secs(3600).as_nanos()));
    assert!(!is_fresh(Duration::new(86_400, 5).as_nanos()));
}

#[test]
fn urls_if_fresh_serves_only_young_lists() {
    assert_eq!(urls_if_fresh(urls(&["a"]), Duration::from_secs(10).as_nanos()), Some(urls(&["a"])));
    assert_eq!(urls_if_fresh(urls(&["a"]), Duration::from_secs(3600).as_nanos()), None);
    assert_eq!(urls_if_fresh(urls(&["a"]), Duration::new(3600, 1).as_nanos()), None);
}

#[test]
fn store_keeps_the_given_stamp_and_list() {
    let mut c = Cache::new();
    let t0 = Instant::now();
    c.store_teawie_download_urls(t0, urls(&["a"]));
    let t1 = t0 + Duration::from_secs(5);
    c.store_teawie_download_urls(t1, urls(&["b"]));
    assert_eq!(c.teawie_download_urls(), Some((t1, urls(&["b"]))));
}

#[test]
fn cache_write_stamps_the_current_time() {
    let mut c = Cache::new();
    let before = Instant::now();
    c.cache_teawie_download_urls(urls(&["a"]));
    let after = Instant::now();
    let (t, u) = c.teawie_download_urls().unwrap();
    assert!(before <= t && t <= after);
    assert_eq!(u, urls(&["a"]));
}

#[test]
fn store_image_urls_stamps_with_given_time() {
    let mut c = Cache::new();
    let now = Instant::now();
    let dirs = vec![vec![Content { name: "x.gif".into(), kind: "file".into(), download_url: Some("X".into()) }]];
    let images = store_image_urls(&mut c, now, &dirs);
    assert_eq!(images, urls(&["X"]));
    assert_eq!(c.teawie_download_urls(), Some((now, urls(&["X"]))));
}

#[test]
fn refresh_stores_and_returns_the_images() {
    let mut c = Cache::new();
    let dirs = vec![vec![
        Content { name: "a.png".into(), kind: "file".into(), download_url: Some("A".into()) },
        Content { name: "b".into(), kind: "dir".into(), download_url: None },
    ]];
    let images = refresh_image_urls(&mut c, &dirs);
    assert_eq!(images, urls(&["A"]));
    assert_eq!(c.teawie_download_urls().unwrap().1, urls(&["A"]));
    assert_eq!(cached_image_urls(&c), Some(urls(&["A"])));
}

#[test]
fn empty_cache_plans_a_fetch_of_the_four_directories() {
    match plan_image_urls(&Cache::new()) {
        UrlsPlan::Fetch(dirs) => assert_eq!(dirs, teawie_subdirectories()),
        UrlsPlan::Cached(_) => panic!("empty cache cannot serve"),
    }
    let mut c = Cache::new();
    c.cache_teawie_download_urls(urls(&["z"]));
    match plan_image_urls(&c) {
        UrlsPlan::Cached(u) => assert_eq!(u, urls(&["z"])),
        UrlsPlan::Fetch(_) => panic!("fresh cache should serve"),
    }
}
