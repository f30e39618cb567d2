use teawie_api::content::{collect_image_urls, find_image_urls, is_image_file, Content};
use teawie_api::text::{chars_equal, last_segment_start};

fn item(name: &str, kind: &str, url: Option<&str>) -> Content {
    Content {
        name: name.to_string(),
        kind: kind.to_string(),
        download_url: url.map(|u| u.to_string()),
    }
}

#[test]
fn image_files_with_known_extensions_are_found() {
    for ext in ["gif", "jpg", "jpeg", "png", "svg", "webp"] {
        let c = item(&format!("teawie.{ext}"), "file", Some("u"));
        assert!(is_image_file(&c), "{ext} should count as an image");
    }
}

#[test]
fn other_extensions_and_kinds_are_not_images() {
    assert!(!is_image_file(&item("notes.txt", "file", Some("u"))));
    assert!(!is_image_file(&item("teawie.PNG", "file", Some("u"))));
    assert!(!is_image_file(&item("archive.png.zip", "file", Some("u"))));
    assert!(!is_image_file(&item("pictures.png", "dir", None)));
    assert!(!is_image_file(&item("link.png", "symlink", Some("u"))));
    assert!(!is_image_file(&item("teawie.", "file", Some("u"))));
    assert!(!is_image_file(&item("", "file", Some("u"))));
}

#[test]
fn name_without_dot_is_its_own_extension() {
    // splitting "png" at '.' leaves "png" as the last part
    assert!(is_image_file(&item("png", "file", Some("u"))));
    assert!(!is_image_file(&item("teawie", "file", Some("u"))));
}

#[test]
fn last_part_after_several_dots_decides() {
    assert!(is_image_file(&item("teawie.final.v2.webp", "file", Some("u"))));
    assert!(is_image_file(&item(".gif", "file", Some("u"))));
}

#[test]
fn find_image_urls_keeps_order_and_drops_the_rest() {
    let listing = vec![
        item("a.png", "file", Some("https://x/a.png")),
        item("b.txt", "file", Some("https://x/b.txt")),
        item("sub", "dir", None),
        item("c.gif", "file", None),
        item("d.jpeg", "file", Some("https://x/d.jpeg")),
    ];
    let urls = find_image_urls(&listing);
    assert_eq!(urls, vec!["https://x/a.png".to_string(), "https://x/d.jpeg".to_string()]);
}

#[test]
fn find_image_urls_of_empty_listing_is_empty() {
    assert!(find_image_urls(&Vec::new()).is_empty());
}

#[test]
fn collect_image_urls_concatenates_listings() {
    let dirs = vec![
        vec![item("a.png", "file", Some("1")), item("b.md", "file", Some("2"))],
        vec![],
        vec![item("c.svg", "file", Some("3")), item("d.webp", "file", Some("4"))],
    ];
    let urls = collect_image_urls(&dirs);
    assert_eq!(urls, vec!["1".to_string(), "3".to_string(), "4".to_string()]);
    let mut one_by_one = Vec::new();
    for d in &dirs {
        one_by_one.extend(find_image_urls(d));
    }
    assert_eq!(urls, one_by_one);
}

#[test]
fn last_segment_start_points_after_last_dot() {
    assert_eq!(last_segment_start("a.b.c"), 4);
    assert_eq!(last_segment_start("abc"), 0);
    assert_eq!(last_segment_start("abc."), 4);
    assert_eq!(last_segment_start(""), 0);
    assert_eq!(last_segment_start("é.png"), 2);
}

#[test]
fn chars_equal_compares_a_range() {
    assert!(chars_equal("teawie.png", 7, 10, "png"));
    assert!(!chars_equal("teawie.png", 6, 10, "png"));
    assert!(!chars_equal("teawie.pnx", 7, 10, "png"));
    assert!(chars_equal("abc", 1, 1, ""));
}
