//! Entries of a GitHub directory listing, and the rule that picks out the
//! download URLs of the images among them.

use vstd::prelude::*;
use vstd::string::*;

use crate::text::{chars_equal, last_segment, last_segment_start};

verus! {

/// One item of `GET /repos/{owner}/{repo}/contents/{path}`: the fields the
/// image search reads. `kind` is the item's `type` (`"file"`, `"dir"`, ...).
pub struct Content {
    pub name: String,
    pub kind: String,
    pub download_url: Option<String>,
}

/// A [`Content`] as plain character sequences.
pub struct ContentView {
    pub name: Seq<char>,
    pub kind: Seq<char>,
    pub download_url: Option<Seq<char>>,
}

pub open spec fn opt_string_view(s: Option<String>) -> Option<Seq<char>> {
    match s {
        Some(u) => Some(u@),
        None => None,
    }
}

impl View for Content {
    type V = ContentView;

    open spec fn view(&self) -> ContentView {
        ContentView {
            name: self.name@,
            kind: self.kind@,
            download_url: opt_string_view(self.download_url),
        }
    }
}

/// The listing as views.
pub open spec fn content_views(cs: Seq<Content>) -> Seq<ContentView> {
    cs.map_values(|c: Content| c@)
}

/// Several listings, each as views.
pub open spec fn listing_views(ds: Seq<Vec<Content>>) -> Seq<Seq<ContentView>> {
    ds.map_values(|d: Vec<Content>| content_views(d@))
}

/// File extensions that count as images.
pub open spec fn image_extensions() -> Seq<Seq<char>> {
    seq!["gif"@, "jpg"@, "jpeg"@, "png"@, "svg"@, "webp"@]
}

/// An item is an image when it is a file and the last `'.'`-separated part of
/// its name is one of the image extensions.
pub open spec fn image_file(c: ContentView) -> bool {
    c.kind == "file"@ && image_extensions().contains(last_segment(c.name))
}

/// The URL that an item contributes: its download URL if it is an image.
pub open spec fn image_url_of(c: ContentView) -> Option<Seq<char>> {
    if image_file(c) {
        c.download_url
    } else {
        None
    }
}

pub open spec fn opt_to_seq(o: Option<Seq<char>>) -> Seq<Seq<char>> {
    match o {
        Some(u) => seq![u],
        None => Seq::empty(),
    }
}

/// The download URLs of the images in `cs`, in listing order.
pub open spec fn image_urls(cs: Seq<ContentView>) -> Seq<Seq<char>>
    decreases cs.len(),
{
    if cs.len() == 0 {
        Seq::empty()
    } else {
        image_urls(cs.drop_last()) + opt_to_seq(image_url_of(cs.last()))
    }
}

proof fn lemma_image_extensions_contains(x: Seq<char>)
    ensures
        image_extensions().contains(x) <==> (x == "gif"@ || x == "jpg"@ || x == "jpeg"@ || x
            == "png"@ || x == "svg"@ || x == "webp"@),
{
    let e = image_extensions();
    if x == "gif"@ {
        assert(e[0] == x);
    } else if x == "jpg"@ {
        assert(e[1] == x);
    } else if x == "jpeg"@ {
        assert(e[2] == x);
    } else if x == "png"@ {
        assert(e[3] == x);
    } else if x == "svg"@ {
        assert(e[4] == x);
    } else if x == "webp"@ {
        assert(e[5] == x);
    }
}

/// Whether the characters of `name` from `start` to its end form an image extension.
fn is_image_extension(name: &str, start: usize) -> (r: bool)
    requires
        start <= name@.len(),
    ensures
        r == image_extensions().contains(name@.subrange(start as int, name@.len() as int)),
{
    let n: usize = name.unicode_len();
    proof {
        lemma_image_extensions_contains(name@.subrange(start as int, name@.len() as int));
    }
    chars_equal(name, start, n, "gif") || chars_equal(name, start, n, "jpg") || chars_equal(
        name,
        start,
        n,
        "jpeg",
    ) || chars_equal(name, start, n, "png") || chars_equal(name, start, n, "svg")
        || chars_equal(name, start, n, "webp")
}

/// Whether `c` is an image file: a `"file"` whose name ends in an image extension.
pub fn is_image_file(c: &Content) -> (r: bool)
    ensures
        r == image_file(c@),
{
    let kind = c.kind.as_str();
    let kn: usize = kind.unicode_len();
    if !chars_equal(kind, 0, kn, "file") {
        proof {
            assert(kind@.subrange(0, kn as int) =~= kind@);
        }
        return false;
    }
    proof {
        assert(kind@.subrange(0, kn as int) =~= kind@);
    }
    let name = c.name.as_str();
    let start: usize = last_segment_start(name);
    is_image_extension(name, start)
}

/// Find the images among the items of a listing and map them to their
/// download URLs, keeping the listing's order; images without a download URL
/// are left out.
pub fn find_image_urls(contents: &Vec<Content>) -> (urls: Vec<String>)
    ensures
        urls.deep_view() == image_urls(content_views(contents@)),
{
    let mut urls: Vec<String> = Vec::new();
    let n: usize = contents.len();
    let mut i: usize = 0;
    while i < n
        invariant
            n == contents@.len(),
            i <= n,
            urls.deep_view() == image_urls(content_views(contents@.take(i as int))),
        decreases n - i,
    {
        let c = &contents[i];
        let ghost before = urls.deep_view();
        proof {
            assert(content_views(contents@.take(i + 1)).drop_last() =~= content_views(
                contents@.take(i as int),
            ));
            assert(content_views(contents@.take(i + 1)).last() == c@);
        }
        if is_image_file(c) {
            match &c.download_url {
                Some(u) => {
                    urls.push(u.clone());
                    proof {
                        assert(urls.deep_view() =~= before.push(u@));
                        assert(urls.deep_view() =~= before + opt_to_seq(image_url_of(c@)));
                    }
                },
                None => {
                    proof {
                        assert(before =~= before + opt_to_seq(image_url_of(c@)));
                    }
                },
            }
        } else {
            proof {
                assert(before =~= before + opt_to_seq(image_url_of(c@)));
            }
        }
        i = i + 1;
    }
    proof {
        assert(contents@.take(n as int) =~= contents@);
    }
    urls
}

/// The image URLs of several listings, one after another, as if the listings
/// were one listing.
pub fn collect_image_urls(directories: &Vec<Vec<Content>>) -> (urls: Vec<String>)
    ensures
        urls.deep_view() == image_urls(listing_views(directories@).flatten()),
{
    let mut urls: Vec<String> = Vec::new();
    let n: usize = directories.len();
    let mut i: usize = 0;
    proof {
        assert(listing_views(directories@.take(0)).flatten() =~= Seq::<ContentView>::empty());
        assert(urls.deep_view() =~= Seq::<Seq<char>>::empty());
    }
    while i < n
        invariant
            n == directories@.len(),
            i <= n,
            urls.deep_view() == image_urls(listing_views(directories@.take(i as int)).flatten()),
        decreases n - i,
    {
        let mut part = find_image_urls(&directories[i]);
        let ghost before = urls.deep_view();
        let ghost part_view = part.deep_view();
        urls.append(&mut part);
        proof {
            let prev = listing_views(directories@.take(i as int));
            let d = content_views(directories@[i as int]@);
            assert(listing_views(directories@.take(i + 1)) =~= prev.push(d));
            prev.lemma_flatten_push(d);
            lemma_image_urls_concat(prev.flatten(), d);
            assert(urls.deep_view() =~= before + part_view);
        }
        i = i + 1;
    }
    proof {
        assert(directories@.take(n as int) =~= directories@);
    }
    urls
}

/// The image URLs of two listings one after another are those of the first,
/// then those of the second.
pub proof fn lemma_image_urls_concat(a: Seq<ContentView>, b: Seq<ContentView>)
    ensures
        image_urls(a + b) == image_urls(a) + image_urls(b),
    decreases b.len(),
{
    if b.len() == 0 {
        assert(a + b =~= a);
        assert(image_urls(a) + image_urls(b) =~= image_urls(a));
    } else {
        lemma_image_urls_concat(a, b.drop_last());
        assert((a + b).drop_last() =~= a + b.drop_last());
        assert((a + b).last() == b.last());
        assert(image_urls(a + b) =~= image_urls(a) + image_urls(b));
    }
}

/// Every URL found is the download URL of an image file of the listing.
pub proof fn lemma_image_urls_sound(cs: Seq<ContentView>, k: int)
    requires
        0 <= k < image_urls(cs).len(),
    ensures
        exists|j: int|
            0 <= j < cs.len() && image_file(#[trigger] cs[j]) && cs[j].download_url == Some(
                image_urls(cs)[k],
            ),
    decreases cs.len(),
{
    let init = cs.drop_last();
    if k < image_urls(init).len() {
        lemma_image_urls_sound(init, k);
        let j = choose|j: int|
            0 <= j < init.len() && image_file(#[trigger] init[j]) && init[j].download_url == Some(
                image_urls(init)[k],
            );
        assert(cs[j] == init[j]);
    } else {
        let j: int = cs.len() - 1;
        assert(cs[j] == cs.last());
    }
}

/// Every image file of the listing that has a download URL contributes it.
pub proof fn lemma_image_urls_complete(cs: Seq<ContentView>, j: int)
    requires
        0 <= j < cs.len(),
        image_file(cs[j]),
        cs[j].download_url is Some,
    ensures
        image_urls(cs).contains(cs[j].download_url->0),
    decreases cs.len(),
{
    let init = cs.drop_last();
    let u = cs[j].download_url->0;
    if j < cs.len() - 1 {
        assert(init[j] == cs[j]);
        lemma_image_urls_complete(init, j);
        let k = choose|k: int| 0 <= k < image_urls(init).len() && image_urls(init)[k] == u;
        assert(image_urls(cs)[k] == u);
    } else {
        assert(image_urls(cs)[image_urls(init).len() as int] == u);
    }
}

/// The search never yields more URLs than the listing has items.
pub proof fn lemma_image_urls_len(cs: Seq<ContentView>)
    ensures
        image_urls(cs).len() <= cs.len(),
    decreases cs.len(),
{
    if cs.len() > 0 {
        lemma_image_urls_len(cs.drop_last());
    }
}

} // verus!
