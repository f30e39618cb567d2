//! The HTTP surface: which route a path reaches, and the status and body that
//! each route answers with.

use rand::rngs::{OsRng, StdRng};
use rand::seq::SliceRandom;
use rand::SeedableRng;

use vstd::prelude::*;
use vstd::string::*;

use crate::text::chars_equal;

verus! {

/// `200 OK`.
pub const STATUS_OK: u16 = 200;

/// `404 Not Found`.
pub const STATUS_NOT_FOUND: u16 = 404;

/// `500 Internal Server Error`.
pub const STATUS_INTERNAL_SERVER_ERROR: u16 = 500;

/// The handlers of the service.
#[derive(Clone, Copy, Debug, PartialEq, Eq, Structural)]
pub enum Route {
    /// Redirect to the project's repository.
    Root,
    /// All known Teawie download URLs.
    ListTeawies,
    /// One Teawie download URL, picked at random.
    RandomTeawie,
    /// The fallback for every other path.
    NotFound,
}

/// The route that serves `path`.
pub open spec fn route_of(path: Seq<char>) -> Route {
    if path == "/"@ {
        Route::Root
    } else if path == "/list_teawies"@ {
        Route::ListTeawies
    } else if path == "/random_teawie"@ || path == "/get_random_teawie"@ {
        Route::RandomTeawie
    } else {
        Route::NotFound
    }
}

/// The paths with a handler of their own, each with its route.
pub open spec fn routes_spec() -> Seq<(Seq<char>, Route)> {
    seq![
        ("/"@, Route::Root),
        ("/list_teawies"@, Route::ListTeawies),
        ("/random_teawie"@, Route::RandomTeawie),
        ("/get_random_teawie"@, Route::RandomTeawie),
    ]
}

pub open spec fn route_entries_view(t: Seq<(&'static str, Route)>) -> Seq<(Seq<char>, Route)> {
    t.map_values(|e: (&'static str, Route)| (e.0@, e.1))
}

/// The routing table: every path that has a handler, with its route. Every
/// other path falls back to [`Route::NotFound`].
pub fn route_table() -> (table: Vec<(&'static str, Route)>)
    ensures
        route_entries_view(table@) == routes_spec(),
{
    let mut table: Vec<(&'static str, Route)> = Vec::new();
    table.push(("/", Route::Root));
    table.push(("/list_teawies", Route::ListTeawies));
    table.push(("/random_teawie", Route::RandomTeawie));
    table.push(("/get_random_teawie", Route::RandomTeawie));
    proof {
        assert(route_entries_view(table@) =~= routes_spec());
    }
    table
}

/// The route that serves `path`.
pub fn route(path: &str) -> (r: Route)
    ensures
        r == route_of(path@),
{
    let n: usize = path.unicode_len();
    proof {
        assert(path@.subrange(0, n as int) =~= path@);
    }
    if chars_equal(path, 0, n, "/") {
        Route::Root
    } else if chars_equal(path, 0, n, "/list_teawies") {
        Route::ListTeawies
    } else if chars_equal(path, 0, n, "/random_teawie") || chars_equal(
        path,
        0,
        n,
        "/get_random_teawie",
    ) {
        Route::RandomTeawie
    } else {
        Route::NotFound
    }
}

/// Every path of the routing table reaches the route the table gives it.
pub proof fn lemma_route_table_agrees(i: int)
    requires
        0 <= i < routes_spec().len(),
    ensures
        route_of(routes_spec()[i].0) == routes_spec()[i].1,
{
    reveal_strlit("/");
    reveal_strlit("/list_teawies");
    reveal_strlit("/random_teawie");
    reveal_strlit("/get_random_teawie");
    assert("/"@ != "/list_teawies"@) by {
        assert("/"@.len() != "/list_teawies"@.len());
    }
    assert("/"@ != "/random_teawie"@) by {
        assert("/"@.len() != "/random_teawie"@.len());
    }
    assert("/"@ != "/get_random_teawie"@) by {
        assert("/"@.len() != "/get_random_teawie"@.len());
    }
    assert("/list_teawies"@ != "/random_teawie"@) by {
        assert("/list_teawies"@[1] != "/random_teawie"@[1]);
    }
    assert("/list_teawies"@ != "/get_random_teawie"@) by {
        assert("/list_teawies"@.len() != "/get_random_teawie"@.len());
    }
}

/// Body of the list route.
#[derive(Debug, PartialEq, Eq)]
pub struct ListTeawie {
    pub error: Option<String>,
    pub wies: Option<Vec<String>>,
}

/// Body of the random route.
#[derive(Debug, PartialEq, Eq)]
pub struct RandomTeawie {
    pub error: Option<String>,
    pub url: Option<String>,
}

/// The message of a failed fetch, given the failure's description.
pub open spec fn fetch_failed_message(why: Seq<char>) -> Seq<char> {
    "Couldn't fetch teawies!\n"@ + why
}

fn fetch_failed(why: &str) -> (msg: String)
    ensures
        msg@ == fetch_failed_message(why@),
{
    let mut msg = "Couldn't fetch teawies!\n".to_owned();
    msg.append(why);
    msg
}

/// Answer of the list route: all URLs when the fetch succeeded, else a
/// server error that describes the failure.
pub fn list_teawies_reply(fetched: Result<Vec<String>, String>) -> (reply: (u16, ListTeawie))
    ensures
        fetched matches Ok(wies) ==> reply.0 == STATUS_OK && reply.1.error is None
            && reply.1.wies == Some(wies),
        fetched matches Err(why) ==> reply.0 == STATUS_INTERNAL_SERVER_ERROR && reply.1.wies is None
            && (reply.1.error matches Some(msg) && msg@ == fetch_failed_message(why@)),
{
    match fetched {
        Ok(wies) => (STATUS_OK, ListTeawie { error: None, wies: Some(wies) }),
        Err(why) => (
            STATUS_INTERNAL_SERVER_ERROR,
            ListTeawie { error: Some(fetch_failed(why.as_str())), wies: None },
        ),
    }
}

#[verifier::external_type_specification]
#[verifier::external_body]
pub struct ExStdRng(StdRng);

/// `rand::SeedableRng::from_rng` for `rand::rngs::StdRng`, seeded from
/// `rand::rngs::OsRng`: a generator when the operating system's source of
/// randomness gives a seed, nothing when it fails. Which of the two happens
/// depends on the machine, so nothing is stated of it.
#[verifier::external_body]
fn seeded_rng() -> (rng: Option<StdRng>) {
    match StdRng::from_rng(OsRng) {
        Ok(rng) => Some(rng),
        Err(_) => None,
    }
}

/// `rand::seq::SliceRandom::choose` with the generator `rng`: nothing for an
/// empty list, else one of its elements, cloned. Which element comes out is
/// left to chance.
#[verifier::external_body]
fn choose_url(wies: &Vec<String>, rng: &mut StdRng) -> (r: Option<String>)
    ensures
        r is None <==> wies@.len() == 0,
        r matches Some(u) ==> exists|i: int| 0 <= i < wies@.len() && wies@[i]@ == u@,
{
    wies.choose(rng).cloned()
}

/// The successful answer of the random route, carrying the chosen URL.
pub fn random_teawie_found(url: Option<String>) -> (reply: (u16, RandomTeawie))
    ensures
        reply.0 == STATUS_OK,
        reply.1.error is None,
        reply.1.url == url,
{
    (STATUS_OK, RandomTeawie { error: None, url })
}

/// The answer of the random route when no random generator could be had.
pub fn random_teawie_unchosen() -> (reply: (u16, RandomTeawie))
    ensures
        reply.0 == STATUS_INTERNAL_SERVER_ERROR,
        reply.1.url is None,
        reply.1.error matches Some(msg) && msg@ == choose_failed_message(),
{
    (
        STATUS_INTERNAL_SERVER_ERROR,
        RandomTeawie { error: Some("Couldn't choose a random teawie!".to_owned()), url: None },
    )
}

/// Answer of the random route: one of the URLs, picked at random, when the
/// fetch succeeded (none when there are no URLs), else a server error that
/// describes the failure. A server error also answers when the operating
/// system gives no randomness to seed the generator.
pub fn random_teawie_reply(fetched: Result<Vec<String>, String>) -> (reply: (u16, RandomTeawie))
    ensures
        fetched matches Ok(wies) ==> {
            ||| {
                &&& reply.0 == STATUS_INTERNAL_SERVER_ERROR
                &&& reply.1.url is None
                &&& reply.1.error matches Some(msg) && msg@ == choose_failed_message()
            }
            ||| {
                &&& reply.0 == STATUS_OK
                &&& reply.1.error is None
                &&& reply.1.url is None <==> wies@.len() == 0
                &&& reply.1.url matches Some(u) ==> exists|i: int|
                    0 <= i < wies@.len() && wies@[i]@ == u@
            }
        },
        fetched matches Err(why) ==> reply.0 == STATUS_INTERNAL_SERVER_ERROR && reply.1.url is None
            && (reply.1.error matches Some(msg) && msg@ == fetch_failed_message(why@)),
{
    match fetched {
        Ok(wies) => match seeded_rng() {
            Some(mut rng) => {
                let url = choose_url(&wies, &mut rng);
                random_teawie_found(url)
            },
            None => random_teawie_unchosen(),
        },
        Err(why) => (
            STATUS_INTERNAL_SERVER_ERROR,
            RandomTeawie { error: Some(fetch_failed(why.as_str())), url: None },
        ),
    }
}

/// `getrandom::getrandom` on a one-byte buffer: a byte from the operating
/// system's source of randomness, or nothing when that source fails. What
/// comes back is left to chance.
#[verifier::external_body]
fn random_byte() -> (b: Option<u8>) {
    let mut buf = [0u8; 1];
    match getrandom::getrandom(&mut buf) {
        Ok(()) => Some(buf[0]),
        Err(_) => None,
    }
}

/// The message when the URLs could not be fetched.
pub open spec fn fetch_wies_failed_message() -> Seq<char> {
    "Couldn't fetch wies from GitHub!"@
}

/// The message when no random number could be had.
pub open spec fn choose_failed_message() -> Seq<char> {
    "Couldn't choose a random teawie!"@
}

/// The URL that a random byte picks: the one at the byte's value modulo the
/// number of URLs.
pub open spec fn url_for_byte(wies: Seq<String>, byte: u8) -> String
    recommends
        wies.len() > 0,
{
    wies[(byte as int) % (wies.len() as int)]
}

/// Every URL of a list of at most 256 can be picked: the byte equal to its
/// position picks it. (With a longer list only the first 256 can come out.)
pub proof fn lemma_every_url_can_be_picked(wies: Seq<String>, i: int)
    requires
        0 <= i < wies.len(),
        wies.len() <= 256,
    ensures
        exists|b: u8| #[trigger] url_for_byte(wies, b) == wies[i],
{
    let b: u8 = i as u8;
    assert(b as int == i);
    vstd::arithmetic::div_mod::lemma_small_mod(i as nat, wies.len());
    assert((b as int) % (wies.len() as int) == i);
    assert(url_for_byte(wies, b) == wies[i]);
}

/// Two bytes that differ by the list's length pick the same URL.
pub proof fn lemma_byte_pick_wraps(wies: Seq<String>, b: u8)
    requires
        wies.len() > 0,
        b as int + wies.len() <= 255,
    ensures
        url_for_byte(wies, (b as int + wies.len()) as u8) == url_for_byte(wies, b),
{
    let n = wies.len() as int;
    let c: u8 = (b as int + n) as u8;
    assert(c as int == b as int + n);
    vstd::arithmetic::div_mod::lemma_mod_add_multiples_vanish(b as int, n);
}

/// Answer of the random route once a random byte was asked for: a server
/// error if none came, else the URL that the byte picks.
pub fn random_teawie_by_byte_found(wies: Vec<String>, byte: Option<u8>) -> (reply: (
    u16,
    RandomTeawie,
))
    requires
        byte is Some ==> wies@.len() > 0,
    ensures
        byte is None ==> reply.0 == STATUS_INTERNAL_SERVER_ERROR && reply.1.url is None
            && (reply.1.error matches Some(msg) && msg@ == choose_failed_message()),
        byte matches Some(b) ==> reply.0 == STATUS_OK && reply.1.error is None && reply.1.url
            == Some(url_for_byte(wies@, b)),
{
    match byte {
        None => random_teawie_unchosen(),
        Some(b) => {
            let i: usize = (b as usize) % wies.len();
            let url = wies[i].clone();
            (STATUS_OK, RandomTeawie { error: None, url: Some(url) })
        },
    }
}

/// Answer of the random route that picks with one random byte from the
/// operating system: a server error if the fetch failed or no byte could be
/// had, else the URL at the byte's value modulo the number of URLs. The list
/// of a successful fetch must not be empty.
pub fn random_teawie_by_byte_reply(fetched: Result<Vec<String>, String>) -> (reply: (
    u16,
    RandomTeawie,
))
    requires
        fetched matches Ok(wies) ==> wies@.len() > 0,
    ensures
        fetched is Err ==> reply.0 == STATUS_INTERNAL_SERVER_ERROR && reply.1.url is None
            && (reply.1.error matches Some(msg) && msg@ == fetch_wies_failed_message()),
        fetched matches Ok(wies) ==> {
            ||| reply.0 == STATUS_INTERNAL_SERVER_ERROR && reply.1.url is None
                && (reply.1.error matches Some(msg) && msg@ == choose_failed_message())
            ||| reply.0 == STATUS_OK && reply.1.error is None && exists|b: u8|
                reply.1.url == Some(#[trigger] url_for_byte(wies@, b))
        },
{
    match fetched {
        Err(_) => (
            STATUS_INTERNAL_SERVER_ERROR,
            RandomTeawie { error: Some("Couldn't fetch wies from GitHub!".to_owned()), url: None },
        ),
        Ok(wies) => {
            let byte = random_byte();
            random_teawie_by_byte_found(wies, byte)
        },
    }
}

/// Answer of every path without a handler.
pub fn not_found_reply() -> (reply: (u16, &'static str))
    ensures
        reply.0 == STATUS_NOT_FOUND,
        reply.1@ == "womp womp"@,
{
    (STATUS_NOT_FOUND, "womp womp")
}

/// Where the root path redirects to.
pub open spec fn redirect_target_of(configured: Option<Seq<char>>) -> Seq<char> {
    match configured {
        Some(url) => url,
        None => "https://github.com/getchoo/teawieAPI"@,
    }
}

/// Where the root path redirects to: the configured URL, else the project's
/// repository.
pub fn redirect_target(configured: Option<&str>) -> (url: String)
    ensures
        url@ == redirect_target_of(
            match configured {
                Some(u) => Some(u@),
                None => None,
            },
        ),
{
    match configured {
        Some(u) => u.to_owned(),
        None => "https://github.com/getchoo/teawieAPI".to_owned(),
    }
}

} // verus!
