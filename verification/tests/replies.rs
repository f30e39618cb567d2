use teawie_api::replies::{
    list_teawies_reply, not_found_reply, random_teawie_by_byte_found, random_teawie_by_byte_reply,
    random_teawie_found, random_teawie_reply, random_teawie_unchosen, redirect_target, route, route_table, ListTeawie,
    RandomTeawie, Route, STATUS_INTERNAL_SERVER_ERROR, STATUS_NOT_FOUND, STATUS_OK,
};

fn urls(xs: &[&str]) -> Vec<String> {
    xs.iter().map(|s| s.to_string()).collect()
}

#[test]
fn paths_reach_their_routes() {
    assert_eq!(route("/"), Route::Root);
    assert_eq!(route("/list_teawies"), Route::ListTeawies);
    assert_eq!(route("/random_teawie"), Route::RandomTeawie);
    assert_eq!(route("/get_random_teawie"), Route::RandomTeawie);
    assert_eq!(route("/nope"), Route::NotFound);
    assert_eq!(route(""), Route::NotFound);
    assert_eq!(route("/list_teawies/"), Route::NotFound);
}

#[test]
fn route_table_agrees_with_route() {
    let table = route_table();
    assert_eq!(table.len(), 4);
    for (path, r) in table {
        assert_eq!(route(path), r);
    }
}

#[test]
fn list_reply_on_success() {
    let (status, body) = list_teawies_reply(Ok(urls(&["a", "b"])));
    assert_eq!(status, STATUS_OK);
    assert_eq!(body, ListTeawie { error: None, wies: Some(urls(&["a", "b"])) });
}

#[test]
fn list_reply_on_failure() {
    let (status, body) = list_teawies_reply(Err("timeout".to_string()));
    assert_eq!(status, STATUS_INTERNAL_SERVER_ERROR);
    assert_eq!(
        body,
        ListTeawie { error: Some("Couldn't fetch teawies!\ntimeout".to_string()), wies: None }
    );
}

#[test]
fn random_reply_picks_one_of_the_urls() {
    let wies = urls(&["a", "b", "c"]);
    for _ in 0..20 {
        let (status, body) = random_teawie_reply(Ok(wies.clone()));
        assert_eq!(status, STATUS_OK);
        assert!(body.error.is_none());
        assert!(wies.contains(&body.url.expect("nonempty list")));
    }
}

#[test]
fn random_reply_of_empty_list_has_no_url() {
    let (status, body) = random_teawie_reply(Ok(Vec::new()));
    assert_eq!(status, STATUS_OK);
    assert_eq!(body, RandomTeawie { error: None, url: None });
}

#[test]
fn random_reply_on_failure() {
    let (status, body) = random_teawie_reply(Err("boom".to_string()));
    assert_eq!(status, STATUS_INTERNAL_SERVER_ERROR);
    assert_eq!(
        body,
        RandomTeawie { error: Some("Couldn't fetch teawies!\nboom".to_string()), url: None }
    );
}

#[test]
fn random_found_wraps_url() {
    assert_eq!(
        random_teawie_found(Some("u".to_string())),
        (STATUS_OK, RandomTeawie { error: None, url: Some("u".to_string()) })
    );
}

#[test]
fn byte_picks_url_modulo_length() {
    let wies = urls(&["a", "b", "c"]);
    assert_eq!(random_teawie_by_byte_found(wies.clone(), Some(5)).1.url, Some("c".to_string()));
    assert_eq!(random_teawie_by_byte_found(wies.clone(), Some(255)).1.url, Some("a".to_string()));
    assert_eq!(random_teawie_by_byte_found(wies.clone(), Some(0)).0, STATUS_OK);
    let (status, body) = random_teawie_by_byte_found(wies, None);
    assert_eq!(status, STATUS_INTERNAL_SERVER_ERROR);
    assert_eq!(body.error, Some("Couldn't choose a random teawie!".to_string()));
    assert_eq!(body.url, None);
}

#[test]
fn byte_reply_on_failure_and_success() {
    let (status, body) = random_teawie_by_byte_reply(Err("x".to_string()));
    assert_eq!(status, STATUS_INTERNAL_SERVER_ERROR);
    assert_eq!(body.error, Some("Couldn't fetch wies from GitHub!".to_string()));
    let wies = urls(&["a", "b"]);
    let (status, body) = random_teawie_by_byte_reply(Ok(wies.clone()));
    if status == STATUS_OK {
        assert!(wies.contains(&body.url.unwrap()));
    } else {
        assert_eq!(body.error, Some("Couldn't choose a random teawie!".to_string()));
    }
}

#[test]
fn not_found_says_womp_womp() {
    assert_eq!(not_found_reply(), (STATUS_NOT_FOUND, "womp womp"));
}

#[test]
fn redirect_defaults_to_repository() {
    assert_eq!(redirect_target(None), "https://github.com/getchoo/teawieAPI");
    assert_eq!(redirect_target(Some("https://example.org")), "https://example.org");
}

#[test]
fn unchosen_reply_is_a_server_error() {
    assert_eq!(
        random_teawie_unchosen(),
        (
            STATUS_INTERNAL_SERVER_ERROR,
            RandomTeawie { error: Some("Couldn't choose a random teawie!".to_string()), url: None }
        )
    );
}

#[test]
fn failed_byte_on_empty_list_is_a_server_error() {
    let (status, body) = random_teawie_by_byte_found(Vec::new(), None);
    assert_eq!(status, STATUS_INTERNAL_SERVER_ERROR);
    assert_eq!(body.error, Some("Couldn't choose a random teawie!".to_string()));
}
