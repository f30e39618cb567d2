# teawie_api

A small web service that serves pictures of Teawie from the Teawie Archive on
GitHub, written as a Verus library with a thin server around it.

- `src/` is the verified library:
  - `content.rs`: listing items and the search for image download URLs;
  - `text.rs`: character-level string helpers (last `.`-separated part of a name);
  - `cache.rs`: the URL cache and its one-hour freshness rule;
  - `github.rs`: URLs, directories, bearer header and user agent of the GitHub requests;
  - `replies.rs`: routing table and the status and body of every route.
- `app/main.rs` is the axum server: HTTP I/O, JSON, locks, logging.
- `tests/` exercises the library on concrete values.
