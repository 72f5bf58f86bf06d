//! Which URLs the catalog may send the account's bearer token to: only
//! HTTPS URLs on Spotify's API host, without credentials, and for search
//! continuations only the search endpoint of the same kind.

use vstd::prelude::*;
use crate::catalog::{CatalogError, CatalogErrorV, SearchKind, kind_value};
use crate::model::{opt_text, texts};
use crate::text::{owned, trim_text, trimmed};

verus! {

/// The parts of a parsed URL that the catalog reads.
#[derive(Debug)]
pub struct ParsedUrl {
    pub serialization: String,
    pub scheme: String,
    pub username: String,
    pub password: Option<String>,
    pub host: Option<String>,
    pub path: String,
    pub query_pairs: Vec<(String, String)>,
}

/// The view of a [`ParsedUrl`].
pub struct ParsedUrlV {
    pub serialization: Seq<char>,
    pub scheme: Seq<char>,
    pub username: Seq<char>,
    pub password: Option<Seq<char>>,
    pub host: Option<Seq<char>>,
    pub path: Seq<char>,
    pub query_pairs: Seq<(Seq<char>, Seq<char>)>,
}

/// The views of name/value pairs.
pub open spec fn pairs_v(v: Seq<(String, String)>) -> Seq<(Seq<char>, Seq<char>)> {
    v.map_values(|p: (String, String)| (p.0@, p.1@))
}

impl View for ParsedUrl {
    type V = ParsedUrlV;

    open spec fn view(&self) -> ParsedUrlV {
        ParsedUrlV {
            serialization: self.serialization@,
            scheme: self.scheme@,
            username: self.username@,
            password: opt_text(self.password),
            host: opt_text(self.host),
            path: self.path@,
            query_pairs: pairs_v(self.query_pairs@),
        }
    }
}

/// What `url::Url::parse` makes of a text, read through its accessors.
pub uninterp spec fn url_parse(value: Seq<char>) -> Option<ParsedUrlV>;

/// `url::Url::parse`, followed by `as_str`, `scheme`, `username`,
/// `password`, `host_str`, `path` and `query_pairs` on the result. The
/// contract claims only that the outcome is a function of the text;
/// WHATWG URL parsing itself is the url crate's.
#[verifier::external_body]
fn parse_url(value: &str) -> (r: Option<ParsedUrl>)
    ensures
        match r {
            Some(u) => url_parse(value@) == Some(u@),
            None => url_parse(value@) is None,
        },
{
    let url = url::Url::parse(value).ok()?;
    Some(ParsedUrl {
        serialization: url.as_str().to_string(),
        scheme: url.scheme().to_string(),
        username: url.username().to_string(),
        password: url.password().map(|p| p.to_string()),
        host: url.host_str().map(|h| h.to_string()),
        path: url.path().to_string(),
        query_pairs: url.query_pairs().map(|(k, v)| (k.into_owned(), v.into_owned())).collect(),
    })
}

/// A URL on Spotify's API host over HTTPS, without user name or password.
pub open spec fn is_spotify_api(u: ParsedUrlV) -> bool {
    &&& u.scheme == "https"@
    &&& u.host == Some("api.spotify.com"@)
    &&& u.username.len() == 0
    &&& u.password is None
}

/// The outcome of checking that `value` is a Spotify API URL.
pub open spec fn spotify_url_check(value: Seq<char>) -> Result<ParsedUrlV, CatalogErrorV> {
    match url_parse(value) {
        Some(u) => if is_spotify_api(u) {
            Ok(u)
        } else {
            Err(CatalogErrorV::InvalidContinuationUrl(value))
        },
        None => Err(CatalogErrorV::InvalidContinuationUrl(value)),
    }
}

/// The view of a URL check's outcome.
pub open spec fn url_result_v(r: Result<ParsedUrl, CatalogError>) -> Result<ParsedUrlV, CatalogErrorV> {
    match r {
        Ok(u) => Ok(u@),
        Err(e) => Err(e@),
    }
}

fn same_text(a: &String, b: &str) -> (r: bool)
    ensures
        r == (a@ == b@),
{
    *a == owned(b)
}

fn unsafe_url(value: &str) -> (e: CatalogError)
    ensures
        e@ == CatalogErrorV::InvalidContinuationUrl(value@),
{
    CatalogError::InvalidContinuationUrl(owned(value))
}

/// Accepts `value` only as an HTTPS URL on Spotify's API host without
/// credentials; anything else is an unsafe continuation URL.
pub fn validate_spotify_url(value: &str) -> (r: Result<ParsedUrl, CatalogError>)
    ensures
        url_result_v(r) == spotify_url_check(value@),
{
    proof {
        reveal_strlit("https");
        reveal_strlit("api.spotify.com");
    }
    let parsed = match parse_url(value) {
        Some(u) => u,
        None => {
            return Err(unsafe_url(value));
        },
    };
    let safe_host = match &parsed.host {
        Some(h) => same_text(h, "api.spotify.com"),
        None => false,
    };
    let safe = same_text(&parsed.scheme, "https") && safe_host && parsed.username.as_str().is_empty()
        && parsed.password.is_none();
    if safe {
        Ok(parsed)
    } else {
        Err(unsafe_url(value))
    }
}

/// `pairs` holds the name/value pair `(name, value)`.
pub open spec fn has_pair(pairs: Seq<(Seq<char>, Seq<char>)>, name: Seq<char>, value: Seq<char>) -> bool {
    exists|i: int| 0 <= i < pairs.len() && pairs[i] == (name, value)
}

/// A URL of Spotify's search endpoint for results of `kind`.
pub open spec fn is_search_for(u: ParsedUrlV, kind: SearchKind) -> bool {
    u.path == "/v1/search"@ && has_pair(u.query_pairs, "type"@, kind_value(kind))
}

/// The outcome of checking that `value` continues a search for `kind`.
pub open spec fn search_url_check(value: Seq<char>, kind: SearchKind) -> Result<ParsedUrlV, CatalogErrorV> {
    match spotify_url_check(value) {
        Ok(u) => if is_search_for(u, kind) {
            Ok(u)
        } else {
            Err(CatalogErrorV::InvalidContinuationUrl(value))
        },
        Err(e) => Err(e),
    }
}

fn has_type_pair(pairs: &Vec<(String, String)>, value: &str) -> (b: bool)
    ensures
        b == has_pair(pairs_v(pairs@), "type"@, value@),
{
    let ghost ps = pairs_v(pairs@);
    let mut i: usize = 0;
    while i < pairs.len()
        invariant
            ps == pairs_v(pairs@),
            i <= pairs@.len(),
            forall|j: int| 0 <= j < i ==> ps[j] != ("type"@, value@),
        decreases pairs.len() - i,
    {
        if same_text(&pairs[i].0, "type") && same_text(&pairs[i].1, value) {
            assert(ps[i as int] == ("type"@, value@));
            return true;
        }
        i = i + 1;
    }
    false
}

/// Accepts `value` only as a Spotify search URL for `kind`, so that a
/// continuation can neither leave the search endpoint nor switch kinds.
pub fn validate_search_url(value: &str, kind: SearchKind) -> (r: Result<ParsedUrl, CatalogError>)
    ensures
        url_result_v(r) == search_url_check(value@, kind),
{
    let parsed = validate_spotify_url(value)?;
    let expected = same_text(&parsed.path, "/v1/search") && has_type_pair(&parsed.query_pairs, kind.spotify_value());
    if expected {
        Ok(parsed)
    } else {
        Err(unsafe_url(value))
    }
}

/// The outcome of validating an optional continuation: its normalized form.
pub open spec fn continuation_check(c: Option<Seq<char>>) -> Result<Option<Seq<char>>, CatalogErrorV> {
    match c {
        None => Ok(None),
        Some(u) => match spotify_url_check(u) {
            Ok(p) => Ok(Some(p.serialization)),
            Err(e) => Err(e),
        },
    }
}

/// The outcome of validating an optional search continuation.
pub open spec fn search_continuation_check(c: Option<Seq<char>>, kind: SearchKind) -> Result<Option<Seq<char>>, CatalogErrorV> {
    match c {
        None => Ok(None),
        Some(u) => match search_url_check(u, kind) {
            Ok(p) => Ok(Some(p.serialization)),
            Err(e) => Err(e),
        },
    }
}

/// The view of an optional text result.
pub open spec fn opt_result_v(r: Result<Option<String>, CatalogError>) -> Result<Option<Seq<char>>, CatalogErrorV> {
    match r {
        Ok(o) => Ok(opt_text(o)),
        Err(e) => Err(e@),
    }
}

/// Validates the `next` URL of a page, returning its normalized form.
pub fn validate_optional_continuation(continuation: Option<String>) -> (r: Result<Option<String>, CatalogError>)
    ensures
        opt_result_v(r) == continuation_check(opt_text(continuation)),
{
    match continuation {
        None => Ok(None),
        Some(url) => {
            let validated = validate_spotify_url(url.as_str())?;
            Ok(Some(validated.serialization))
        },
    }
}

/// Validates the `next` URL of a search page for `kind`, returning its
/// normalized form.
pub fn validate_optional_search_continuation(continuation: Option<String>, kind: SearchKind) -> (r: Result<Option<String>, CatalogError>)
    ensures
        opt_result_v(r) == search_continuation_check(opt_text(continuation), kind),
{
    match continuation {
        None => Ok(None),
        Some(url) => {
            let validated = validate_search_url(url.as_str(), kind)?;
            Ok(Some(validated.serialization))
        },
    }
}

/// `texts` holds `t`.
pub open spec fn holds_text(v: Seq<Seq<char>>, t: Seq<char>) -> bool {
    exists|i: int| 0 <= i < v.len() && v[i] == t
}

/// The outcome of recording a page URL: the normalized URL is new, or the
/// pagination loops.
pub open spec fn note_page_check(url: Seq<char>, visited: Seq<Seq<char>>) -> Result<Seq<char>, CatalogErrorV> {
    match spotify_url_check(url) {
        Ok(p) => if holds_text(visited, p.serialization) {
            Err(CatalogErrorV::PaginationLoop(p.serialization))
        } else {
            Ok(p.serialization)
        },
        Err(e) => Err(e),
    }
}

fn holds(visited: &Vec<String>, t: &String) -> (b: bool)
    ensures
        b == holds_text(texts(visited@), t@),
{
    let ghost v = texts(visited@);
    let mut i: usize = 0;
    while i < visited.len()
        invariant
            v == texts(visited@),
            i <= visited@.len(),
            forall|j: int| 0 <= j < i ==> v[j] != t@,
        decreases visited.len() - i,
    {
        if visited[i] == *t {
            assert(v[i as int] == t@);
            return true;
        }
        i = i + 1;
    }
    false
}

/// Records a page URL in its normalized form; a URL seen before means
/// Spotify's pagination loops.
pub fn note_page(url: &str, visited: &mut Vec<String>) -> (r: Result<(), CatalogError>)
    ensures
        match note_page_check(url@, texts(old(visited)@)) {
            Ok(n) => r is Ok && texts(final(visited)@) == texts(old(visited)@).push(n),
            Err(e) => r matches Err(x) && x@ == e && final(visited)@ == old(visited)@,
        },
{
    let normalized = validate_spotify_url(url)?.serialization;
    if holds(visited, &normalized) {
        return Err(CatalogError::PaginationLoop(normalized));
    }
    let ghost before = visited@;
    visited.push(normalized);
    assert(texts(visited@) =~= texts(before).push(normalized@));
    Ok(())
}


/// The serialization `url::Url::parse_with_params` produces for a base URL
/// and query pairs.
pub uninterp spec fn url_with_query(base: Seq<char>, pairs: Seq<(Seq<char>, Seq<char>)>) -> Option<Seq<char>>;

/// `url::Url::parse_with_params` followed by `as_str`: the base parsed,
/// then each pair appended to its query, in order. As the url crate's
/// source shows, the outcome is `Some` exactly when the base alone parses.
#[verifier::external_body]
fn parse_with_params(base: &str, pairs: &Vec<(String, String)>) -> (r: Option<String>)
    ensures
        match r {
            Some(u) => url_with_query(base@, pairs_v(pairs@)) == Some(u@),
            None => url_with_query(base@, pairs_v(pairs@)) is None,
        },
        r is Some <==> url_parse(base@) is Some,
{
    url::Url::parse_with_params(base, pairs.iter().map(|(k, v)| (k.as_str(), v.as_str())))
        .ok()
        .map(|url| url.as_str().to_string())
}

/// The endpoint of Spotify's catalogue search.
pub open spec fn search_endpoint() -> Seq<char> {
    "https://api.spotify.com/v1/search"@
}

/// The query of a first search page: the text, the kind, ten results, the
/// account's market, and playable external audio.
pub open spec fn search_pairs(query: Seq<char>, kind: SearchKind) -> Seq<(Seq<char>, Seq<char>)> {
    seq![
        ("q"@, query),
        ("type"@, kind_value(kind)),
        ("limit"@, "10"@),
        ("market"@, "from_token"@),
        ("include_external"@, "audio"@),
    ]
}

/// The URL to fetch for a search: the validated cursor when continuing,
/// otherwise the first page for the trimmed query. A blank query is
/// refused.
pub open spec fn search_request(query: Seq<char>, kind: SearchKind, cursor: Option<Seq<char>>) -> Result<Seq<char>, CatalogErrorV> {
    if trimmed(query).len() == 0 {
        Err(CatalogErrorV::EmptySearch)
    } else {
        match cursor {
            Some(c) => match search_url_check(c, kind) {
                Ok(u) => Ok(u.serialization),
                Err(e) => Err(e),
            },
            None => Ok(url_with_query(search_endpoint(), search_pairs(trimmed(query), kind))->0),
        }
    }
}

/// The view of a text result.
pub open spec fn text_result_v(r: Result<String, CatalogError>) -> Result<Seq<char>, CatalogErrorV> {
    match r {
        Ok(s) => Ok(s@),
        Err(e) => Err(e@),
    }
}

/// The URL of the search page to fetch. A first page is built from the
/// search endpoint, which must parse.
pub fn search_request_url(query: &str, kind: SearchKind, cursor: Option<&str>) -> (r: Result<String, CatalogError>)
    requires
        trimmed(query@).len() == 0 || cursor is Some || url_parse(search_endpoint()) is Some,
    ensures
        text_result_v(r) == search_request(query@, kind, match cursor { Some(c) => Some(c@), None => None }),
{
    let query = trim_text(query);
    if query.is_empty() {
        return Err(CatalogError::EmptySearch);
    }
    match cursor {
        Some(c) => {
            let validated = validate_search_url(c, kind)?;
            Ok(validated.serialization)
        },
        None => {
            let pairs = vec![
                (owned("q"), owned(query)),
                (owned("type"), owned(kind.spotify_value())),
                (owned("limit"), owned("10")),
                (owned("market"), owned("from_token")),
                (owned("include_external"), owned("audio")),
            ];
            assert(pairs_v(pairs@) =~= search_pairs(query@, kind));
            match parse_with_params("https://api.spotify.com/v1/search", &pairs) {
                Some(url) => Ok(url),
                None => {
                    assert(false);
                    Err(CatalogError::EmptySearch)
                },
            }
        },
    }
}

/// The URL of the search page to fetch, or `None` when the search endpoint
/// itself would not parse and a first page cannot be built. A blank query
/// is refused before anything else.
pub fn try_search_request_url(query: &str, kind: SearchKind, cursor: Option<&str>) -> (r: Option<Result<String, CatalogError>>)
    ensures
        trimmed(query@).len() == 0 ==> r matches Some(Err(CatalogError::EmptySearch)),
        r is None <==> (trimmed(query@).len() > 0 && cursor is None && url_parse(search_endpoint()) is None),
        r matches Some(x) ==> text_result_v(x) == search_request(query@, kind, match cursor { Some(c) => Some(c@), None => None }),
{
    if trim_text(query).is_empty() {
        return Some(Err(CatalogError::EmptySearch));
    }
    if cursor.is_none() && parse_url("https://api.spotify.com/v1/search").is_none() {
        return None;
    }
    Some(search_request_url(query, kind, cursor))
}


/// A first search page asks for the trimmed text and for results of the
/// kind searched: its URL is the search endpoint with a query whose one
/// `q` pair is the trimmed text and whose one `type` pair is the kind's
/// Spotify name.
pub proof fn law_first_search_page_asks_for_kind(query: Seq<char>, kind: SearchKind)
    requires
        trimmed(query).len() > 0,
    ensures
        exists|pairs: Seq<(Seq<char>, Seq<char>)>| {
            &&& has_pair(pairs, "q"@, trimmed(query))
            &&& has_pair(pairs, "type"@, kind_value(kind))
            &&& forall|i: int| 0 <= i < pairs.len() && pairs[i].0 == "q"@ ==> pairs[i].1 == trimmed(query)
            &&& forall|i: int| 0 <= i < pairs.len() && pairs[i].0 == "type"@ ==> pairs[i].1 == kind_value(kind)
            &&& search_request(query, kind, None) == Ok::<Seq<char>, CatalogErrorV>(url_with_query(search_endpoint(), pairs)->0)
        },
{
    reveal_strlit("q");
    reveal_strlit("type");
    reveal_strlit("limit");
    reveal_strlit("market");
    reveal_strlit("include_external");
    let pairs = search_pairs(trimmed(query), kind);
    assert(pairs[0] == ("q"@, trimmed(query)));
    assert(pairs[1] == ("type"@, kind_value(kind)));
    assert(has_pair(pairs, "q"@, trimmed(query)));
    assert(has_pair(pairs, "type"@, kind_value(kind)));
    assert(pairs.len() == 5);
    assert("q"@.len() == 1 && "type"@.len() == 4 && "limit"@.len() == 5 && "market"@.len() == 6);
    assert("include_external"@.len() == 16);
    assert forall|i: int| 0 <= i < pairs.len() && pairs[i].0 == "q"@ implies pairs[i].1 == trimmed(query) by {
        assert(i == 0);
    }
    assert forall|i: int| 0 <= i < pairs.len() && pairs[i].0 == "type"@ implies pairs[i].1 == kind_value(kind) by {
        assert(i == 1);
    }
    assert(search_request(query, kind, None) == Ok::<Seq<char>, CatalogErrorV>(url_with_query(search_endpoint(), pairs)->0));
}

} // verus!
