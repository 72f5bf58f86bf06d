//! Spotify account sessions: the client identity, the PKCE authorization
//! request, the OAuth callback, token refresh decisions, the secure store
//! of the refresh token, and the status messages of a connection.

use vstd::prelude::*;
use vstd::string::StringSliceAdditionalSpecFns;
use crate::model::opt_text;
use crate::spotify_url::pairs_v;
use crate::catalog::{CatalogError, error_message};
use crate::text::{
    contains_seq, contains_text, decimal, decimal_string, joined_with, owned, push_char, query_of, second_word, target_query,
    trim_text, trimmed, views, join_texts, words,
};

verus! {

/// The Spotify application id Magnet ships with.
pub const MAGNET_SPOTIFY_CLIENT_ID: &'static str = "49a6085899814912912b8174495e7702";

/// Where Spotify sends the browser back after sign-in.
pub const SPOTIFY_REDIRECT_URI: &'static str = "http://127.0.0.1:5002/auth/spotify/callback";

/// The permissions Magnet asks for.
pub const SPOTIFY_SCOPES: &'static str = "user-read-private user-read-email user-library-read user-library-modify playlist-read-private playlist-read-collaborative playlist-modify-public playlist-modify-private streaming";

/// The client id: a configured one when it is not blank, otherwise
/// Magnet's own.
pub open spec fn client_id_for(configured: Option<Seq<char>>) -> Seq<char> {
    match configured {
        Some(c) => if trimmed(c).len() > 0 { trimmed(c) } else { MAGNET_SPOTIFY_CLIENT_ID@ },
        None => MAGNET_SPOTIFY_CLIENT_ID@,
    }
}

/// The Spotify client id to use, given the id configured at build time.
pub fn spotify_client_id(configured: Option<&str>) -> (id: String)
    ensures
        id@ == client_id_for(match configured {
            Some(c) => Some(c@),
            None => None,
        }),
{
    if let Some(c) = configured {
        let t = trim_text(c);
        if !t.is_empty() {
            return owned(t);
        }
    }
    owned(MAGNET_SPOTIFY_CLIENT_ID)
}

/// The SHA-256 digest of a byte string.
pub uninterp spec fn sha256(data: Seq<u8>) -> Seq<u8>;

/// `sha2::Sha256::digest`: the digest of `data`, which is 32 bytes long.
#[verifier::external_body]
fn sha256_digest(data: &[u8]) -> (r: Vec<u8>)
    ensures
        r@ == sha256(data@),
        r@.len() == 32,
{
    <sha2::Sha256 as sha2::Digest>::digest(data).to_vec()
}

/// A character of the URL-safe base64 alphabet.
pub open spec fn base64_char(v: nat) -> char {
    if v < 26 {
        (65 + v) as char
    } else if v < 52 {
        (71 + v) as char
    } else if v < 62 {
        (v - 4) as char
    } else if v == 62 {
        '-'
    } else {
        '_'
    }
}

/// URL-safe base64 without padding (RFC 4648, section 5): each group of
/// three bytes becomes four characters, a last group of one or two bytes
/// two or three.
pub open spec fn base64_url(b: Seq<u8>) -> Seq<char>
    decreases b.len(),
{
    if b.len() == 0 {
        seq![]
    } else if b.len() == 1 {
        seq![base64_char((b[0] / 4) as nat), base64_char(((b[0] % 4) * 16) as nat)]
    } else if b.len() == 2 {
        seq![
            base64_char((b[0] / 4) as nat),
            base64_char(((b[0] % 4) * 16 + b[1] / 16) as nat),
            base64_char(((b[1] % 16) * 4) as nat),
        ]
    } else {
        seq![
            base64_char((b[0] / 4) as nat),
            base64_char(((b[0] % 4) * 16 + b[1] / 16) as nat),
            base64_char(((b[1] % 16) * 4 + b[2] / 64) as nat),
            base64_char((b[2] % 64) as nat),
        ] + base64_url(b.subrange(3, b.len() as int))
    }
}

/// `base64::engine::general_purpose::URL_SAFE_NO_PAD.encode`: the base64
/// text of `data` over the URL-safe alphabet, without `=` padding.
#[verifier::external_body]
fn base64_url_encode(data: &[u8]) -> (r: String)
    ensures
        r@ == base64_url(data@),
{
    base64::Engine::encode(&base64::engine::general_purpose::URL_SAFE_NO_PAD, data)
}

/// `getrandom::getrandom`: fills `bytes` from the operating system's
/// random source, or reports why it could not. Nothing is claimed of the
/// bytes beyond their number.
#[verifier::external_body]
fn fill_random(bytes: &mut Vec<u8>) -> (r: Result<(), String>)
    ensures
        final(bytes)@.len() == old(bytes)@.len(),
{
    getrandom::getrandom(bytes.as_mut_slice()).map_err(|error| error.to_string())
}

/// The URL-safe base64 text of `bytes`, without padding: the form of the
/// PKCE verifier and the sign-in state.
pub fn urlsafe_token(bytes: &[u8]) -> (t: String)
    ensures
        t@ == base64_url(bytes@),
{
    base64_url_encode(bytes)
}

/// A fresh random token: `byte_length` bytes from the operating system's
/// random source, given as [`urlsafe_token`] of those bytes.
pub fn random_urlsafe(byte_length: usize) -> (r: Result<String, String>)
    ensures
        r matches Ok(t) ==> exists|b: Seq<u8>| b.len() == byte_length && t@ == base64_url(b),
        r matches Err(e) ==> exists|m: Seq<char>| e@ == "Could not start Spotify authorization securely: "@ + m,
{
    let mut bytes: Vec<u8> = vec![0u8; byte_length];
    match fill_random(&mut bytes) {
        Ok(()) => {},
        Err(error) => {
            let mut m = owned("Could not start Spotify authorization securely: ");
            m.append(error.as_str());
            return Err(m);
        },
    }
    let t = urlsafe_token(bytes.as_slice());
    assert(bytes@.len() == byte_length && t@ == base64_url(bytes@));
    Ok(t)
}

/// What `url::form_urlencoded::Serializer` makes of a query after one more
/// name/value pair.
pub uninterp spec fn form_append(query: Seq<char>, name: Seq<char>, value: Seq<char>) -> Seq<char>;

/// `url::form_urlencoded::Serializer::new(query).append_pair(name,
/// value).finish()`: the query with the pair appended in
/// `application/x-www-form-urlencoded` form.
#[verifier::external_body]
fn form_append_pair(query: String, name: &str, value: &str) -> (r: String)
    ensures
        r@ == form_append(query@, name@, value@),
{
    url::form_urlencoded::Serializer::new(query).append_pair(name, value).finish()
}

/// The PKCE challenge of a verifier: its SHA-256 digest in URL-safe
/// base64.
pub open spec fn pkce_challenge(verifier: Seq<char>) -> Seq<char> {
    base64_url(sha256(vstd::utf8::encode_utf8(verifier)))
}

/// The query of an authorization request.
pub open spec fn authorization_query(client_id: Seq<char>, state: Seq<char>, verifier: Seq<char>) -> Seq<char> {
    let q1 = form_append(Seq::empty(), "client_id"@, client_id);
    let q2 = form_append(q1, "response_type"@, "code"@);
    let q3 = form_append(q2, "redirect_uri"@, SPOTIFY_REDIRECT_URI@);
    let q4 = form_append(q3, "scope"@, SPOTIFY_SCOPES@);
    let q5 = form_append(q4, "state"@, state);
    let q6 = form_append(q5, "code_challenge_method"@, "S256"@);
    form_append(q6, "code_challenge"@, pkce_challenge(verifier))
}

/// The Spotify sign-in page for a PKCE authorization code request.
pub fn spotify_authorization_url(client_id: &str, csrf_state: &str, verifier: &str) -> (url: String)
    ensures
        url@ == "https://accounts.spotify.com/authorize?"@ + authorization_query(client_id@, csrf_state@, verifier@),
{
    let digest = sha256_digest(verifier.as_bytes());
    let challenge = urlsafe_token(digest.as_slice());
    let query = form_append_pair(String::new(), "client_id", client_id);
    let query = form_append_pair(query, "response_type", "code");
    let query = form_append_pair(query, "redirect_uri", SPOTIFY_REDIRECT_URI);
    let query = form_append_pair(query, "scope", SPOTIFY_SCOPES);
    let query = form_append_pair(query, "state", csrf_state);
    let query = form_append_pair(query, "code_challenge_method", "S256");
    let query = form_append_pair(query, "code_challenge", challenge.as_str());
    let mut url = owned("https://accounts.spotify.com/authorize?");
    url.append(query.as_str());
    url
}

/// The lower-case hexadecimal digit for `v`.
pub open spec fn hex_char(v: nat) -> char {
    if v < 10 { (48 + v) as char } else { (87 + v) as char }
}

/// Two lower-case hexadecimal digits per byte.
pub open spec fn hex(b: Seq<u8>) -> Seq<char>
    decreases b.len(),
{
    if b.len() == 0 {
        seq![]
    } else {
        hex(b.drop_last()) + seq![hex_char((b.last() / 16) as nat), hex_char((b.last() % 16) as nat)]
    }
}

fn hex_digit(v: u8) -> (c: char)
    requires
        v < 16,
    ensures
        c == hex_char(v as nat),
{
    if v < 10 {
        (48u8 + v) as char
    } else {
        (87u8 + v) as char
    }
}

/// The name of an account's collection cache file: the SHA-256 digest of
/// its user id in hexadecimal, so that ids never become paths.
pub fn collection_cache_file_name(spotify_user_id: &str) -> (name: String)
    ensures
        name@ == hex(sha256(spotify_user_id.spec_bytes())) + ".json"@,
{
    let digest = sha256_digest(spotify_user_id.as_bytes());
    let mut name = String::new();
    let mut i: usize = 0;
    while i < digest.len()
        invariant
            i <= digest@.len(),
            name@ == hex(digest@.subrange(0, i as int)),
        decreases digest.len() - i,
    {
        let b = digest[i];
        push_char(&mut name, hex_digit(b / 16));
        push_char(&mut name, hex_digit(b % 16));
        assert(digest@.subrange(0, i + 1).drop_last() =~= digest@.subrange(0, i as int));
        i = i + 1;
    }
    assert(digest@.subrange(0, digest@.len() as int) =~= digest@);
    name.append(".json");
    name
}

/// The name/value pairs `url::form_urlencoded::parse` decodes from a
/// query.
pub uninterp spec fn form_parse(query: Seq<char>) -> Seq<(Seq<char>, Seq<char>)>;

/// `url::form_urlencoded::parse` on the bytes of `query`, each pair made
/// owned: the decoded name/value pairs in order.
#[verifier::external_body]
fn form_pairs(query: &str) -> (r: Vec<(String, String)>)
    ensures
        pairs_v(r@) == form_parse(query@),
{
    url::form_urlencoded::parse(query.as_bytes()).into_owned().collect()
}

/// The value of the last pair named `name`, as a map built from the pairs
/// in order keeps it.
pub open spec fn last_value(pairs: Seq<(Seq<char>, Seq<char>)>, name: Seq<char>) -> Option<Seq<char>>
    decreases pairs.len(),
{
    if pairs.len() == 0 {
        None
    } else if pairs.last().0 == name {
        Some(pairs.last().1)
    } else {
        last_value(pairs.drop_last(), name)
    }
}

/// The value of the last parameter named `name`.
pub fn param_value(pairs: &Vec<(String, String)>, name: &str) -> (r: Option<String>)
    ensures
        opt_text(r) == last_value(pairs_v(pairs@), name@),
{
    let ghost all = pairs_v(pairs@);
    let wanted = owned(name);
    let mut i = pairs.len();
    assert(all.take(i as int) =~= all);
    while i > 0
        invariant
            all == pairs_v(pairs@),
            i <= pairs@.len(),
            wanted@ == name@,
            last_value(all, name@) == last_value(all.take(i as int), name@),
        decreases i,
    {
        let ghost prefix = all.take(i as int);
        assert(prefix.drop_last() =~= all.take(i - 1));
        assert(prefix.last() == all[i - 1]);
        if pairs[i - 1].0 == wanted {
            return Some(pairs[i - 1].1.clone());
        }
        i = i - 1;
    }
    None
}

/// The parameters of a callback request line `GET <target> HTTP/1.1`:
/// the decoded query of its second word.
pub open spec fn callback_params_of(request_line: Seq<char>) -> Option<Seq<(Seq<char>, Seq<char>)>> {
    if words(request_line).len() > 1 {
        Some(form_parse(query_of(words(request_line)[1])))
    } else {
        None
    }
}

/// The decoded query parameters of an OAuth callback request line; a line
/// without a request target is malformed.
pub fn callback_params(request_line: &str) -> (r: Result<Vec<(String, String)>, String>)
    ensures
        match callback_params_of(request_line@) {
            Some(p) => r matches Ok(v) && pairs_v(v@) == p,
            None => r matches Err(e) && e@ == "Spotify callback was malformed."@,
        },
{
    let target = match second_word(request_line) {
        Some(t) => t,
        None => {
            return Err(owned("Spotify callback was malformed."));
        },
    };
    let query = target_query(target.as_str());
    Ok(form_pairs(query))
}

/// The page the browser shows after the callback.
#[derive(Debug)]
pub struct CallbackPage {
    pub success: bool,
    pub message: String,
}

/// The answer to an OAuth callback: the page to show, if any, and the
/// authorization code, or why there is none.
#[derive(Debug)]
pub struct CallbackReply {
    pub page: Option<CallbackPage>,
    pub outcome: Result<String, String>,
}

/// The view of an optional callback page.
pub open spec fn page_v(p: Option<CallbackPage>) -> Option<(bool, Seq<char>)> {
    match p {
        Some(p) => Some((p.success, p.message@)),
        None => None,
    }
}

/// The view of a text outcome.
pub open spec fn outcome_v(r: Result<String, String>) -> Result<Seq<char>, Seq<char>> {
    match r {
        Ok(s) => Ok(s@),
        Err(e) => Err(e@),
    }
}

/// How a callback with `params` is answered while a sign-in with
/// `pending_state` waits: a callback whose `state` differs is rejected, a
/// reported error ends the sign-in, and only then is the `code` taken.
pub open spec fn callback_review(params: Seq<(Seq<char>, Seq<char>)>, pending_state: Seq<char>) -> (Option<(bool, Seq<char>)>, Result<Seq<char>, Seq<char>>) {
    if last_value(params, "state"@) != Some(pending_state) {
        (
            Some((false, "Sign-in rejected: the Spotify callback did not match this request."@)),
            Err("Spotify sign-in was rejected because its callback state did not match."@),
        )
    } else {
        match last_value(params, "error"@) {
            Some(error) => (
                Some((false, "Spotify sign-in was not completed. You can close this tab and return to Magnet."@)),
                Err("Spotify sign-in was not completed: "@ + error + "."@),
            ),
            None => match last_value(params, "code"@) {
                Some(code) => (
                    Some((true, "Sign-in received. Magnet is finishing the connection \u{2014} you can close this tab."@)),
                    Ok(code),
                ),
                None => (None, Err("Spotify did not return an authorization code."@)),
            },
        }
    }
}

fn page(success: bool, message: &str) -> (p: Option<CallbackPage>)
    ensures
        page_v(p) == Some((success, message@)),
{
    Some(CallbackPage { success, message: owned(message) })
}

/// Answers an OAuth callback for the sign-in that waits with
/// `pending_state`.
pub fn review_callback(params: &Vec<(String, String)>, pending_state: &str) -> (r: CallbackReply)
    ensures
        (page_v(r.page), outcome_v(r.outcome)) == callback_review(pairs_v(params@), pending_state@),
{
    let state = param_value(params, "state");
    let matches_pending = match &state {
        Some(s) => *s == owned(pending_state),
        None => false,
    };
    if !matches_pending {
        return CallbackReply {
            page: page(false, "Sign-in rejected: the Spotify callback did not match this request."),
            outcome: Err(owned("Spotify sign-in was rejected because its callback state did not match.")),
        };
    }
    if let Some(error) = param_value(params, "error") {
        let mut m = owned("Spotify sign-in was not completed: ");
        m.append(error.as_str());
        m.append(".");
        return CallbackReply {
            page: page(false, "Spotify sign-in was not completed. You can close this tab and return to Magnet."),
            outcome: Err(m),
        };
    }
    match param_value(params, "code") {
        Some(code) => CallbackReply {
            page: page(true, "Sign-in received. Magnet is finishing the connection \u{2014} you can close this tab."),
            outcome: Ok(code),
        },
        None => CallbackReply { page: None, outcome: Err(owned("Spotify did not return an authorization code.")) },
    }
}

/// The HTML page that answers the browser after the callback.
pub open spec fn callback_body(success: bool, message: Seq<char>) -> Seq<char> {
    "<!doctype html><title>Magnet</title><body style=\"margin:0;display:grid;min-height:100vh;place-items:center;background:#070b11;color:#ecf5f0;font:16px ui-monospace,Consolas,monospace\"><main style=\"max-width:36rem;padding:2rem\"><p style=\"color:"@
        + (if success { "#5ce8ad"@ } else { "#f4b46f"@ }) + "\">magnet</p><h1>"@ + message + "</h1></main></body>"@
}

/// The full HTTP response carrying a callback page.
pub open spec fn callback_response(success: bool, message: Seq<char>) -> Seq<char> {
    let body = callback_body(success, message);
    "HTTP/1.1 200 OK\r\nContent-Type: text/html; charset=utf-8\r\nContent-Length: "@
        + decimal((vstd::utf8::encode_utf8(body).len() as usize) as nat) + "\r\nConnection: close\r\n\r\n"@ + body
}

/// The HTTP response that shows a callback page in the browser.
pub fn callback_page_response(success: bool, message: &str) -> (r: String)
    ensures
        r@ == callback_response(success, message@),
{
    let mut body = owned("<!doctype html><title>Magnet</title><body style=\"margin:0;display:grid;min-height:100vh;place-items:center;background:#070b11;color:#ecf5f0;font:16px ui-monospace,Consolas,monospace\"><main style=\"max-width:36rem;padding:2rem\"><p style=\"color:");
    body.append(if success { "#5ce8ad" } else { "#f4b46f" });
    body.append("\">magnet</p><h1>");
    body.append(message);
    body.append("</h1></main></body>");
    let length = body.as_str().len();
    let mut r = owned("HTTP/1.1 200 OK\r\nContent-Type: text/html; charset=utf-8\r\nContent-Length: ");
    r.append(decimal_string(length as u128).as_str());
    r.append("\r\nConnection: close\r\n\r\n");
    r.append(body.as_str());
    r
}

/// Tokens Spotify's accounts service issues.
#[derive(Debug)]
pub struct TokenResponse {
    pub access_token: String,
    pub refresh_token: Option<String>,
    pub expires_in: u64,
}

/// The account's current tokens.
#[derive(Debug)]
pub struct SpotifySession {
    pub access_token: String,
    pub refresh_token: Option<String>,
    pub expires_at_ms: u128,
}

/// The account's profile.
#[derive(Debug)]
pub struct SpotifyProfile {
    pub display_name: Option<String>,
    pub id: String,
}

/// The status line of an HTTP response: its code and its display text,
/// such as `403 Forbidden`.
#[derive(Debug)]
pub struct HttpStatus {
    pub code: u16,
    pub text: String,
}

/// When a token issued at `now` for `expires_in` seconds expires, in
/// milliseconds, saturating at the top.
pub open spec fn expiry(now: u128, expires_in: u64) -> u128 {
    if now + expires_in * 1000 > u128::MAX { u128::MAX } else { (now + expires_in * 1000) as u128 }
}

fn expiry_of(now: u128, expires_in: u64) -> (r: u128)
    ensures
        r == expiry(now, expires_in),
{
    now.saturating_add((expires_in as u128) * 1000)
}

/// The session a completed sign-in starts: Spotify must have issued a
/// refresh token.
pub fn session_from_sign_in(token: TokenResponse, now: u128) -> (r: Result<SpotifySession, String>)
    ensures
        match token.refresh_token {
            Some(refresh) => r matches Ok(s) && s.access_token@ == token.access_token@
                && opt_text(s.refresh_token) == Some(refresh@) && s.expires_at_ms == expiry(now, token.expires_in),
            None => r matches Err(e) && e@ == "Spotify did not return a reusable refresh token. Try connecting again."@,
        },
{
    let refresh = match token.refresh_token {
        Some(r) => r,
        None => {
            return Err(owned("Spotify did not return a reusable refresh token. Try connecting again."));
        },
    };
    Ok(SpotifySession {
        access_token: token.access_token,
        refresh_token: Some(refresh),
        expires_at_ms: expiry_of(now, token.expires_in),
    })
}

/// The session after a refresh, and the rotated refresh token to store
/// when Spotify issued a new one; otherwise the previous refresh token is
/// kept.
pub fn refreshed_session(token: TokenResponse, previous_refresh_token: &str, now: u128) -> (r: (SpotifySession, Option<String>))
    ensures
        r.0.access_token@ == token.access_token@,
        r.0.expires_at_ms == expiry(now, token.expires_in),
        opt_text(r.0.refresh_token) == Some(match token.refresh_token {
            Some(t) => t@,
            None => previous_refresh_token@,
        }),
        opt_text(r.1) == opt_text(token.refresh_token),
{
    let expires_at_ms = expiry_of(now, token.expires_in);
    let (reusable, rotated) = match token.refresh_token {
        Some(t) => (t.clone(), Some(t)),
        None => (owned(previous_refresh_token), None),
    };
    (SpotifySession { access_token: token.access_token, refresh_token: Some(reusable), expires_at_ms }, rotated)
}

/// How a catalog request gets its access token.
#[derive(Debug)]
pub enum TokenStep {
    Ready(String),
    Refresh(String),
}

/// How long before expiry a token is refreshed.
pub const REFRESH_SKEW_MS: u128 = 60000;

/// The token for a catalog request: the current one while it has more
/// than a minute left, otherwise a refresh with the stored refresh token.
pub fn access_token_step(session: &Option<SpotifySession>, now: u128) -> (r: Result<TokenStep, String>)
    ensures
        match session {
            None => r matches Err(e) && e@ == "Connect Spotify before using its catalog."@,
            Some(s) => if s.expires_at_ms > now && s.expires_at_ms - now > REFRESH_SKEW_MS {
                r matches Ok(TokenStep::Ready(t)) && t@ == s.access_token@
            } else {
                match s.refresh_token {
                    Some(rt) => r matches Ok(TokenStep::Refresh(t)) && t@ == rt@,
                    None => r matches Err(e) && e@ == "Spotify needs you to reconnect before using its catalog."@,
                }
            },
        },
{
    let current = match session {
        Some(s) => s,
        None => {
            return Err(owned("Connect Spotify before using its catalog."));
        },
    };
    if current.expires_at_ms.saturating_sub(now) > REFRESH_SKEW_MS {
        return Ok(TokenStep::Ready(current.access_token.clone()));
    }
    match &current.refresh_token {
        Some(t) => Ok(TokenStep::Refresh(t.clone())),
        None => Err(owned("Spotify needs you to reconnect before using its catalog.")),
    }
}

/// A success status, 200 to 299.
pub open spec fn is_success(code: u16) -> bool {
    200 <= code && code <= 299
}

/// The outcome of a JSON request to Spotify's accounts or profile
/// services: the send error, the refusal with its status, or the decode
/// error, each with its own lead-in.
pub open spec fn json_outcome<T>(
    sent: Result<Seq<char>, Seq<char>>,
    code: u16,
    decoded: Result<T, Seq<char>>,
    failed: Seq<char>,
    refused: Seq<char>,
    invalid: Seq<char>,
) -> Result<T, Seq<char>> {
    match sent {
        Err(e) => Err(failed + e),
        Ok(status) => if !is_success(code) {
            Err(refused + "("@ + status + ")."@)
        } else {
            match decoded {
                Ok(v) => Ok(v),
                Err(e) => Err(invalid + e),
            }
        },
    }
}

/// The view of a status result: the status text, or the send error.
pub open spec fn sent_v(sent: Result<HttpStatus, String>) -> Result<Seq<char>, Seq<char>> {
    match sent {
        Ok(s) => Ok(s.text@),
        Err(e) => Err(e@),
    }
}

/// The status code of a sent request, 0 when it could not be sent.
pub open spec fn sent_code(sent: Result<HttpStatus, String>) -> u16 {
    match sent {
        Ok(s) => s.code,
        Err(_) => 0,
    }
}

/// The view of a decode result.
pub open spec fn decoded_v<T>(d: Result<T, String>) -> Result<T, Seq<char>> {
    match d {
        Ok(v) => Ok(v),
        Err(e) => Err(e@),
    }
}

/// The view of a value-or-message result.
pub open spec fn message_result_v<T>(r: Result<T, String>) -> Result<T, Seq<char>> {
    match r {
        Ok(v) => Ok(v),
        Err(e) => Err(e@),
    }
}

fn json_result<T>(sent: Result<HttpStatus, String>, decoded: Result<T, String>, failed: &str, refused: &str, invalid: &str) -> (r: Result<T, String>)
    ensures
        message_result_v(r) == json_outcome(sent_v(sent), sent_code(sent), decoded_v(decoded), failed@, refused@, invalid@),
{
    match sent {
        Err(e) => {
            let mut m = owned(failed);
            m.append(e.as_str());
            Err(m)
        },
        Ok(status) => {
            if !(200 <= status.code && status.code <= 299) {
                let mut m = owned(refused);
                m.append("(");
                m.append(status.text.as_str());
                m.append(").");
                return Err(m);
            }
            match decoded {
                Ok(v) => Ok(v),
                Err(e) => {
                    let mut m = owned(invalid);
                    m.append(e.as_str());
                    Err(m)
                },
            }
        },
    }
}

/// The account's profile from the response to `GET /v1/me`: `sent` is the
/// status or why the request could not be sent, `decoded` the body read
/// as a profile.
pub fn spotify_profile(sent: Result<HttpStatus, String>, decoded: Result<SpotifyProfile, String>) -> (r: Result<SpotifyProfile, String>)
    ensures
        message_result_v(r) == json_outcome(
            sent_v(sent),
            sent_code(sent),
            decoded_v(decoded),
            "Could not load your Spotify profile: "@,
            "Spotify profile request was refused "@,
            "Spotify returned an invalid profile response: "@,
        ),
{
    json_result(
        sent,
        decoded,
        "Could not load your Spotify profile: ",
        "Spotify profile request was refused ",
        "Spotify returned an invalid profile response: ",
    )
}

/// The tokens from the response to an authorization code exchange.
pub fn token_exchange_outcome(sent: Result<HttpStatus, String>, decoded: Result<TokenResponse, String>) -> (r: Result<TokenResponse, String>)
    ensures
        message_result_v(r) == json_outcome(
            sent_v(sent),
            sent_code(sent),
            decoded_v(decoded),
            "Spotify token exchange failed: "@,
            "Spotify token exchange was refused "@,
            "Spotify returned an invalid token response: "@,
        ),
{
    json_result(
        sent,
        decoded,
        "Spotify token exchange failed: ",
        "Spotify token exchange was refused ",
        "Spotify returned an invalid token response: ",
    )
}

/// The tokens from the response to a refresh request.
pub fn token_refresh_outcome(sent: Result<HttpStatus, String>, decoded: Result<TokenResponse, String>) -> (r: Result<TokenResponse, String>)
    ensures
        message_result_v(r) == json_outcome(
            sent_v(sent),
            sent_code(sent),
            decoded_v(decoded),
            "Spotify session refresh failed: "@,
            "Spotify session refresh was refused "@,
            "Spotify returned an invalid refresh response: "@,
        ),
{
    json_result(
        sent,
        decoded,
        "Spotify session refresh failed: ",
        "Spotify session refresh was refused ",
        "Spotify returned an invalid refresh response: ",
    )
}

/// The name a connection message greets: the profile's display name, its
/// id, or "your Spotify account" without a profile.
pub open spec fn account_name_of(profile: Result<SpotifyProfile, String>) -> Seq<char> {
    match profile {
        Ok(p) => match p.display_name {
            Some(d) => d@,
            None => p.id@,
        },
        Err(_) => "your Spotify account"@,
    }
}

/// The name a connection message greets.
pub fn account_name(profile: &Result<SpotifyProfile, String>) -> (name: String)
    ensures
        name@ == account_name_of(*profile),
{
    match profile {
        Ok(p) => match &p.display_name {
            Some(d) => d.clone(),
            None => p.id.clone(),
        },
        Err(_) => owned("your Spotify account"),
    }
}

/// The account whose cached collection is shown while the live one loads:
/// the profile's, and only once the profile loaded.
pub fn cache_to_read(profile: &Result<SpotifyProfile, String>) -> (r: Option<String>)
    ensures
        match profile {
            Ok(p) => r matches Some(id) && id@ == p.id@,
            Err(_) => r is None,
        },
{
    match profile {
        Ok(p) => Some(p.id.clone()),
        Err(_) => None,
    }
}

/// The account under which the freshly loaded collection is cached: the
/// profile's, and only when the profile, the saved tracks and the
/// playlists all loaded.
pub fn cache_to_store(
    profile: &Result<SpotifyProfile, String>,
    library: &Result<Vec<crate::model::Track>, String>,
    playlists: &Result<Vec<crate::model::Playlist>, String>,
) -> (r: Option<String>)
    ensures
        match profile {
            Ok(p) => if library is Ok && playlists is Ok {
                r matches Some(id) && id@ == p.id@
            } else {
                r is None
            },
            Err(_) => r is None,
        },
{
    match (profile, library, playlists) {
        (Ok(p), Ok(_), Ok(_)) => Some(p.id.clone()),
        _ => None,
    }
}

/// What loading an account's catalog produced: the profile error, the
/// cache error, and for saved tracks and playlists the count loaded or the
/// error, and any error showing them.
#[derive(Debug)]
pub struct LoadReport {
    pub profile_error: Option<String>,
    pub cache_error: Option<String>,
    pub library: Result<usize, String>,
    pub library_sync_error: Option<String>,
    pub playlists: Result<usize, String>,
    pub playlists_sync_error: Option<String>,
}

/// `label` and an optional error, as a list of at most one issue.
pub open spec fn issue(label: Seq<char>, error: Option<String>) -> Seq<Seq<char>> {
    match error {
        Some(e) => seq![label + e@],
        None => Seq::empty(),
    }
}

/// What was loaded, in the order the message lists it.
pub open spec fn loaded_items(r: LoadReport) -> Seq<Seq<char>> {
    (match r.library {
        Ok(n) => seq![decimal(n as nat) + " saved tracks"@],
        Err(_) => Seq::empty(),
    }) + (match r.playlists {
        Ok(n) => seq![decimal(n as nat) + " playlists"@],
        Err(_) => Seq::empty(),
    })
}

/// What could not be loaded, in the order the message lists it.
pub open spec fn issue_items(r: LoadReport) -> Seq<Seq<char>> {
    issue("profile: "@, r.profile_error) + issue("offline cache: "@, r.cache_error) + (match r.library {
        Ok(_) => issue("saved tracks: "@, r.library_sync_error),
        Err(e) => seq!["saved tracks: "@ + e@],
    }) + (match r.playlists {
        Ok(_) => issue("playlists: "@, r.playlists_sync_error),
        Err(e) => seq!["playlists: "@ + e@],
    })
}

/// The status line after loading a catalog: who is connected, what was
/// loaded, and what could not be.
pub open spec fn report_message(lead: Seq<char>, account: Seq<char>, r: LoadReport) -> Seq<char> {
    let loaded = loaded_items(r);
    let issues = issue_items(r);
    lead + " as "@ + account
        + (if loaded.len() > 0 { " \u{b7} "@ + joined_with(loaded, ", "@) + " loaded"@ } else { Seq::empty() })
        + (if issues.len() > 0 { " \u{b7} could not load "@ + joined_with(issues, "; "@) } else { Seq::empty() })
        + "."@
}

fn push_issue(list: &mut Vec<String>, label: &str, error: &Option<String>)
    ensures
        views(final(list)@) == views(old(list)@) + issue(label@, *error),
{
    let ghost before = list@;
    if let Some(e) = error {
        let mut m = owned(label);
        m.append(e.as_str());
        list.push(m);
        assert(views(list@) =~= views(before) + issue(label@, *error));
    } else {
        assert(views(list@) =~= views(before) + issue(label@, *error));
    }
}

fn push_text(list: &mut Vec<String>, t: String)
    ensures
        views(final(list)@) == views(old(list)@).push(t@),
{
    let ghost before = list@;
    list.push(t);
    assert(views(list@) =~= views(before).push(t@));
}

fn count_label(n: usize, noun: &str) -> (r: String)
    ensures
        r@ == decimal(n as nat) + noun@,
{
    let mut r = decimal_string(n as u128);
    r.append(noun);
    r
}

/// The status line after loading a catalog; `lead` says what happened
/// ("Spotify connected", "Spotify session restored").
pub fn connection_message(lead: &str, account: &str, report: &LoadReport) -> (m: String)
    ensures
        m@ == report_message(lead@, account@, *report),
{
    let mut loaded: Vec<String> = Vec::new();
    let mut issues: Vec<String> = Vec::new();
    assert(views(loaded@) =~= Seq::<Seq<char>>::empty());
    assert(views(issues@) =~= Seq::<Seq<char>>::empty());
    push_issue(&mut issues, "profile: ", &report.profile_error);
    push_issue(&mut issues, "offline cache: ", &report.cache_error);
    match &report.library {
        Ok(n) => {
            push_text(&mut loaded, count_label(*n, " saved tracks"));
            push_issue(&mut issues, "saved tracks: ", &report.library_sync_error);
        },
        Err(e) => {
            let mut t = owned("saved tracks: ");
            t.append(e.as_str());
            push_text(&mut issues, t);
        },
    }
    match &report.playlists {
        Ok(n) => {
            push_text(&mut loaded, count_label(*n, " playlists"));
            push_issue(&mut issues, "playlists: ", &report.playlists_sync_error);
        },
        Err(e) => {
            let mut t = owned("playlists: ");
            t.append(e.as_str());
            push_text(&mut issues, t);
        },
    }
    assert(views(loaded@) =~= loaded_items(*report));
    assert(views(issues@) =~= issue_items(*report));
    let mut m = owned(lead);
    m.append(" as ");
    m.append(account);
    if loaded.len() > 0 {
        m.append(" \u{b7} ");
        m.append(join_texts(&loaded, ", ").as_str());
        m.append(" loaded");
    }
    if issues.len() > 0 {
        m.append(" \u{b7} could not load ");
        m.append(join_texts(&issues, "; ").as_str());
    }
    m.append(".");
    m
}

/// What to do after loading the saved tracks failed.
#[derive(Debug)]
pub enum RetryStep {
    Wait(u64),
    GiveUp(String),
}

/// The pause before each retry of a rate-limited saved-tracks load, in
/// seconds; the attempt after the last pause is final.
pub open spec fn backoff_delay(attempt: nat) -> u64 {
    if attempt == 0 {
        5
    } else if attempt == 1 {
        15
    } else if attempt == 2 {
        30
    } else if attempt == 3 {
        60
    } else {
        0
    }
}

/// After a failed saved-tracks load: wait and try again while Spotify
/// rate-limits (a message mentioning 429) and pauses remain, otherwise give
/// up with the error's message.
pub fn saved_tracks_retry(attempt: usize, error: &CatalogError) -> (r: RetryStep)
    ensures
        ({
            let m = error_message(error@);
            if contains_seq(m, "429"@) && backoff_delay(attempt as nat) != 0 {
                r matches RetryStep::Wait(d) && d == backoff_delay(attempt as nat)
            } else {
                r matches RetryStep::GiveUp(g) && g@ == m
            }
        }),
{
    let delay: u64 = if attempt == 0 {
        5
    } else if attempt == 1 {
        15
    } else if attempt == 2 {
        30
    } else if attempt == 3 {
        60
    } else {
        0
    };
    let message = error.message();
    if !contains_text(message.as_str(), "429") || delay == 0 {
        RetryStep::GiveUp(message)
    } else {
        RetryStep::Wait(delay)
    }
}

/// The playlists of the account, or the text of the catalog error.
pub fn spotify_playlists(result: Result<Vec<crate::model::Playlist>, CatalogError>) -> (r: Result<Vec<crate::model::Playlist>, String>)
    ensures
        match result {
            Ok(v) => r matches Ok(w) && w@ == v@,
            Err(e) => r matches Err(m) && m@ == error_message(e@),
        },
{
    match result {
        Ok(v) => Ok(v),
        Err(e) => Err(e.message()),
    }
}

/// The credential store's service name for Magnet.
pub const SPOTIFY_KEYRING_SERVICE: &'static str = "magnet";

/// The service name used before the app was renamed.
pub const LEGACY_SPOTIFY_KEYRING_SERVICE: &'static str = "magnet-player";

/// The credential that holds the refresh token.
pub const SPOTIFY_KEYRING_ACCOUNT: &'static str = "spotify-refresh-token";

/// An entry of the operating system's credential store.
#[verifier::external_type_specification]
#[verifier::external_body]
pub struct ExKeyringEntry(keyring::Entry);

/// `keyring::Entry::new`: the credential store entry for a service and
/// account, or the store's error text. Nothing is claimed of the outcome,
/// which depends on the operating system.
#[verifier::external_body]
fn keyring_entry(service: &str, account: &str) -> (r: Result<keyring::Entry, String>) {
    keyring::Entry::new(service, account).map_err(|error| error.to_string())
}

/// `keyring::Entry::set_password`: stores a secret, or reports the store's
/// error text. Nothing is claimed of the outcome.
#[verifier::external_body]
fn keyring_store(entry: &keyring::Entry, secret: &str) -> (r: Result<(), String>) {
    entry.set_password(secret).map_err(|error| error.to_string())
}

/// What reading a credential gave.
#[derive(Debug)]
pub enum KeyringRead {
    Found(String),
    NoEntry,
    Failed(String),
}

/// `keyring::Entry::get_password`: the stored secret, the absence of an
/// entry, or the store's error text. Nothing is claimed of the outcome.
#[verifier::external_body]
fn keyring_read(entry: &keyring::Entry) -> (r: KeyringRead) {
    match entry.get_password() {
        Ok(secret) => KeyringRead::Found(secret),
        Err(keyring::Error::NoEntry) => KeyringRead::NoEntry,
        Err(error) => KeyringRead::Failed(error.to_string()),
    }
}

fn prefixed(prefix: &str, text: &str) -> (r: String)
    ensures
        r@ == prefix@ + text@,
{
    let mut r = owned(prefix);
    r.append(text);
    r
}

/// An entry of the credential store, with the service and account it was
/// opened for.
pub struct CredentialEntry {
    entry: keyring::Entry,
    service: Ghost<Seq<char>>,
    account: Ghost<Seq<char>>,
}

impl CredentialEntry {
    /// The service the entry was opened for.
    pub closed spec fn service(&self) -> Seq<char> {
        self.service@
    }

    /// The account the entry was opened for.
    pub closed spec fn account(&self) -> Seq<char> {
        self.account@
    }
}

/// Opens the store's entry for `service` and `account`, or gives the
/// store's error text.
fn open_entry(service: &str, account: &str) -> (r: Result<CredentialEntry, String>)
    ensures
        r matches Ok(e) ==> e.service() == service@ && e.account() == account@,
{
    match keyring_entry(service, account) {
        Ok(entry) => Ok(CredentialEntry { entry, service: Ghost(service@), account: Ghost(account@) }),
        Err(e) => Err(e),
    }
}

/// The credential store entry that holds the refresh token: the account
/// `spotify-refresh-token` of the service `magnet`.
pub fn spotify_refresh_token_entry() -> (r: Result<CredentialEntry, String>)
    ensures
        r matches Ok(e) ==> e.service() == SPOTIFY_KEYRING_SERVICE@ && e.account() == SPOTIFY_KEYRING_ACCOUNT@,
        r matches Err(e) ==> exists|m: Seq<char>| e@ == "Windows Credential Manager is unavailable: "@ + m,
{
    match open_entry(SPOTIFY_KEYRING_SERVICE, SPOTIFY_KEYRING_ACCOUNT) {
        Ok(entry) => Ok(entry),
        Err(e) => Err(prefixed("Windows Credential Manager is unavailable: ", e.as_str())),
    }
}

/// A request made of the credential store.
#[derive(Debug)]
pub enum CredentialRequest {
    Read { service: String, account: String },
    Write { service: String, account: String, secret: String },
}

/// `q` reads the entry of `service` and `account`.
pub open spec fn reads_entry(q: CredentialRequest, service: Seq<char>, account: Seq<char>) -> bool {
    q matches CredentialRequest::Read { service: s, account: a } && s@ == service && a@ == account
}

/// `q` stores `secret` in the entry of `service` and `account`.
pub open spec fn writes_entry(q: CredentialRequest, service: Seq<char>, account: Seq<char>, secret: Seq<char>) -> bool {
    q matches CredentialRequest::Write { service: s, account: a, secret: x } && s@ == service && a@ == account
        && x@ == secret
}

/// The store's answer to a [`CredentialRequest`]: the entry could not be
/// opened (with the store's error text), what a read gave, or how a write
/// went.
#[derive(Debug)]
pub enum CredentialReply {
    Unavailable(String),
    Read(KeyringRead),
    Written(Result<(), String>),
}

/// Carries out a request on the credential store.
fn perform(request: &CredentialRequest) -> (r: CredentialReply)
    ensures
        *request is Read ==> (r is Unavailable || r is Read),
        *request is Write ==> (r is Unavailable || r is Written),
{
    match request {
        CredentialRequest::Read { service, account } => match open_entry(service.as_str(), account.as_str()) {
            Ok(entry) => CredentialReply::Read(keyring_read(&entry.entry)),
            Err(e) => CredentialReply::Unavailable(e),
        },
        CredentialRequest::Write { service, account, secret } => match open_entry(service.as_str(), account.as_str()) {
            Ok(entry) => CredentialReply::Written(keyring_store(&entry.entry, secret.as_str())),
            Err(e) => CredentialReply::Unavailable(e),
        },
    }
}

/// The request that stores a refresh token: into the account
/// `spotify-refresh-token` of the service `magnet`.
pub fn refresh_token_write(refresh_token: &str) -> (q: CredentialRequest)
    ensures
        writes_entry(q, SPOTIFY_KEYRING_SERVICE@, SPOTIFY_KEYRING_ACCOUNT@, refresh_token@),
{
    CredentialRequest::Write {
        service: owned(SPOTIFY_KEYRING_SERVICE),
        account: owned(SPOTIFY_KEYRING_ACCOUNT),
        secret: owned(refresh_token),
    }
}

/// What a write of the refresh token means: done, the entry could not be
/// opened, or the store refused the secret.
pub open spec fn write_outcome(reply: CredentialReply) -> Result<(), Seq<char>> {
    match reply {
        CredentialReply::Unavailable(m) => Err("Windows Credential Manager is unavailable: "@ + m@),
        CredentialReply::Written(Ok(())) => Ok(()),
        CredentialReply::Written(Err(m)) => Err("Could not save the Spotify session securely: "@ + m@),
        CredentialReply::Read(_) => Err("Could not save the Spotify session securely: "@),
    }
}

/// Interprets the store's answer to a write.
pub fn written_outcome(reply: CredentialReply) -> (r: Result<(), String>)
    ensures
        match r {
            Ok(()) => write_outcome(reply) is Ok,
            Err(e) => write_outcome(reply) == Err::<(), Seq<char>>(e@),
        },
{
    match reply {
        CredentialReply::Unavailable(m) => Err(prefixed("Windows Credential Manager is unavailable: ", m.as_str())),
        CredentialReply::Written(Ok(())) => Ok(()),
        CredentialReply::Written(Err(m)) => Err(prefixed("Could not save the Spotify session securely: ", m.as_str())),
        CredentialReply::Read(_) => Err(owned("Could not save the Spotify session securely: ")),
    }
}

/// Stores the refresh token in the operating system's credential store:
/// the request of [`refresh_token_write`], read by [`written_outcome`].
pub fn persist_refresh_token(refresh_token: &str) -> (r: Result<(), String>)
    ensures
        r matches Err(e) ==> (exists|m: Seq<char>| e@ == "Windows Credential Manager is unavailable: "@ + m)
            || (exists|m: Seq<char>| e@ == "Could not save the Spotify session securely: "@ + m),
{
    let r = written_outcome(perform(&refresh_token_write(refresh_token)));
    proof {
        let x = "Could not save the Spotify session securely: "@;
        assert(x + Seq::<char>::empty() =~= x);
    }
    r
}


/// What a credential read means for the stored session: a token that is
/// not blank, nothing for a blank or missing entry, or the error.
pub open spec fn token_read_outcome(read: KeyringRead) -> Result<Option<Seq<char>>, Seq<char>> {
    match read {
        KeyringRead::Found(t) => if trimmed(t@).len() > 0 { Ok(Some(t@)) } else { Ok(None) },
        KeyringRead::NoEntry => Ok(None),
        KeyringRead::Failed(e) => Err("Could not read the saved Spotify session: "@ + e@),
    }
}

/// The view of an optional-token result.
pub open spec fn token_result_v(r: Result<Option<String>, String>) -> Result<Option<Seq<char>>, Seq<char>> {
    match r {
        Ok(o) => Ok(opt_text(o)),
        Err(e) => Err(e@),
    }
}

/// Interprets a credential read.
pub fn read_token_outcome(read: KeyringRead) -> (r: Result<Option<String>, String>)
    ensures
        token_result_v(r) == token_read_outcome(read),
{
    match read {
        KeyringRead::Found(t) => {
            if trim_text(t.as_str()).is_empty() {
                Ok(None)
            } else {
                Ok(Some(t))
            }
        },
        KeyringRead::NoEntry => Ok(None),
        KeyringRead::Failed(e) => Err(prefixed("Could not read the saved Spotify session: ", e.as_str())),
    }
}


/// Where the lookup of a stored refresh token stands.
#[derive(Debug)]
pub enum TokenLookup {
    /// The app's current entry is read.
    Current,
    /// The entry under the app's former name is read.
    Legacy,
    /// A token found under the former name is stored in the current entry.
    Migrating(String),
}

/// The rank of a lookup state: it falls with every step.
pub open spec fn lookup_rank(s: TokenLookup) -> nat {
    match s {
        TokenLookup::Current => 2,
        TokenLookup::Legacy => 1,
        TokenLookup::Migrating(_) => 0,
    }
}

/// `q` is the kind of request the lookup makes in `s`: a write while
/// migrating, a read otherwise.
pub open spec fn request_fits(s: TokenLookup, q: CredentialRequest) -> bool {
    match s {
        TokenLookup::Migrating(_) => q is Write,
        _ => q is Read,
    }
}

/// `reply` answers the request the lookup makes in `s`.
pub open spec fn answers(s: TokenLookup, reply: CredentialReply) -> bool {
    match s {
        TokenLookup::Migrating(_) => reply is Unavailable || reply is Written,
        _ => reply is Unavailable || reply is Read,
    }
}

/// A lookup result that can be returned: a token is never blank, and an
/// error says which part of the store failed.
pub open spec fn lookup_result_ok(r: Result<Option<String>, String>) -> bool {
    &&& r matches Ok(Some(t)) ==> trimmed(t@).len() > 0
    &&& r matches Err(e) ==> (exists|m: Seq<char>| e@ == "Windows Credential Manager is unavailable: "@ + m)
        || (exists|m: Seq<char>| e@ == "Could not read the saved Spotify session: "@ + m)
        || (exists|m: Seq<char>| e@ == "Could not save the Spotify session securely: "@ + m)
}

/// The next thing the lookup does: make another request of the store, or
/// finish with its result.
#[derive(Debug)]
pub enum LookupStep {
    Ask(TokenLookup, CredentialRequest),
    Done(Result<Option<String>, String>),
}

/// The lookup starts by reading the current entry: the account
/// `spotify-refresh-token` of the service `magnet`.
pub fn token_lookup_start() -> (r: (TokenLookup, CredentialRequest))
    ensures
        r.0 is Current,
        reads_entry(r.1, SPOTIFY_KEYRING_SERVICE@, SPOTIFY_KEYRING_ACCOUNT@),
{
    (TokenLookup::Current, CredentialRequest::Read {
        service: owned(SPOTIFY_KEYRING_SERVICE),
        account: owned(SPOTIFY_KEYRING_ACCOUNT),
    })
}

/// One step of the lookup, given the store's answer to its last request.
/// A token that is not blank in the current entry is the result; a blank
/// or missing current entry leads to the entry under the former name
/// (`magnet-player`); a token that is not blank there is first stored in
/// the current entry and then returned; a blank or missing former entry
/// means no session. Any failure ends the lookup with its error.
pub fn token_lookup_step(state: TokenLookup, reply: CredentialReply) -> (r: LookupStep)
    requires
        answers(state, reply),
    ensures
        match reply {
            CredentialReply::Unavailable(m) => r matches LookupStep::Done(Err(e))
                && e@ == "Windows Credential Manager is unavailable: "@ + m@,
            CredentialReply::Read(read) => match state {
                TokenLookup::Current => match token_read_outcome(read) {
                    Ok(Some(t)) => r matches LookupStep::Done(Ok(Some(x))) && x@ == t,
                    Ok(None) => r matches LookupStep::Ask(TokenLookup::Legacy, q)
                        && reads_entry(q, LEGACY_SPOTIFY_KEYRING_SERVICE@, SPOTIFY_KEYRING_ACCOUNT@),
                    Err(e) => r matches LookupStep::Done(Err(x)) && x@ == e,
                },
                TokenLookup::Legacy => match token_read_outcome(read) {
                    Ok(Some(t)) => r matches LookupStep::Ask(TokenLookup::Migrating(x), q) && x@ == t
                        && writes_entry(q, SPOTIFY_KEYRING_SERVICE@, SPOTIFY_KEYRING_ACCOUNT@, t),
                    Ok(None) => r matches LookupStep::Done(Ok(None)),
                    Err(e) => r matches LookupStep::Done(Err(x)) && x@ == e,
                },
                TokenLookup::Migrating(_) => true,
            },
            CredentialReply::Written(w) => match state {
                TokenLookup::Migrating(t) => match w {
                    Ok(()) => r matches LookupStep::Done(Ok(Some(x))) && x@ == t@,
                    Err(m) => r matches LookupStep::Done(Err(x)) && x@ == "Could not save the Spotify session securely: "@ + m@,
                },
                _ => true,
            },
        },
        r matches LookupStep::Ask(s, q) ==> request_fits(s, q) && lookup_rank(s) < lookup_rank(state)
            && (s matches TokenLookup::Migrating(t) ==> trimmed(t@).len() > 0),
        (state matches TokenLookup::Migrating(t) ==> trimmed(t@).len() > 0) ==> (r matches LookupStep::Done(x) ==> lookup_result_ok(x)),
{
    match reply {
        CredentialReply::Unavailable(m) => LookupStep::Done(Err(prefixed("Windows Credential Manager is unavailable: ", m.as_str()))),
        CredentialReply::Read(read) => {
            let outcome = read_token_outcome(read);
            match state {
                TokenLookup::Current => match outcome {
                    Ok(Some(t)) => LookupStep::Done(Ok(Some(t))),
                    Ok(None) => LookupStep::Ask(TokenLookup::Legacy, CredentialRequest::Read {
                        service: owned(LEGACY_SPOTIFY_KEYRING_SERVICE),
                        account: owned(SPOTIFY_KEYRING_ACCOUNT),
                    }),
                    Err(e) => LookupStep::Done(Err(e)),
                },
                TokenLookup::Legacy => match outcome {
                    Ok(Some(t)) => {
                        let q = refresh_token_write(t.as_str());
                        LookupStep::Ask(TokenLookup::Migrating(t), q)
                    },
                    Ok(None) => LookupStep::Done(Ok(None)),
                    Err(e) => LookupStep::Done(Err(e)),
                },
                TokenLookup::Migrating(t) => LookupStep::Done(Ok(Some(t))),
            }
        },
        CredentialReply::Written(w) => match state {
            TokenLookup::Migrating(t) => match w {
                Ok(()) => LookupStep::Done(Ok(Some(t))),
                Err(m) => LookupStep::Done(Err(prefixed("Could not save the Spotify session securely: ", m.as_str()))),
            },
            _ => LookupStep::Done(Ok(None)),
        },
    }
}

/// The refresh token saved by an earlier session, if any: the lookup of
/// [`token_lookup_start`] and [`token_lookup_step`], run against the
/// operating system's credential store. What the store answers is not
/// stated.
pub fn stored_refresh_token() -> (r: Result<Option<String>, String>)
    ensures
        lookup_result_ok(r),
{
    let (first_state, first_request) = token_lookup_start();
    let mut state = first_state;
    let mut request = first_request;
    loop
        invariant
            request_fits(state, request),
            state matches TokenLookup::Migrating(t) ==> trimmed(t@).len() > 0,
        decreases lookup_rank(state),
    {
        let reply = perform(&request);
        match token_lookup_step(state, reply) {
            LookupStep::Done(result) => {
                return result;
            },
            LookupStep::Ask(next_state, next_request) => {
                state = next_state;
                request = next_request;
            },
        }
    }
}


/// A callback yields an authorization code only when its `state` matches
/// the waiting sign-in and it reports no error; the code is the callback's
/// own.
pub proof fn law_code_requires_matching_state(params: Seq<(Seq<char>, Seq<char>)>, pending_state: Seq<char>)
    ensures
        callback_review(params, pending_state).1 matches Ok(code) ==> {
            &&& last_value(params, "state"@) == Some(pending_state)
            &&& last_value(params, "error"@) is None
            &&& last_value(params, "code"@) == Some(code)
        },
{
}

} // verus!
