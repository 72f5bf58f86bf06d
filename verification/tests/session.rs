use magnet::catalog::{spotify_refusal, CatalogError};
use magnet::session::{
    access_token_step, account_name, cache_to_read, cache_to_store, refresh_token_write, token_lookup_start, token_lookup_step, urlsafe_token, written_outcome, callback_page_response, callback_params, collection_cache_file_name,
    connection_message, param_value, persist_refresh_token, random_urlsafe, read_token_outcome, refreshed_session,
    review_callback, saved_tracks_retry, session_from_sign_in, spotify_authorization_url, spotify_client_id,
    spotify_playlists, spotify_profile, stored_refresh_token, token_exchange_outcome, token_refresh_outcome,
    CredentialReply, CredentialRequest, HttpStatus, KeyringRead, LookupStep, TokenLookup, LoadReport, RetryStep, SpotifyProfile, SpotifySession, TokenResponse, TokenStep,
};

fn token(refresh: Option<&str>) -> TokenResponse {
    TokenResponse {
        access_token: "access".into(),
        refresh_token: refresh.map(|r| r.to_string()),
        expires_in: 3600,
    }
}

#[test]
fn client_id_falls_back_to_magnet() {
    assert_eq!(spotify_client_id(None), "49a6085899814912912b8174495e7702");
    assert_eq!(spotify_client_id(Some("  \t")), "49a6085899814912912b8174495e7702");
    assert_eq!(spotify_client_id(Some("  custom\n")), "custom");
}

#[test]
fn authorization_url_carries_state_and_pkce_challenge() {
    let url = spotify_authorization_url("client", "st&ate", "dBjftJeZ4CVP-mB92K27uhbUJU1p1r_wW1gFWFOEjXk");
    assert!(url.starts_with("https://accounts.spotify.com/authorize?client_id=client&response_type=code&"));
    assert!(url.contains("&state=st%26ate&"));
    assert!(url.contains("scope=user-read-private+user-read-email+"));
    assert!(url.contains("redirect_uri=http%3A%2F%2F127.0.0.1%3A5002%2Fauth%2Fspotify%2Fcallback"));
    assert!(url.ends_with("&code_challenge_method=S256&code_challenge=E9Melhoa2OwvFrEMTJguCHaoeK1t8URWbuGJSstw-cM"));
}

#[test]
fn random_tokens_have_the_requested_size() {
    let verifier = random_urlsafe(64).unwrap();
    assert_eq!(verifier.len(), 86);
    let state = random_urlsafe(24).unwrap();
    assert_eq!(state.len(), 32);
    assert!(state.chars().all(|c| c.is_ascii_alphanumeric() || c == '-' || c == '_'));
    assert_ne!(random_urlsafe(24).unwrap(), state);
}

#[test]
fn cache_files_are_named_by_digest() {
    assert_eq!(
        collection_cache_file_name("user"),
        "04f8996da763b7a969b1028ee3007569eaf3a635486ddab211d512c85b9df8fb.json"
    );
}

#[test]
fn callbacks_are_checked_against_the_pending_sign_in() {
    let params = callback_params("GET /auth/spotify/callback?code=c%2B1&state=xyz HTTP/1.1\r\n").unwrap();
    assert_eq!(param_value(&params, "code").as_deref(), Some("c+1"));
    let accepted = review_callback(&params, "xyz");
    assert_eq!(accepted.outcome.unwrap(), "c+1");
    assert!(accepted.page.unwrap().success);

    let rejected = review_callback(&params, "other");
    assert_eq!(
        rejected.outcome.unwrap_err(),
        "Spotify sign-in was rejected because its callback state did not match."
    );
    assert!(!rejected.page.unwrap().success);

    let denied = callback_params("GET /cb?state=xyz&error=access_denied HTTP/1.1").unwrap();
    assert_eq!(
        review_callback(&denied, "xyz").outcome.unwrap_err(),
        "Spotify sign-in was not completed: access_denied."
    );
    let codeless = callback_params("GET /cb?state=xyz HTTP/1.1").unwrap();
    let reply = review_callback(&codeless, "xyz");
    assert!(reply.page.is_none());
    assert_eq!(reply.outcome.unwrap_err(), "Spotify did not return an authorization code.");
    assert_eq!(callback_params("GET").unwrap_err(), "Spotify callback was malformed.");
    let repeated = callback_params("GET /cb?state=a&state=xyz&code=1 HTTP/1.1").unwrap();
    assert_eq!(review_callback(&repeated, "xyz").outcome.unwrap(), "1");
    assert!(callback_params("GET /cb HTTP/1.1").unwrap().is_empty());
}

#[test]
fn callback_pages_declare_their_byte_length() {
    let response = callback_page_response(true, "Sign-in received. Magnet is finishing the connection \u{2014} you can close this tab.");
    let (head, body) = response.split_once("\r\n\r\n").unwrap();
    assert!(head.starts_with("HTTP/1.1 200 OK\r\n"));
    assert!(head.contains(&format!("Content-Length: {}", body.len())));
    assert!(body.contains("color:#5ce8ad"));
    assert!(callback_page_response(false, "x").contains("color:#f4b46f"));
}

#[test]
fn sessions_need_a_refresh_token_and_keep_it_across_refreshes() {
    let session = session_from_sign_in(token(Some("r1")), 1_000).unwrap();
    assert_eq!(session.expires_at_ms, 3_601_000);
    assert_eq!(session.refresh_token.as_deref(), Some("r1"));
    assert_eq!(
        session_from_sign_in(token(None), 0).unwrap_err(),
        "Spotify did not return a reusable refresh token. Try connecting again."
    );
    let (kept, rotated) = refreshed_session(token(None), "r1", 0);
    assert_eq!(kept.refresh_token.as_deref(), Some("r1"));
    assert!(rotated.is_none());
    let (renewed, rotated) = refreshed_session(token(Some("r2")), "r1", u128::MAX);
    assert_eq!(renewed.refresh_token.as_deref(), Some("r2"));
    assert_eq!(rotated.as_deref(), Some("r2"));
    assert_eq!(renewed.expires_at_ms, u128::MAX);
}

#[test]
fn catalog_tokens_refresh_within_a_minute_of_expiry() {
    let session = Some(SpotifySession {
        access_token: "a".into(),
        refresh_token: Some("r".into()),
        expires_at_ms: 100_000,
    });
    assert!(matches!(access_token_step(&session, 39_999), Ok(TokenStep::Ready(t)) if t == "a"));
    assert!(matches!(access_token_step(&session, 40_000), Ok(TokenStep::Refresh(t)) if t == "r"));
    assert!(matches!(access_token_step(&session, 200_000), Ok(TokenStep::Refresh(_))));
    assert_eq!(
        access_token_step(&None, 0).err().unwrap(),
        "Connect Spotify before using its catalog."
    );
    let stale = Some(SpotifySession { access_token: "a".into(), refresh_token: None, expires_at_ms: 0 });
    assert_eq!(
        access_token_step(&stale, 0).err().unwrap(),
        "Spotify needs you to reconnect before using its catalog."
    );
}

#[test]
fn responses_name_the_failing_step() {
    let ok = || Ok(HttpStatus { code: 200, text: "200 OK".into() });
    let profile = SpotifyProfile { display_name: None, id: "me".into() };
    assert_eq!(spotify_profile(ok(), Ok(profile)).unwrap().id, "me");
    assert_eq!(
        spotify_profile(Err("timeout".into()), Err("unused".into())).err().unwrap(),
        "Could not load your Spotify profile: timeout"
    );
    assert_eq!(
        spotify_profile(Ok(HttpStatus { code: 401, text: "401 Unauthorized".into() }), Err("x".into())).err().unwrap(),
        "Spotify profile request was refused (401 Unauthorized)."
    );
    assert_eq!(
        spotify_profile(ok(), Err("eof".into())).err().unwrap(),
        "Spotify returned an invalid profile response: eof"
    );
    assert_eq!(
        token_exchange_outcome(Ok(HttpStatus { code: 400, text: "400 Bad Request".into() }), Err("x".into()))
            .err()
            .unwrap(),
        "Spotify token exchange was refused (400 Bad Request)."
    );
    assert_eq!(
        token_refresh_outcome(Err("dns".into()), Err("x".into())).err().unwrap(),
        "Spotify session refresh failed: dns"
    );
}

#[test]
fn connection_messages_list_what_loaded_and_what_did_not() {
    let named = Ok(SpotifyProfile { display_name: Some("Ada".into()), id: "ada".into() });
    assert_eq!(account_name(&named), "Ada");
    assert_eq!(account_name(&Err("x".into())), "your Spotify account");
    let report = LoadReport {
        profile_error: None,
        cache_error: None,
        library: Ok(12),
        library_sync_error: None,
        playlists: Ok(3),
        playlists_sync_error: None,
    };
    assert_eq!(
        connection_message("Spotify connected", "Ada", &report),
        "Spotify connected as Ada \u{b7} 12 saved tracks, 3 playlists loaded."
    );
    let troubled = LoadReport {
        profile_error: Some("403".into()),
        cache_error: None,
        library: Err("429".into()),
        library_sync_error: None,
        playlists: Ok(0),
        playlists_sync_error: Some("busy".into()),
    };
    assert_eq!(
        connection_message("Spotify session restored", "your Spotify account", &troubled),
        "Spotify session restored as your Spotify account \u{b7} 0 playlists loaded \u{b7} could not load profile: 403; saved tracks: 429; playlists: busy."
    );
}

#[test]
fn rate_limited_loads_back_off_then_give_up() {
    let limited = spotify_refusal(429, "429 Too Many Requests".into(), "");
    assert!(matches!(saved_tracks_retry(0, &limited), RetryStep::Wait(5)));
    assert!(matches!(saved_tracks_retry(3, &limited), RetryStep::Wait(60)));
    assert!(matches!(saved_tracks_retry(4, &limited), RetryStep::GiveUp(_)));
    match saved_tracks_retry(0, &CatalogError::EmptySearch) {
        RetryStep::GiveUp(m) => assert_eq!(m, "Search text cannot be empty"),
        RetryStep::Wait(_) => panic!("only rate limits are retried"),
    }
    assert_eq!(spotify_playlists(Err(CatalogError::TooManyPages)).err().unwrap(), "Spotify pagination exceeded its safety limit");
}

#[test]
fn credential_reads_ignore_blank_tokens() {
    assert_eq!(read_token_outcome(KeyringRead::Found(" token ".into())).unwrap().as_deref(), Some(" token "));
    assert_eq!(read_token_outcome(KeyringRead::Found(" \n".into())).unwrap(), None);
    assert_eq!(read_token_outcome(KeyringRead::NoEntry).unwrap(), None);
    assert_eq!(
        read_token_outcome(KeyringRead::Failed("locked".into())).unwrap_err(),
        "Could not read the saved Spotify session: locked"
    );
}

#[test]
fn credential_store_round_trip_runs() {
    assert!(persist_refresh_token("refresh").is_ok());
    if let Some(token) = stored_refresh_token().unwrap() {
        assert!(!token.trim().is_empty());
    }
}

#[test]
fn the_lookup_reads_the_current_entry_then_migrates_the_former_one() {
    let (state, request) = token_lookup_start();
    assert!(matches!(state, TokenLookup::Current));
    assert!(matches!(&request, CredentialRequest::Read { service, account } if service == "magnet" && account == "spotify-refresh-token"));

    let found = token_lookup_step(TokenLookup::Current, CredentialReply::Read(KeyringRead::Found("tok".into())));
    assert!(matches!(found, LookupStep::Done(Ok(Some(t))) if t == "tok"));

    let blank = token_lookup_step(TokenLookup::Current, CredentialReply::Read(KeyringRead::Found("  ".into())));
    let LookupStep::Ask(state, request) = blank else { panic!("a blank entry goes on to the former one") };
    assert!(matches!(state, TokenLookup::Legacy));
    assert!(matches!(&request, CredentialRequest::Read { service, account } if service == "magnet-player" && account == "spotify-refresh-token"));

    let legacy = token_lookup_step(TokenLookup::Legacy, CredentialReply::Read(KeyringRead::Found("old".into())));
    let LookupStep::Ask(state, request) = legacy else { panic!("a former token is migrated") };
    assert!(matches!(&state, TokenLookup::Migrating(t) if t == "old"));
    assert!(matches!(&request, CredentialRequest::Write { service, account, secret }
        if service == "magnet" && account == "spotify-refresh-token" && secret == "old"));

    let done = token_lookup_step(state, CredentialReply::Written(Ok(())));
    assert!(matches!(done, LookupStep::Done(Ok(Some(t))) if t == "old"));
    let refused = token_lookup_step(TokenLookup::Migrating("old".into()), CredentialReply::Written(Err("denied".into())));
    assert!(matches!(refused, LookupStep::Done(Err(e)) if e == "Could not save the Spotify session securely: denied"));

    assert!(matches!(
        token_lookup_step(TokenLookup::Legacy, CredentialReply::Read(KeyringRead::NoEntry)),
        LookupStep::Done(Ok(None))
    ));
    assert!(matches!(
        token_lookup_step(TokenLookup::Current, CredentialReply::Read(KeyringRead::Failed("locked".into()))),
        LookupStep::Done(Err(e)) if e == "Could not read the saved Spotify session: locked"
    ));
    assert!(matches!(
        token_lookup_step(TokenLookup::Legacy, CredentialReply::Unavailable("no store".into())),
        LookupStep::Done(Err(e)) if e == "Windows Credential Manager is unavailable: no store"
    ));
}

#[test]
fn refresh_tokens_are_written_to_the_current_entry() {
    assert!(matches!(refresh_token_write("abc"), CredentialRequest::Write { service, account, secret }
        if service == "magnet" && account == "spotify-refresh-token" && secret == "abc"));
    assert_eq!(written_outcome(CredentialReply::Written(Ok(()))), Ok(()));
    assert_eq!(
        written_outcome(CredentialReply::Unavailable("x".into())).unwrap_err(),
        "Windows Credential Manager is unavailable: x"
    );
}

#[test]
fn tokens_are_unpadded_urlsafe_base64() {
    assert_eq!(urlsafe_token(&[0xfb, 0xff]), "-_8");
    assert_eq!(urlsafe_token(b"Man"), "TWFu");
    assert_eq!(urlsafe_token(&[]), "");
}

#[test]
fn caches_are_read_and_written_only_for_a_loaded_profile() {
    let profile: Result<SpotifyProfile, String> = Ok(SpotifyProfile { display_name: None, id: "user".into() });
    let failed: Result<SpotifyProfile, String> = Err("profile".into());
    assert_eq!(cache_to_read(&profile).as_deref(), Some("user"));
    assert_eq!(cache_to_read(&failed), None);
    assert_eq!(cache_to_store(&profile, &Ok(vec![]), &Ok(vec![])).as_deref(), Some("user"));
    assert_eq!(cache_to_store(&profile, &Err("library".into()), &Ok(vec![])), None);
    assert_eq!(cache_to_store(&profile, &Ok(vec![]), &Err("playlists".into())), None);
    assert_eq!(cache_to_store(&failed, &Ok(vec![]), &Ok(vec![])), None);
}
