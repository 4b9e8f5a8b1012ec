use vatsim_api::mock::oauth::{
    authorize, generate_mock_token, get_user, issue_code, issue_tokens, redeem, redirect_response,
    select_user, token,
};
use vatsim_api::mock::state::MockState;
use vatsim_api::types::connect::{
    ConnectRatingInfo, ConnectUser, NamedInfo, OAuthInfo, PersonalDetails, VatsimDetails,
};
use vatsim_api::types::datafeed::{Atis, Controller, DataFeed, Pilot, Server};
use vatsim_api::types::{CertificateId, ControllerRating, Facility, MilitaryRating, PilotRating};

fn test_pilot(cid: u32, callsign: &str) -> Pilot {
    Pilot {
        cid: CertificateId::new(cid),
        name: "Test Pilot".to_owned(),
        callsign: callsign.to_owned(),
        server: "EUROPE-C1".to_owned(),
        pilot_rating: PilotRating::BasicMember,
        military_rating: MilitaryRating::NoMilitaryRating,
        latitude: "48.11028".to_owned(),
        longitude: "16.56972".to_owned(),
        altitude: 35000,
        groundspeed: 450,
        transponder: "4521".to_owned(),
        heading: 270,
        qnh_i_hg: "29.92".to_owned(),
        qnh_mb: 1013,
        flight_plan: None,
        logon_time: "2025-01-15T10:00:00Z".to_owned(),
        last_updated: "2025-01-15T12:00:00Z".to_owned(),
    }
}

fn test_controller(cid: u32, callsign: &str) -> Controller {
    Controller {
        cid: CertificateId::new(cid),
        name: "Test Controller".to_owned(),
        callsign: callsign.to_owned(),
        frequency: "119.400".to_owned(),
        facility: Facility::Tower,
        rating: ControllerRating::SeniorStudent,
        server: "EUROPE-C1".to_owned(),
        visual_range: 50,
        text_atis: None,
        logon_time: "2025-01-15T10:00:00Z".to_owned(),
        last_updated: "2025-01-15T12:00:00Z".to_owned(),
    }
}

fn test_atis(cid: u32, callsign: &str) -> Atis {
    Atis {
        cid: CertificateId::new(cid),
        name: "ATIS Bot".to_owned(),
        callsign: callsign.to_owned(),
        frequency: "118.525".to_owned(),
        facility: Facility::Observer,
        rating: ControllerRating::Observer,
        server: "EUROPE-C1".to_owned(),
        visual_range: 0,
        atis_code: Some("A".to_owned()),
        text_atis: Some(vec!["LOWW INFO A".to_owned(), "RWY 29".to_owned()]),
        logon_time: "2025-01-15T10:00:00Z".to_owned(),
        last_updated: "2025-01-15T12:00:00Z".to_owned(),
    }
}

fn test_server(ident: &str) -> Server {
    Server {
        ident: ident.to_owned(),
        hostname_or_ip: "127.0.0.1".to_owned(),
        location: "Vienna, Austria".to_owned(),
        name: "EUROPE-C1".to_owned(),
        client_connections_allowed: true,
        is_sweatbox: false,
    }
}

fn test_user(cid: u32, first: &str, last: &str) -> ConnectUser {
    ConnectUser {
        cid: CertificateId::new(cid),
        personal: PersonalDetails {
            name_first: first.to_owned(),
            name_last: last.to_owned(),
            name_full: format!("{first} {last}"),
            email: Some(format!(
                "{}.{}@example.com",
                first.to_lowercase(),
                last.to_lowercase()
            )),
            country: None,
        },
        vatsim: VatsimDetails {
            rating: ConnectRatingInfo {
                id: 5,
                short: "C1".to_owned(),
                long: "Enroute Controller".to_owned(),
            },
            pilotrating: ConnectRatingInfo {
                id: 0,
                short: "NEW".to_owned(),
                long: "Basic Member".to_owned(),
            },
            region: NamedInfo {
                id: Some("EMEA".to_owned()),
                name: Some("Europe, Middle East and Africa".to_owned()),
            },
            division: NamedInfo {
                id: Some("EUD".to_owned()),
                name: Some("Europe (except UK)".to_owned()),
            },
            subdivision: None,
        },
        oauth: OAuthInfo {
            token_valid: "true".to_owned(),
        },
    }
}

fn query_value(location: &str, name: &str) -> Option<String> {
    let url = url::Url::parse(location).unwrap();
    url.query_pairs()
        .find(|(k, _)| k == name)
        .map(|(_, v)| v.to_string())
}

fn seeded(users: Vec<ConnectUser>) -> MockState {
    let mut state = MockState::default();
    for u in users {
        state.upsert_user(u);
    }
    state
}

#[test]
fn mock_state_to_datafeed_roundtrip() {
    let mut state = MockState::default();
    state.pilots = vec![test_pilot(1_000_001, "AUA100")];
    state.controllers = vec![test_controller(1_000_002, "LOWW_TWR")];

    let feed = DataFeed::from(&state);
    assert_eq!(feed.general.version, 3);
    assert_eq!(feed.general.connected_clients, 2);
    assert_eq!(feed.general.unique_users, 2);
    assert_eq!(feed.pilots.len(), 1);
    assert_eq!(feed.controllers.len(), 1);

    let state2 = MockState::from(feed);
    assert_eq!(state2.pilots.len(), 1);
    assert_eq!(state2.pilots[0].callsign, "AUA100");
    assert_eq!(state2.controllers.len(), 1);
    assert_eq!(state2.controllers[0].callsign, "LOWW_TWR");
}

#[test]
fn general_info_counts_unique_users() {
    let mut state = MockState::default();
    state.pilots = vec![test_pilot(1_000_001, "AUA100")];
    state.controllers = vec![test_controller(1_000_001, "LOWW_TWR")];

    let info = state.general_info();
    assert_eq!(info.connected_clients, 2);
    assert_eq!(info.unique_users, 1);
}

#[test]
fn general_info_is_stamped_with_the_current_time() {
    let state = MockState::default();
    let before = chrono::Utc::now();
    let info = state.general_info();
    let stamp = chrono::DateTime::parse_from_rfc3339(&info.update_timestamp).unwrap();
    assert!(stamp >= before);
    assert!(info.update_timestamp.ends_with('Z'));
    assert_eq!(info.version, 3);
    assert_eq!(info.connected_clients, 0);
    assert_eq!(info.unique_users, 0);
}

#[test]
fn general_info_at_counts_every_connection_kind() {
    let mut state = MockState::default();
    state.upsert_pilot(test_pilot(1, "AUA1"));
    state.upsert_pilot(test_pilot(2, "AUA2"));
    state.upsert_controller(test_controller(2, "LOWW_TWR"));
    state.upsert_atis(test_atis(3, "LOWW_ATIS"));
    state.upsert_atis(test_atis(3, "LOWI_ATIS"));
    let info = state.general_info_at("2025-01-15T12:00:00Z".to_owned());
    assert_eq!(info.update_timestamp, "2025-01-15T12:00:00Z");
    assert_eq!(info.connected_clients, 5);
    assert_eq!(info.unique_users, 3);
    let feed = state.to_data_feed_at("2025-01-15T12:00:00Z".to_owned());
    assert_eq!(feed.general, info);
    assert_eq!(feed.atis.len(), 2);
}

#[test]
fn api_pilot_crud() {
    let mut state = MockState::default();
    assert!(state.pilots.is_empty());

    state.upsert_pilot(test_pilot(1_000_001, "AUA100"));
    assert_eq!(state.pilot(CertificateId::new(1_000_001)).unwrap().callsign, "AUA100");

    let mut updated = test_pilot(1_000_001, "AUA101");
    updated.altitude = 10000;
    state.upsert_pilot(updated);
    assert_eq!(state.pilots.len(), 1);
    let pilot = state.pilot(CertificateId::new(1_000_001)).unwrap();
    assert_eq!(pilot.callsign, "AUA101");
    assert_eq!(pilot.altitude, 10000);

    assert!(state.remove_pilot(CertificateId::new(1_000_001)));
    assert!(state.pilot(CertificateId::new(1_000_001)).is_none());
    assert!(!state.remove_pilot(CertificateId::new(1_000_001)));
}

#[test]
fn api_atis_keyed_by_callsign() {
    let mut state = MockState::default();
    state.upsert_atis(test_atis(1_000_001, "LOWW_ATIS"));
    state.upsert_atis(test_atis(1_000_001, "LOWI_ATIS"));
    assert_eq!(state.atis.len(), 2);
    assert_eq!(state.atis("LOWW_ATIS").unwrap().cid, CertificateId::new(1_000_001));

    assert!(state.remove_atis("LOWW_ATIS"));
    assert!(state.atis("LOWW_ATIS").is_none());
    assert_eq!(state.atis("LOWI_ATIS").unwrap().callsign, "LOWI_ATIS");
}

#[test]
fn api_server_keyed_by_ident() {
    let mut state = MockState::default();
    state.upsert_server(test_server("EUROPE-C1"));
    assert_eq!(state.server("EUROPE-C1").unwrap().location, "Vienna, Austria");
    assert!(state.remove_server("EUROPE-C1"));
    assert!(state.server("EUROPE-C1").is_none());
    assert!(!state.remove_server("EUROPE-C1"));
}

#[test]
fn remove_drops_every_entry_with_the_key() {
    let mut state = MockState::default();
    state.pilots = vec![
        test_pilot(1, "A"),
        test_pilot(2, "B"),
        test_pilot(1, "C"),
    ];
    assert_eq!(state.pilot(CertificateId::new(1)).unwrap().callsign, "A");
    assert!(state.remove_pilot(CertificateId::new(1)));
    assert_eq!(state.pilots.len(), 1);
    assert_eq!(state.pilots[0].callsign, "B");
}

#[test]
fn api_user_crud() {
    let mut state = MockState::default();
    assert!(state.user(CertificateId::new(1_000_001)).is_none());
    state.upsert_user(test_user(1_000_001, "Test", "User"));
    assert_eq!(state.user(CertificateId::new(1_000_001)).unwrap().personal.name_first, "Test");
    assert!(state.remove_user(CertificateId::new(1_000_001)));
    assert!(state.user(CertificateId::new(1_000_001)).is_none());
}

#[test]
fn api_put_state_preserves_seed() {
    let mut state = MockState::default();
    state.upsert_pilot(test_pilot(1_000_001, "AUA100"));
    state.snapshot_seed();

    let mut replacement = MockState::default();
    replacement.upsert_controller(test_controller(2_000_001, "LOVV_CTR"));
    state.replace(replacement);
    assert!(state.pilots.is_empty());
    assert_eq!(state.controllers[0].callsign, "LOVV_CTR");

    state.reset();
    assert_eq!(state.pilots.len(), 1);
    assert_eq!(state.pilots[0].callsign, "AUA100");
    assert!(state.controllers.is_empty());
}

#[test]
fn api_reset_restores_seed() {
    let mut state = MockState::default();
    state.upsert_pilot(test_pilot(1_000_001, "AUA100"));
    state.snapshot_seed();
    state.upsert_controller(test_controller(2_000_001, "LOWW_TWR"));
    assert_eq!(state.pilots.len(), 1);
    assert_eq!(state.controllers.len(), 1);

    state.reset();
    assert_eq!(state.pilots.len(), 1);
    assert_eq!(state.pilots[0].callsign, "AUA100");
    assert!(state.controllers.is_empty());

    state.upsert_controller(test_controller(2_000_001, "LOWW_TWR"));
    state.reset();
    assert!(state.controllers.is_empty());
}

#[test]
fn api_reset_empty_server_clears_state() {
    let mut state = MockState::default();
    state.upsert_pilot(test_pilot(1_000_001, "AUA100"));
    state.upsert_user(test_user(1_000_001, "Test", "User"));
    state.reset();
    assert!(state.pilots.is_empty());
    assert!(state.users.is_empty());
}

#[test]
fn clone_keeps_the_seed() {
    let mut state = MockState::default();
    state.upsert_pilot(test_pilot(1, "AUA1"));
    state.snapshot_seed();
    state.upsert_pilot(test_pilot(2, "AUA2"));
    let mut copy = state.clone();
    assert_eq!(copy.pilots.len(), 2);
    copy.reset();
    assert_eq!(copy.pilots.len(), 1);
}

#[test]
fn slurper_returns_pilot_connection() {
    let mut state = MockState::default();
    state.upsert_pilot(test_pilot(1_000_001, "AUA100"));
    let body = state.user_info(CertificateId::new(1_000_001));
    assert_eq!(body, "1000001,AUA100,pilot,,,48.11028,16.56972,");
}

#[test]
fn slurper_returns_controller_and_atis() {
    let mut state = MockState::default();
    state.upsert_controller(test_controller(1_000_001, "LOWW_TWR"));
    state.upsert_atis(test_atis(1_000_001, "LOWW_ATIS"));
    let body = state.user_info(CertificateId::new(1_000_001));
    let lines: Vec<&str> = body.lines().collect();
    assert_eq!(lines.len(), 2);
    assert_eq!(lines[0], "1000001,LOWW_TWR,atc,119.400,50,0,0,");
    assert_eq!(lines[1], "1000001,LOWW_ATIS,atc,118.525,0,0,0,");

    let conns = vatsim_api::types::slurper::parse_user_connections(&body).unwrap();
    assert_eq!(conns, state.user_connections(CertificateId::new(1_000_001)));
}

#[test]
fn slurper_unknown_cid_returns_empty() {
    let mut state = MockState::default();
    state.upsert_pilot(test_pilot(1_000_001, "AUA100"));
    assert!(state.user_info(CertificateId::new(9_999_999)).is_empty());
}

#[test]
fn mock_tokens_are_numbered_in_hex() {
    assert_eq!(generate_mock_token("code", 1), "mock_code_0000000000000001");
    assert_eq!(generate_mock_token("access", 255), "mock_access_00000000000000ff");
    assert_eq!(generate_mock_token("refresh", u64::MAX), "mock_refresh_ffffffffffffffff");
}

#[test]
fn oauth_full_flow() {
    let mut state = seeded(vec![test_user(1_234_567, "Kennedy", "Steve")]);

    let location = authorize(
        &mut state,
        "https://example.com/callback",
        Some("csrf_token_123"),
        None,
        1,
    )
    .unwrap();
    assert!(location.starts_with("https://example.com/callback?"));
    assert!(location.contains("state=csrf_token_123"));
    assert_eq!(
        location,
        "https://example.com/callback?code=mock_code_0000000000000001&state=csrf_token_123"
    );
    let code = query_value(&location, "code").unwrap();
    assert!(!code.is_empty());

    let token_resp = token(&mut state, Some(&code), 2, 3).unwrap();
    assert_eq!(token_resp.token_type, "Bearer");
    assert_eq!(token_resp.expires_in, 604_800);
    assert_eq!(token_resp.access_token, "mock_access_0000000000000002");
    assert_eq!(token_resp.refresh_token, "mock_refresh_0000000000000003");
    assert_eq!(token_resp.scopes, vec!["full_name", "email", "vatsim_details", "country"]);

    let header = format!("Bearer {}", token_resp.access_token);
    let user_resp = get_user(&state, Some(&header)).unwrap();
    assert_eq!(user_resp.data.cid, CertificateId::new(1_234_567));
    assert_eq!(user_resp.data.personal.name_first, "Kennedy");
    assert_eq!(user_resp.data.personal.name_last, "Steve");
    assert_eq!(user_resp.data.vatsim.rating.id, 5);
}

#[test]
fn oauth_authorize_no_users_returns_error() {
    let mut state = MockState::default();
    let (status, err) = authorize(&mut state, "https://example.com/callback", None, None, 1).unwrap_err();
    assert_eq!(status, 400);
    assert_eq!(err.error, "invalid_request");
    assert_eq!(err.error_description.as_deref(), Some("No users configured in mock server"));
}

#[test]
fn oauth_authorize_rejects_a_bad_redirect_uri_after_issuing_the_code() {
    let mut state = seeded(vec![test_user(1_000_001, "Test", "User")]);
    let (status, err) = authorize(&mut state, "not a url", None, None, 1).unwrap_err();
    assert_eq!(status, 400);
    assert_eq!(err.error, "invalid_request");
    assert_eq!(
        err.error_description.as_deref(),
        Some("Invalid redirect_uri: relative URL without a base")
    );
    let issued = token(&mut state, Some("mock_code_0000000000000001"), 2, 3).unwrap();
    assert_eq!(issued.access_token, "mock_access_0000000000000002");
}

#[test]
fn redirect_response_reports_the_parse_error() {
    assert_eq!(redirect_response(Ok("https://x/?code=1".to_owned())).unwrap(), "https://x/?code=1");
    let (status, err) = redirect_response(Err("empty host".to_owned())).unwrap_err();
    assert_eq!(status, 400);
    assert_eq!(err.error_description.as_deref(), Some("Invalid redirect_uri: empty host"));
    assert_eq!(err.message, None);
    assert_eq!(err.hint, None);
}

#[test]
fn oauth_token_invalid_code_returns_error() {
    let mut state = seeded(vec![test_user(1_000_001, "Test", "User")]);
    let (status, err) = token(&mut state, Some("invalid_code"), 1, 2).unwrap_err();
    assert_eq!(status, 400);
    assert_eq!(err.error, "invalid_grant");
    let (status, err) = token(&mut state, None, 1, 2).unwrap_err();
    assert_eq!(status, 400);
    assert_eq!(err.error, "invalid_request");
    assert_eq!(err.error_description.as_deref(), Some("Missing `code` parameter"));
}

#[test]
fn oauth_user_no_token_returns_unauthorized() {
    let state = seeded(vec![test_user(1_000_001, "Test", "User")]);
    let (status, err) = get_user(&state, None).unwrap_err();
    assert_eq!(status, 401);
    assert_eq!(err.error, "invalid_request");
    let (status, _) = get_user(&state, Some("Basic abc")).unwrap_err();
    assert_eq!(status, 401);
}

#[test]
fn oauth_user_invalid_token_returns_unauthorized() {
    let state = seeded(vec![test_user(1_000_001, "Test", "User")]);
    let (status, err) = get_user(&state, Some("Bearer invalid_token")).unwrap_err();
    assert_eq!(status, 401);
    assert_eq!(err.error, "invalid_grant");
}

#[test]
fn oauth_code_cannot_be_reused() {
    let mut state = seeded(vec![test_user(1_000_001, "Test", "User")]);
    let location = authorize(&mut state, "https://example.com/cb", None, None, 1).unwrap();
    let code = query_value(&location, "code").unwrap();
    assert!(token(&mut state, Some(&code), 2, 3).is_ok());
    let (status, err) = token(&mut state, Some(&code), 4, 5).unwrap_err();
    assert_eq!(status, 400);
    assert_eq!(err.error, "invalid_grant");
}

#[test]
fn oauth_login_hint_selects_user() {
    let mut state = seeded(vec![
        test_user(1_000_001, "Alpha", "User"),
        test_user(1_000_002, "Bravo", "User"),
    ]);
    let location = authorize(&mut state, "https://example.com/cb", None, Some("1000002"), 1).unwrap();
    let code = query_value(&location, "code").unwrap();
    let issued = token(&mut state, Some(&code), 2, 3).unwrap();
    let user = get_user(&state, Some(&format!("Bearer {}", issued.access_token))).unwrap();
    assert_eq!(user.data.cid, CertificateId::new(1_000_002));
    assert_eq!(user.data.personal.name_first, "Bravo");
}

#[test]
fn oauth_login_hint_unknown_cid_returns_error() {
    let mut state = seeded(vec![test_user(1_000_001, "Test", "User")]);
    let (status, _) = authorize(&mut state, "https://example.com/cb", None, Some("9999999"), 1).unwrap_err();
    assert_eq!(status, 400);
    let (status, _) = authorize(&mut state, "https://example.com/cb", None, Some("abc"), 1).unwrap_err();
    assert_eq!(status, 400);
}

#[test]
fn reset_clears_oauth_tokens() {
    let mut state = seeded(vec![test_user(1_000_001, "Test", "User")]);
    state.snapshot_seed();
    let location = authorize(&mut state, "https://example.com/cb", None, None, 1).unwrap();
    let code = query_value(&location, "code").unwrap();
    let issued = token(&mut state, Some(&code), 2, 3).unwrap();
    let header = format!("Bearer {}", issued.access_token);
    assert!(get_user(&state, Some(&header)).is_ok());

    state.reset();
    let (status, err) = get_user(&state, Some(&header)).unwrap_err();
    assert_eq!(status, 401);
    assert_eq!(err.error, "invalid_grant");

    let (status, _) = token(&mut state, Some(&code), 4, 5).unwrap_err();
    assert_eq!(status, 400);
    let location = authorize(&mut state, "https://example.com/cb", None, None, 4).unwrap();
    assert_eq!(query_value(&location, "code").unwrap(), "mock_code_0000000000000004");
}

#[test]
fn user_removed_after_token_is_a_server_error() {
    let mut state = seeded(vec![test_user(1_000_001, "Test", "User")]);
    let location = authorize(&mut state, "https://example.com/cb", None, None, 1).unwrap();
    let code = query_value(&location, "code").unwrap();
    let issued = token(&mut state, Some(&code), 2, 3).unwrap();
    assert!(state.remove_user(CertificateId::new(1_000_001)));
    let (status, err) = get_user(&state, Some(&format!("Bearer {}", issued.access_token))).unwrap_err();
    assert_eq!(status, 500);
    assert_eq!(err.error, "server_error");
    assert_eq!(
        err.error_description.as_deref(),
        Some("User with CID 1000001 not found in mock state")
    );
}

#[test]
fn upserting_twice_is_upserting_once() {
    let mut once = MockState::default();
    once.upsert_pilot(test_pilot(1, "AUA1"));
    once.upsert_pilot(test_pilot(2, "AUA2"));
    let mut twice = MockState::default();
    twice.upsert_pilot(test_pilot(1, "AUA1"));
    twice.upsert_pilot(test_pilot(2, "AUA2"));
    twice.upsert_pilot(test_pilot(2, "AUA2"));
    assert_eq!(once.pilots, twice.pilots);
}

#[test]
fn a_second_reset_changes_nothing() {
    let mut state = MockState::default();
    state.upsert_pilot(test_pilot(1, "AUA1"));
    state.snapshot_seed();
    state.upsert_atis(test_atis(2, "LOWW_ATIS"));
    state.reset();
    let after_one = state.clone();
    state.reset();
    assert_eq!(state.pilots, after_one.pilots);
    assert_eq!(state.atis, after_one.atis);
    assert_eq!(state.pilots.len(), 1);
}

#[test]
fn codes_with_different_numbers_differ() {
    let mut state = seeded(vec![test_user(1_000_001, "Test", "User")]);
    let first = authorize(&mut state, "https://example.com/cb", None, None, 1).unwrap();
    let second = authorize(&mut state, "https://example.com/cb", None, None, 2).unwrap();
    let a = query_value(&first, "code").unwrap();
    let b = query_value(&second, "code").unwrap();
    assert_ne!(a, b);
    assert!(token(&mut state, Some(&a), 3, 4).is_ok());
    assert!(token(&mut state, Some(&b), 5, 6).is_ok());
}

#[test]
fn authorization_in_two_steps_matches_one() {
    let mut state = seeded(vec![test_user(1_000_001, "Test", "User")]);
    let cid = select_user(&state, None).unwrap();
    assert_eq!(cid, CertificateId::new(1_000_001));
    let location = issue_code(&mut state, cid, 7, "https://example.com/cb", Some("s")).unwrap();
    assert_eq!(location, "https://example.com/cb?code=mock_code_0000000000000007&state=s");
    let cid = redeem(&mut state, Some("mock_code_0000000000000007")).unwrap();
    let issued = issue_tokens(&mut state, cid, 8, 9);
    assert_eq!(issued.refresh_token, "mock_refresh_0000000000000009");
    assert!(get_user(&state, Some("Bearer mock_access_0000000000000008")).is_ok());
    let (status, _) = select_user(&MockState::default(), None).unwrap_err();
    assert_eq!(status, 400);
}

#[test]
fn a_reissued_code_names_one_user() {
    let mut state = seeded(vec![
        test_user(1_000_001, "First", "User"),
        test_user(1_000_002, "Second", "User"),
    ]);
    let uri = "https://example.com/cb";
    issue_code(&mut state, CertificateId::new(1_000_001), 7, uri, None).unwrap();
    issue_code(&mut state, CertificateId::new(1_000_002), 7, uri, None).unwrap();
    let code = Some("mock_code_0000000000000007");
    assert_eq!(redeem(&mut state, code).unwrap(), CertificateId::new(1_000_002));
    assert!(redeem(&mut state, code).is_err());
    issue_tokens(&mut state, CertificateId::new(1_000_001), 8, 9);
    issue_tokens(&mut state, CertificateId::new(1_000_002), 8, 10);
    let user = get_user(&state, Some("Bearer mock_access_0000000000000008")).unwrap();
    assert_eq!(user.data.cid, CertificateId::new(1_000_002));
}

#[test]
fn the_feed_timestamp_is_rfc3339_in_utc() {
    let state = MockState::default();
    let ts = state.general_info().update_timestamp;
    assert!(ts.ends_with('Z'));
    assert!(ts.len() >= 20);
    assert!(chrono::DateTime::parse_from_rfc3339(&ts).is_ok());
    let feed = state.to_data_feed();
    assert!(feed.general.update_timestamp.ends_with('Z'));
}
