use castform::ecobee::EcobeeActor;
use castform::errors::BridgeError;
use castform::query::EcobeeQuery;
use castform::response::EcobeeResponse;
use castform::units::HvacMode;
use castform::wire::HttpMethod;
use castform::{Config, Credential};

fn config() -> Config {
    Config {
        client_id: "abc".to_owned(),
        username: "u&x".to_owned(),
        password: "p w".to_owned(),
    }
}

fn credential(access: &str, refresh: &str) -> Credential {
    Credential {
        access_token: access.to_owned(),
        refresh_token: refresh.to_owned(),
    }
}

const POLL_BODY: &str = r#"{
  "thermostatList": [
    {
      "identifier": "1234",
      "runtime": {
        "actualTemperature": 980,
        "actualHumidity": 40,
        "desiredHeat": 680,
        "desiredCool": 780,
        "desiredHumidity": 45,
        "connected": true
      },
      "settings": {
        "hvacMode": "auto",
        "vent": "off"
      },
      "extra": {"ignored": [1, 2, 3]}
    }
  ],
  "status": {"code": 0}
}"#;

#[test]
fn query_before_any_poll_fails_fast() {
    let actor = EcobeeActor::from_config(&config());
    let r = actor.handle(EcobeeQuery::Status);
    assert!(matches!(r, Err(BridgeError::NoDevice)));
    assert!(matches!(actor.get_status(), Err(BridgeError::NoDevice)));
}

#[test]
fn get_status_returns_the_cached_snapshot() {
    let mut actor = EcobeeActor::from_config(&config());
    actor.set_auth_token(credential("at", "rt"));
    let installed = actor
        .apply_poll_body(Ok(POLL_BODY.as_bytes().to_vec()))
        .expect("poll should succeed");
    let got = actor.get_status().expect("snapshot available");
    assert_eq!(got, installed);
}

#[test]
fn authenticated_calls_before_auth_fail_fast() {
    let actor = EcobeeActor::from_config(&config());
    assert!(matches!(actor.poll_request(), Err(BridgeError::NotAuthenticated)));
    assert!(matches!(actor.refresh_request(), Err(BridgeError::NotAuthenticated)));
    assert!(matches!(actor.set_mode_request(2), Err(BridgeError::NotAuthenticated)));
    assert!(matches!(
        actor.set_temperature_request(730),
        Err(BridgeError::NotAuthenticated)
    ));
}

#[test]
fn successful_poll_replaces_cache_with_normalization() {
    let mut actor = EcobeeActor::from_config(&config());
    actor.set_auth_token(credential("at", "rt"));
    let r = actor.apply_poll_body(Ok(POLL_BODY.as_bytes().to_vec()));
    let snapshot = r.expect("poll should succeed");
    assert_eq!(snapshot.mode, HvacMode::Auto);
    assert_eq!(snapshot.current_temperature_c36, 1320);
    assert_eq!(snapshot.target_temperature_c36, 820);
    assert_eq!(snapshot.current_humidity_pct, 40);
    assert_eq!(snapshot.target_humidity_pct, 45);
    assert_eq!(actor.snapshot, Some(snapshot));

    let status = match actor.handle(EcobeeQuery::Status) {
        Ok(EcobeeResponse::Status(s)) => s,
        Err(e) => panic!("query failed: {:?}", e),
    };
    assert_eq!(status.current_heating_cooling_state, 3);
    assert_eq!(status.target_heating_cooling_state, 3);
    assert_eq!(status.current_temperature_c36, 1320);
    assert_eq!(status.target_temperature_c36, 820);
    assert_eq!(status.current_relative_humidity_pct, 40);
    assert_eq!(status.target_relative_humidity_pct, 45);
}

#[test]
fn failed_poll_leaves_cache_untouched() {
    let mut actor = EcobeeActor::from_config(&config());
    actor.set_auth_token(credential("at", "rt"));
    actor
        .apply_poll_body(Ok(POLL_BODY.as_bytes().to_vec()))
        .expect("first poll should succeed");
    let before = actor.snapshot;

    let r = actor.apply_poll_body(Ok(b"not even json".to_vec()));
    assert!(matches!(r, Err(BridgeError::Transport)));
    assert_eq!(actor.snapshot, before);

    let r = actor.apply_poll_body(Err(BridgeError::Transport));
    assert!(r.is_err());
    assert_eq!(actor.snapshot, before);

    let r = actor.apply_poll_body(Ok(
        br#"{"error":"x","error_description":"y"}"#.to_vec(),
    ));
    assert!(matches!(r, Err(BridgeError::Remote { .. })));
    assert_eq!(actor.snapshot, before);
}

#[test]
fn empty_device_list_is_the_distinct_no_device_failure() {
    let mut actor = EcobeeActor::from_config(&config());
    actor.set_auth_token(credential("at", "rt"));
    let r = actor.apply_poll_body(Ok(br#"{"thermostatList":[]}"#.to_vec()));
    assert!(matches!(r, Err(BridgeError::NoDevice)));
    assert_eq!(actor.snapshot, None);
}

#[test]
fn refresh_failure_keeps_previous_credential_usable() {
    let mut actor = EcobeeActor::from_config(&config());
    actor.set_auth_token(credential("old-access", "old-refresh"));

    let r = actor.apply_refresh_body(Ok(b"{\"unexpected\":true}".to_vec()));
    assert!(r.is_err());

    // The previously held access token is still attached to the next poll.
    let poll = actor.poll_request().expect("poll request should build");
    let auth_header = poll
        .headers
        .iter()
        .find(|h| h.0 == "Authorization")
        .expect("authorization header present");
    assert_eq!(auth_header.1, "Bearer old-access");

    // And the refresh token is still the one offered at the next refresh.
    let refresh = actor.refresh_request().expect("refresh request should build");
    assert!(refresh.url.contains("refresh_token=old-refresh"));
}

#[test]
fn successful_refresh_swaps_credential() {
    let mut actor = EcobeeActor::from_config(&config());
    actor.set_auth_token(credential("old-access", "old-refresh"));
    let body = br#"{"access_token":"new-access","refresh_token":"new-refresh","scope":"smartWrite"}"#;
    actor
        .apply_refresh_body(Ok(body.to_vec()))
        .expect("refresh should succeed");
    let token = actor.auth_token.as_ref().expect("credential present");
    assert_eq!(token.access_token, "new-access");
    assert_eq!(token.refresh_token, "new-refresh");
}

#[test]
fn auth_request_carries_form_encoded_credentials() {
    let actor = EcobeeActor::from_config(&config());
    let r = actor.auth_request().expect("auth request should build");
    assert!(matches!(r.method, HttpMethod::Post));
    assert_eq!(r.url, "https://api.ecobee.com/authorize");
    assert_eq!(
        r.body,
        "client_id=abc&username=u%26x&password=p+w&scope=smartWrite&response_type=ecobeeAuthz"
    );
    assert_eq!(r.headers.len(), 2);
    assert_eq!(r.headers[0].0, "User-Agent");
    assert_eq!(
        r.headers[0].1,
        "Home Comfort/1.3.0 (iPhone; iOS 11.4; Scale/2.00)"
    );
    assert_eq!(r.headers[1], ("X-ECOBEE-APP".to_owned(), "ecobee-ios".to_owned()));
}

#[test]
fn refresh_request_carries_query_parameters() {
    let mut actor = EcobeeActor::from_config(&config());
    actor.set_auth_token(credential("at", "rt"));
    let r = actor.refresh_request().expect("refresh request should build");
    assert!(matches!(r.method, HttpMethod::Post));
    assert_eq!(
        r.url,
        "https://api.ecobee.com/token?client_id=abc&refresh_token=rt&grant_type=refresh_token"
    );
    assert_eq!(r.body, "");
    assert_eq!(r.headers.len(), 2);
}

#[test]
fn poll_request_is_authenticated_and_selects_everything() {
    let mut actor = EcobeeActor::from_config(&config());
    actor.set_auth_token(credential("secret-token", "rt"));
    let r = actor.poll_request().expect("poll request should build");
    assert!(matches!(r.method, HttpMethod::Get));
    assert!(r.url.starts_with("https://api.ecobee.com/1/thermostat?json="));
    assert!(r.url.contains("includeRuntime"));
    assert!(r.url.contains("includeSensors"));
    assert!(r.url.contains("selectionType"));
    assert_eq!(r.body, "");
    assert_eq!(r.headers.len(), 3);
    assert_eq!(
        r.headers[2],
        ("Authorization".to_owned(), "Bearer secret-token".to_owned())
    );
}

#[test]
fn set_mode_request_writes_the_mode_word() {
    let mut actor = EcobeeActor::from_config(&config());
    actor.set_auth_token(credential("at", "rt"));
    let r = actor.set_mode_request(3).expect("request should build");
    assert!(matches!(r.method, HttpMethod::Post));
    assert_eq!(r.url, "https://api.ecobee.com/1/thermostat");
    assert_eq!(
        r.body,
        "{\"selection\":{\"selectionType\":\"registered\"},\"thermostat\":{\"settings\":{\"hvacMode\":\"auto\"}}}"
    );
    let r0 = actor.set_mode_request(0).expect("request should build");
    assert!(r0.body.contains("\"hvacMode\":\"off\""));
}

#[test]
fn set_temperature_request_writes_decimal_holds() {
    let mut actor = EcobeeActor::from_config(&config());
    actor.set_auth_token(credential("at", "rt"));
    let r = actor.set_temperature_request(730).expect("request should build");
    assert_eq!(
        r.body,
        "{\"selection\":{\"selectionType\":\"registered\"},\"functions\":[{\"type\":\"setHold\",\"params\":{\"holdType\":\"nextTransition\",\"heatHoldTemp\":730,\"coolHoldTemp\":730}}]}"
    );
    let r = actor.set_temperature_request(0).expect("request should build");
    assert!(r.body.contains("\"heatHoldTemp\":0,"));
    let r = actor.set_temperature_request(1005).expect("request should build");
    assert!(r.body.contains("\"heatHoldTemp\":1005,"));
}

#[test]
fn reads_between_polls_observe_whole_snapshots() {
    // The cache is replaced wholesale: every read sees either the full
    // pre-poll snapshot or the full post-poll snapshot, never a mixture.
    let mut actor = EcobeeActor::from_config(&config());
    actor.set_auth_token(credential("at", "rt"));
    actor
        .apply_poll_body(Ok(POLL_BODY.as_bytes().to_vec()))
        .expect("first poll should succeed");
    let first = actor.snapshot.expect("snapshot present");
    assert_eq!(
        (first.mode, first.current_temperature_c36, first.target_temperature_c36),
        (HvacMode::Auto, 1320, 820)
    );

    let second_body = br#"{"thermostatList":[{
        "runtime":{"actualTemperature":700,"actualHumidity":50,"desiredHeat":650,"desiredCool":690,"desiredHumidity":30},
        "settings":{"hvacMode":"heat"}}]}"#;
    actor
        .apply_poll_body(Ok(second_body.to_vec()))
        .expect("second poll should succeed");
    let second = actor.snapshot.expect("snapshot present");
    // Every field belongs to the second payload; nothing of the first is left.
    assert_eq!(second.mode, HvacMode::Heat);
    assert_eq!(second.current_temperature_c36, 2 * 700 - 640);
    assert_eq!(second.target_temperature_c36, 650 + 690 - 640);
    assert_eq!(second.current_humidity_pct, 50);
    assert_eq!(second.target_humidity_pct, 30);

    // A failed poll in between leaves the second snapshot whole.
    let _ = actor.apply_poll_body(Ok(b"{".to_vec()));
    assert_eq!(actor.snapshot, Some(second));
}

#[test]
fn from_config_starts_empty() {
    let actor = EcobeeActor::from_config(&config());
    assert_eq!(actor.client_id, "abc");
    assert_eq!(actor.username, "u&x");
    assert_eq!(actor.password, "p w");
    assert!(actor.auth_token.is_none());
    assert!(actor.snapshot.is_none());
}
