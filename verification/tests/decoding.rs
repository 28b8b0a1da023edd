use castform::codec::{decode_command_body, decode_poll_body, decode_token_body};
use castform::errors::BridgeError;
use castform::response::EcobeeStatus;
use castform::units::HvacMode;

#[test]
fn token_success_body_decodes_to_credential() {
    let body = br#"{"access_token":"abc123","refresh_token":"def456","token_type":"Bearer"}"#;
    let c = decode_token_body(&body.to_vec()).expect("should decode");
    assert_eq!(c.access_token, "abc123");
    assert_eq!(c.refresh_token, "def456");
}

#[test]
fn error_envelope_becomes_remote_with_exact_pair() {
    let body = br#"{"error":"invalid_grant","error_description":"authorization has been denied"}"#;
    let r = decode_token_body(&body.to_vec());
    match r {
        Err(BridgeError::Remote { code, description }) => {
            assert_eq!(code, "invalid_grant");
            assert_eq!(description, "authorization has been denied");
        }
        other => panic!("expected a remote error, got {:?}", other),
    }
}

#[test]
fn body_matching_neither_shape_surfaces_transport_failure() {
    // Parses as JSON, but is neither a token payload nor an error envelope.
    let r = decode_token_body(&br#"{"status":"ok"}"#.to_vec());
    assert!(matches!(r, Err(BridgeError::Transport)));
    // Does not parse as JSON at all.
    let r = decode_token_body(&b"<html>502</html>".to_vec());
    assert!(matches!(r, Err(BridgeError::Transport)));
    // The envelope must carry both fields to count as an envelope.
    let r = decode_token_body(&br#"{"error":"x"}"#.to_vec());
    assert!(matches!(r, Err(BridgeError::Transport)));
}

#[test]
fn poll_error_envelope_becomes_remote() {
    let body = br#"{"error":"expired_token","error_description":"token expired"}"#;
    match decode_poll_body(&body.to_vec()) {
        Err(BridgeError::Remote { code, description }) => {
            assert_eq!(code, "expired_token");
            assert_eq!(description, "token expired");
        }
        other => panic!("expected a remote error, got {:?}", other),
    }
}

#[test]
fn poll_decodes_first_device_and_ignores_extra_fields() {
    let body = br#"{"thermostatList":[
        {"runtime":{"actualTemperature":722,"actualHumidity":55,"desiredHeat":700,"desiredCool":740,"desiredHumidity":36},
         "settings":{"hvacMode":"cool"},
         "alerts":[],"weather":{"forecast":"sunny"}},
        {"runtime":{"actualTemperature":1,"actualHumidity":2,"desiredHeat":3,"desiredCool":4,"desiredHumidity":5},
         "settings":{"hvacMode":"heat"}}
    ]}"#;
    let s = decode_poll_body(&body.to_vec()).expect("should decode");
    // Only the first listed device is consumed.
    assert_eq!(s.mode, HvacMode::Cool);
    assert_eq!(s.current_temperature_c36, 2 * 722 - 640);
    assert_eq!(s.target_temperature_c36, 700 + 740 - 640);
    assert_eq!(s.current_humidity_pct, 55);
    assert_eq!(s.target_humidity_pct, 36);
}

#[test]
fn poll_with_missing_consumed_field_is_transport() {
    let body = br#"{"thermostatList":[{"runtime":{"actualTemperature":722},"settings":{"hvacMode":"cool"}}]}"#;
    assert!(matches!(
        decode_poll_body(&body.to_vec()),
        Err(BridgeError::Transport)
    ));
}

#[test]
fn command_confirmation_decodes_the_vendor_reply() {
    // A rejected write carries the vendor's error envelope verbatim.
    let body = br#"{"error":"not_authorized","error_description":"write scope missing"}"#;
    match decode_command_body(&body.to_vec()) {
        Err(BridgeError::Remote { code, description }) => {
            assert_eq!(code, "not_authorized");
            assert_eq!(description, "write scope missing");
        }
        other => panic!("expected a remote error, got {:?}", other),
    }
    // Any other reply is the vendor's confirmation of the write.
    let confirmed = decode_command_body(&br#"{"status":{"code":0,"message":""}}"#.to_vec());
    assert!(confirmed.is_ok());
}

#[test]
fn status_report_duplicates_the_mode_code() {
    let s = EcobeeStatus::new(2, 820, 1320, 40, 45);
    assert_eq!(s.target_heating_cooling_state, 2);
    assert_eq!(s.current_heating_cooling_state, 2);
    assert_eq!(s.target_temperature_c36, 820);
    assert_eq!(s.current_temperature_c36, 1320);
    assert_eq!(s.current_relative_humidity_pct, 40);
    assert_eq!(s.target_relative_humidity_pct, 45);
}
