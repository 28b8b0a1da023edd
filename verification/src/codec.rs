use vstd::prelude::*;

use crate::errors::BridgeError;
use crate::units::{normal_snapshot, readings_view, DeviceSnapshot, ReadingView, ThermostatReading};
use crate::Credential;

verus! {

/// What `serde_json::from_slice` yields on a token-endpoint body: the
/// `access_token` and `refresh_token` string fields of the JSON object, or
/// nothing when the body does not parse as that shape.
pub uninterp spec fn token_fields_of(b: Seq<u8>) -> Option<(Seq<char>, Seq<char>)>;

/// What a body yields when read as the vendor's error envelope: its
/// `error` and `error_description` string fields, or nothing when the body
/// does not parse as that shape.
pub uninterp spec fn envelope_of(b: Seq<u8>) -> Option<(Seq<char>, Seq<char>)>;

/// What a body yields when read as the vendor's thermostat document: the
/// consumed runtime and settings fields of every `thermostatList` entry,
/// or nothing when the body does not parse as that shape.
pub uninterp spec fn thermostats_of(b: Seq<u8>) -> Option<Seq<ReadingView>>;

/// Relies on `serde_json::from_slice` and `Value::{get, as_str}`: reads the
/// token pair out of a JSON object; the outcome depends on the body bytes
/// alone.
#[verifier::external_body]
fn parse_token_body(body: &Vec<u8>) -> (r: Option<Credential>)
    ensures
        r matches Some(c) ==> (token_fields_of(body@) matches Some(t) && c.access_token@ == t.0
            && c.refresh_token@ == t.1),
        r is None <==> token_fields_of(body@) is None,
{
    let doc: serde_json::Value = serde_json::from_slice(body).ok()?;
    Some(Credential {
        access_token: doc.get("access_token")?.as_str()?.to_owned(),
        refresh_token: doc.get("refresh_token")?.as_str()?.to_owned(),
    })
}

/// Relies on `serde_json::from_slice` and `Value::{get, as_str}`: reads the
/// vendor's error envelope out of a JSON object; the outcome depends on the
/// body bytes alone.
#[verifier::external_body]
fn parse_error_envelope(body: &Vec<u8>) -> (r: Option<(String, String)>)
    ensures
        r matches Some(e) ==> (envelope_of(body@) matches Some(v) && e.0@ == v.0 && e.1@ == v.1),
        r is None <==> envelope_of(body@) is None,
{
    let doc: serde_json::Value = serde_json::from_slice(body).ok()?;
    Some((
        doc.get("error")?.as_str()?.to_owned(),
        doc.get("error_description")?.as_str()?.to_owned(),
    ))
}

/// Relies on `serde_json::from_slice` and `Value::{get, as_array, as_u64,
/// as_str}`: reads the consumed fields of each listed device out of the
/// vendor's thermostat document; the outcome depends on the body bytes
/// alone.
#[verifier::external_body]
fn parse_thermostat_body(body: &Vec<u8>) -> (r: Option<Vec<ThermostatReading>>)
    ensures
        r matches Some(v) ==> (thermostats_of(body@) matches Some(t) && readings_view(v@) == t),
        r is None <==> thermostats_of(body@) is None,
{
    let doc: serde_json::Value = serde_json::from_slice(body).ok()?;
    let mut out: Vec<ThermostatReading> = Vec::new();
    for t in doc.get("thermostatList")?.as_array()? {
        let rt = t.get("runtime")?;
        out.push(ThermostatReading {
            temperature: rt.get("actualTemperature")?.as_u64()?,
            humidity: rt.get("actualHumidity")?.as_u64()?,
            desired_heat: rt.get("desiredHeat")?.as_u64()?,
            desired_cool: rt.get("desiredCool")?.as_u64()?,
            desired_humidity: rt.get("desiredHumidity")?.as_u64()?,
            hvac_mode: t.get("settings")?.get("hvacMode")?.as_str()?.to_owned(),
        });
    }
    Some(out)
}

/// Decodes a token-endpoint response body. A body that parses as the
/// success shape yields the credential; one that does not, but parses as
/// the vendor's error envelope, yields `Remote` with the envelope's exact
/// pair; one that matches neither surfaces the original parse failure as
/// `Transport`.
pub fn decode_token_body(body: &Vec<u8>) -> (r: Result<Credential, BridgeError>)
    ensures
        token_fields_of(body@) matches Some(t) ==> (r matches Ok(c) && c.access_token@ == t.0
            && c.refresh_token@ == t.1),
        envelope_of(body@) matches Some(e) ==> (token_fields_of(body@) is None ==> (r matches Err(
            BridgeError::Remote { code, description },
        ) && code@ == e.0 && description@ == e.1)),
        (token_fields_of(body@) is None && envelope_of(body@) is None) ==> r matches Err(
            BridgeError::Transport,
        ),
{
    match parse_token_body(body) {
        Some(credential) => Ok(credential),
        None => match parse_error_envelope(body) {
            Some((code, description)) => Err(BridgeError::Remote { code, description }),
            None => Err(BridgeError::Transport),
        },
    }
}

/// Decodes a poll response body into the raw readings list, with the same
/// failure-shape policy as the token decoder.
pub fn decode_thermostat_body(body: &Vec<u8>) -> (r: Result<Vec<ThermostatReading>, BridgeError>)
    ensures
        thermostats_of(body@) matches Some(t) ==> (r matches Ok(v) && readings_view(v@) == t),
        envelope_of(body@) matches Some(e) ==> (thermostats_of(body@) is None ==> (r matches Err(
            BridgeError::Remote { code, description },
        ) && code@ == e.0 && description@ == e.1)),
        (thermostats_of(body@) is None && envelope_of(body@) is None) ==> r matches Err(
            BridgeError::Transport,
        ),
{
    match parse_thermostat_body(body) {
        Some(list) => Ok(list),
        None => match parse_error_envelope(body) {
            Some((code, description)) => Err(BridgeError::Remote { code, description }),
            None => Err(BridgeError::Transport),
        },
    }
}

/// The snapshot a successful poll of this body installs: the normalization
/// of the first listed device; nothing when the body is not the success
/// shape or lists no device.
pub open spec fn polled_snapshot(b: Seq<u8>) -> Option<DeviceSnapshot> {
    match thermostats_of(b) {
        Some(list) => if list.len() > 0 {
            Some(normal_snapshot(list[0]))
        } else {
            None
        },
        None => None,
    }
}

/// Decodes a write-command response body: the command succeeds only once
/// the vendor confirms it. A body that parses as the vendor's error
/// envelope is a rejection and yields `Remote` with the envelope's exact
/// pair; any other body is the vendor's confirmation. (A failed exchange
/// never reaches this decoder: the caller maps it to `Transport` first.)
pub fn decode_command_body(body: &Vec<u8>) -> (r: Result<(), BridgeError>)
    ensures
        envelope_of(body@) matches Some(e) ==> (r matches Err(
            BridgeError::Remote { code, description },
        ) && code@ == e.0 && description@ == e.1),
        envelope_of(body@) is None ==> r == Ok::<(), BridgeError>(()),
{
    match parse_error_envelope(body) {
        Some((code, description)) => Err(BridgeError::Remote { code, description }),
        None => Ok(()),
    }
}

/// End to end over the poll pipeline: whenever a body decodes to a
/// snapshot, the state code the consumer will read equals the mode table
/// applied to the vendor's mode string of the first listed device, and the
/// temperatures are its exact fixed-point conversions.
pub proof fn lemma_snapshot_reflects_first_reading(b: Seq<u8>)
    ensures
        polled_snapshot(b) matches Some(s) ==> (thermostats_of(b) matches Some(l) && l.len() > 0
            && crate::response::status_of_snapshot(s).current_heating_cooling_state
            == crate::units::mode_state(l[0].hvac_mode) && s.current_temperature_c36
            == crate::units::current_c36(l[0].temperature) && s.target_temperature_c36
            == crate::units::target_c36(l[0].desired_heat, l[0].desired_cool)),
{
}

/// Decodes a poll response body into the normalized snapshot of the first
/// listed device. The vendor's error envelope yields `Remote`, an empty
/// device list the distinct `NoDevice` condition, and a body matching
/// neither shape surfaces the original parse failure as `Transport`.
pub fn decode_poll_body(body: &Vec<u8>) -> (r: Result<DeviceSnapshot, BridgeError>)
    ensures
        polled_snapshot(body@) matches Some(s) ==> r == Ok::<DeviceSnapshot, BridgeError>(s),
        thermostats_of(body@) matches Some(list) ==> (list.len() == 0 ==> r matches Err(
            BridgeError::NoDevice,
        )),
        envelope_of(body@) matches Some(e) ==> (thermostats_of(body@) is None ==> (r matches Err(
            BridgeError::Remote { code, description },
        ) && code@ == e.0 && description@ == e.1)),
        (thermostats_of(body@) is None && envelope_of(body@) is None) ==> r matches Err(
            BridgeError::Transport,
        ),
{
    match decode_thermostat_body(body) {
        Ok(list) => {
            if list.len() > 0 {
                proof {
                    assert(readings_view(list@)[0] == list@[0]@);
                }
                Ok(crate::units::normalize(&list[0]))
            } else {
                Err(BridgeError::NoDevice)
            }
        },
        Err(e) => Err(e),
    }
}

} // verus!
