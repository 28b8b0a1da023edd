use vstd::prelude::*;

use crate::codec::{
    decode_poll_body, decode_token_body, envelope_of, polled_snapshot, thermostats_of,
    token_fields_of,
};
use crate::errors::BridgeError;
use crate::query::EcobeeQuery;
use crate::response::{status_of_snapshot, EcobeeResponse, EcobeeStatus};
use crate::units::{mode_code, DeviceSnapshot};
use crate::wire::{
    build_headers, build_set_mode_body, build_set_temperature_body, build_url, default_headers,
    endpoint_url, form_encoded, pairs_view, plain_url, set_mode_body, set_temperature_body,
    url_with_query, HttpMethod, OutboundRequest,
};
use crate::{Config, Credential};

verus! {

/// The session/polling orchestrator.
///
/// It owns the single credential and the last-known device snapshot; the
/// surrounding binary drives it: it asks the orchestrator for the next
/// outbound request, performs the HTTP exchange, and hands the raw body
/// bytes back to one of the `apply_*` methods. Both cells are replaced
/// wholesale — never mutated field by field — so a reader always observes
/// a complete pre-change or post-change value.
pub struct EcobeeActor {
    pub client_id: String,
    pub username: String,
    pub password: String,
    pub auth_token: Option<Credential>,
    pub snapshot: Option<DeviceSnapshot>,
}

/// The state after an authentication or scheduled-refresh outcome: on
/// success the new credential atomically replaces the old one; any failure
/// leaves the whole state — the previous credential included — in force.
pub open spec fn refresh_step(
    pre: EcobeeActor,
    outcome: Result<Credential, BridgeError>,
) -> EcobeeActor {
    match outcome {
        Ok(c) => EcobeeActor { auth_token: Some(c), ..pre },
        Err(_) => pre,
    }
}

/// The state after a poll outcome: a successful poll's snapshot atomically
/// replaces the cache; any failure leaves the whole state untouched.
pub open spec fn poll_step(
    pre: EcobeeActor,
    outcome: Result<DeviceSnapshot, BridgeError>,
) -> EcobeeActor {
    match outcome {
        Ok(s) => EcobeeActor { snapshot: Some(s), ..pre },
        Err(_) => pre,
    }
}

/// A failed poll leaves the cache — and the rest of the state — exactly as
/// it was: stale-but-available over unavailable, with no partial
/// overwrite.
pub proof fn lemma_failed_poll_preserves_state(pre: EcobeeActor, e: BridgeError)
    ensures
        poll_step(pre, Err(e)) == pre,
{
}

/// A successful poll replaces the cache with exactly the snapshot the poll
/// produced — the normalization of the polled payload — and touches
/// nothing else, the credential included.
pub proof fn lemma_successful_poll_installs_snapshot(pre: EcobeeActor, s: DeviceSnapshot)
    ensures
        poll_step(pre, Ok(s)).snapshot == Some(s),
        poll_step(pre, Ok(s)).auth_token == pre.auth_token,
        poll_step(pre, Ok(s)).client_id == pre.client_id,
        poll_step(pre, Ok(s)).username == pre.username,
        poll_step(pre, Ok(s)).password == pre.password,
{
}

/// After any poll outcome the cache holds either the pre-poll snapshot or
/// the whole newly installed snapshot — never a mixture of fields of the
/// two.
pub proof fn lemma_snapshot_never_torn(
    pre: EcobeeActor,
    outcome: Result<DeviceSnapshot, BridgeError>,
)
    ensures
        poll_step(pre, outcome).snapshot == pre.snapshot || (outcome matches Ok(s) && poll_step(
            pre,
            outcome,
        ).snapshot == Some(s)),
{
}

/// A failed refresh leaves the previously held credential in force, so the
/// next poll still carries the same access token; the credential is never
/// cleared on a refresh failure.
pub proof fn lemma_failed_refresh_keeps_credential(pre: EcobeeActor, e: BridgeError)
    ensures
        refresh_step(pre, Err(e)) == pre,
        refresh_step(pre, Err(e)).auth_token == pre.auth_token,
{
}

/// The fixed selection document of the poll: it requests every optional
/// sub-object the vendor exposes, even though only the runtime and the
/// settings are consumed.
pub open spec fn selection_json() -> Seq<char> {
    "{\"selection\":{\"includeOemCfg\":\"true\",\"includeAlerts\":\"true\",\"includeVersion\":\"true\",\"includeLocation\":\"true\",\"selectionType\":\"registered\",\"includeEvents\":\"true\",\"includeHouseDetails\":\"true\",\"includeRuntime\":\"true\",\"includeNotificationSettings\":\"true\",\"includeProgram\":\"true\",\"includeWeather\":\"true\",\"includePrivacy\":\"true\",\"includeSecuritySettings\":\"true\",\"includeSettings\":\"true\",\"includeExtendedRuntime\":\"true\",\"includeSensors\":\"true\",\"includeTechnician\":\"true\"}}"@
}

impl EcobeeActor {
    /// The form payload of the initial authentication call.
    pub open spec fn auth_payload_view(self) -> Seq<(Seq<char>, Seq<char>)> {
        seq![
            ("client_id"@, self.client_id@),
            ("username"@, self.username@),
            ("password"@, self.password@),
            ("scope"@, "smartWrite"@),
            ("response_type"@, "ecobeeAuthz"@),
        ]
    }

    /// The query payload of a token-refresh call for a refresh token.
    pub open spec fn refresh_payload_view(self, refresh: Seq<char>) -> Seq<(Seq<char>, Seq<char>)> {
        seq![
            ("client_id"@, self.client_id@),
            ("refresh_token"@, refresh),
            ("grant_type"@, "refresh_token"@),
        ]
    }

    /// Creates the orchestrator from configuration. No credential and no
    /// snapshot are present until the initial authentication and the first
    /// successful poll complete.
    pub fn from_config(config: &Config) -> (r: Self)
        ensures
            r.client_id == config.client_id,
            r.username == config.username,
            r.password == config.password,
            r.auth_token is None,
            r.snapshot is None,
    {
        Self {
            client_id: config.client_id.clone(),
            username: config.username.clone(),
            password: config.password.clone(),
            auth_token: None,
            snapshot: None,
        }
    }

    /// Builds the initial authentication request: `POST /authorize` with
    /// the client identifier, the account credentials and the fixed scope
    /// and response type form-encoded in the body, under the fixed vendor
    /// headers and no bearer token. Building always succeeds.
    pub fn auth_request(&self) -> (r: Result<OutboundRequest, BridgeError>)
        ensures
            r matches Ok(q) && q.method is Post && q.url@ == plain_url("/authorize"@)
                && pairs_view(q.headers@) == default_headers(None) && q.body@ == form_encoded(
                self.auth_payload_view(),
            ),
    {
        let mut payload: Vec<(String, String)> = Vec::new();
        payload.push(("client_id".to_owned(), self.client_id.clone()));
        payload.push(("username".to_owned(), self.username.clone()));
        payload.push(("password".to_owned(), self.password.clone()));
        payload.push(("scope".to_owned(), "smartWrite".to_owned()));
        payload.push(("response_type".to_owned(), "ecobeeAuthz".to_owned()));
        proof {
            assert(pairs_view(payload@) =~= self.auth_payload_view());
        }
        let body = crate::wire::encode_form_pairs(&payload).unwrap();
        Ok(OutboundRequest {
            method: HttpMethod::Post,
            url: endpoint_url("/authorize"),
            headers: build_headers(None),
            body,
        })
    }

    /// Builds the scheduled token-refresh request: `POST /token` with the
    /// client identifier, the *current* credential's refresh token and the
    /// grant type as query parameters, an empty body and the fixed
    /// headers. Fails fast with `NotAuthenticated` before the first
    /// successful authentication; once a credential is held, building
    /// always succeeds.
    pub fn refresh_request(&self) -> (r: Result<OutboundRequest, BridgeError>)
        ensures
            self.auth_token is None ==> r matches Err(BridgeError::NotAuthenticated),
            self.auth_token matches Some(c) ==> (r matches Ok(q) && q.method is Post
                && q.url@ == url_with_query(
                "/token"@,
                form_encoded(self.refresh_payload_view(c.refresh_token@)),
            ) && pairs_view(q.headers@) == default_headers(None) && q.body@.len() == 0),
    {
        let token = match &self.auth_token {
            Some(t) => t,
            None => {
                return Err(BridgeError::NotAuthenticated);
            },
        };
        let mut payload: Vec<(String, String)> = Vec::new();
        payload.push(("client_id".to_owned(), self.client_id.clone()));
        payload.push(("refresh_token".to_owned(), token.refresh_token.clone()));
        payload.push(("grant_type".to_owned(), "refresh_token".to_owned()));
        proof {
            assert(pairs_view(payload@) =~= self.refresh_payload_view(
                token.refresh_token@,
            ));
        }
        let url = build_url("/token", &payload).unwrap();
        Ok(OutboundRequest {
            method: HttpMethod::Post,
            url,
            headers: build_headers(None),
            body: String::new(),
        })
    }

    /// Builds the authenticated device-state poll: `GET /1/thermostat`
    /// with the fixed selection document as the `json` query parameter and
    /// `Authorization: Bearer <access token>` taken from the current
    /// credential at build time. Fails fast with `NotAuthenticated` before
    /// the first successful authentication; once a credential is held,
    /// building always succeeds.
    pub fn poll_request(&self) -> (r: Result<OutboundRequest, BridgeError>)
        ensures
            self.auth_token is None ==> r matches Err(BridgeError::NotAuthenticated),
            self.auth_token matches Some(c) ==> (r matches Ok(q) && q.method is Get
                && q.url@ == url_with_query(
                "/1/thermostat"@,
                form_encoded(seq![("json"@, selection_json())]),
            ) && pairs_view(q.headers@) == default_headers(Some(c.access_token@))
                && q.body@.len() == 0),
    {
        let token = match &self.auth_token {
            Some(t) => t,
            None => {
                return Err(BridgeError::NotAuthenticated);
            },
        };
        let mut payload: Vec<(String, String)> = Vec::new();
        payload.push((
            "json".to_owned(),
            "{\"selection\":{\"includeOemCfg\":\"true\",\"includeAlerts\":\"true\",\"includeVersion\":\"true\",\"includeLocation\":\"true\",\"selectionType\":\"registered\",\"includeEvents\":\"true\",\"includeHouseDetails\":\"true\",\"includeRuntime\":\"true\",\"includeNotificationSettings\":\"true\",\"includeProgram\":\"true\",\"includeWeather\":\"true\",\"includePrivacy\":\"true\",\"includeSecuritySettings\":\"true\",\"includeSettings\":\"true\",\"includeExtendedRuntime\":\"true\",\"includeSensors\":\"true\",\"includeTechnician\":\"true\"}}".to_owned(),
        ));
        proof {
            assert(pairs_view(payload@) =~= seq![("json"@, selection_json())]);
        }
        let url = build_url("/1/thermostat", &payload).unwrap();
        Ok(OutboundRequest {
            method: HttpMethod::Get,
            url,
            headers: build_headers(Some(&token.access_token)),
            body: String::new(),
        })
    }

    /// Builds an authenticated mode-change command (consumer state code
    /// 0–3): `POST /1/thermostat` with the mode-change document as the
    /// body. Fails fast with `NotAuthenticated` before the first
    /// successful authentication.
    pub fn set_mode_request(&self, mode: u8) -> (r: Result<OutboundRequest, BridgeError>)
        requires
            mode <= 3,
        ensures
            self.auth_token is None ==> r matches Err(BridgeError::NotAuthenticated),
            self.auth_token matches Some(c) ==> (r matches Ok(q) && q.method is Post
                && q.url@ == plain_url("/1/thermostat"@) && pairs_view(q.headers@)
                == default_headers(Some(c.access_token@)) && q.body@ == set_mode_body(mode)),
    {
        let token = match &self.auth_token {
            Some(t) => t,
            None => {
                return Err(BridgeError::NotAuthenticated);
            },
        };
        Ok(OutboundRequest {
            method: HttpMethod::Post,
            url: endpoint_url("/1/thermostat"),
            headers: build_headers(Some(&token.access_token)),
            body: build_set_mode_body(mode),
        })
    }

    /// Builds an authenticated target-temperature command for a raw value
    /// in tenths of °F: `POST /1/thermostat` with the hold document as the
    /// body. Fails fast with `NotAuthenticated` before the first
    /// successful authentication.
    pub fn set_temperature_request(&self, raw_tenths_f: u32) -> (r: Result<
        OutboundRequest,
        BridgeError,
    >)
        ensures
            self.auth_token is None ==> r matches Err(BridgeError::NotAuthenticated),
            self.auth_token matches Some(c) ==> (r matches Ok(q) && q.method is Post
                && q.url@ == plain_url("/1/thermostat"@) && pairs_view(q.headers@)
                == default_headers(Some(c.access_token@)) && q.body@ == set_temperature_body(
                raw_tenths_f,
            )),
    {
        let token = match &self.auth_token {
            Some(t) => t,
            None => {
                return Err(BridgeError::NotAuthenticated);
            },
        };
        Ok(OutboundRequest {
            method: HttpMethod::Post,
            url: endpoint_url("/1/thermostat"),
            headers: build_headers(Some(&token.access_token)),
            body: build_set_temperature_body(raw_tenths_f),
        })
    }

    /// Installs a freshly obtained credential, leaving everything else —
    /// the cache included — untouched.
    pub fn set_auth_token(&mut self, token: Credential)
        ensures
            *final(self) == refresh_step(*old(self), Ok(token)),
    {
        self.auth_token = Some(token);
    }

    /// Applies the outcome of an authentication or refresh exchange: the
    /// new credential atomically replaces the old one on success; on
    /// failure the previous credential remains in force.
    pub fn apply_refresh_outcome(&mut self, outcome: Result<Credential, BridgeError>)
        ensures
            *final(self) == refresh_step(*old(self), outcome),
    {
        match outcome {
            Ok(c) => self.auth_token = Some(c),
            Err(_) => (),
        }
    }

    /// Applies the outcome of a poll: a successful poll's snapshot
    /// atomically replaces the cache; on failure the cache — and the
    /// credential — stay exactly as they were.
    pub fn apply_poll_outcome(&mut self, outcome: Result<DeviceSnapshot, BridgeError>)
        ensures
            *final(self) == poll_step(*old(self), outcome),
    {
        match outcome {
            Ok(s) => self.snapshot = Some(s),
            Err(_) => (),
        }
    }

    /// Runs one authentication or refresh tick against the fetched
    /// response body (or the transport failure of the exchange): on
    /// success the decoded credential atomically replaces the old one; on
    /// any failure the whole state, the previously held credential
    /// included, stays exactly as it was and the failure is returned for
    /// logging.
    pub fn apply_refresh_body(&mut self, fetched: Result<Vec<u8>, BridgeError>) -> (r: Result<
        (),
        BridgeError,
    >)
        ensures
            fetched matches Ok(b) ==> (token_fields_of(b@) matches Some(t) ==> (final(self).auth_token
                matches Some(c) && r is Ok && c.access_token@ == t.0
                && c.refresh_token@ == t.1 && final(self).snapshot == old(self).snapshot
                && final(self).client_id == old(self).client_id
                && final(self).username == old(self).username
                && final(self).password == old(self).password)),
            fetched matches Ok(b) ==> (token_fields_of(b@) is None ==> (r is Err && *final(self)
                == *old(self))),
            fetched matches Ok(b) ==> (envelope_of(b@) matches Some(e) ==> (token_fields_of(b@)
                is None ==> (r matches Err(BridgeError::Remote { code, description }) && code@
                == e.0 && description@ == e.1))),
            fetched matches Ok(b) ==> ((token_fields_of(b@) is None && envelope_of(b@) is None)
                ==> r matches Err(BridgeError::Transport)),
            fetched matches Err(e) ==> (r == Err::<(), BridgeError>(e)
                && *final(self) == *old(self)),
    {
        let outcome = match fetched {
            Ok(body) => decode_token_body(&body),
            Err(e) => Err(e),
        };
        match outcome {
            Ok(c) => {
                self.auth_token = Some(c);
                Ok(())
            },
            Err(e) => Err(e),
        }
    }

    /// Runs one poll tick against the fetched response body (or the
    /// transport failure of the exchange): on success the normalized
    /// snapshot of the first listed device atomically replaces the cache;
    /// on any failure — transport, vendor error envelope, empty device
    /// list — the cache stays exactly as it was and the failure is
    /// returned for logging.
    pub fn apply_poll_body(&mut self, fetched: Result<Vec<u8>, BridgeError>) -> (r: Result<
        DeviceSnapshot,
        BridgeError,
    >)
        ensures
            fetched matches Ok(b) ==> (polled_snapshot(b@) matches Some(s) ==> (r == Ok::<
                DeviceSnapshot,
                BridgeError,
            >(s) && *final(self) == poll_step(*old(self), Ok(s)))),
            fetched matches Ok(b) ==> (polled_snapshot(b@) is None ==> (r is Err && *final(self)
                == *old(self))),
            fetched matches Ok(b) ==> (thermostats_of(b@) matches Some(l) ==> (l.len() == 0
                ==> r matches Err(BridgeError::NoDevice))),
            fetched matches Ok(b) ==> (envelope_of(b@) matches Some(e) ==> (thermostats_of(b@)
                is None ==> (r matches Err(BridgeError::Remote { code, description }) && code@
                == e.0 && description@ == e.1))),
            fetched matches Ok(b) ==> ((thermostats_of(b@) is None && envelope_of(b@) is None)
                ==> r matches Err(BridgeError::Transport)),
            fetched matches Err(e) ==> (r == Err::<DeviceSnapshot, BridgeError>(e)
                && *final(self) == *old(self)),
    {
        let outcome = match fetched {
            Ok(body) => decode_poll_body(&body),
            Err(e) => Err(e),
        };
        match outcome {
            Ok(s) => {
                self.snapshot = Some(s);
                Ok(s)
            },
            Err(e) => Err(e),
        }
    }

    /// Returns the current cached snapshot; fails fast with the distinct
    /// `NoDevice` precondition while no successful poll has ever
    /// completed.
    pub fn get_status(&self) -> (r: Result<DeviceSnapshot, BridgeError>)
        ensures
            self.snapshot matches Some(s) ==> r == Ok::<DeviceSnapshot, BridgeError>(s),
            self.snapshot is None ==> r matches Err(BridgeError::NoDevice),
    {
        match &self.snapshot {
            Some(s) => Ok(*s),
            None => Err(BridgeError::NoDevice),
        }
    }

    /// Answers a status query synchronously from the cache. Before the
    /// first successful poll there is nothing to report and the query
    /// fails fast with the distinct `NoDevice` precondition; afterwards it
    /// returns the status of the cached snapshot unchanged.
    pub fn handle(&self, query: EcobeeQuery) -> (r: Result<EcobeeResponse, BridgeError>)
        ensures
            self.snapshot matches Some(s) ==> (r matches Ok(EcobeeResponse::Status(st))
                && st == status_of_snapshot(s)),
            self.snapshot is None ==> r matches Err(BridgeError::NoDevice),
    {
        match query {
            EcobeeQuery::Status => match &self.snapshot {
                Some(s) => Ok(
                    EcobeeResponse::Status(
                        EcobeeStatus::new(
                            mode_code(s.mode),
                            s.target_temperature_c36,
                            s.current_temperature_c36,
                            s.current_humidity_pct,
                            s.target_humidity_pct,
                        ),
                    ),
                ),
                None => Err(BridgeError::NoDevice),
            },
        }
    }
}

} // verus!
