use vstd::prelude::*;
use vstd::string::StringExecFns;

use crate::errors::BridgeError;

verus! {

/// HTTP method of an outbound vendor request.
#[derive(Clone, Copy, PartialEq, Eq, Structural, Debug)]
pub enum HttpMethod {
    Get,
    Post,
}

/// A fully built outbound vendor request: everything the surrounding
/// binary needs to perform the HTTP exchange and nothing else.
pub struct OutboundRequest {
    pub method: HttpMethod,
    pub url: String,
    pub headers: Vec<(String, String)>,
    pub body: String,
}

/// What `serde_urlencoded::to_string` returns for a sequence of key/value
/// pairs: their application/x-www-form-urlencoded encoding.
pub uninterp spec fn form_encoded(pairs: Seq<(Seq<char>, Seq<char>)>) -> Seq<char>;

/// The model of a key/value pair list.
pub open spec fn pairs_view(pairs: Seq<(String, String)>) -> Seq<(Seq<char>, Seq<char>)> {
    pairs.map_values(|p: (String, String)| (p.0@, p.1@))
}

/// Relies on `serde_urlencoded::to_string`: form-encodes a pair sequence;
/// the encoding depends on the pairs alone, and on a vector of string
/// pairs the serializer has no failure path (each pair goes through its
/// string case, which always succeeds), so a result is always returned.
#[verifier::external_body]
pub(crate) fn encode_form_pairs(pairs: &Vec<(String, String)>) -> (r: Option<String>)
    ensures
        r is Some,
        r matches Some(s) ==> s@ == form_encoded(pairs_view(pairs@)),
{
    serde_urlencoded::to_string(pairs).ok()
}

/// The vendor API base URL.
pub open spec fn api_base() -> Seq<char> {
    "https://api.ecobee.com"@
}

/// The URL of an endpoint without a query string.
pub open spec fn plain_url(path: Seq<char>) -> Seq<char> {
    api_base() + path
}

/// The URL of an endpoint with a query string.
pub open spec fn url_with_query(path: Seq<char>, query: Seq<char>) -> Seq<char> {
    api_base() + path + "?"@ + query
}

/// Builds the URL of an endpoint without a query string.
pub fn endpoint_url(path: &str) -> (u: String)
    ensures
        u@ == plain_url(path@),
{
    let mut url: String = "https://api.ecobee.com".to_owned();
    url.append(path);
    url
}

/// Builds the full URL for an endpoint: the vendor base, the path and the
/// form-encoded payload as the query string; no query part for an empty
/// payload. The URL is assembled from fixed parts and an encoding that
/// always succeeds, so the result is always owed.
pub fn build_url(path: &str, payload: &Vec<(String, String)>) -> (r: Result<String, BridgeError>)
    ensures
        r matches Ok(u) && (payload@.len() == 0 ==> u@ == plain_url(path@)) && (payload@.len() > 0
            ==> u@ == url_with_query(path@, form_encoded(pairs_view(payload@)))),
{
    let mut url = endpoint_url(path);
    if payload.len() == 0 {
        return Ok(url);
    }
    let query = encode_form_pairs(payload).unwrap();
    url.append("?");
    url.append(query.as_str());
    Ok(url)
}

/// The fixed vendor-required user-agent value.
pub open spec fn user_agent() -> Seq<char> {
    "Home Comfort/1.3.0 (iPhone; iOS 11.4; Scale/2.00)"@
}

/// The fixed application-identifier value.
pub open spec fn app_id() -> Seq<char> {
    "ecobee-ios"@
}

/// The `Authorization` value carrying a bearer token.
pub open spec fn bearer_value(token: Seq<char>) -> Seq<char> {
    "Bearer "@ + token
}

/// The headers every outbound request carries — the vendor-mandated
/// user-agent and application identifier — plus the bearer authorization
/// when a token is given.
pub open spec fn default_headers(token: Option<Seq<char>>) -> Seq<(Seq<char>, Seq<char>)> {
    let base = seq![("User-Agent"@, user_agent()), ("X-ECOBEE-APP"@, app_id())];
    match token {
        Some(t) => base.push(("Authorization"@, bearer_value(t))),
        None => base,
    }
}

/// Builds the fixed headers, adding `Authorization: Bearer <token>` when a
/// token is given. The token is read at build time, never cached earlier.
pub fn build_headers(token: Option<&String>) -> (r: Vec<(String, String)>)
    ensures
        token matches Some(t) ==> pairs_view(r@) == default_headers(Some(t@)),
        token is None ==> pairs_view(r@) == default_headers(None),
{
    let mut headers: Vec<(String, String)> = Vec::new();
    headers.push((
        "User-Agent".to_owned(),
        "Home Comfort/1.3.0 (iPhone; iOS 11.4; Scale/2.00)".to_owned(),
    ));
    headers.push(("X-ECOBEE-APP".to_owned(), "ecobee-ios".to_owned()));
    match token {
        Some(t) => {
            let mut value: String = "Bearer ".to_owned();
            value.append(t.as_str());
            headers.push(("Authorization".to_owned(), value));
            proof {
                assert(pairs_view(headers@) =~= default_headers(Some(t@)));
            }
        },
        None => {
            proof {
                assert(pairs_view(headers@) =~= default_headers(None));
            }
        },
    }
    headers
}

/// The decimal digit character of a value below ten.
pub open spec fn dec_digit(d: nat) -> char {
    if d == 0 {
        '0'
    } else if d == 1 {
        '1'
    } else if d == 2 {
        '2'
    } else if d == 3 {
        '3'
    } else if d == 4 {
        '4'
    } else if d == 5 {
        '5'
    } else if d == 6 {
        '6'
    } else if d == 7 {
        '7'
    } else if d == 8 {
        '8'
    } else {
        '9'
    }
}

/// The decimal digit string of a natural number, most significant digit
/// first.
pub open spec fn dec_str(n: nat) -> Seq<char>
    decreases n,
{
    if n < 10 {
        seq![dec_digit(n)]
    } else {
        dec_str(n / 10).push(dec_digit(n % 10))
    }
}

/// The one-character string of a decimal digit.
fn digit_string(d: u32) -> (r: String)
    requires
        d < 10,
    ensures
        r@ == seq![dec_digit(d as nat)],
{
    let r: String = if d == 0 {
        "0".to_owned()
    } else if d == 1 {
        "1".to_owned()
    } else if d == 2 {
        "2".to_owned()
    } else if d == 3 {
        "3".to_owned()
    } else if d == 4 {
        "4".to_owned()
    } else if d == 5 {
        "5".to_owned()
    } else if d == 6 {
        "6".to_owned()
    } else if d == 7 {
        "7".to_owned()
    } else if d == 8 {
        "8".to_owned()
    } else {
        "9".to_owned()
    };
    proof {
        reveal_strlit("0");
        reveal_strlit("1");
        reveal_strlit("2");
        reveal_strlit("3");
        reveal_strlit("4");
        reveal_strlit("5");
        reveal_strlit("6");
        reveal_strlit("7");
        reveal_strlit("8");
        reveal_strlit("9");
        assert(r@ =~= seq![dec_digit(d as nat)]);
    }
    r
}

/// Writes a number as its decimal digit string.
pub fn u32_dec_string(n: u32) -> (r: String)
    ensures
        r@ == dec_str(n as nat),
    decreases n,
{
    if n < 10 {
        digit_string(n)
    } else {
        let mut prefix = u32_dec_string(n / 10);
        let last = digit_string(n % 10);
        prefix.append(last.as_str());
        proof {
            assert(prefix@ =~= dec_str(n as nat));
        }
        prefix
    }
}

/// The vendor mode string of a consumer state code: the inverse of the
/// mode table, with 0 (and only 0) as `"off"`.
pub open spec fn mode_word(code: u8) -> Seq<char> {
    if code == 3 {
        "auto"@
    } else if code == 2 {
        "cool"@
    } else if code == 1 {
        "heat"@
    } else {
        "off"@
    }
}

/// Writes the vendor mode string of a consumer state code.
pub fn mode_word_string(code: u8) -> (r: String)
    ensures
        r@ == mode_word(code),
{
    if code == 3 {
        "auto".to_owned()
    } else if code == 2 {
        "cool".to_owned()
    } else if code == 1 {
        "heat".to_owned()
    } else {
        "off".to_owned()
    }
}

/// The JSON document of a mode-change command.
pub open spec fn set_mode_body(code: u8) -> Seq<char> {
    "{\"selection\":{\"selectionType\":\"registered\"},\"thermostat\":{\"settings\":{\"hvacMode\":\""@
        + mode_word(code) + "\"}}}"@
}

/// Writes the JSON document of a mode-change command.
pub fn build_set_mode_body(code: u8) -> (r: String)
    ensures
        r@ == set_mode_body(code),
{
    let mut body: String =
        "{\"selection\":{\"selectionType\":\"registered\"},\"thermostat\":{\"settings\":{\"hvacMode\":\"".to_owned();
    let word = mode_word_string(code);
    body.append(word.as_str());
    body.append("\"}}}");
    body
}

/// The JSON document of a target-temperature hold command: the heat and
/// the cool set point both at the given raw value (tenths of °F).
pub open spec fn set_temperature_body(raw: u32) -> Seq<char> {
    "{\"selection\":{\"selectionType\":\"registered\"},\"functions\":[{\"type\":\"setHold\",\"params\":{\"holdType\":\"nextTransition\",\"heatHoldTemp\":"@
        + dec_str(raw as nat) + ",\"coolHoldTemp\":"@ + dec_str(raw as nat) + "}}]}"@
}

/// Writes the JSON document of a target-temperature hold command.
pub fn build_set_temperature_body(raw: u32) -> (r: String)
    ensures
        r@ == set_temperature_body(raw),
{
    let mut body: String =
        "{\"selection\":{\"selectionType\":\"registered\"},\"functions\":[{\"type\":\"setHold\",\"params\":{\"holdType\":\"nextTransition\",\"heatHoldTemp\":".to_owned();
    let digits = u32_dec_string(raw);
    body.append(digits.as_str());
    body.append(",\"coolHoldTemp\":");
    body.append(digits.as_str());
    body.append("}}]}");
    body
}

} // verus!
