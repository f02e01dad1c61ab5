use vstd::prelude::*;
use vstd::string::*;
use crate::config::Config;

verus! {

#[verifier::external_type_specification]
#[verifier::external_body]
pub struct ExJsonValue(serde_json::Value);

#[verifier::external_type_specification]
#[verifier::external_body]
pub struct ExJsonError(serde_json::Error);

/// The JSON value that a text denotes, or `None` where the text is not JSON.
pub uninterp spec fn json_doc_of(text: Seq<char>) -> Option<serde_json::Value>;

/// The member `key` of an object; `null` where it is absent or `v` is no object.
pub uninterp spec fn json_member(v: serde_json::Value, key: Seq<char>) -> serde_json::Value;

/// The elements of a JSON array, `None` for every other kind of value.
pub uninterp spec fn json_items(v: serde_json::Value) -> Option<Seq<serde_json::Value>>;

/// The text of a JSON string, `None` for every other kind of value.
pub uninterp spec fn json_text(v: serde_json::Value) -> Option<Seq<char>>;

/// The JSON string literal that encodes a text, quotes and escapes included.
pub uninterp spec fn json_quoted(s: Seq<char>) -> Option<Seq<char>>;

/// Relies on `serde_json::from_str`, read into a `serde_json::Value`: parses a JSON text.
#[verifier::external_body]
fn parse_json(text: &str) -> (r: Result<serde_json::Value, serde_json::Error>)
    ensures
        match r {
            Ok(v) => json_doc_of(text@) == Some(v),
            Err(_) => json_doc_of(text@) is None,
        },
{
    serde_json::from_str(text)
}

/// Relies on indexing a `serde_json::Value` by a `&str` key, which never panics.
#[verifier::external_body]
fn member<'a>(v: &'a serde_json::Value, key: &str) -> (r: &'a serde_json::Value)
    ensures
        *r == json_member(*v, key@),
{
    &v[key]
}

/// Relies on `serde_json::Value::as_array`: the elements of an array.
#[verifier::external_body]
fn items<'a>(v: &'a serde_json::Value) -> (r: Option<&'a Vec<serde_json::Value>>)
    ensures
        r is Some <==> json_items(*v) is Some,
        r is Some ==> r->0@ == json_items(*v)->0,
{
    v.as_array()
}

/// Relies on `serde_json::Value::as_str`: the text of a string value.
#[verifier::external_body]
fn text_of(v: &serde_json::Value) -> (r: Option<String>)
    ensures
        r is Some <==> json_text(*v) is Some,
        r is Some ==> r->0@ == json_text(*v)->0,
{
    v.as_str().map(|s| s.to_string())
}

/// Relies on `serde_json::to_string` on a `str`: the JSON string literal of a text.
#[verifier::external_body]
fn quote(s: &str) -> (r: Option<String>)
    ensures
        r is Some <==> json_quoted(s@) is Some,
        r is Some ==> r->0@ == json_quoted(s@)->0,
{
    serde_json::to_string(s).ok()
}

/// Seconds that each request may take before it is given up.
pub const REQUEST_TIMEOUT_SECS: u64 = 10;

/// The prefix of every address of the provider's zone API.
pub open spec fn zones_endpoint() -> Seq<char> {
    "https://api.cloudflare.com/client/v4/zones/"@
}

/// Address that lists the zone's records of the configured name.
pub open spec fn record_list_url_of(zone_id: Seq<char>, dns_name: Seq<char>) -> Seq<char> {
    zones_endpoint() + zone_id + "/dns_records?name="@ + dns_name
}

/// Address of one record of the zone.
pub open spec fn record_url_of(zone_id: Seq<char>, record_id: Seq<char>) -> Seq<char> {
    zones_endpoint() + zone_id + "/dns_records/"@ + record_id
}

/// Value of the `Authorization` header that carries the credential.
pub open spec fn bearer_of(key: Seq<char>) -> Seq<char> {
    "Bearer "@ + key
}

/// JSON body of an update: an "A" record of `name` holding `address`, not proxied.
pub open spec fn update_body_of(name: Seq<char>, address: Seq<char>) -> Option<Seq<char>> {
    match (json_quoted(name), json_quoted(address)) {
        (Some(n), Some(a)) => Some(
            "{\"type\":\"A\",\"name\":"@ + n + ",\"content\":"@ + a
                + ",\"ttl\":120,\"proxied\":false}"@,
        ),
        _ => None,
    }
}

/// An HTTP status of the 2xx class.
pub open spec fn success_status(status: u16) -> bool {
    200 <= status < 300
}

/// The identifier of the first record of a listing document, where it has one.
pub open spec fn record_id_of(doc: serde_json::Value) -> Option<Seq<char>> {
    match json_items(json_member(doc, "result"@)) {
        Some(records) => if records.len() > 0 {
            json_text(json_member(records[0], "id"@))
        } else {
            None
        },
        None => None,
    }
}

pub fn record_list_url(config: &Config) -> (r: String)
    ensures
        r@ == record_list_url_of(config.zone_id@, config.dns_name@),
{
    String::from_str("https://api.cloudflare.com/client/v4/zones/").concat(
        config.zone_id.as_str(),
    ).concat("/dns_records?name=").concat(config.dns_name.as_str())
}

pub fn record_url(config: &Config, record_id: &str) -> (r: String)
    ensures
        r@ == record_url_of(config.zone_id@, record_id@),
{
    String::from_str("https://api.cloudflare.com/client/v4/zones/").concat(
        config.zone_id.as_str(),
    ).concat("/dns_records/").concat(record_id)
}

pub fn bearer(config: &Config) -> (r: String)
    ensures
        r@ == bearer_of(config.cloudflare_api_key@),
{
    String::from_str("Bearer ").concat(config.cloudflare_api_key.as_str())
}

/// The JSON body that sets the configured name's record to `address`.
pub fn update_body(config: &Config, address: &str) -> (r: Option<String>)
    ensures
        r is Some <==> update_body_of(config.dns_name@, address@) is Some,
        r is Some ==> r->0@ == update_body_of(config.dns_name@, address@)->0,
{
    let name = quote(config.dns_name.as_str())?;
    let content = quote(address)?;
    let body = String::from_str("{\"type\":\"A\",\"name\":").concat(name.as_str()).concat(
        ",\"content\":",
    ).concat(content.as_str()).concat(",\"ttl\":120,\"proxied\":false}");
    Some(body)
}

pub fn is_success(status: u16) -> (r: bool)
    ensures
        r == success_status(status),
{
    200 <= status && status < 300
}

/// Takes the identifier of the first record out of a parsed listing document.
pub fn record_id_from_document(doc: &serde_json::Value) -> (r: Option<String>)
    ensures
        r is Some <==> record_id_of(*doc) is Some,
        r is Some ==> r->0@ == record_id_of(*doc)->0,
{
    let records = items(member(doc, "result"))?;
    if records.len() > 0 {
        text_of(member(&records[0], "id"))
    } else {
        None
    }
}

/// Why the record to update could not be found.
#[derive(Debug)]
pub enum LookupError {
    /// The provider answered the listing with a status outside 2xx; its body is kept.
    Rejected(String),
    /// The listing's body is not JSON.
    NotJson,
    /// The listing holds no record, or its first record has no textual `id`.
    NotFound,
}

/// What the reply to a listing request says: the first record's identifier, or why
/// there is none.
pub open spec fn lookup_reply_ok(status: u16, body: Seq<char>, r: Result<String, LookupError>) -> bool {
    match r {
        Ok(id) => success_status(status) && (json_doc_of(body) matches Some(doc) && record_id_of(
            doc,
        ) == Some(id@)),
        Err(LookupError::Rejected(b)) => !success_status(status) && b@ == body,
        Err(LookupError::NotJson) => success_status(status) && json_doc_of(body) is None,
        Err(LookupError::NotFound) => success_status(status) && (json_doc_of(body) matches Some(
            doc,
        ) && record_id_of(doc) is None),
    }
}

/// The line that reports a failed lookup to the operator.
pub open spec fn lookup_error_text(e: LookupError) -> Seq<char> {
    match e {
        LookupError::Rejected(b) => "Failed to get DNS record ID: "@ + b@,
        LookupError::NotJson => "the record listing is not JSON"@,
        LookupError::NotFound => "Record ID not found"@,
    }
}

impl LookupError {
    pub fn describe(&self) -> (r: String)
        ensures
            r@ == lookup_error_text(*self),
    {
        match self {
            LookupError::Rejected(b) => String::from_str("Failed to get DNS record ID: ").concat(
                b.as_str(),
            ),
            LookupError::NotJson => String::from_str("the record listing is not JSON"),
            LookupError::NotFound => String::from_str("Record ID not found"),
        }
    }
}

/// Reads the provider's reply to the listing request: its status and body text.
pub fn record_id_from_reply(status: u16, body: &str) -> (r: Result<String, LookupError>)
    ensures
        lookup_reply_ok(status, body@, r),
{
    if !is_success(status) {
        return Err(LookupError::Rejected(String::from_str(body)));
    }
    match parse_json(body) {
        Ok(doc) => match record_id_from_document(&doc) {
            Some(id) => Ok(id),
            None => Err(LookupError::NotFound),
        },
        Err(_) => Err(LookupError::NotJson),
    }
}

/// How the provider took an update.
#[derive(Debug)]
pub enum UpdateOutcome {
    /// Accepted with a 2xx status.
    Applied,
    /// Refused with another status; the reply's body is kept.
    Refused(String),
}

/// The line for the operator after an update; `true` where it goes to the error stream.
pub open spec fn update_report_of(status: u16, body: Seq<char>) -> (Seq<char>, bool) {
    if success_status(status) {
        ("DNS record updated successfully."@, false)
    } else {
        ("Failed to update DNS record: "@ + body, true)
    }
}

/// Reads the provider's reply to the update request.
pub fn update_outcome(status: u16, body: &str) -> (r: UpdateOutcome)
    ensures
        match r {
            UpdateOutcome::Applied => success_status(status),
            UpdateOutcome::Refused(b) => !success_status(status) && b@ == body@,
        },
{
    if is_success(status) {
        UpdateOutcome::Applied
    } else {
        UpdateOutcome::Refused(String::from_str(body))
    }
}

impl UpdateOutcome {
    /// The line that reports the outcome, and whether it goes to the error stream.
    pub fn report(&self) -> (r: (String, bool))
        ensures
            match self {
                UpdateOutcome::Applied => r.0@ == "DNS record updated successfully."@ && !r.1,
                UpdateOutcome::Refused(b) => r.0@ == "Failed to update DNS record: "@ + b@ && r.1,
            },
    {
        match self {
            UpdateOutcome::Applied => (String::from_str("DNS record updated successfully."), false),
            UpdateOutcome::Refused(b) => (
                String::from_str("Failed to update DNS record: ").concat(b.as_str()),
                true,
            ),
        }
    }
}

} // verus!
