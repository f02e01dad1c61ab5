use vstd::prelude::*;
use vstd::string::*;
use crate::config::{config_error_text, config_of_text, parse_config, Config, ConfigError, ConfigView};
use crate::provider::{
    bearer, bearer_of, json_doc_of, record_id_from_reply, record_id_of, record_list_url,
    record_list_url_of, record_url, record_url_of, success_status, update_body, update_body_of,
    update_outcome, update_report_of, REQUEST_TIMEOUT_SECS,
};
use crate::text::{trim, trimmed};

verus! {

pub open spec fn opt_view(o: Option<String>) -> Option<Seq<char>> {
    match o {
        Some(s) => Some(s@),
        None => None,
    }
}

#[derive(Clone, Copy, Debug, PartialEq, Eq, Structural)]
pub enum Method {
    Get,
    Put,
}

/// An HTTP request for the caller to send.
#[derive(Debug)]
pub struct Request {
    pub method: Method,
    pub url: String,
    /// Value of the `Authorization` header, where one is sent.
    pub authorization: Option<String>,
    /// Whether the request is marked `Content-Type: application/json`.
    pub json: bool,
    pub body: Option<String>,
    pub timeout_secs: u64,
}

pub struct RequestView {
    pub method: Method,
    pub url: Seq<char>,
    pub authorization: Option<Seq<char>>,
    pub json: bool,
    pub body: Option<Seq<char>>,
    pub timeout_secs: u64,
}

impl View for Request {
    type V = RequestView;

    open spec fn view(&self) -> RequestView {
        RequestView {
            method: self.method,
            url: self.url@,
            authorization: opt_view(self.authorization),
            json: self.json,
            body: opt_view(self.body),
            timeout_secs: self.timeout_secs,
        }
    }
}

/// Where a run stands.
#[derive(Debug)]
pub enum Stage {
    /// Waiting for the settings file.
    Start,
    /// Settings read; waiting for the address service's reply.
    ConfigLoaded { config: Config },
    /// Address known; waiting for the record listing.
    AddressResolved { config: Config, address: String },
    /// Record known; waiting for the reply to the update.
    RecordFound { config: Config, address: String, record_id: String },
    /// The run is over.
    Finished { success: bool },
}

pub enum StageView {
    Start,
    ConfigLoaded { config: ConfigView },
    AddressResolved { config: ConfigView, address: Seq<char> },
    RecordFound { config: ConfigView, address: Seq<char>, record_id: Seq<char> },
    Finished { success: bool },
}

impl View for Stage {
    type V = StageView;

    open spec fn view(&self) -> StageView {
        match self {
            Stage::Start => StageView::Start,
            Stage::ConfigLoaded { config } => StageView::ConfigLoaded { config: config@ },
            Stage::AddressResolved { config, address } => StageView::AddressResolved {
                config: config@,
                address: address@,
            },
            Stage::RecordFound { config, address, record_id } => StageView::RecordFound {
                config: config@,
                address: address@,
                record_id: record_id@,
            },
            Stage::Finished { success } => StageView::Finished { success: *success },
        }
    }
}

/// What the caller observed while doing the last action.
#[derive(Debug)]
pub enum Event {
    /// The text of the settings file.
    SettingsRead(String),
    /// The settings file could not be read.
    SettingsUnreadable,
    /// The reply to the last request: its status and its body text.
    Reply { status: u16, body: String },
    /// The last request failed below HTTP (connection, timeout, unreadable body).
    TransportFailed(String),
}

pub enum EventView {
    SettingsRead(Seq<char>),
    SettingsUnreadable,
    Reply { status: u16, body: Seq<char> },
    TransportFailed(Seq<char>),
}

impl View for Event {
    type V = EventView;

    open spec fn view(&self) -> EventView {
        match self {
            Event::SettingsRead(t) => EventView::SettingsRead(t@),
            Event::SettingsUnreadable => EventView::SettingsUnreadable,
            Event::Reply { status, body } => EventView::Reply { status: *status, body: body@ },
            Event::TransportFailed(m) => EventView::TransportFailed(m@),
        }
    }
}

/// What the caller is to do next.
#[derive(Debug)]
pub enum Action {
    /// Print `notice` (where there is one) to the output stream, then send `request`.
    Send { request: Request, notice: Option<String> },
    /// Print `line` to the error stream or the output stream, then end the run.
    Exit { success: bool, line: String, to_error_stream: bool },
}

pub enum ActionView {
    Send { request: RequestView, notice: Option<Seq<char>> },
    Exit { success: bool, line: Seq<char>, to_error_stream: bool },
}

impl View for Action {
    type V = ActionView;

    open spec fn view(&self) -> ActionView {
        match self {
            Action::Send { request, notice } => ActionView::Send {
                request: request@,
                notice: opt_view(*notice),
            },
            Action::Exit { success, line, to_error_stream } => ActionView::Exit {
                success: *success,
                line: line@,
                to_error_stream: *to_error_stream,
            },
        }
    }
}

/// The request that asks the address service for the caller's public address.
pub open spec fn address_request_of(c: ConfigView) -> RequestView {
    RequestView {
        method: Method::Get,
        url: c.public_ip_service,
        authorization: None,
        json: false,
        body: None,
        timeout_secs: REQUEST_TIMEOUT_SECS,
    }
}

/// The request that lists the zone's records of the configured name.
pub open spec fn list_request_of(c: ConfigView) -> RequestView {
    RequestView {
        method: Method::Get,
        url: record_list_url_of(c.zone_id, c.dns_name),
        authorization: Some(bearer_of(c.cloudflare_api_key)),
        json: true,
        body: None,
        timeout_secs: REQUEST_TIMEOUT_SECS,
    }
}

/// The request that writes `body` into the record `record_id`.
pub open spec fn update_request_of(c: ConfigView, record_id: Seq<char>, body: Seq<char>) -> RequestView {
    RequestView {
        method: Method::Put,
        url: record_url_of(c.zone_id, record_id),
        authorization: Some(bearer_of(c.cloudflare_api_key)),
        json: true,
        body: Some(body),
        timeout_secs: REQUEST_TIMEOUT_SECS,
    }
}

/// The identifier that a listing reply gives, or the line that reports its failure.
pub open spec fn lookup_of(status: u16, body: Seq<char>) -> Result<Seq<char>, Seq<char>> {
    if !success_status(status) {
        Err("Failed to get DNS record ID: "@ + body)
    } else {
        match json_doc_of(body) {
            None => Err("the record listing is not JSON"@),
            Some(doc) => match record_id_of(doc) {
                Some(id) => Ok(id),
                None => Err("Record ID not found"@),
            },
        }
    }
}

pub open spec fn failure(line: Seq<char>) -> (StageView, ActionView) {
    (
        StageView::Finished { success: false },
        ActionView::Exit { success: false, line, to_error_stream: true },
    )
}

/// The stages that wait for something, and the events that each of them takes.
pub open spec fn accepts(s: StageView, e: EventView) -> bool {
    match s {
        StageView::Start => e is SettingsRead || e is SettingsUnreadable,
        StageView::Finished { .. } => false,
        _ => e is Reply || e is TransportFailed,
    }
}

/// One step of a run: the next stage, and what the caller is to do.
pub open spec fn next_of(s: StageView, e: EventView) -> (StageView, ActionView) {
    match s {
        StageView::Start => match e {
            EventView::SettingsRead(text) => match config_of_text(text) {
                Ok(c) => (
                    StageView::ConfigLoaded { config: c },
                    ActionView::Send { request: address_request_of(c), notice: None },
                ),
                Err(err) => failure(config_error_text(err)),
            },
            _ => failure(config_error_text(ConfigError::Unreadable)),
        },
        StageView::ConfigLoaded { config } => match e {
            EventView::Reply { body, .. } => (
                StageView::AddressResolved { config, address: trimmed(body) },
                ActionView::Send {
                    request: list_request_of(config),
                    notice: Some("Public IP: "@ + trimmed(body)),
                },
            ),
            EventView::TransportFailed(m) => failure("address lookup failed: "@ + m),
            _ => failure(Seq::empty()),
        },
        StageView::AddressResolved { config, address } => match e {
            EventView::Reply { status, body } => match lookup_of(status, body) {
                Ok(id) => match update_body_of(config.dns_name, address) {
                    Some(b) => (
                        StageView::RecordFound { config, address, record_id: id },
                        ActionView::Send { request: update_request_of(config, id, b), notice: None },
                    ),
                    None => failure("cannot encode the update body"@),
                },
                Err(line) => failure(line),
            },
            EventView::TransportFailed(m) => failure("record lookup failed: "@ + m),
            _ => failure(Seq::empty()),
        },
        StageView::RecordFound { .. } => match e {
            EventView::Reply { status, body } => (
                StageView::Finished { success: true },
                ActionView::Exit {
                    success: true,
                    line: update_report_of(status, body).0,
                    to_error_stream: update_report_of(status, body).1,
                },
            ),
            EventView::TransportFailed(m) => failure("record update failed: "@ + m),
            _ => failure(Seq::empty()),
        },
        StageView::Finished { .. } => failure(Seq::empty()),
    }
}

/// Whether `line` ends with `tail`.
pub open spec fn ends_with(line: Seq<char>, tail: Seq<char>) -> bool {
    line.len() >= tail.len() && line.subrange(line.len() - tail.len(), line.len() as int) == tail
}

/// What the reply to the update leads to: success, with the success line on the output
/// stream after a 2xx status, and else a line on the error stream that ends with the body.
pub open spec fn ends_in_success(step: (StageView, ActionView), status: u16, body: Seq<char>) -> bool {
    &&& step.0 == StageView::Finished { success: true }
    &&& step.1 matches ActionView::Exit { success, line, to_error_stream }
    &&& success
    &&& success_status(status) ==> line == "DNS record updated successfully."@ && !to_error_stream
    &&& !success_status(status) ==> to_error_stream && ends_with(line, body)
}

/// Once the record is found, the run ends in success whatever status the provider gives
/// the update: a 2xx status gets the success line on the output stream, any other status
/// a line on the error stream that ends with the reply's body.
pub proof fn lemma_update_reply_never_fails(
    config: ConfigView,
    address: Seq<char>,
    record_id: Seq<char>,
    status: u16,
    body: Seq<char>,
)
    ensures
        ends_in_success(
            next_of(
                StageView::RecordFound { config, address, record_id },
                EventView::Reply { status, body },
            ),
            status,
            body,
        ),
{
    let line = "Failed to update DNS record: "@ + body;
    assert(line.subrange(line.len() - body.len(), line.len() as int) =~= body);
}

/// The action that follows the record listing, in a run that read `text` as its settings
/// and then got the replies `address_reply` and `listing_reply`.
pub open spec fn update_action_of(
    text: Seq<char>,
    address_reply: (u16, Seq<char>),
    listing_reply: (u16, Seq<char>),
) -> ActionView {
    let loaded = next_of(StageView::Start, EventView::SettingsRead(text)).0;
    let resolved = next_of(
        loaded,
        EventView::Reply { status: address_reply.0, body: address_reply.1 },
    ).0;
    next_of(resolved, EventView::Reply { status: listing_reply.0, body: listing_reply.1 }).1
}

/// The update that a run with the settings `text` sends once it has the address body
/// and the listing reply, where the settings, the listing and the body all serve.
pub open spec fn planned_update_of(
    text: Seq<char>,
    address_body: Seq<char>,
    listing_reply: (u16, Seq<char>),
) -> Option<ActionView> {
    match config_of_text(text) {
        Ok(c) => match lookup_of(listing_reply.0, listing_reply.1) {
            Ok(id) => match update_body_of(c.dns_name, trimmed(address_body)) {
                Some(b) => Some(ActionView::Send { request: update_request_of(c, id, b), notice: None }),
                None => None,
            },
            Err(_) => None,
        },
        Err(_) => None,
    }
}

/// Two runs with the same settings, the same address after trimming and the same record
/// send the same update: the record is written every time, with no comparison against
/// what it holds.
pub proof fn lemma_update_repeats(
    text: Seq<char>,
    address_reply_1: (u16, Seq<char>),
    address_reply_2: (u16, Seq<char>),
    listing_reply_1: (u16, Seq<char>),
    listing_reply_2: (u16, Seq<char>),
)
    requires
        trimmed(address_reply_1.1) == trimmed(address_reply_2.1),
        lookup_of(listing_reply_1.0, listing_reply_1.1) is Ok,
        lookup_of(listing_reply_1.0, listing_reply_1.1) == lookup_of(
            listing_reply_2.0,
            listing_reply_2.1,
        ),
    ensures
        update_action_of(text, address_reply_1, listing_reply_1) == update_action_of(
            text,
            address_reply_2,
            listing_reply_2,
        ),
        (planned_update_of(text, address_reply_1.1, listing_reply_1) matches Some(a) ==> a
            == update_action_of(text, address_reply_1, listing_reply_1)),
{
}

fn fail(line: String) -> (r: (Stage, Action))
    ensures
        (r.0@, r.1@) == failure(line@),
{
    (Stage::Finished { success: false }, Action::Exit { success: false, line, to_error_stream: true })
}

pub fn address_request(config: &Config) -> (r: Request)
    ensures
        r@ == address_request_of(config@),
{
    Request {
        method: Method::Get,
        url: config.public_ip_service.clone(),
        authorization: None,
        json: false,
        body: None,
        timeout_secs: REQUEST_TIMEOUT_SECS,
    }
}

pub fn list_request(config: &Config) -> (r: Request)
    ensures
        r@ == list_request_of(config@),
{
    Request {
        method: Method::Get,
        url: record_list_url(config),
        authorization: Some(bearer(config)),
        json: true,
        body: None,
        timeout_secs: REQUEST_TIMEOUT_SECS,
    }
}

pub fn update_request(config: &Config, record_id: &str, body: String) -> (r: Request)
    ensures
        r@ == update_request_of(config@, record_id@, body@),
{
    Request {
        method: Method::Put,
        url: record_url(config, record_id),
        authorization: Some(bearer(config)),
        json: true,
        body: Some(body),
        timeout_secs: REQUEST_TIMEOUT_SECS,
    }
}

/// Whether `stage` waits for an event of the kind of `event`.
pub fn accepts_event(stage: &Stage, event: &Event) -> (r: bool)
    ensures
        r == accepts(stage@, event@),
{
    match stage {
        Stage::Start => match event {
            Event::SettingsRead(_) | Event::SettingsUnreadable => true,
            _ => false,
        },
        Stage::Finished { .. } => false,
        _ => match event {
            Event::Reply { .. } | Event::TransportFailed(_) => true,
            _ => false,
        },
    }
}

/// Advances a run by one event: the next stage, and what the caller is to do.
pub fn step(stage: Stage, event: Event) -> (r: (Stage, Action))
    requires
        accepts(stage@, event@),
    ensures
        (r.0@, r.1@) == next_of(stage@, event@),
{
    match stage {
        Stage::Start => match event {
            Event::SettingsRead(text) => match parse_config(text.as_str()) {
                Ok(config) => {
                    let request = address_request(&config);
                    (Stage::ConfigLoaded { config }, Action::Send { request, notice: None })
                },
                Err(e) => fail(e.describe()),
            },
            _ => fail(ConfigError::Unreadable.describe()),
        },
        Stage::ConfigLoaded { config } => match event {
            Event::Reply { body, .. } => {
                let address = trim(body.as_str());
                let notice = String::from_str("Public IP: ").concat(address.as_str());
                let request = list_request(&config);
                (
                    Stage::AddressResolved { config, address },
                    Action::Send { request, notice: Some(notice) },
                )
            },
            Event::TransportFailed(m) => fail(
                String::from_str("address lookup failed: ").concat(m.as_str()),
            ),
            _ => fail(String::new()),
        },
        Stage::AddressResolved { config, address } => match event {
            Event::Reply { status, body } => match record_id_from_reply(status, body.as_str()) {
                Ok(record_id) => match update_body(&config, address.as_str()) {
                    Some(b) => {
                        let request = update_request(&config, record_id.as_str(), b);
                        (
                            Stage::RecordFound { config, address, record_id },
                            Action::Send { request, notice: None },
                        )
                    },
                    None => fail(String::from_str("cannot encode the update body")),
                },
                Err(e) => fail(e.describe()),
            },
            Event::TransportFailed(m) => fail(
                String::from_str("record lookup failed: ").concat(m.as_str()),
            ),
            _ => fail(String::new()),
        },
        Stage::RecordFound { .. } => match event {
            Event::Reply { status, body } => {
                let (line, to_error_stream) = update_outcome(status, body.as_str()).report();
                (Stage::Finished { success: true }, Action::Exit { success: true, line, to_error_stream })
            },
            Event::TransportFailed(m) => fail(
                String::from_str("record update failed: ").concat(m.as_str()),
            ),
            _ => fail(String::new()),
        },
        Stage::Finished { .. } => fail(String::new()),
    }
}

} // verus!
