//! Shipping of log events to a Seq server: how a collector is configured,
//! and how events are laid out in batches of bounded size.

use vstd::prelude::*;
use vstd::utf8::encode_utf8;

verus! {

/// Bytes above which the body of an event is replaced by a placeholder,
/// unless configured otherwise: 256 KiB.
pub const DEFAULT_EVENT_BODY_LIMIT_BYTES: usize = 262_144;

/// Bytes that a batch of several events does not exceed, unless configured
/// otherwise: 10 MiB.
pub const DEFAULT_BATCH_LIMIT_BYTES: usize = 10_485_760;

/// The server that events go to unless configured otherwise.
pub const LOCAL_SERVER_URL: &'static str = "http://localhost:5341/";

/// The path of the ingestion endpoint below the server's address.
pub open spec fn ingestion_path() -> Seq<char> {
    "api/events/raw/"@
}

/// The configuration of a collector in the making.
#[derive(Debug)]
pub struct SeqCollectorBuilder {
    api_key: Option<String>,
    event_body_limit_bytes: usize,
    batch_limit_bytes: usize,
    server_url: String,
}

/// A configuration as contracts speak of it.
pub struct SeqSettings {
    pub api_key: Option<Seq<char>>,
    pub event_body_limit_bytes: usize,
    pub batch_limit_bytes: usize,
    pub server_url: Seq<char>,
}

impl View for SeqCollectorBuilder {
    type V = SeqSettings;

    closed spec fn view(&self) -> SeqSettings {
        SeqSettings {
            api_key: match self.api_key {
                Some(key) => Some(key@),
                None => None,
            },
            event_body_limit_bytes: self.event_body_limit_bytes,
            batch_limit_bytes: self.batch_limit_bytes,
            server_url: self.server_url@,
        }
    }
}

impl SeqCollectorBuilder {
    pub fn new() -> (builder: Self)
        ensures
            builder@ == (SeqSettings {
                api_key: None,
                event_body_limit_bytes: DEFAULT_EVENT_BODY_LIMIT_BYTES,
                batch_limit_bytes: DEFAULT_BATCH_LIMIT_BYTES,
                server_url: LOCAL_SERVER_URL@,
            }),
    {
        SeqCollectorBuilder {
            api_key: None,
            event_body_limit_bytes: DEFAULT_EVENT_BODY_LIMIT_BYTES,
            batch_limit_bytes: DEFAULT_BATCH_LIMIT_BYTES,
            server_url: LOCAL_SERVER_URL.to_owned(),
        }
    }

    pub fn server_url(self, server_url: String) -> (builder: Self)
        ensures
            builder@ == (SeqSettings { server_url: server_url@, ..self@ }),
    {
        SeqCollectorBuilder { server_url, ..self }
    }

    pub fn api_key(self, api_key: String) -> (builder: Self)
        ensures
            builder@ == (SeqSettings { api_key: Some(api_key@), ..self@ }),
    {
        SeqCollectorBuilder { api_key: Some(api_key), ..self }
    }

    pub fn event_body_limit_bytes(self, event_body_limit_bytes: usize) -> (builder: Self)
        ensures
            builder@ == (SeqSettings { event_body_limit_bytes, ..self@ }),
    {
        SeqCollectorBuilder { event_body_limit_bytes, ..self }
    }

    pub fn batch_limit_bytes(self, batch_limit_bytes: usize) -> (builder: Self)
        ensures
            builder@ == (SeqSettings { batch_limit_bytes, ..self@ }),
    {
        SeqCollectorBuilder { batch_limit_bytes, ..self }
    }

    /// The collector of this configuration. Its endpoint is the ingestion
    /// path directly behind the server's address.
    pub fn build(self) -> (collector: SeqCollector)
        ensures
            collector@ == (SeqEndpoint {
                api_key: self@.api_key,
                event_body_limit_bytes: self@.event_body_limit_bytes,
                batch_limit_bytes: self@.batch_limit_bytes,
                endpoint: self@.server_url + ingestion_path(),
            }),
    {
        SeqCollector {
            api_key: self.api_key,
            event_body_limit_bytes: self.event_body_limit_bytes,
            batch_limit_bytes: self.batch_limit_bytes,
            endpoint: self.server_url.concat("api/events/raw/"),
        }
    }
}

/// A collector: where batches of events go, and how large they may be.
#[derive(Debug)]
pub struct SeqCollector {
    api_key: Option<String>,
    event_body_limit_bytes: usize,
    batch_limit_bytes: usize,
    endpoint: String,
}

/// A collector as contracts speak of it.
pub struct SeqEndpoint {
    pub api_key: Option<Seq<char>>,
    pub event_body_limit_bytes: usize,
    pub batch_limit_bytes: usize,
    pub endpoint: Seq<char>,
}

impl View for SeqCollector {
    type V = SeqEndpoint;

    closed spec fn view(&self) -> SeqEndpoint {
        SeqEndpoint {
            api_key: match self.api_key {
                Some(key) => Some(key@),
                None => None,
            },
            event_body_limit_bytes: self.event_body_limit_bytes,
            batch_limit_bytes: self.batch_limit_bytes,
            endpoint: self.endpoint@,
        }
    }
}

impl SeqCollector {
    /// A collector for the server at `server_url`, with no key and the
    /// default limits.
    pub fn new(server_url: String) -> (collector: SeqCollector)
        ensures
            collector@ == (SeqEndpoint {
                api_key: None,
                event_body_limit_bytes: DEFAULT_EVENT_BODY_LIMIT_BYTES,
                batch_limit_bytes: DEFAULT_BATCH_LIMIT_BYTES,
                endpoint: server_url@ + ingestion_path(),
            }),
    {
        Self::builder().server_url(server_url).build()
    }

    /// A collector for the local server, with no key and the default
    /// limits.
    pub fn new_local() -> (collector: SeqCollector)
        ensures
            collector@ == (SeqEndpoint {
                api_key: None,
                event_body_limit_bytes: DEFAULT_EVENT_BODY_LIMIT_BYTES,
                batch_limit_bytes: DEFAULT_BATCH_LIMIT_BYTES,
                endpoint: LOCAL_SERVER_URL@ + ingestion_path(),
            }),
    {
        Self::builder().build()
    }

    pub fn builder() -> (builder: SeqCollectorBuilder)
        ensures
            builder@ == (SeqSettings {
                api_key: None,
                event_body_limit_bytes: DEFAULT_EVENT_BODY_LIMIT_BYTES,
                batch_limit_bytes: DEFAULT_BATCH_LIMIT_BYTES,
                server_url: LOCAL_SERVER_URL@,
            }),
    {
        SeqCollectorBuilder::new()
    }

    /// The address that batches are posted to.
    pub fn endpoint(&self) -> (endpoint: &String)
        ensures
            endpoint@ == self@.endpoint,
    {
        &self.endpoint
    }

    /// The key that batches are posted with, if there is one.
    pub fn api_key(&self) -> (key: &Option<String>)
        ensures
            match *key {
                Some(text) => self@.api_key == Some(text@),
                None => self@.api_key is None,
            },
    {
        &self.api_key
    }
}

/// How grave a log event is.
#[derive(Clone, Copy, Debug, PartialEq, Eq, Structural)]
pub enum LogLevel {
    Error,
    Warn,
    Info,
    Debug,
    Trace,
}

/// One property of a log event: its name, and its value as JSON text.
#[derive(Debug)]
pub struct Property {
    pub name: String,
    pub value: String,
}

/// A log event: the time it was made at, as it is to be shown; its level;
/// the template of its message; and the properties that fill the template.
#[derive(Debug)]
pub struct LogEvent {
    pub timestamp: String,
    pub level: LogLevel,
    pub message_template: String,
    pub properties: Vec<Property>,
}

/// A log event as contracts speak of it.
pub struct LogEventView {
    pub timestamp: Seq<char>,
    pub level: LogLevel,
    pub message_template: Seq<char>,
    pub properties: Seq<(Seq<char>, Seq<char>)>,
}

impl View for LogEvent {
    type V = LogEventView;

    open spec fn view(&self) -> LogEventView {
        LogEventView {
            timestamp: self.timestamp@,
            level: self.level,
            message_template: self.message_template@,
            properties: Seq::new(
                self.properties@.len(),
                |i: int| (self.properties@[i].name@, self.properties@[i].value@),
            ),
        }
    }
}

/// The JSON string literal that `serde_json` writes for a text: the text
/// between double quotes, with what JSON does not take inside a string
/// escaped.
pub uninterp spec fn json_string(text: Seq<char>) -> Seq<char>;

/// `serde_json::to_string` on a string slice. Claimed: the result is the
/// JSON string literal of the text. A string slice is always serialised:
/// the writer is a vector in memory, and there is no map key to refuse.
#[verifier::external_body]
fn json_quote(text: &str) -> (literal: String)
    ensures
        literal@ == json_string(text@),
{
    serde_json::to_string(text).unwrap()
}

/// The name that Seq gives a level.
pub open spec fn seq_level(level: LogLevel) -> Seq<char> {
    match level {
        LogLevel::Error => "Error"@,
        LogLevel::Warn => "Warning"@,
        LogLevel::Info => "Information"@,
        LogLevel::Debug => "Debug"@,
        LogLevel::Trace => "Verbose"@,
    }
}

pub fn to_seq_level(level: LogLevel) -> (name: &'static str)
    ensures
        name@ == seq_level(level),
{
    match level {
        LogLevel::Error => "Error",
        LogLevel::Warn => "Warning",
        LogLevel::Info => "Information",
        LogLevel::Debug => "Debug",
        LogLevel::Trace => "Verbose",
    }
}

/// One member of the JSON object of the properties.
pub open spec fn member_text(property: (Seq<char>, Seq<char>)) -> Seq<char> {
    "\""@ + property.0 + "\":"@ + property.1
}

/// The members of the JSON object of the properties, with commas between
/// them.
pub open spec fn members_text(properties: Seq<(Seq<char>, Seq<char>)>) -> Seq<char>
    decreases properties.len(),
{
    if properties.len() == 0 {
        Seq::empty()
    } else if properties.len() == 1 {
        member_text(properties.last())
    } else {
        members_text(properties.drop_last()) + ","@ + member_text(properties.last())
    }
}

/// What stands before the properties in the body of an event.
pub open spec fn payload_head(event: LogEventView) -> Seq<char> {
    "{\"Timestamp\":\""@ + event.timestamp + "\",\"Level\":\""@ + seq_level(event.level)
        + "\",\"MessageTemplate\":"@ + json_string(event.message_template)
        + ",\"Properties\":{"@
}

/// The body of an event: a JSON object of its time, level, template and
/// properties.
pub open spec fn payload_text(event: LogEventView) -> Seq<char> {
    payload_head(event) + members_text(event.properties) + "}}"@
}

/// The number of characters of a template that its placeholder shows.
pub const INITIAL_CHARS: usize = 64;

/// The beginning of a template that its placeholder shows.
pub open spec fn initial_text(template: Seq<char>) -> Seq<char> {
    if template.len() > INITIAL_CHARS {
        template.take(INITIAL_CHARS as int)
    } else {
        template
    }
}

/// The body that stands for an event whose own body is too large: a JSON
/// object of its time and level that shows how its template begins.
pub open spec fn placeholder_text(event: LogEventView) -> Seq<char> {
    "{\"Timestamp\":\""@ + event.timestamp + "\",\"Level\":\""@ + seq_level(event.level)
        + "\",\"MessageTemplate\":\"(Event too large) {initial}...\",\"Properties\":{\"target\":\"emit::collectors::seq\",\"initial\":"@
        + json_string(initial_text(event.message_template)) + "}}"@
}

pub fn format_payload(event: &LogEvent) -> (body: String)
    ensures
        body@ == payload_text(event@),
{
    let mut body = "{\"Timestamp\":\"".to_owned();
    body.append(event.timestamp.as_str());
    body.append("\",\"Level\":\"");
    body.append(to_seq_level(event.level));
    body.append("\",\"MessageTemplate\":");
    body.append(json_quote(event.message_template.as_str()).as_str());
    body.append(",\"Properties\":{");
    let mut i: usize = 0;
    while i < event.properties.len()
        invariant
            i <= event.properties@.len(),
            body@ == payload_head(event@) + members_text(event@.properties.take(i as int)),
        decreases event.properties@.len() - i,
    {
        let ghost done = event@.properties.take(i as int);
        let ghost more = event@.properties.take(i + 1);
        assert(more.drop_last() == done);
        assert(more.last() == (event.properties@[i as int].name@, event.properties@[i as int].value@));
        if i > 0 {
            body.append(",");
        }
        body.append("\"");
        body.append(event.properties[i].name.as_str());
        body.append("\":");
        body.append(event.properties[i].value.as_str());
        i += 1;
        assert(body@ == payload_head(event@) + members_text(more));
    }
    assert(event@.properties.take(i as int) == event@.properties);
    body.append("}}");
    body
}

pub fn format_oversize_placeholder(event: &LogEvent) -> (body: String)
    ensures
        body@ == placeholder_text(event@),
{
    let template = event.message_template.as_str();
    let initial = if template.unicode_len() > INITIAL_CHARS {
        template.substring_char(0, INITIAL_CHARS).to_owned()
    } else {
        event.message_template.clone()
    };
    let mut body = "{\"Timestamp\":\"".to_owned();
    body.append(event.timestamp.as_str());
    body.append("\",\"Level\":\"");
    body.append(to_seq_level(event.level));
    body.append(
        "\",\"MessageTemplate\":\"(Event too large) {initial}...\",\"Properties\":{\"target\":\"emit::collectors::seq\",\"initial\":",
    );
    body.append(json_quote(initial.as_str()).as_str());
    body.append("}}");
    body
}

/// What opens a batch.
pub open spec fn batch_header() -> Seq<char> {
    "{\"Events\":["@
}

/// What closes a batch.
pub open spec fn batch_footer() -> Seq<char> {
    "]}"@
}

/// The length of a text in bytes of UTF-8, as `str::len` gives it.
pub open spec fn byte_len(text: Seq<char>) -> usize {
    encode_utf8(text).len() as usize
}

/// The body under which an event goes into a batch: its own, or its
/// placeholder where its own is above the limit, or none where the
/// placeholder is above the limit too.
pub open spec fn fitted_text(event: LogEventView, event_body_limit_bytes: usize) -> Option<Seq<char>> {
    if byte_len(payload_text(event)) <= event_body_limit_bytes {
        Some(payload_text(event))
    } else if byte_len(placeholder_text(event)) <= event_body_limit_bytes {
        Some(placeholder_text(event))
    } else {
        None
    }
}

/// Batches in the making.
pub struct Batching {
    /// The batches that are closed.
    pub closed: Seq<Seq<char>>,
    /// The batch that is open, without its footer.
    pub open: Seq<char>,
    /// Whether the open batch holds an event.
    pub filled: bool,
}

impl Batching {
    /// No event was taken yet.
    pub open spec fn start() -> Batching {
        Batching { closed: Seq::empty(), open: batch_header(), filled: false }
    }

    /// The body does not go into the open batch: the batch holds an event
    /// already, and with a comma, the body and the footer it would be above
    /// the limit.
    pub open spec fn overflows(self, body: Seq<char>, batch_limit_bytes: usize) -> bool {
        self.filled && byte_len(self.open) + 3 + byte_len(body) > batch_limit_bytes
    }

    /// One more body was taken: into the open batch where it goes there,
    /// into a new one where it does not.
    pub open spec fn take(self, body: Seq<char>, batch_limit_bytes: usize) -> Batching {
        if self.overflows(body, batch_limit_bytes) {
            Batching {
                closed: self.closed.push(self.open + batch_footer()),
                open: batch_header() + body,
                filled: true,
            }
        } else if self.filled {
            Batching { open: self.open + ","@ + body, ..self }
        } else {
            Batching { open: self.open + body, filled: true, ..self }
        }
    }

    /// Every batch, the open one closed.
    pub open spec fn finish(self) -> Seq<Seq<char>> {
        self.closed.push(self.open + batch_footer())
    }
}

/// The batches in the making after the events were taken in their order.
pub open spec fn batching(
    events: Seq<LogEventView>,
    event_body_limit_bytes: usize,
    batch_limit_bytes: usize,
) -> Batching
    decreases events.len(),
{
    if events.len() == 0 {
        Batching::start()
    } else {
        let before = batching(events.drop_last(), event_body_limit_bytes, batch_limit_bytes);
        match fitted_text(events.last(), event_body_limit_bytes) {
            Some(body) => before.take(body, batch_limit_bytes),
            None => before,
        }
    }
}

/// Each event as contracts speak of it.
pub open spec fn event_views(events: Seq<LogEvent>) -> Seq<LogEventView> {
    Seq::new(events.len(), |i: int| events[i]@)
}

/// The text of each batch.
pub open spec fn batch_texts(batches: Seq<String>) -> Seq<Seq<char>> {
    Seq::new(batches.len(), |i: int| batches[i]@)
}

impl SeqCollector {
    /// Lays the events out in the batches that are to be posted, in this
    /// order. An event goes into the open batch unless that would push a
    /// batch of several events above the limit; a batch of one event may be
    /// above it. There is always one batch at least, which may be empty.
    pub fn accept_events(&self, events: &Vec<LogEvent>) -> (batches: Vec<String>)
        ensures
            batch_texts(batches@) == batching(
                event_views(events@),
                self@.event_body_limit_bytes,
                self@.batch_limit_bytes,
            ).finish(),
    {
        let mut closed: Vec<String> = Vec::new();
        let mut next = "{\"Events\":[".to_owned();
        let mut filled = false;
        let mut i: usize = 0;
        assert(batch_texts(closed@) == Seq::<Seq<char>>::empty());
        while i < events.len()
            invariant
                i <= events@.len(),
                batching(
                    event_views(events@).take(i as int),
                    self.event_body_limit_bytes,
                    self.batch_limit_bytes,
                ) == (Batching { closed: batch_texts(closed@), open: next@, filled }),
            decreases events@.len() - i,
        {
            let ghost more = event_views(events@).take(i + 1);
            assert(more.drop_last() == event_views(events@).take(i as int));
            assert(more.last() == events@[i as int]@);
            let mut body = format_payload(&events[i]);
            let mut fits = body.as_str().len() <= self.event_body_limit_bytes;
            if !fits {
                body = format_oversize_placeholder(&events[i]);
                fits = body.as_str().len() <= self.event_body_limit_bytes;
            }
            if fits {
                if filled && next.as_str().len() as u128 + 3 + body.as_str().len() as u128
                    > self.batch_limit_bytes as u128 {
                    let ghost before = batch_texts(closed@);
                    next.append("]}");
                    closed.push(next);
                    assert(batch_texts(closed@) == before.push(next@));
                    next = "{\"Events\":[".to_owned();
                    next.append(body.as_str());
                } else {
                    if filled {
                        next.append(",");
                    }
                    next.append(body.as_str());
                }
                filled = true;
            }
            i += 1;
        }
        assert(event_views(events@).take(i as int) == event_views(events@));
        let ghost before = batch_texts(closed@);
        next.append("]}");
        closed.push(next);
        assert(batch_texts(closed@) == before.push(next@));
        closed
    }
}

} // verus!
