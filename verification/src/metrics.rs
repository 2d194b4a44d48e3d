//! The request counter and its rendering in the text exposition format.
//!
//! The registry is one owned value, made at startup and handed to whoever
//! serves requests. The text is written by the `prometheus` crate; before it
//! is sent, the registry looks in it for the lines that describe its
//! counter.

use vstd::prelude::*;
use vstd::utf8::encode_utf8;
use crate::decimal::{format_u64, written};
use crate::response::{plain, Response, ResponseView, INTERNAL_SERVER_ERROR, OK};

verus! {

/// The count after one more request: one higher, and held at the largest
/// value of 64 bits once it is reached.
pub open spec fn next_count(count: u64) -> u64 {
    if count < u64::MAX {
        (count + 1) as u64
    } else {
        count
    }
}

/// The count after `requests` more requests, one after the other.
pub open spec fn count_after(count: u64, requests: nat) -> u64
    decreases requests,
{
    if requests == 0 {
        count
    } else {
        next_count(count_after(count, (requests - 1) as nat))
    }
}

/// After `requests` requests the counter stands at its earlier value plus
/// `requests`, as long as that fits in 64 bits, and at the largest value of
/// 64 bits otherwise. The order in which the requests arrived plays no part.
pub proof fn lemma_count_after(count: u64, requests: nat)
    ensures
        count + requests <= u64::MAX ==> count_after(count, requests) == count + requests,
        count + requests > u64::MAX ==> count_after(count, requests) == u64::MAX,
    decreases requests,
{
    if requests > 0 {
        lemma_count_after(count, (requests - 1) as nat);
    }
}

/// The counter never goes down: a later observation is at least as large
/// as an earlier one.
pub proof fn lemma_count_is_monotonic(count: u64, earlier: nat, later: nat)
    requires
        earlier <= later,
    ensures
        count <= count_after(count, earlier) <= count_after(count, later),
{
    lemma_count_after(count, earlier);
    lemma_count_after(count, later);
}

/// The text starts a line at position `i`.
pub open spec fn line_starts_at(text: Seq<u8>, i: int) -> bool {
    i == 0 || (0 < i <= text.len() && text[i - 1] == 10)
}

/// `line` stands in `text` at position `i`, from the start of a line on.
pub open spec fn line_at(text: Seq<u8>, line: Seq<u8>, i: int) -> bool {
    &&& 0 <= i
    &&& i + line.len() <= text.len()
    &&& line_starts_at(text, i)
    &&& text.subrange(i, i + line.len()) == line
}

/// `line` stands somewhere in `text`, from the start of a line on.
pub open spec fn has_line(text: Seq<u8>, line: Seq<u8>) -> bool {
    exists|i: int| line_at(text, line, i)
}

/// The line that gives the help text of a metric: `# HELP`, the name and
/// the help text, with a blank between each two, and a line feed.
pub open spec fn help_line(name: Seq<char>, help: Seq<char>) -> Seq<u8> {
    encode_utf8("# HELP "@) + encode_utf8(name) + seq![32u8] + encode_utf8(help) + seq![10u8]
}

/// The line that declares a metric a counter: `# TYPE`, the name and the
/// word `counter`, with a blank between each two, and a line feed.
pub open spec fn type_line(name: Seq<char>) -> Seq<u8> {
    encode_utf8("# TYPE "@) + encode_utf8(name) + encode_utf8(" counter"@) + seq![10u8]
}

/// The sample line of a counter without labels: its name, a blank, its
/// value in decimal, and a line feed.
pub open spec fn sample_line(name: Seq<char>, value: u64) -> Seq<u8> {
    encode_utf8(name) + seq![32u8] + written(value as nat) + seq![10u8]
}

fn matches_at(text: &[u8], line: &[u8], i: usize) -> (same: bool)
    requires
        i + line@.len() <= text@.len(),
    ensures
        same == (text@.subrange(i as int, i + line@.len()) == line@),
{
    let n: usize = text.len();
    let mut k: usize = 0;
    while k < line.len()
        invariant
            n == text@.len(),
            i + line@.len() <= text@.len(),
            0 <= k <= line@.len(),
            forall|j: int| 0 <= j < k ==> text@[i + j] == line@[j],
        decreases line@.len() - k,
    {
        if text[i + k] != line[k] {
            assert(text@.subrange(i as int, i + line@.len())[k as int] != line@[k as int]);
            return false;
        }
        k = k + 1;
    }
    assert(text@.subrange(i as int, i + line@.len()) =~= line@);
    true
}

/// Whether `line` stands in `text` from the start of a line on.
pub fn contains_line(text: &[u8], line: &[u8]) -> (found: bool)
    ensures
        found == has_line(text@, line@),
{
    if line.len() > text.len() {
        assert forall|i: int| !line_at(text@, line@, i) by {}
        return false;
    }
    if line.len() == 0 {
        assert(text@.subrange(0, 0) =~= line@);
        assert(line_at(text@, line@, 0));
        return true;
    }
    let last: usize = text.len() - line.len();
    let mut i: usize = 0;
    while i <= last
        invariant
            last == text@.len() - line@.len(),
            last < usize::MAX,
            0 <= i <= last + 1,
            forall|j: int| 0 <= j < i ==> !line_at(text@, line@, j),
        decreases last + 1 - i,
    {
        if (i == 0 || text[i - 1] == 10) && matches_at(text, line, i) {
            assert(line_at(text@, line@, i as int));
            return true;
        }
        i = i + 1;
    }
    assert forall|j: int| !line_at(text@, line@, j) by {}
    false
}

/// Why the metrics could not be rendered.
#[derive(Debug, Clone, Copy, PartialEq, Eq, Structural)]
pub enum MetricsError {
    /// The encoder refused the counter.
    Rejected,
    /// The encoder's text does not describe the counter.
    Malformed,
}

impl MetricsError {
    /// The characters of [`MetricsError::message`].
    pub open spec fn message_text(self) -> Seq<char> {
        match self {
            MetricsError::Rejected => "the encoder refused the request counter"@,
            MetricsError::Malformed => "the exposition lacks the request counter"@,
        }
    }

    /// A sentence that says what went wrong.
    pub fn message(&self) -> (text: String)
        ensures
            text@ == self.message_text(),
    {
        match self {
            MetricsError::Rejected => "the encoder refused the request counter".to_owned(),
            MetricsError::Malformed => "the exposition lacks the request counter".to_owned(),
        }
    }
}

/// The text describes the counter: it holds the counter's help line, its
/// type line and its sample line, each from the start of a line on.
pub open spec fn describes_counter(
    text: Seq<u8>,
    name: Seq<char>,
    help: Seq<char>,
    value: u64,
) -> bool {
    &&& has_line(text, help_line(name, help))
    &&& has_line(text, type_line(name))
    &&& has_line(text, sample_line(name, value))
}

/// What becomes of an encoder's output: it is handed on when it describes
/// the counter, and turned down otherwise.
pub open spec fn checked(
    encoded: Option<Seq<u8>>,
    name: Seq<char>,
    help: Seq<char>,
    value: u64,
) -> Result<Seq<u8>, MetricsError> {
    match encoded {
        None => Err(MetricsError::Rejected),
        Some(text) => if describes_counter(text, name, help, value) {
            Ok(text)
        } else {
            Err(MetricsError::Malformed)
        },
    }
}

/// The bytes of a rendering, or the error that it ended with.
pub open spec fn bytes_of(rendered: Result<Vec<u8>, MetricsError>) -> Result<
    Seq<u8>,
    MetricsError,
> {
    match rendered {
        Ok(text) => Ok(text@),
        Err(e) => Err(e),
    }
}

fn push_text(line: &mut Vec<u8>, text: &str)
    ensures
        final(line)@ == old(line)@ + encode_utf8(text@),
{
    let mut bytes: Vec<u8> = text.as_bytes_vec();
    line.append(&mut bytes);
}

fn describes(text: &[u8], name: &str, help: &str, value: u64) -> (yes: bool)
    ensures
        yes == describes_counter(text@, name@, help@, value),
{
    let mut line: Vec<u8> = Vec::new();
    push_text(&mut line, "# HELP ");
    push_text(&mut line, name);
    line.push(32);
    push_text(&mut line, help);
    line.push(10);
    assert(line@ =~= help_line(name@, help@));
    if !contains_line(text, line.as_slice()) {
        return false;
    }
    let mut line: Vec<u8> = Vec::new();
    push_text(&mut line, "# TYPE ");
    push_text(&mut line, name);
    push_text(&mut line, " counter");
    line.push(10);
    assert(line@ =~= type_line(name@));
    if !contains_line(text, line.as_slice()) {
        return false;
    }
    let mut line: Vec<u8> = Vec::new();
    push_text(&mut line, name);
    line.push(32);
    let mut digits: Vec<u8> = format_u64(value);
    line.append(&mut digits);
    line.push(10);
    assert(line@ =~= sample_line(name@, value));
    contains_line(text, line.as_slice())
}

/// Checks what an encoder gave for the counter with the given name, help
/// text and value. `encoded` is the encoder's text, or nothing where it
/// refused the counter.
pub fn checked_exposition(encoded: Option<Vec<u8>>, name: &str, help: &str, value: u64) -> (rendered:
    Result<Vec<u8>, MetricsError>)
    ensures
        bytes_of(rendered) == checked(
            match encoded {
                Some(text) => Some(text@),
                None => None,
            },
            name@,
            help@,
            value,
        ),
{
    match encoded {
        None => Err(MetricsError::Rejected),
        Some(text) => {
            if describes(text.as_slice(), name, help, value) {
                Ok(text)
            } else {
                Err(MetricsError::Malformed)
            }
        },
    }
}

/// The name under which the request counter is exposed.
pub open spec fn counter_name() -> Seq<char> {
    "http_requests_total"@
}

/// The help text of the request counter.
pub open spec fn counter_help() -> Seq<char> {
    "Total number of HTTP requests received"@
}

/// The content type of the text exposition format.
pub open spec fn exposition_format() -> Seq<char> {
    "text/plain; version=0.0.4"@
}

/// The error type of the `prometheus` crate. Nothing is said of what is in
/// it: it is only told apart from success.
#[verifier::external_type_specification]
#[verifier::external_body]
pub struct ExPrometheusError(prometheus::Error);

/// The text that the `prometheus` crate writes for one counter without
/// labels that has the given name, help text and value, or nothing where
/// the crate refuses such a counter.
pub uninterp spec fn counter_exposition(name: Seq<char>, help: Seq<char>, value: u64) -> Option<
    Seq<u8>,
>;

/// Makes a fresh `prometheus::IntCounter` with `name` and `help`, raises it
/// from zero to `value` with `inc_by`, collects it, and has
/// `prometheus::TextEncoder` encode the one metric family into a byte
/// vector. The crate refuses an empty help text and a name that is no
/// metric name. Nothing but the three arguments goes into the text, so the
/// same arguments give the same outcome; what the text looks like is not
/// stated here.
#[verifier::external_body]
fn encode_counter(name: &str, help: &str, value: u64) -> (encoded: Result<
    Vec<u8>,
    prometheus::Error,
>)
    ensures
        encoded is Ok <==> counter_exposition(name@, help@, value) is Some,
        encoded matches Ok(text) ==> text@ == counter_exposition(name@, help@, value)->0,
{
    let counter = prometheus::IntCounter::new(name, help)?;
    counter.inc_by(value);
    let families = prometheus::core::Collector::collect(&counter);
    let mut text: Vec<u8> = Vec::new();
    prometheus::Encoder::encode(&prometheus::TextEncoder::new(), &families, &mut text)?;
    Ok(text)
}

/// Asks `prometheus::TextEncoder` for its `format_type`, which is the
/// crate's constant `TEXT_FORMAT`.
#[verifier::external_body]
fn encoder_format() -> (format: String)
    ensures
        format@ == exposition_format(),
{
    String::from(prometheus::Encoder::format_type(&prometheus::TextEncoder::new()))
}

/// The answer to a scrape: the text with the exposition content type, or
/// status 500 with the error's message where there is no text.
pub open spec fn scrape_response(rendered: Result<Seq<u8>, MetricsError>) -> ResponseView {
    match rendered {
        Ok(text) => ResponseView {
            status: 200,
            content_type: Some(exposition_format()),
            body: text,
        },
        Err(e) => plain(500, e.message_text()),
    }
}

/// Answers a scrape with what was rendered.
pub fn respond(rendered: Result<Vec<u8>, MetricsError>) -> (response: Response)
    ensures
        response@ == scrape_response(bytes_of(rendered)),
{
    match rendered {
        Ok(text) => Response { status: OK, content_type: Some(encoder_format()), body: text },
        Err(e) => {
            let message = e.message();
            Response::plain(INTERNAL_SERVER_ERROR, message.as_str())
        },
    }
}

/// The metrics of the process: the number of requests that reached the
/// main listener. It starts at zero and only goes up.
#[derive(Debug)]
pub struct MetricsRegistry {
    http_requests: u64,
}

impl MetricsRegistry {
    /// The number of requests recorded so far.
    pub closed spec fn count(&self) -> u64 {
        self.http_requests
    }

    /// What [`MetricsRegistry::render`] gives for a registry that has
    /// recorded `count` requests.
    pub open spec fn rendered(count: u64) -> Result<Seq<u8>, MetricsError> {
        checked(
            counter_exposition(counter_name(), counter_help(), count),
            counter_name(),
            counter_help(),
            count,
        )
    }

    /// A registry that has seen no request yet.
    pub fn new() -> (registry: MetricsRegistry)
        ensures
            registry.count() == 0,
    {
        MetricsRegistry { http_requests: 0 }
    }

    /// Counts one request.
    pub fn record_request(&mut self)
        ensures
            final(self).count() == next_count(old(self).count()),
    {
        if self.http_requests < u64::MAX {
            self.http_requests = self.http_requests + 1;
        }
    }

    /// The number of requests recorded so far.
    pub fn http_requests_total(&self) -> (total: u64)
        ensures
            total == self.count(),
    {
        self.http_requests
    }

    /// Renders the registry in the text exposition format. The text is the
    /// encoder's; it is returned only if it holds the help line, the type
    /// line and the sample line of the request counter, the last with the
    /// value that the counter had when rendering began.
    pub fn render(&self) -> (text: Result<Vec<u8>, MetricsError>)
        ensures
            bytes_of(text) == Self::rendered(self.count()),
            text matches Ok(t) ==> describes_counter(
                t@,
                counter_name(),
                counter_help(),
                self.count(),
            ),
    {
        let encoded = match encode_counter(
            "http_requests_total",
            "Total number of HTTP requests received",
            self.http_requests,
        ) {
            Ok(text) => Some(text),
            Err(_) => None,
        };
        checked_exposition(
            encoded,
            "http_requests_total",
            "Total number of HTTP requests received",
            self.http_requests,
        )
    }
}

/// Answers a scrape of the metrics.
pub fn metrics_endpoint(registry: &MetricsRegistry) -> (response: Response)
    ensures
        response@ == scrape_response(MetricsRegistry::rendered(registry.count())),
{
    respond(registry.render())
}

/// A scrape that is answered with status 200 describes the request
/// counter: its body holds the help line and the type line of
/// `http_requests_total`, and the line `http_requests_total`, a blank and
/// the number of requests that had been recorded when the scrape began.
pub proof fn lemma_scrape_holds_count(count: u64)
    requires
        scrape_response(MetricsRegistry::rendered(count)).status == 200,
    ensures
        describes_counter(
            scrape_response(MetricsRegistry::rendered(count)).body,
            counter_name(),
            counter_help(),
            count,
        ),
        has_line(
            scrape_response(MetricsRegistry::rendered(count)).body,
            sample_line(counter_name(), count),
        ),
{
}

} // verus!
