//! The decisions of one timed attempt: sending the probe request, reading the
//! response head, scanning the event stream for the first visible output, and the
//! record the attempt leaves.
//!
//! The caller performs the network work and reports each outcome to these
//! functions; they decide what the attempt does next and what it reports.

use vstd::prelude::*;

use crate::json::{chunk_text_of, extract_chunk_text, get_field, json_get, json_str_field, str_field, JsonValue};
use crate::model::{PingRecord, PingResult};
use crate::text::{
    chars_of, clip, clip_chars, decimal, decimal_text, push_text, starts_with, starts_with_chars,
    string_of, sub_chars, trim, trim_chars,
};

verus! {

broadcast use vstd::string::group_string_axioms;

// ---------------------------------------------------------------------------
// The request
// ---------------------------------------------------------------------------

/// Time limit used when the configured one is 0, in seconds.
pub const FALLBACK_TIMEOUT_SECS: u64 = 30;

/// Most tokens the probe request asks for.
pub const PROBE_MAX_TOKENS: u32 = 16;

/// Most characters of an error text kept in a report.
pub const ERROR_TEXT_MAX_CHARS: usize = 260;

/// Most characters of the first output kept as the sample.
pub const SAMPLE_MAX_CHARS: usize = 40;

/// The time limit of an attempt: the configured one, or 30 s when it is 0.
pub fn attempt_timeout_secs(timeout_secs: u64) -> (r: u64)
    ensures
        r == (if timeout_secs == 0 {
            FALLBACK_TIMEOUT_SECS
        } else {
            timeout_secs
        }),
{
    if timeout_secs == 0 {
        FALLBACK_TIMEOUT_SECS
    } else {
        timeout_secs
    }
}

/// The body of the probe request: one user message, streamed, with few tokens.
pub struct ProbeRequest {
    pub model: String,
    pub role: String,
    pub prompt: String,
    pub stream: bool,
    pub max_tokens: u32,
}

/// The probe request for `model`: the user says "Hi", the answer is streamed and
/// limited to [`PROBE_MAX_TOKENS`] tokens.
pub fn probe_request(model: &str) -> (r: ProbeRequest)
    ensures
        r.model@ == model@,
        r.role@ == "user"@,
        r.prompt@ == "Hi"@,
        r.stream,
        r.max_tokens == PROBE_MAX_TOKENS,
{
    let mut m = String::new();
    push_text(&mut m, model);
    let mut role = String::new();
    push_text(&mut role, "user");
    let mut prompt = String::new();
    push_text(&mut prompt, "Hi");
    ProbeRequest { model: m, role, prompt, stream: true, max_tokens: PROBE_MAX_TOKENS }
}

/// The bearer token sent for an API key: the key without surrounding white space.
pub fn bearer_token(api_key: &str) -> (r: String)
    ensures
        r@ == trim(api_key@),
{
    crate::text::trim_text(api_key)
}

/// `StatusCode::is_success`: the status is in 200..=299.
pub fn status_is_success(code: u16) -> (r: bool)
    ensures
        r == (200 <= code <= 299),
{
    200 <= code && code <= 299
}

// ---------------------------------------------------------------------------
// Records of attempts that ended early
// ---------------------------------------------------------------------------

/// The record of an attempt on `model` that has not produced anything yet.
pub open spec fn blank_record(model: Seq<char>) -> PingRecord {
    PingRecord {
        model,
        ok: false,
        header_ms: None,
        first_char_ms: None,
        total_ms: None,
        overall_ms: None,
        attempts: 1,
        sample: Seq::empty(),
        error: None,
    }
}

/// `blank_record(model)` with the error `error`.
pub open spec fn failed_record(model: Seq<char>, error: Seq<char>) -> PingRecord {
    PingRecord { error: Some(error), ..blank_record(model) }
}

fn failed_result(model: &str, error: String) -> (r: PingResult)
    ensures
        r@ == failed_record(model@, error@),
{
    let mut m = String::new();
    push_text(&mut m, model);
    PingResult {
        model: m,
        ok: false,
        header_ms: None,
        first_char_ms: None,
        total_ms: None,
        overall_ms: None,
        attempts: 1,
        sample: String::new(),
        error: Some(error),
    }
}

/// The message of a request that could not be sent.
pub open spec fn connect_failed_message(reason: Seq<char>) -> Seq<char> {
    "连接失败："@ + reason
}

/// The message of a request whose response head did not come in time.
pub open spec fn connect_timeout_message(timeout_secs: u64) -> Seq<char> {
    "请求连接超时（>"@ + decimal(timeout_secs as nat) + "s）"@
}

/// The message of a response whose status is not a success.
pub open spec fn http_error_message(status: Seq<char>, body: Seq<char>) -> Seq<char> {
    "HTTP "@ + status + "·"@ + clip(trim(body), ERROR_TEXT_MAX_CHARS as nat)
}

/// The record of a response whose status is not a success.
pub open spec fn http_error_record(
    model: Seq<char>,
    header_ms: u64,
    status: Seq<char>,
    body: Seq<char>,
) -> PingRecord {
    PingRecord {
        header_ms: Some(header_ms),
        ..failed_record(model, http_error_message(status, body))
    }
}

/// The request to `model` could not be sent; `reason` says why.
pub fn attempt_connect_failed(model: &str, reason: &str) -> (r: PingResult)
    ensures
        r@ == failed_record(model@, connect_failed_message(reason@)),
{
    let mut e = String::new();
    push_text(&mut e, "连接失败：");
    push_text(&mut e, reason);
    failed_result(model, e)
}

/// The response head of `model` did not come within `timeout_secs` (as configured).
pub fn attempt_connect_timeout(model: &str, timeout_secs: u64) -> (r: PingResult)
    ensures
        r@ == failed_record(model@, connect_timeout_message(timeout_secs)),
{
    let mut e = String::new();
    push_text(&mut e, "请求连接超时（>");
    let n = decimal_text(timeout_secs);
    push_text(&mut e, n.as_str());
    push_text(&mut e, "s）");
    failed_result(model, e)
}

/// The response of `model` came after `header_ms` with the status `status` (as
/// displayed) that is not a success, and the body `body`.
pub fn attempt_http_error(model: &str, header_ms: u64, status: &str, body: &str) -> (r: PingResult)
    ensures
        r@ == http_error_record(model@, header_ms, status@, body@),
{
    let mut e = String::new();
    push_text(&mut e, "HTTP ");
    push_text(&mut e, status);
    push_text(&mut e, "·");
    let trimmed = crate::text::trim_text(body);
    let clipped = clip_chars(trimmed.as_str(), ERROR_TEXT_MAX_CHARS);
    push_text(&mut e, clipped.as_str());
    let mut r = failed_result(model, e);
    r.header_ms = Some(header_ms);
    r
}

// ---------------------------------------------------------------------------
// Scanning the event stream
// ---------------------------------------------------------------------------

/// The first position at or after `i` that holds a line feed.
pub open spec fn newline_from(b: Seq<u8>, i: int) -> Option<int>
    decreases b.len() - i,
{
    if i < 0 || i >= b.len() {
        None
    } else if b[i] == 10 {
        Some(i)
    } else {
        newline_from(b, i + 1)
    }
}

/// A line handed out by the scanner holds no line feed and ends right before one.
pub proof fn newline_from_is_first_newline(b: Seq<u8>, i: int)
    ensures
        newline_from(b, i) matches Some(p) ==> (i <= p < b.len() && b[p] == 10 && forall|k: int|
            i <= k < p ==> b[k] != 10),
        newline_from(b, i) is None ==> forall|k: int| 0 <= i <= k < b.len() ==> b[k] != 10,
    decreases b.len() - i,
{
    if i < 0 || i >= b.len() {
    } else if b[i] == 10 {
    } else {
        newline_from_is_first_newline(b, i + 1);
    }
}

/// Splits a byte stream into lines as its chunks arrive. Everything received is
/// kept; the cursor marks the start of the first line not yet handed out.
pub struct SseScanner {
    buf: Vec<u8>,
    line_start: usize,
}

impl SseScanner {
    /// Every byte received so far.
    pub closed spec fn received(&self) -> Seq<u8> {
        self.buf@
    }

    /// Where the first line not yet handed out starts.
    pub closed spec fn cursor(&self) -> int {
        self.line_start as int
    }

    #[verifier::type_invariant]
    closed spec fn cursor_in_range(&self) -> bool {
        self.line_start <= self.buf@.len()
    }

    /// A scanner that has received nothing.
    pub fn new() -> (r: SseScanner)
        ensures
            r.received() == Seq::<u8>::empty(),
            r.cursor() == 0,
    {
        SseScanner { buf: Vec::new(), line_start: 0 }
    }

    /// Receives the next chunk of the stream.
    pub fn feed(&mut self, chunk: &[u8])
        ensures
            final(self).received() == old(self).received() + chunk@,
            final(self).cursor() == old(self).cursor(),
    {
        let mut taken = SseScanner::new();
        std::mem::swap(&mut taken, self);
        proof {
            use_type_invariant(&taken);
        }
        let SseScanner { mut buf, line_start } = taken;
        let n = chunk.len();
        let mut i: usize = 0;
        let ghost start = buf@;
        while i < n
            invariant
                n == chunk@.len(),
                i <= n,
                buf@ == start + chunk@.take(i as int),
            decreases n - i,
        {
            buf.push(chunk[i]);
            assert(chunk@.take(i + 1) =~= chunk@.take(i as int).push(chunk@[i as int]));
            i = i + 1;
        }
        assert(chunk@.take(n as int) =~= chunk@);
        *self = SseScanner { buf, line_start };
    }

    /// Hands out the next complete line (without its line feed), if one was received.
    pub fn next_line(&mut self) -> (r: Option<Vec<u8>>)
        ensures
            0 <= old(self).cursor() <= old(self).received().len(),
            final(self).received() == old(self).received(),
            match newline_from(old(self).received(), old(self).cursor()) {
                Some(p) => r matches Some(line) && line@ == old(self).received().subrange(
                    old(self).cursor(),
                    p,
                ) && final(self).cursor() == p + 1,
                None => r is None && final(self).cursor() == old(self).cursor(),
            },
    {
        proof {
            use_type_invariant(&*self);
        }
        let n = self.buf.len();
        let mut p = self.line_start;
        while p < n && self.buf[p] != 10u8
            invariant
                n == self.buf@.len(),
                self.line_start <= p <= n,
                newline_from(self.buf@, p as int) == newline_from(self.buf@, self.line_start as int),
            decreases n - p,
        {
            p = p + 1;
        }
        if p == n {
            return None;
        }
        let mut line: Vec<u8> = Vec::new();
        let mut k = self.line_start;
        while k < p
            invariant
                p < n == self.buf@.len(),
                self.line_start <= k <= p,
                line@ == self.buf@.subrange(self.line_start as int, k as int),
            decreases p - k,
        {
            line.push(self.buf[k]);
            assert(self.buf@.subrange(self.line_start as int, k + 1) =~= self.buf@.subrange(
                self.line_start as int,
                k as int,
            ).push(self.buf@[k as int]));
            k = k + 1;
        }
        self.line_start = p + 1;
        Some(line)
    }
}

/// `String::from_utf8_lossy`: the text of `bytes`, with each invalid UTF-8 sequence
/// replaced by U+FFFD.
pub uninterp spec fn utf8_lossy(bytes: Seq<u8>) -> Seq<char>;

/// `String::from_utf8_lossy` (made owned): its result is named `utf8_lossy`; valid
/// UTF-8 is decoded as it is. How invalid sequences are replaced is not stated.
#[verifier::external_body]
fn text_of_bytes(bytes: &[u8]) -> (r: String)
    ensures
        r@ == utf8_lossy(bytes@),
        vstd::utf8::valid_utf8(bytes@) ==> r@ == vstd::utf8::decode_utf8(bytes@),
{
    String::from_utf8_lossy(bytes).into_owned()
}

/// What one line of the event stream asks for.
pub enum SseLine {
    /// Not a data line, or an empty one: read on.
    Skip,
    /// The end-of-stream marker `[DONE]`.
    Done,
    /// The payload of a data line.
    Data(String),
}

/// The payload of a line whose text is `text`, when it is a data line.
pub open spec fn data_payload(text: Seq<char>) -> Option<Seq<char>> {
    let t = trim(text);
    if starts_with(t, "data:"@) {
        Some(trim(t.subrange(5, t.len() as int)))
    } else {
        None
    }
}

/// Reads one line of the event stream (its bytes, without the line feed).
pub fn classify_sse_line(line: &[u8]) -> (r: SseLine)
    ensures
        match data_payload(utf8_lossy(line@)) {
            None => r is Skip,
            Some(d) => if d.len() == 0 {
                r is Skip
            } else if d == "[DONE]"@ {
                r is Done
            } else {
                r matches SseLine::Data(s) && s@ == d
            },
        },
{
    let text = text_of_bytes(line);
    let cs = chars_of(text.as_str());
    let t = trim_chars(cs.as_slice());
    let prefix = chars_of("data:");
    proof {
        reveal_strlit("data:");
    }
    if !starts_with_chars(t.as_slice(), prefix.as_slice()) {
        return SseLine::Skip;
    }
    let rest = sub_chars(t.as_slice(), 5, t.len());
    let d = trim_chars(rest.as_slice());
    if d.len() == 0 {
        return SseLine::Skip;
    }
    let done = chars_of("[DONE]");
    if crate::text::occurs_at_exec(d.as_slice(), done.as_slice(), 0) && d.len() == done.len() {
        assert(d@.subrange(0, done@.len() as int) =~= d@);
        return SseLine::Done;
    }
    if d.len() == done.len() {
        assert(d@.subrange(0, done@.len() as int) =~= d@);
    }
    SseLine::Data(string_of(d.as_slice()))
}

/// What a data payload tells the attempt.
pub enum DataVerdict {
    /// Nothing visible yet: read on.
    Continue,
    /// The service reported an error: the attempt fails with this message.
    Failed(String),
    /// Visible output arrived; this is its sample.
    FirstOutput(String),
}

/// The message of an error object inside the stream.
pub open spec fn stream_error_message(data: Seq<char>, error_obj: JsonValue) -> Seq<char> {
    let msg = match str_field(error_obj, "message"@) {
        Some(m) => m,
        None => data,
    };
    "接口错误·"@ + clip(msg, ERROR_TEXT_MAX_CHARS as nat)
}

/// Judges a data payload `data` whose JSON reading is `parsed` (`None` when it is not
/// JSON): an `error` member fails the attempt; otherwise the first visible output
/// ends the wait, and its first [`SAMPLE_MAX_CHARS`] characters are the sample.
pub fn judge_data(data: &str, parsed: &Option<JsonValue>) -> (r: DataVerdict)
    ensures
        match *parsed {
            Some(v) if get_field(v, "error"@) is Some => r matches DataVerdict::Failed(m) && m@
                == stream_error_message(data@, get_field(v, "error"@).unwrap()),
            _ => match chunk_text_of(data@, *parsed) {
                Some(t) if t.len() > 0 => r matches DataVerdict::FirstOutput(s) && s@ == clip(
                    t,
                    SAMPLE_MAX_CHARS as nat,
                ),
                _ => r is Continue,
            },
        },
{
    if let Some(v) = parsed {
        if let Some(err_obj) = json_get(v, "error") {
            let msg = match json_str_field(err_obj, "message") {
                Some(m) => m,
                None => string_of(chars_of(data).as_slice()),
            };
            let mut e = String::new();
            push_text(&mut e, "接口错误·");
            let clipped = clip_chars(msg.as_str(), ERROR_TEXT_MAX_CHARS);
            push_text(&mut e, clipped.as_str());
            return DataVerdict::Failed(e);
        }
    }
    match extract_chunk_text(data, parsed) {
        Some(t) => {
            if t.as_str().is_empty() {
                DataVerdict::Continue
            } else {
                DataVerdict::FirstOutput(clip_chars(t.as_str(), SAMPLE_MAX_CHARS))
            }
        },
        None => DataVerdict::Continue,
    }
}

// ---------------------------------------------------------------------------
// The end of an attempt
// ---------------------------------------------------------------------------

/// The message of a stream that broke off.
pub open spec fn stream_broken_message(reason: Seq<char>) -> Seq<char> {
    "流中断："@ + reason
}

/// The message of a stream that showed nothing within the time limit.
pub open spec fn first_char_timeout_message(timeout_secs: u64) -> Seq<char> {
    "等待首字超时（>"@ + decimal(timeout_secs as nat) + "s）"@
}

/// The message of a stream that ended without visible output.
pub open spec fn no_output_message() -> Seq<char> {
    "未收到可见输出"@
}

/// The stream broke off; `reason` says why.
pub fn stream_broken(reason: &str) -> (r: String)
    ensures
        r@ == stream_broken_message(reason@),
{
    let mut e = String::new();
    push_text(&mut e, "流中断：");
    push_text(&mut e, reason);
    e
}

/// Nothing visible came within `timeout_secs` (as configured).
pub fn first_char_timeout(timeout_secs: u64) -> (r: String)
    ensures
        r@ == first_char_timeout_message(timeout_secs),
{
    let mut e = String::new();
    push_text(&mut e, "等待首字超时（>");
    let n = decimal_text(timeout_secs);
    push_text(&mut e, n.as_str());
    push_text(&mut e, "s）");
    e
}

/// The first visible output of a stream, and when it came.
pub struct FirstOutput {
    /// Request sent -> chunk with the output received, in milliseconds.
    pub at_ms: u64,
    pub sample: String,
}

/// The record of an attempt whose stream was read: it succeeded when visible output
/// came; otherwise it reports the stream's error, or that nothing visible came.
pub open spec fn finished_record(
    model: Seq<char>,
    header_ms: u64,
    total_ms: u64,
    first: Option<(u64, Seq<char>)>,
    stream_error: Option<Seq<char>>,
) -> PingRecord {
    match first {
        Some((at, sample)) => PingRecord {
            ok: true,
            header_ms: Some(header_ms),
            total_ms: Some(total_ms),
            first_char_ms: Some(at),
            sample,
            ..blank_record(model)
        },
        None => PingRecord {
            header_ms: Some(header_ms),
            total_ms: Some(total_ms),
            error: Some(
                match stream_error {
                    Some(e) => e,
                    None => no_output_message(),
                },
            ),
            ..blank_record(model)
        },
    }
}

/// The view of a first output.
pub open spec fn first_view(first: Option<FirstOutput>) -> Option<(u64, Seq<char>)> {
    match first {
        Some(f) => Some((f.at_ms, f.sample@)),
        None => None,
    }
}

/// The record of an attempt on `model` whose head came after `header_ms` and whose
/// stream reading ended after `total_ms`, with the first output `first` (if any)
/// and the stream's error `stream_error` (if any).
pub fn attempt_finished(
    model: &str,
    header_ms: u64,
    total_ms: u64,
    first: Option<FirstOutput>,
    stream_error: Option<String>,
) -> (r: PingResult)
    ensures
        r@ == finished_record(
            model@,
            header_ms,
            total_ms,
            first_view(first),
            crate::text::opt_view(stream_error),
        ),
{
    let mut m = String::new();
    push_text(&mut m, model);
    match first {
        Some(f) => PingResult {
            model: m,
            ok: true,
            header_ms: Some(header_ms),
            first_char_ms: Some(f.at_ms),
            total_ms: Some(total_ms),
            overall_ms: None,
            attempts: 1,
            sample: f.sample,
            error: None,
        },
        None => {
            let e = match stream_error {
                Some(e) => e,
                None => {
                    let mut e = String::new();
                    push_text(&mut e, "未收到可见输出");
                    e
                },
            };
            PingResult {
                model: m,
                ok: false,
                header_ms: Some(header_ms),
                first_char_ms: None,
                total_ms: Some(total_ms),
                overall_ms: None,
                attempts: 1,
                sample: String::new(),
                error: Some(e),
            }
        },
    }
}

/// An attempt succeeds exactly when visible output came; a success carries no error
/// and its first output is no later than the end of the stream when the clock
/// readings were in that order; a failure always says why.
pub proof fn finished_record_consistent(
    model: Seq<char>,
    header_ms: u64,
    total_ms: u64,
    first: Option<(u64, Seq<char>)>,
    stream_error: Option<Seq<char>>,
)
    ensures
        ({
            let r = finished_record(model, header_ms, total_ms, first, stream_error);
            &&& r.ok <==> first is Some
            &&& r.ok ==> r.error is None && r.first_char_ms is Some
            &&& !r.ok ==> r.error is Some && r.first_char_ms is None
            &&& (first matches Some((at, _)) && at <= total_ms) ==> r.first_char_ms.unwrap()
                <= r.total_ms.unwrap()
            &&& r.attempts == 1
        }),
{
}

/// The record of a finished attempt keeps the three clock readings where they
/// belong: the response-head time as `header_ms` and the end of the stream as
/// `total_ms`, on success as on failure, and the time of the first output as
/// `first_char_ms` with its sample.
pub proof fn finished_record_times(
    model: Seq<char>,
    header_ms: u64,
    total_ms: u64,
    first: Option<(u64, Seq<char>)>,
    stream_error: Option<Seq<char>>,
)
    ensures
        ({
            let r = finished_record(model, header_ms, total_ms, first, stream_error);
            &&& r.header_ms == Some(header_ms)
            &&& r.total_ms == Some(total_ms)
            &&& r.model == model
            &&& r.overall_ms is None
            &&& (first matches Some((at, sample)) ==> r.first_char_ms == Some(at) && r.sample
                == sample)
            &&& (first is None ==> r.error == Some(
                match stream_error {
                    Some(e) => e,
                    None => no_output_message(),
                },
            ))
        }),
{
}

} // verus!
