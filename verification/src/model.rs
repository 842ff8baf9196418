//! The records the probe keeps and reports.

use vstd::prelude::*;

use crate::text::opt_view;

verus! {

/// Global probe settings.
pub struct AppSettings {
    /// Time limit of one attempt, in seconds (30 unless changed).
    pub timeout_secs: u64,
    /// How many times a failed probe is tried again (1 unless changed; 0 means never).
    pub retry_count: u32,
}

/// Timeout of one attempt in the default settings, in seconds.
pub const DEFAULT_TIMEOUT_SECS: u64 = 30;

/// Retries in the default settings.
pub const DEFAULT_RETRY_COUNT: u32 = 1;

impl Default for AppSettings {
    fn default() -> (r: Self)
        ensures
            r.timeout_secs == DEFAULT_TIMEOUT_SECS,
            r.retry_count == DEFAULT_RETRY_COUNT,
    {
        AppSettings { timeout_secs: DEFAULT_TIMEOUT_SECS, retry_count: DEFAULT_RETRY_COUNT }
    }
}

/// One configured API endpoint.
pub struct Endpoint {
    pub id: String,
    pub name: String,
    /// Base address, such as `https://api.openai.com/v1`, or the full chat address.
    pub base_url: String,
    pub api_key: String,
    pub models: Vec<String>,
}

/// The outcome of probing one model.
pub struct PingResult {
    pub model: String,
    pub ok: bool,
    /// Request sent -> response headers received, in milliseconds.
    pub header_ms: Option<u64>,
    /// Request sent -> first visible output character, in milliseconds.
    pub first_char_ms: Option<u64>,
    /// Request sent -> end of reading the stream, in milliseconds.
    pub total_ms: Option<u64>,
    /// Time spent by the whole probe, retries and waits included, in milliseconds.
    pub overall_ms: Option<u64>,
    /// Number of attempts made (1 when the first one decided the outcome).
    pub attempts: u32,
    /// The first visible piece of output.
    pub sample: String,
    pub error: Option<String>,
}

/// The mathematical content of a [`PingResult`].
pub struct PingRecord {
    pub model: Seq<char>,
    pub ok: bool,
    pub header_ms: Option<u64>,
    pub first_char_ms: Option<u64>,
    pub total_ms: Option<u64>,
    pub overall_ms: Option<u64>,
    pub attempts: u32,
    pub sample: Seq<char>,
    pub error: Option<Seq<char>>,
}

impl View for PingResult {
    type V = PingRecord;

    open spec fn view(&self) -> PingRecord {
        PingRecord {
            model: self.model@,
            ok: self.ok,
            header_ms: self.header_ms,
            first_char_ms: self.first_char_ms,
            total_ms: self.total_ms,
            overall_ms: self.overall_ms,
            attempts: self.attempts,
            sample: self.sample@,
            error: opt_view(self.error),
        }
    }
}

/// Offset between the local clock and a network clock.
pub struct NetworkTimeInfo {
    /// Network time stamp, in milliseconds since the Unix epoch.
    pub network_timestamp: u64,
    /// Local time stamp at the middle of the round trip, in milliseconds.
    pub local_timestamp: u64,
    /// `network_timestamp - local_timestamp`: positive when the local clock is behind.
    pub offset_ms: i64,
    /// Round-trip time of the request that read the network time, in milliseconds.
    pub rtt_ms: u64,
}

/// Latency to a public host.
pub struct LocalPingInfo {
    pub ok: bool,
    pub latency_ms: Option<u64>,
    pub target: String,
    pub error: Option<String>,
}

/// The mathematical content of a [`LocalPingInfo`].
pub struct LocalPingRecord {
    pub ok: bool,
    pub latency_ms: Option<u64>,
    pub target: Seq<char>,
    pub error: Option<Seq<char>>,
}

impl View for LocalPingInfo {
    type V = LocalPingRecord;

    open spec fn view(&self) -> LocalPingRecord {
        LocalPingRecord {
            ok: self.ok,
            latency_ms: self.latency_ms,
            target: self.target@,
            error: opt_view(self.error),
        }
    }
}

} // verus!
