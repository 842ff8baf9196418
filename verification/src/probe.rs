//! Clock readings: the local clock, the offset to a network clock read from an HTTP
//! `Date` header, and the latency to a public host.

use vstd::prelude::*;

use crate::attempt::status_is_success;
use crate::model::{LocalPingInfo, LocalPingRecord, NetworkTimeInfo};
use crate::text::push_text;

verus! {

broadcast use vstd::string::group_string_axioms;

// ---------------------------------------------------------------------------
// The local clock
// ---------------------------------------------------------------------------

/// `SystemTime::now()`, read as milliseconds since the Unix epoch
/// (`duration_since(UNIX_EPOCH)`, then `Duration::as_millis`); `None` when the clock
/// is set before the epoch. Nothing is stated of the value: it is the time.
#[verifier::external_body]
fn system_clock_millis() -> (r: Option<u128>) {
    std::time::SystemTime::now().duration_since(std::time::UNIX_EPOCH).ok().map(|d| d.as_millis())
}

/// A clock reading in milliseconds as a `u64`: the low 64 bits of the reading, or 0
/// when the clock is set before the epoch.
pub fn millis_or_zero(reading: Option<u128>) -> (r: u64)
    ensures
        r == (match reading {
            Some(m) => m as u64,
            None => 0u64,
        }),
{
    match reading {
        Some(m) => m as u64,
        None => 0,
    }
}

/// The local time in milliseconds since the Unix epoch (0 when the clock is set
/// before the epoch).
pub fn now_millis() -> u64 {
    millis_or_zero(system_clock_millis())
}

// ---------------------------------------------------------------------------
// The network clock
// ---------------------------------------------------------------------------

/// The time that `httpdate::parse_http_date` reads in `text`, in milliseconds since
/// the Unix epoch; `None` when it reads no date.
pub uninterp spec fn http_date_millis(text: Seq<char>) -> Option<u128>;

/// Latest time an HTTP date can hold (9999-12-31 23:59:59), in milliseconds.
pub const HTTP_DATE_MAX_MILLIS: u64 = 253402300799000;

/// `httpdate::parse_http_date`, its result read as milliseconds since the Unix epoch
/// (`duration_since(UNIX_EPOCH)`, then `Duration::as_millis`). The result is named
/// `http_date_millis`; the crate accepts only years 1970 to 9999, so a date is never
/// later than [`HTTP_DATE_MAX_MILLIS`]. Which texts it reads is not stated.
#[verifier::external_body]
fn parse_http_date_millis(text: &str) -> (r: Option<u128>)
    ensures
        r == http_date_millis(text@),
        r matches Some(m) ==> m <= HTTP_DATE_MAX_MILLIS,
{
    httpdate::parse_http_date(text).ok().and_then(|t| t.duration_since(std::time::UNIX_EPOCH).ok()).map(
        |d| d.as_millis(),
    )
}

/// The local time at the middle of a round trip that started at `local_t0` and
/// lasted `rtt_ms`.
pub open spec fn local_midpoint(local_t0: u64, rtt_ms: u64) -> int {
    local_t0 + rtt_ms / 2
}

/// `network_ms - local_ms` as the signed difference of the two readings taken as
/// `i64`, when it fits in an `i64`.
pub open spec fn offset_fits(network_ms: u64, local_ms: u64) -> bool {
    i64::MIN <= (network_ms as i64) - (local_ms as i64) <= i64::MAX
}

/// The clock comparison of a round trip that started at `local_t0`, lasted `rtt_ms`,
/// and read the network time `network_ms` (`None` when the response had no date).
pub open spec fn network_time_of(local_t0: u64, rtt_ms: u64, network_ms: Option<u64>) -> NetworkTimeInfo {
    let mid = local_midpoint(local_t0, rtt_ms) as u64;
    match network_ms {
        Some(n) => NetworkTimeInfo {
            network_timestamp: n,
            local_timestamp: mid,
            offset_ms: ((n as i64) - (mid as i64)) as i64,
            rtt_ms,
        },
        None => NetworkTimeInfo {
            network_timestamp: mid,
            local_timestamp: mid,
            offset_ms: 0,
            rtt_ms,
        },
    }
}

/// The clock comparison takes the local reading at the middle of the round trip,
/// `local_t0 + rtt_ms / 2`, and the offset is the network time minus that reading,
/// for every reading that fits (present-day clocks included).
pub proof fn network_time_is_midpoint_offset(local_t0: u64, rtt_ms: u64, network_ms: Option<u64>)
    requires
        local_t0 + rtt_ms / 2 <= i64::MAX,
        network_ms matches Some(n) ==> n <= i64::MAX,
    ensures
        ({
            let r = network_time_of(local_t0, rtt_ms, network_ms);
            &&& r.local_timestamp == local_t0 + rtt_ms / 2
            &&& r.rtt_ms == rtt_ms
            &&& (network_ms matches Some(n) ==> r.network_timestamp == n && r.offset_ms == n - (
            local_t0 + rtt_ms / 2))
            &&& (network_ms is None ==> r.network_timestamp == local_t0 + rtt_ms / 2
                && r.offset_ms == 0)
        }),
{
}

/// Compares the clocks after a round trip that started at `local_t0` (local time)
/// and lasted `rtt_ms`, in which the network time `network_ms` was read (`None` when
/// the response had no date). The local reading is taken at the middle of the trip.
pub fn network_time_info(local_t0: u64, rtt_ms: u64, network_ms: Option<u64>) -> (r: NetworkTimeInfo)
    requires
        local_midpoint(local_t0, rtt_ms) <= u64::MAX,
        network_ms matches Some(n) ==> offset_fits(n, local_midpoint(local_t0, rtt_ms) as u64),
    ensures
        r == network_time_of(local_t0, rtt_ms, network_ms),
{
    let mid = local_t0 + rtt_ms / 2;
    match network_ms {
        Some(n) => {
            let offset = (n as i64) - (mid as i64);
            NetworkTimeInfo {
                network_timestamp: n,
                local_timestamp: mid,
                offset_ms: offset,
                rtt_ms,
            }
        },
        None => NetworkTimeInfo {
            network_timestamp: mid,
            local_timestamp: mid,
            offset_ms: 0,
            rtt_ms,
        },
    }
}

/// The network time read from an optional `Date` header text.
pub open spec fn date_header_millis(date: Option<Seq<char>>) -> Option<u64> {
    match date {
        Some(d) => match http_date_millis(d) {
            Some(m) => Some(m as u64),
            None => None,
        },
        None => None,
    }
}

/// The view of an optional text.
pub open spec fn opt_str_view(o: Option<&str>) -> Option<Seq<char>> {
    match o {
        Some(s) => Some(s@),
        None => None,
    }
}

/// Compares the clocks after a round trip that started at `local_t0` and lasted
/// `rtt_ms`, whose response carried the `Date` header text `date` (if any). A date
/// that cannot be read counts as no date. `None` when the offset does not fit in an
/// `i64`.
pub fn network_time_from_date(local_t0: u64, rtt_ms: u64, date: Option<&str>) -> (r: Option<
    NetworkTimeInfo,
>)
    requires
        local_midpoint(local_t0, rtt_ms) <= u64::MAX,
    ensures
        ({
            let n = date_header_millis(opt_str_view(date));
            let mid = local_midpoint(local_t0, rtt_ms) as u64;
            match n {
                Some(m) if !offset_fits(m, mid) => r is None,
                _ => r == Some(network_time_of(local_t0, rtt_ms, n)),
            }
        }),
{
    let network_ms: Option<u64> = match date {
        Some(d) => match parse_http_date_millis(d) {
            Some(m) => Some(m as u64),
            None => None,
        },
        None => None,
    };
    let mid = local_t0 + rtt_ms / 2;
    match network_ms {
        Some(n) => {
            let a = n as i64;
            let b = mid as i64;
            if b < 0 && a > i64::MAX + b {
                return None;
            }
            if b > 0 && a < i64::MIN + b {
                return None;
            }
            Some(network_time_info(local_t0, rtt_ms, network_ms))
        },
        None => Some(network_time_info(local_t0, rtt_ms, None)),
    }
}

/// The message of a failed network-time request.
pub fn network_time_error(reason: &str) -> (r: String)
    ensures
        r@ == "获取网络时间失败: "@ + reason@,
{
    let mut e = String::new();
    push_text(&mut e, "获取网络时间失败: ");
    push_text(&mut e, reason);
    e
}

// ---------------------------------------------------------------------------
// Latency to a public host
// ---------------------------------------------------------------------------

/// How the latency target is shown.
pub open spec fn local_ping_label() -> Seq<char> {
    "1.1.1.1 (Cloudflare)"@
}

/// The host reached answered with the status `status` after `latency_ms`.
pub fn local_ping_reached(status: u16, latency_ms: u64) -> (r: LocalPingInfo)
    ensures
        r@ == (LocalPingRecord {
            ok: 200 <= status <= 299,
            latency_ms: Some(latency_ms),
            target: local_ping_label(),
            error: None,
        }),
{
    let mut target = String::new();
    push_text(&mut target, "1.1.1.1 (Cloudflare)");
    LocalPingInfo { ok: status_is_success(status), latency_ms: Some(latency_ms), target, error: None }
}

/// The host could not be reached; `reason` says why.
pub fn local_ping_failed(reason: &str) -> (r: LocalPingInfo)
    ensures
        r@ == (LocalPingRecord {
            ok: false,
            latency_ms: None,
            target: local_ping_label(),
            error: Some("测速失败: "@ + reason@),
        }),
{
    let mut target = String::new();
    push_text(&mut target, "1.1.1.1 (Cloudflare)");
    let mut e = String::new();
    push_text(&mut e, "测速失败: ");
    push_text(&mut e, reason);
    LocalPingInfo { ok: false, latency_ms: None, target, error: Some(e) }
}

} // verus!
