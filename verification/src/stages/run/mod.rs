//! `demo.sh run`'s verified parts: the launch actions, the two guarded
//! actions, and the contract-ordered preflight.

use vstd::prelude::*;

pub mod actions;
pub mod guards;
pub mod goldberg;
pub mod preflight;

use crate::text::{decimal, i64_to_string, int_decimal, u64_to_string};

verus! {

/// The two `oxrsys-runtime.toml` facts a launch branches on.
#[derive(Debug, Clone, PartialEq, Eq)]
pub struct PreflightFacts {
    /// `$PROTOCOL`.
    pub protocol: String,
    /// `${ENCODER_PROC:-auto}`.
    pub encoder_process: String,
}

/// The last instant, in milliseconds after the Unix epoch, rendered as a
/// calendar date: 9999-12-30T23:59:59.999Z. Every UTC offset is under a day,
/// so from the epoch to here the local date keeps a four-digit year and stays
/// inside chrono's calendar.
pub const LOCAL_RENDER_MAX_MS: u64 = 253402214399999;

/// An ASCII digit.
pub open spec fn is_ascii_digit(c: char) -> bool {
    '0' <= c && c <= '9'
}

/// `YYYY-MM-DDTHH:MM:SS+HH:MM` (or `-HH:MM`): RFC 3339 to whole seconds with
/// a numeric offset and a four-digit year.
pub open spec fn rfc3339_secs_shape(s: Seq<char>) -> bool {
    &&& s.len() == 25
    &&& forall|i: int|
        0 <= i < 25 && i != 4 && i != 7 && i != 10 && i != 13 && i != 16 && i != 19 && i != 22
            ==> #[trigger] is_ascii_digit(s[i])
    &&& s[4] == '-' && s[7] == '-' && s[10] == 'T' && s[13] == ':' && s[16] == ':' && s[22] == ':'
    &&& (s[19] == '+' || s[19] == '-')
}

/// `chrono::DateTime::from_timestamp_millis`, moved to `chrono::Local` by
/// `with_timezone` and printed by `to_rfc3339_opts(SecondsFormat::Secs,
/// false)`: the local-time rendering of the instant `ms` milliseconds after
/// the Unix epoch. Within `0..=LOCAL_RENDER_MAX_MS` chrono accepts the instant,
/// the local date stays inside its calendar (`naive_local` cannot fail), and
/// `write_rfc3339` writes a four-digit year, two-digit fields, and the offset
/// rounded to minutes as `±HH:MM`. Which date and offset come out is not
/// stated: that depends on the machine's time zone.
#[verifier::external_body]
fn local_rfc3339_secs(ms: i64) -> (r: Option<String>)
    requires
        0 <= ms <= LOCAL_RENDER_MAX_MS,
    ensures
        r is Some,
        r is Some ==> rfc3339_secs_shape(r->0@),
{
    match chrono::DateTime::from_timestamp_millis(ms) {
        Some(d) => Some(
            d.with_timezone(&chrono::Local).to_rfc3339_opts(chrono::SecondsFormat::Secs, false),
        ),
        None => None,
    }
}

/// What `iso_local` shows for `ms` once the calendar rendering is known:
/// the rendering itself, or the raw number where there is none.
pub fn iso_local_from(ms: u64, rendered: Option<String>) -> (s: String)
    ensures
        rendered matches Some(r) ==> s == r,
        rendered is None ==> s@ == decimal(ms as nat),
{
    match rendered {
        Some(r) => r,
        None => u64_to_string(ms),
    }
}

/// `started_at_unix_ms` as a civil local timestamp
/// (`2026-08-29T10:11:12+02:00`). An instant past
/// [`LOCAL_RENDER_MAX_MS`] degrades to the raw number instead of panicking.
pub fn iso_local(ms: u64) -> (s: String)
    ensures
        ms <= LOCAL_RENDER_MAX_MS ==> rfc3339_secs_shape(s@),
        ms > LOCAL_RENDER_MAX_MS ==> s@ == decimal(ms as nat),
        s@.len() > 0,
{
    let rendered = if ms <= LOCAL_RENDER_MAX_MS {
        local_rfc3339_secs(ms as i64)
    } else {
        None
    };
    proof {
        lemma_decimal_nonempty(ms as nat);
    }
    iso_local_from(ms, rendered)
}

proof fn lemma_decimal_nonempty(n: nat)
    ensures
        decimal(n).len() > 0,
    decreases n,
{
    if n >= 10 {
        lemma_decimal_nonempty(n / 10);
    }
}

/// run.sh's closing line after wine returns: its status, unchanged, and the
/// log it wrote.
pub fn wine_exit_line(rc: i32, log: &str) -> (s: String)
    ensures
        s@ == "wine exited with status "@ + int_decimal(rc as int) + " (log: "@ + log@ + ")"@,
{
    let mut s = String::from_str("wine exited with status ");
    let code = i64_to_string(rc as i64);
    s.append(code.as_str());
    s.append(" (log: ");
    s.append(log);
    s.append(")");
    s
}

/// The row a detach closes the supervised run with.
pub fn detached_line(log: &str) -> (s: String)
    ensures
        s@ == "-- detached: leaving the session running (log: "@ + log@ + ")"@,
{
    let mut s = String::from_str("-- detached: leaving the session running (log: ");
    s.append(log);
    s.append(")");
    s
}

} // verus!
