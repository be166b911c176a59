//! The API's rate-limit window and the tracker of the last one seen.

use vstd::prelude::*;

verus! {

/// Value of text made of ASCII digits only, if it is non-empty.
pub open spec fn digits_value(s: Seq<char>) -> Option<nat>
    decreases s.len(),
{
    if s.len() == 0 || !('0' <= s.last() <= '9') {
        None
    } else if s.len() == 1 {
        Some((s.last() as u32 - '0' as u32) as nat)
    } else {
        match digits_value(s.drop_last()) {
            Some(v) => Some(v * 10 + (s.last() as u32 - '0' as u32) as nat),
            None => None,
        }
    }
}

/// What `str::parse::<u64>` gives: an optional `+`, then digits whose value
/// fits.
pub open spec fn parsed_u64(s: Seq<char>) -> Option<u64> {
    let d = if s.len() > 0 && s[0] == '+' {
        s.drop_first()
    } else {
        s
    };
    match digits_value(d) {
        Some(v) => if v <= u64::MAX {
            Some(v as u64)
        } else {
            None
        },
        None => None,
    }
}

/// What `str::parse::<i64>` gives: an optional sign, then digits whose signed
/// value fits.
pub open spec fn parsed_i64(s: Seq<char>) -> Option<i64> {
    if s.len() > 0 && s[0] == '-' {
        match digits_value(s.drop_first()) {
            Some(v) => if v <= 0x8000_0000_0000_0000 {
                Some((-v) as i64)
            } else {
                None
            },
            None => None,
        }
    } else {
        let d = if s.len() > 0 && s[0] == '+' {
            s.drop_first()
        } else {
            s
        };
        match digits_value(d) {
            Some(v) => if v <= i64::MAX {
                Some(v as i64)
            } else {
                None
            },
            None => None,
        }
    }
}

/// Relies on `str::parse::<u64>`, whose documented grammar is an optional
/// `+` followed by ASCII digits, with overflow rejected.
#[verifier::external_body]
fn parse_u64(s: &str) -> (r: Option<u64>)
    ensures
        r == parsed_u64(s@),
{
    s.parse::<u64>().ok()
}

/// Relies on `str::parse::<i64>`, whose documented grammar is an optional
/// `+` or `-` followed by ASCII digits, with overflow rejected.
#[verifier::external_body]
fn parse_i64(s: &str) -> (r: Option<i64>)
    ensures
        r == parsed_i64(s@),
{
    s.parse::<i64>().ok()
}

/// Whether chrono can hold a UTC time this many seconds after the epoch.
pub uninterp spec fn utc_seconds_in_range(seconds: int) -> bool;

/// Relies on chrono's `Utc.timestamp_opt(seconds, 0).latest()`, which is
/// `None` exactly when the time is outside chrono's range.
#[verifier::external_body]
fn utc_representable(seconds: i64) -> (r: bool)
    ensures
        r == utc_seconds_in_range(seconds as int),
{
    chrono::TimeZone::timestamp_opt(&chrono::Utc, seconds, 0).latest().is_some()
}

/// The header that gives the seconds to wait after too many requests.
pub const RETRY_AFTER_HEADER: &'static str = "retry-after";

/// The header that gives the requests left in the current window.
pub const REMAINING_HEADER: &'static str = "x-ratelimit-remaining";

/// The header that gives the Unix time at which the window ends.
pub const RESET_HEADER: &'static str = "x-ratelimit-reset";

/// The call rate limits returned with a response. Times are Unix seconds.
#[derive(Clone, Copy, PartialEq, Eq, Debug)]
pub struct RateLimitWindow {
    pub num_remaining_requests: Option<u64>,
    pub current_window_reset: Option<i64>,
    pub retry_after_seconds: Option<u64>,
    pub timestamp: i64,
}

/// The window that response headers describe, observed at `timestamp`.
pub open spec fn window_from_headers(
    timestamp: i64,
    retry_after: Option<Seq<char>>,
    remaining: Option<Seq<char>>,
    reset: Option<Seq<char>>,
) -> RateLimitWindow {
    RateLimitWindow {
        num_remaining_requests: match remaining {
            Some(s) => parsed_u64(s),
            None => None,
        },
        current_window_reset: match reset {
            Some(s) => match parsed_i64(s) {
                Some(v) => if utc_seconds_in_range(v as int) {
                    Some(v)
                } else {
                    None
                },
                None => None,
            },
            None => None,
        },
        retry_after_seconds: match retry_after {
            Some(s) => parsed_u64(s),
            None => None,
        },
        timestamp,
    }
}

/// The view of an optional string slice.
pub open spec fn opt_str_view(o: Option<&str>) -> Option<Seq<char>> {
    match o {
        Some(s) => Some(s@),
        None => None,
    }
}

impl RateLimitWindow {
    /// The window before any response: nothing known, observed at `timestamp`.
    pub fn empty(timestamp: i64) -> (r: Self)
        ensures
            r.num_remaining_requests is None,
            r.current_window_reset is None,
            r.retry_after_seconds is None,
            r.timestamp == timestamp,
    {
        RateLimitWindow {
            num_remaining_requests: None,
            current_window_reset: None,
            retry_after_seconds: None,
            timestamp,
        }
    }

    /// Reads the window from the values of the `retry-after`,
    /// `x-ratelimit-remaining` and `x-ratelimit-reset` headers; a header that
    /// is absent or does not parse leaves its field empty.
    pub fn from_header_values(
        timestamp: i64,
        retry_after: Option<&str>,
        remaining: Option<&str>,
        reset: Option<&str>,
    ) -> (r: Self)
        ensures
            r == window_from_headers(
                timestamp,
                opt_str_view(retry_after),
                opt_str_view(remaining),
                opt_str_view(reset),
            ),
    {
        let retry_after_seconds = match retry_after {
            Some(s) => parse_u64(s),
            None => None,
        };
        let num_remaining_requests = match remaining {
            Some(s) => parse_u64(s),
            None => None,
        };
        let current_window_reset = match reset {
            Some(s) => match parse_i64(s) {
                Some(v) => if utc_representable(v) {
                    Some(v)
                } else {
                    None
                },
                None => None,
            },
            None => None,
        };
        RateLimitWindow {
            num_remaining_requests,
            current_window_reset,
            retry_after_seconds,
            timestamp,
        }
    }

    /// Whether the window says anything: a remaining count or a retry delay.
    pub open spec fn spec_is_valid(&self) -> bool {
        self.num_remaining_requests is Some || self.retry_after_seconds is Some
    }

    /// Number of remaining requests before the API answers with too many
    /// requests.
    pub fn num_remaining_requests(&self) -> (r: Option<u64>)
        ensures
            r == self.num_remaining_requests,
    {
        self.num_remaining_requests
    }

    /// Unix time at which the current window ends.
    pub fn window_reset_datetime(&self) -> (r: Option<i64>)
        ensures
            r == self.current_window_reset,
    {
        self.current_window_reset
    }

    /// Seconds to wait before calling again, after too many requests.
    pub fn retry_after_seconds(&self) -> (r: Option<u64>)
        ensures
            r == self.retry_after_seconds,
    {
        self.retry_after_seconds
    }

    /// True when a remaining count or a retry delay is known.
    #[verifier::when_used_as_spec(spec_is_valid)]
    pub fn is_valid(&self) -> (r: bool)
        ensures
            r == self.spec_is_valid(),
    {
        self.num_remaining_requests.is_some() || self.retry_after_seconds.is_some()
    }

    /// Unix time from which calls may resume: the observation time plus the
    /// retry delay, when there is one and the sum is a 64-bit time.
    pub fn resume_after(&self) -> (r: Option<i64>)
        ensures
            r == match self.retry_after_seconds {
                Some(s) => if self.timestamp + s <= i64::MAX {
                    Some((self.timestamp + s) as i64)
                } else {
                    None
                },
                None => None::<i64>,
            },
    {
        match self.retry_after_seconds {
            Some(s) => {
                let sum: i128 = self.timestamp as i128 + s as i128;
                if sum <= i64::MAX as i128 {
                    Some(sum as i64)
                } else {
                    None
                }
            },
            None => None,
        }
    }

    /// Unix time at which the window was observed.
    pub fn timestamp(&self) -> (r: i64)
        ensures
            r == self.timestamp,
    {
        self.timestamp
    }
}

/// What the tracker hands out: the last window, if it says anything.
pub open spec fn snapshot(last: Option<RateLimitWindow>) -> Option<RateLimitWindow> {
    match last {
        Some(w) => if w.spec_is_valid() {
            Some(w)
        } else {
            None
        },
        None => None,
    }
}

/// The last rate-limit window observed by a client; each response replaces
/// it whole.
pub struct RateLimitTracker {
    last: Option<RateLimitWindow>,
}

impl View for RateLimitTracker {
    type V = Option<RateLimitWindow>;

    closed spec fn view(&self) -> Option<RateLimitWindow> {
        self.last
    }
}

impl RateLimitTracker {
    /// A tracker that has seen no response.
    pub fn new() -> (r: Self)
        ensures
            r@ is None,
    {
        RateLimitTracker { last: None }
    }

    /// Replaces the last window.
    pub fn record(&mut self, window: RateLimitWindow)
        ensures
            final(self)@ == Some(window),
    {
        self.last = Some(window);
    }

    /// The last window, when one was seen and it says anything.
    pub fn last_window(&self) -> (r: Option<RateLimitWindow>)
        ensures
            r == snapshot(self@),
    {
        match self.last {
            Some(w) => if w.is_valid() {
                Some(w)
            } else {
                None
            },
            None => None,
        }
    }
}

/// Before any response the tracker hands out nothing; after a response whose
/// window holds a remaining count or a retry delay it hands out exactly that
/// window, and after any other response nothing.
pub proof fn lemma_snapshot_after_record(window: RateLimitWindow)
    ensures
        snapshot(None) is None,
        window.spec_is_valid() ==> snapshot(Some(window)) == Some(window),
        !window.spec_is_valid() ==> snapshot(Some(window)) is None,
{
}

} // verus!
