//! Counters of requests and errors, with the time of the last request.

use vstd::prelude::*;
use vstd::string::*;
use crate::kv::Attributes;
use crate::text::{decimal, push_decimal, push_str_chars, string_of, u64_to_string};

verus! {

/// The current time in UTC: chrono's `Utc::now()`, once as milliseconds
/// since 1970 by `DateTime::timestamp_millis`, once as RFC 3339 text by
/// `DateTime::to_rfc3339`. Nothing is claimed of either, which depend on the
/// clock. `Utc::now()` itself stops the program where the system clock stands
/// before 1970.
#[verifier::external_body]
pub(crate) fn utc_now() -> (now: (i64, String)) {
    let now = chrono::Utc::now();
    (now.timestamp_millis(), now.to_rfc3339())
}

/// `n + 1`, or `u64::MAX` where that does not fit.
pub open spec fn bump(n: u64) -> u64 {
    if n < u64::MAX {
        (n + 1) as u64
    } else {
        n
    }
}

/// `n + k`, or `u64::MAX` where that does not fit.
pub open spec fn bump_by(n: u64, k: nat) -> u64 {
    if n + k <= u64::MAX {
        (n + k) as u64
    } else {
        u64::MAX
    }
}

/// What a collector holds at one moment.
#[derive(Debug)]
pub struct MetricsSnapshot {
    pub requests_total: u64,
    pub errors_total: u64,
    pub last_request_time: Option<String>,
}

/// Counts requests and errors and keeps the time of the last request. The
/// counters never go down; they stop at `u64::MAX`.
#[derive(Debug)]
pub struct ServerMetrics {
    requests_total: u64,
    errors_total: u64,
    last_request_time: Option<String>,
}

impl ServerMetrics {
    /// The number of requests recorded.
    pub closed spec fn requests(&self) -> u64 {
        self.requests_total
    }

    /// The number of errors recorded.
    pub closed spec fn errors(&self) -> u64 {
        self.errors_total
    }

    /// The time of the last request, if one was recorded.
    pub closed spec fn last_request(&self) -> Option<Seq<char>> {
        match self.last_request_time {
            Some(t) => Some(t@),
            None => None,
        }
    }

    /// A collector that has seen nothing.
    pub fn new() -> (out: Self)
        ensures
            out.requests() == 0,
            out.errors() == 0,
            out.last_request() is None,
    {
        ServerMetrics { requests_total: 0, errors_total: 0, last_request_time: None }
    }

    /// Counts one request that arrived at `time`.
    pub fn record_request_at(&mut self, time: String)
        ensures
            final(self).requests() == bump(old(self).requests()),
            final(self).requests() >= old(self).requests(),
            final(self).errors() == old(self).errors(),
            final(self).last_request() == Some(time@),
    {
        if self.requests_total < u64::MAX {
            self.requests_total = self.requests_total + 1;
        }
        self.last_request_time = Some(time);
    }

    /// Counts one request that arrives now.
    pub fn record_request(&mut self)
        ensures
            final(self).requests() == bump(old(self).requests()),
            final(self).requests() >= old(self).requests(),
            final(self).errors() == old(self).errors(),
            final(self).last_request() is Some,
    {
        let now = utc_now();
        self.record_request_at(now.1);
    }

    /// Counts one error.
    pub fn record_error(&mut self)
        ensures
            final(self).errors() == bump(old(self).errors()),
            final(self).errors() >= old(self).errors(),
            final(self).requests() == old(self).requests(),
            final(self).last_request() == old(self).last_request(),
    {
        if self.errors_total < u64::MAX {
            self.errors_total = self.errors_total + 1;
        }
    }

    /// The number of requests recorded.
    pub fn requests_total(&self) -> (n: u64)
        ensures
            n == self.requests(),
    {
        self.requests_total
    }

    /// The number of errors recorded.
    pub fn errors_total(&self) -> (n: u64)
        ensures
            n == self.errors(),
    {
        self.errors_total
    }

    /// The time of the last request, if one was recorded.
    pub fn last_request_time(&self) -> (t: Option<&String>)
        ensures
            match t {
                Some(s) => self.last_request() == Some(s@),
                None => self.last_request() is None,
            },
    {
        match &self.last_request_time {
            Some(s) => Some(s),
            None => None,
        }
    }

    /// What the collector holds now. The collector stays as it is.
    pub fn snapshot(&self) -> (out: MetricsSnapshot)
        ensures
            out.requests_total == self.requests(),
            out.errors_total == self.errors(),
            match out.last_request_time {
                Some(t) => self.last_request() == Some(t@),
                None => self.last_request() is None,
            },
    {
        MetricsSnapshot {
            requests_total: self.requests_total,
            errors_total: self.errors_total,
            last_request_time: match &self.last_request_time {
                Some(t) => Some(t.clone()),
                None => None,
            },
        }
    }

    /// What `get_stats` holds: both counters in decimal, and the time of the
    /// last request where there was one.
    pub open spec fn stats(&self) -> Map<Seq<char>, Seq<char>> {
        let counters = Map::<Seq<char>, Seq<char>>::empty().insert(
            "requests_total"@,
            decimal(self.requests() as nat),
        ).insert("errors_total"@, decimal(self.errors() as nat));
        match self.last_request() {
            Some(t) => counters.insert("last_request_time"@, t),
            None => counters,
        }
    }

    /// The counters and the time of the last request, as text under their names.
    pub fn get_stats(&self) -> (out: Attributes)
        ensures
            out@ == self.stats(),
    {
        let mut out = Attributes::new();
        out.insert(String::from_str("requests_total"), u64_to_string(self.requests_total));
        out.insert(String::from_str("errors_total"), u64_to_string(self.errors_total));
        match &self.last_request_time {
            Some(t) => {
                out.insert(String::from_str("last_request_time"), t.clone());
            },
            None => {},
        }
        out
    }

    /// What `render` writes: one line `name=value` for each entry of the
    /// statistics, the counters first.
    pub open spec fn rendered(&self) -> Seq<char> {
        let counters = "requests_total="@ + decimal(self.requests() as nat) + "\n"@
            + "errors_total="@ + decimal(self.errors() as nat) + "\n"@;
        match self.last_request() {
            Some(t) => counters + "last_request_time="@ + t + "\n"@,
            None => counters,
        }
    }

    /// The statistics as plain text, one `name=value` per line.
    pub fn render(&self) -> (out: String)
        ensures
            out@ == self.rendered(),
    {
        let mut chars: Vec<char> = Vec::new();
        push_str_chars(&mut chars, "requests_total=");
        push_decimal(&mut chars, self.requests_total);
        push_str_chars(&mut chars, "\n");
        push_str_chars(&mut chars, "errors_total=");
        push_decimal(&mut chars, self.errors_total);
        push_str_chars(&mut chars, "\n");
        match &self.last_request_time {
            Some(t) => {
                push_str_chars(&mut chars, "last_request_time=");
                push_str_chars(&mut chars, t.as_str());
                push_str_chars(&mut chars, "\n");
            },
            None => {},
        }
        assert(chars@ =~= self.rendered());
        string_of(&chars)
    }
}

} // verus!
