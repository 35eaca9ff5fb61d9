//! The data model of one monitored endpoint and the rules for recording
//! the outcome of a single reachability check.

use vstd::prelude::*;

verus! {

/// The HTTP method configured for probing an endpoint. Only `Get` and
/// `Post` are implemented by the checker; configuring any other value is
/// an error surfaced at check time.
#[derive(Clone, Copy, Debug, PartialEq, Eq, Structural)]
pub enum Method {
    Get,
    Head,
    Post,
    Put,
    Delete,
    Connect,
    Options,
    Trace,
    Patch,
}

/// The reachability status recorded for an endpoint.
#[derive(Clone, Copy, Debug, PartialEq, Eq, Structural)]
pub enum Status {
    Up,
    Down,
}

/// What one completed check attempt reported: the HTTP status code of a
/// response that arrived, or a transport-level failure (DNS, connection,
/// timeout). The two kinds of failure are not distinguished in status.
#[derive(Clone, Copy, Debug, PartialEq, Eq, Structural)]
pub enum CheckOutcome {
    Completed(u16),
    Failed,
}

/// One monitored endpoint together with its live status.
///
/// `last_online` is the time of the most recent successful check, in
/// seconds since the Unix epoch; absent if no check ever succeeded.
/// `update_interval` is the number of passes between checks (60 when
/// absent); `next_update` is the internal countdown until the next check
/// is due, initialized lazily on the first pass.
#[derive(Clone, Debug)]
pub struct Website {
    pub name: String,
    pub endpoint: String,
    pub method: Method,
    pub description: Option<String>,
    pub last_online: Option<i64>,
    pub status: Status,
    pub update_interval: Option<u32>,
    pub next_update: Option<u32>,
}

impl Default for Status {
    /// An endpoint starts `Down` until a check succeeds.
    fn default() -> (r: Self)
        ensures
            r == Status::Down,
    {
        Status::Down
    }
}

/// A check succeeded exactly when a response arrived with a 2xx code.
pub open spec fn outcome_is_success(o: CheckOutcome) -> bool {
    o matches CheckOutcome::Completed(code) && 200 <= code < 300
}

/// The methods the checker implements.
pub open spec fn method_supported(m: Method) -> bool {
    m == Method::Get || m == Method::Post
}

/// The state of a website after the outcome of one check, taken at time
/// `now`, has been recorded: `Up` with a fresh `last_online` on success,
/// `Down` with `last_online` untouched otherwise.
pub open spec fn apply_outcome_spec(w: Website, o: CheckOutcome, now: i64) -> Website {
    if outcome_is_success(o) {
        Website { status: Status::Up, last_online: Some(now), ..w }
    } else {
        Website { status: Status::Down, ..w }
    }
}

impl CheckOutcome {
    /// Whether this outcome counts as a successful check (a 2xx response).
    pub fn is_success(&self) -> (r: bool)
        ensures
            r == outcome_is_success(*self),
    {
        match self {
            CheckOutcome::Completed(code) => 200 <= *code && *code < 300,
            CheckOutcome::Failed => false,
        }
    }
}

impl Method {
    /// Whether the checker can issue a request with this method.
    pub fn is_supported(&self) -> (r: bool)
        ensures
            r == method_supported(*self),
    {
        match self {
            Method::Get => true,
            Method::Post => true,
            _ => false,
        }
    }
}

/// Relies on chrono::Local::now for the current wall-clock time, reduced to
/// seconds since the Unix epoch. Nothing is assumed of the value: the clock
/// is outside the library's control.
#[verifier::external_body]
fn now_timestamp() -> i64 {
    chrono::Local::now().naive_local().and_utc().timestamp()
}

impl Website {
    /// Record the outcome of one check, taken at time `now`.
    pub fn apply_outcome(&mut self, outcome: CheckOutcome, now: i64)
        ensures
            *final(self) == apply_outcome_spec(*old(self), outcome, now),
    {
        if outcome.is_success() {
            self.status = Status::Up;
            self.last_online = Some(now);
        } else {
            self.status = Status::Down;
        }
    }

    /// Record the outcome of one check, stamping the success time from the
    /// system clock. Whatever the clock returned, the status reflects the
    /// outcome, `last_online` moves only on success, and no other field
    /// changes.
    pub fn update_status(&mut self, outcome: CheckOutcome)
        ensures
            final(self).status == (if outcome_is_success(outcome) {
                Status::Up
            } else {
                Status::Down
            }),
            outcome_is_success(outcome) ==> final(self).last_online is Some,
            !outcome_is_success(outcome) ==> final(self).last_online == old(self).last_online,
            final(self).name == old(self).name,
            final(self).endpoint == old(self).endpoint,
            final(self).method == old(self).method,
            final(self).description == old(self).description,
            final(self).update_interval == old(self).update_interval,
            final(self).next_update == old(self).next_update,
    {
        let t = now_timestamp();
        self.apply_outcome(outcome, t);
    }
}

} // verus!
