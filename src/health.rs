//! The health snapshot: one status per dependency and an aggregate that is
//! healthy exactly when every dependency is healthy or disabled.

use vstd::prelude::*;
use vstd::string::*;
use crate::outside::now_utc;
use crate::text::same;
use crate::types::{ApiResponse, HealthStatus, Timestamp};

verus! {

/// What a dependency probe reported.
#[derive(Debug, Clone, Copy, PartialEq, Eq, Structural)]
pub enum ProbeStatus {
    Healthy,
    Unhealthy,
    Disabled,
}

pub open spec fn probe_status_of(probe: Option<bool>) -> ProbeStatus {
    match probe {
        Some(true) => ProbeStatus::Healthy,
        Some(false) => ProbeStatus::Unhealthy,
        None => ProbeStatus::Disabled,
    }
}

pub open spec fn status_text(s: ProbeStatus) -> Seq<char> {
    match s {
        ProbeStatus::Healthy => "healthy"@,
        ProbeStatus::Unhealthy => "unhealthy"@,
        ProbeStatus::Disabled => "disabled"@,
    }
}

impl ProbeStatus {
    /// The status of a probe that succeeded (`Some(true)`), failed
    /// (`Some(false)`) or is not configured (`None`).
    pub fn from_probe(probe: Option<bool>) -> (r: ProbeStatus)
        ensures
            r == probe_status_of(probe),
    {
        match probe {
            Some(true) => ProbeStatus::Healthy,
            Some(false) => ProbeStatus::Unhealthy,
            None => ProbeStatus::Disabled,
        }
    }

    pub fn as_str(&self) -> (r: &'static str)
        ensures
            r@ == status_text(*self),
    {
        match self {
            ProbeStatus::Healthy => "healthy",
            ProbeStatus::Unhealthy => "unhealthy",
            ProbeStatus::Disabled => "disabled",
        }
    }
}

/// A dependency status that does not make the service unhealthy.
pub open spec fn status_ok(v: Seq<char>) -> bool {
    v == "healthy"@ || v == "disabled"@
}

pub open spec fn all_ok(checks: Seq<(String, String)>) -> bool {
    forall|i: int| 0 <= i < checks.len() ==> #[trigger] status_ok(checks[i].1@)
}

/// `healthy` when every recorded status is `healthy` or `disabled`, and
/// `unhealthy` otherwise.
pub fn aggregate_status(checks: &Vec<(String, String)>) -> (r: String)
    ensures
        r@ == (if all_ok(checks@) {
            "healthy"@
        } else {
            "unhealthy"@
        }),
{
    let mut i: usize = 0;
    while i < checks.len()
        invariant
            i <= checks@.len(),
            forall|j: int| 0 <= j < i ==> #[trigger] status_ok(checks@[j].1@),
        decreases checks.len() - i,
    {
        let v = checks[i].1.as_str();
        let ok = same(v, "healthy") || same(v, "disabled");
        assert(status_ok(checks@[i as int].1@) == ok);
        if !ok {
            return String::from_str("unhealthy");
        }
        i = i + 1;
    }
    String::from_str("healthy")
}

pub open spec fn checks_view(checks: Seq<(String, String)>) -> Seq<(Seq<char>, Seq<char>)> {
    checks.map_values(|c: (String, String)| (c.0@, c.1@))
}

/// The dependency statuses: the database as probed, and the cache and the
/// container runtime, which are not probed and always read `healthy`.
pub open spec fn spec_checks(database: Option<bool>) -> Seq<(Seq<char>, Seq<char>)> {
    seq![
        ("database"@, status_text(probe_status_of(database))),
        ("redis"@, "healthy"@),
        ("docker"@, "healthy"@),
    ]
}

fn entry(name: &str, value: &str) -> (r: (String, String))
    ensures
        r.0@ == name@,
        r.1@ == value@,
{
    (String::from_str(name), String::from_str(value))
}

pub fn dependency_checks(database: Option<bool>) -> (r: Vec<(String, String)>)
    ensures
        checks_view(r@) == spec_checks(database),
{
    let db = ProbeStatus::from_probe(database);
    let mut checks: Vec<(String, String)> = Vec::new();
    checks.push(entry("database", db.as_str()));
    checks.push(entry("redis", "healthy"));
    checks.push(entry("docker", "healthy"));
    assert(checks_view(checks@) =~= spec_checks(database));
    checks
}

/// The health snapshot for a database probe result: unhealthy exactly when
/// the probe ran and failed.
pub fn health_status(database: Option<bool>, timestamp: Timestamp, uptime: u64) -> (r:
    HealthStatus)
    ensures
        checks_view(r.checks@) == spec_checks(database),
        r.status@ == (if database == Some(false) {
            "unhealthy"@
        } else {
            "healthy"@
        }),
        r.timestamp == timestamp,
        r.uptime == uptime,
{
    let checks = dependency_checks(database);
    let status = aggregate_status(&checks);
    proof {
        reveal_strlit("healthy");
        reveal_strlit("disabled");
        reveal_strlit("unhealthy");
        assert(checks@.len() == checks_view(checks@).len());
        assert(checks_view(checks@)[0] == (checks@[0].0@, checks@[0].1@));
        assert(checks_view(checks@)[1] == (checks@[1].0@, checks@[1].1@));
        assert(checks_view(checks@)[2] == (checks@[2].0@, checks@[2].1@));
        assert(checks@[0].1@ == status_text(probe_status_of(database)));
        assert(checks@[1].1@ == "healthy"@);
        assert(checks@[2].1@ == "healthy"@);
        if database == Some(false) {
            assert("unhealthy"@.len() == 9 && "healthy"@.len() == 7 && "disabled"@.len() == 8);
            assert(!status_ok(checks@[0].1@));
        } else {
            assert(status_ok(checks@[0].1@));
            assert(status_ok(checks@[1].1@));
            assert(status_ok(checks@[2].1@));
            assert(all_ok(checks@));
        }
    }
    HealthStatus { status, timestamp, checks, uptime }
}

/// Seconds since the Unix epoch at `now`, or zero before it.
pub open spec fn uptime_at(now: Timestamp) -> u64 {
    if now.secs < 0 {
        0
    } else {
        now.secs as u64
    }
}

pub fn uptime_from(now: Timestamp) -> (r: u64)
    ensures
        r == uptime_at(now),
{
    if now.secs < 0 {
        0
    } else {
        now.secs as u64
    }
}

/// The uptime that the health answer reports: the seconds since the Unix
/// epoch at the moment of the call.
pub fn get_uptime() -> (r: u64) {
    uptime_from(now_utc())
}

/// The answer of the health endpoint for a database probe result. It is
/// always a success envelope; degraded health is in the payload.
pub fn health_check(database: Option<bool>) -> (r: ApiResponse<HealthStatus>)
    ensures
        r.wf(),
        r.data is Some,
        checks_view(r.data.unwrap().checks@) == spec_checks(database),
        r.data.unwrap().status@ == (if database == Some(false) {
            "unhealthy"@
        } else {
            "healthy"@
        }),
{
    let now = now_utc();
    let snapshot = health_status(database, now, get_uptime());
    ApiResponse::success(snapshot)
}

} // verus!
