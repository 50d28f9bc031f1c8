//! Discovery: decide whether an already-running process on a probed port is
//! a compatible backend that may be adopted instead of launching a new one.
//!
//! The caller issues the HTTP probes (each with its own short timeout, so a
//! single hung connection never stalls the scan) and hands every response
//! body to `evaluate_probe_response`; a probe that fails at the network level
//! counts as "not found there" and is never an error. The candidate orders
//! and the adoption rule are fixed here.

use vstd::prelude::*;
use crate::jsonio::{json_parse, json_get, json_as_str, json_as_u64};
use crate::ports::port_range;

verus! {

/// Per-probe timeout of the exhaustive scan, in milliseconds.
pub const SCAN_PROBE_TIMEOUT_MS: u64 = 600;

/// Per-probe timeout of the quick, log-assisted scan, in milliseconds.
pub const QUICK_PROBE_TIMEOUT_MS: u64 = 200;

/// The identifier a compatible backend reports on its info endpoint.
pub open spec fn expected_identifier() -> Seq<char> {
    "super-auto-cut-video-backend"@
}

/// The compiled-in identifier constant, as executable data.
pub fn backend_identifier() -> (s: &'static str)
    ensures
        s@ == expected_identifier(),
{
    "super-auto-cut-video-backend"
}

/// The plain fields of an info-endpoint response body
/// `{ "data": { "identifier": ..., "port": ..., "boot_token": ... } }`.
pub struct InfoFields {
    /// The self-reported identifier (a response without one is dropped
    /// before these fields are built).
    pub identifier: String,
    /// The port the backend claims to listen on, when reported as an
    /// unsigned integer.
    pub port: Option<u64>,
    /// The boot token the backend was launched with, when reported.
    pub boot_token: Option<String>,
}

/// Whether the response identifies a compatible backend.
pub open spec fn spec_identifier_matches(f: InfoFields) -> bool {
    f.identifier@ == expected_identifier()
}

/// The port to adopt: the self-reported one when it fits a u16, otherwise
/// the port that was probed.
pub open spec fn spec_reported_port(f: InfoFields, probed: u16) -> u16 {
    match f.port {
        Some(n) => if n <= u16::MAX { n as u16 } else { probed },
        None => probed,
    }
}

/// The boot token to adopt; an empty token counts as absent.
pub open spec fn spec_reported_token(f: InfoFields) -> Option<Seq<char>> {
    match f.boot_token {
        Some(t) => if t@.len() > 0 { Some(t@) } else { None },
        None => None,
    }
}

/// Whether a response with these fields may be adopted: the identifier must
/// match, and under the `require_token` policy (used in production, where
/// silently adopting an unauthenticated process would be a risk) a response
/// lacking a boot token is also rejected.
pub open spec fn spec_adoptable(f: InfoFields, require_token: bool) -> bool {
    spec_identifier_matches(f) && (require_token ==> spec_reported_token(f) is Some)
}

/// Identifier mismatch rejection: a service whose info response carries a
/// different identifier is never adopted, whatever else the response says.
pub proof fn lemma_identifier_mismatch_rejected(f: InfoFields, require_token: bool)
    requires
        f.identifier@ != expected_identifier(),
    ensures
        !spec_adoptable(f, require_token),
{
}

/// Decide adoption from the plain response fields. Returns the port and
/// token to adopt exactly when the fields pass `spec_adoptable`.
pub fn evaluate_info_fields(f: &InfoFields, probed_port: u16, require_token: bool) -> (r: Option<
    (u16, Option<String>),
>)
    ensures
        r is Some <==> spec_adoptable(*f, require_token),
        r matches Some(pt) ==> pt.0 == spec_reported_port(*f, probed_port),
        r matches Some(pt) ==> (match pt.1 {
            Some(tok) => spec_reported_token(*f) == Some(tok@),
            None => spec_reported_token(*f) is None,
        }),
{
    let expected = backend_identifier().to_owned();
    if !(f.identifier == expected) {
        return None;
    }
    let port: u16 = match f.port {
        Some(n) => if n <= 65535 {
            n as u16
        } else {
            probed_port
        },
        None => probed_port,
    };
    let token: Option<String> = match &f.boot_token {
        Some(t) => if t.as_str().is_empty() {
            None
        } else {
            Some(t.clone())
        },
        None => None,
    };
    if require_token && token.is_none() {
        return None;
    }
    Some((port, token))
}

/// Extract the plain identity fields from an info-endpoint response body.
/// `None` when the body is not JSON, has no `data` object, or reports no
/// string `identifier`.
fn parse_info_body(body: &str) -> Option<InfoFields> {
    let v = match json_parse(body) {
        Some(v) => v,
        None => { return None; },
    };
    let data = match json_get(&v, "data") {
        Some(d) => d,
        None => { return None; },
    };
    let identifier = match json_get(data, "identifier") {
        Some(x) => match json_as_str(x) {
            Some(s) => s,
            None => { return None; },
        },
        None => { return None; },
    };
    let port = match json_get(data, "port") {
        Some(x) => json_as_u64(x),
        None => None,
    };
    let boot_token = match json_get(data, "boot_token") {
        Some(x) => json_as_str(x),
        None => None,
    };
    Some(InfoFields { identifier, port, boot_token })
}

/// Judge one probe response. Whatever the JSON gave, an adoption under the
/// `require_token` policy always carries a token, and an adopted token is
/// never empty.
pub fn evaluate_probe_response(body: &str, probed_port: u16, require_token: bool) -> (r: Option<
    (u16, Option<String>),
>)
    ensures
        r matches Some(pt) ==> (require_token ==> pt.1 is Some),
        r matches Some(pt) ==> (pt.1 matches Some(tok) ==> tok@.len() > 0),
{
    match parse_info_body(body) {
        Some(f) => evaluate_info_fields(&f, probed_port, require_token),
        None => None,
    }
}

/// Ports probed by the exhaustive scan, in order: the development range,
/// then the production range.
pub open spec fn spec_scan_candidates() -> Seq<u16> {
    port_range(8000, 101) + port_range(18000, 101)
}

/// The exhaustive scan's candidate ports as executable data.
pub fn scan_candidates() -> (r: Vec<u16>)
    ensures
        r@ == spec_scan_candidates(),
{
    let mut r: Vec<u16> = Vec::new();
    let mut i: u16 = 0;
    while i < 101
        invariant
            i <= 101,
            r@ == port_range(8000, i as nat),
        decreases 101 - i,
    {
        r.push(8000 + i);
        proof {
            assert(r@ =~= port_range(8000, (i + 1) as nat));
        }
        i = i + 1;
    }
    let ghost prefix: Seq<u16> = r@;
    let mut j: u16 = 0;
    while j < 101
        invariant
            j <= 101,
            r@ == prefix + port_range(18000, j as nat),
        decreases 101 - j,
    {
        r.push(18000 + j);
        proof {
            assert(r@ =~= prefix + port_range(18000, (j + 1) as nat));
        }
        j = j + 1;
    }
    proof {
        assert(r@ =~= spec_scan_candidates());
    }
    r
}

/// Ports probed by the quick, log-assisted scan: the port recovered from the
/// log first (when one was found), then the two well-known defaults. This
/// turns the O(range) exhaustive probe into O(1) in the common case where
/// the same backend keeps reusing its last port.
pub fn quick_candidates(log_port: Option<u16>) -> (r: Vec<u16>)
    ensures
        r@ == match log_port {
            Some(p) => seq![p, 18000u16, 8000u16],
            None => seq![18000u16, 8000u16],
        },
{
    let mut r: Vec<u16> = Vec::new();
    match log_port {
        Some(p) => { r.push(p); },
        None => {},
    }
    r.push(18000);
    r.push(8000);
    proof {
        match log_port {
            Some(p) => {
                assert(r@ =~= seq![p, 18000u16, 8000u16]);
            },
            None => {
                assert(r@ =~= seq![18000u16, 8000u16]);
            },
        }
    }
    r
}

/// How a start request looks for an already-running backend.
#[derive(Clone, Copy, Debug, PartialEq, Eq, Structural)]
pub enum DiscoveryPlan {
    /// Scan both full port ranges (development, where an externally started
    /// backend without a token is trusted).
    Exhaustive { require_token: bool },
    /// Check the log-recovered port and the two defaults only (production,
    /// where a token is required).
    Quick { require_token: bool },
    /// An operator forced a port; no discovery at all.
    Skip,
}

/// The discovery policy of a start request. A forced port (a positive
/// operator override) skips discovery entirely; development mode scans
/// exhaustively without requiring a token; production mode probes quickly
/// and requires one.
pub open spec fn spec_discovery_plan(dev_mode: bool, forced_port: Option<u16>) -> DiscoveryPlan {
    if spec_effective_forced_port(forced_port) is Some {
        DiscoveryPlan::Skip
    } else if dev_mode {
        DiscoveryPlan::Exhaustive { require_token: false }
    } else {
        DiscoveryPlan::Quick { require_token: true }
    }
}

/// An operator-forced port counts only when positive.
pub open spec fn spec_effective_forced_port(parsed: Option<u16>) -> Option<u16> {
    match parsed {
        Some(p) => if p > 0 {
            Some(p)
        } else {
            None
        },
        None => None,
    }
}

/// The port an operator override forces, if any; zero and absent overrides
/// force nothing.
pub fn effective_forced_port(parsed: Option<u16>) -> (r: Option<u16>)
    ensures
        r == spec_effective_forced_port(parsed),
{
    match parsed {
        Some(p) => if p > 0 {
            Some(p)
        } else {
            None
        },
        None => None,
    }
}

/// Decide how this start request discovers an existing backend.
pub fn discovery_plan(dev_mode: bool, forced_port: Option<u16>) -> (r: DiscoveryPlan)
    ensures
        r == spec_discovery_plan(dev_mode, forced_port),
{
    if effective_forced_port(forced_port).is_some() {
        DiscoveryPlan::Skip
    } else if dev_mode {
        DiscoveryPlan::Exhaustive { require_token: false }
    } else {
        DiscoveryPlan::Quick { require_token: true }
    }
}

} // verus!
