//! Port arbitration: pick the TCP port a freshly launched backend should
//! bind, with a deterministic preference order.
//!
//! The arbiter itself performs no network I/O. The caller probes each
//! candidate port for bindability and hands the verdicts back; the functions
//! here fix the candidate order and the selection rule. There is no
//! reservation guarantee: a chosen port may be taken by another process
//! before the child binds it, which the readiness waiter then reports.

use vstd::prelude::*;

verus! {

/// Base of the low, memorable range preferred by development launches.
pub const DEV_BASE_PORT: u16 = 8000;

/// Base of the high range preferred by production launches, chosen to avoid
/// colliding with common developer tooling.
pub const SECONDARY_BASE_PORT: u16 = 18000;

/// Number of consecutive ports scanned in each range, base included.
pub const PORT_SCAN_SPAN: u16 = 101;

/// What the arbiter settled on.
#[derive(Clone, Copy, Debug, PartialEq, Eq, Structural)]
pub enum PortDecision {
    /// A candidate port that was reported free when probed.
    Free(u16),
    /// No candidate was free; ask the operating system for an ephemeral
    /// port, falling back to `SECONDARY_BASE_PORT` if even that fails.
    OsEphemeral,
    /// No candidate was free; fall back to the originally preferred port.
    /// The caller must treat a subsequent readiness failure as expected.
    LastResort(u16),
}

/// The consecutive ports `lo`, `lo + 1`, ..., `lo + count - 1`.
pub open spec fn port_range(lo: u16, count: nat) -> Seq<u16>
    recommends
        lo + count <= u16::MAX + 1,
{
    Seq::new(count, |i: int| (lo + i) as u16)
}

/// The order in which candidate ports are probed. Development mode checks
/// the preferred base first, then its surrounding range, then the secondary
/// range; production mode scans the high range before the low one.
pub open spec fn spec_port_candidates(dev_mode: bool) -> Seq<u16> {
    if dev_mode {
        seq![DEV_BASE_PORT] + port_range(DEV_BASE_PORT, PORT_SCAN_SPAN as nat) + port_range(
            SECONDARY_BASE_PORT,
            PORT_SCAN_SPAN as nat,
        )
    } else {
        port_range(SECONDARY_BASE_PORT, PORT_SCAN_SPAN as nat) + port_range(
            DEV_BASE_PORT,
            PORT_SCAN_SPAN as nat,
        )
    }
}

/// The candidate ports, in probe order, as executable data.
pub fn port_candidates(dev_mode: bool) -> (r: Vec<u16>)
    ensures
        r@ == spec_port_candidates(dev_mode),
{
    let mut r: Vec<u16> = Vec::new();
    if dev_mode {
        r.push(DEV_BASE_PORT);
    }
    let first_base: u16 = if dev_mode {
        DEV_BASE_PORT
    } else {
        SECONDARY_BASE_PORT
    };
    let second_base: u16 = if dev_mode {
        SECONDARY_BASE_PORT
    } else {
        DEV_BASE_PORT
    };
    let ghost prefix: Seq<u16> = r@;
    let mut i: u16 = 0;
    while i < PORT_SCAN_SPAN
        invariant
            i <= PORT_SCAN_SPAN,
            first_base + PORT_SCAN_SPAN <= u16::MAX,
            r@ == prefix + port_range(first_base, i as nat),
        decreases PORT_SCAN_SPAN - i,
    {
        r.push(first_base + i);
        proof {
            assert(r@ =~= prefix + port_range(first_base, (i + 1) as nat));
        }
        i = i + 1;
    }
    let ghost mid: Seq<u16> = r@;
    let mut j: u16 = 0;
    while j < PORT_SCAN_SPAN
        invariant
            j <= PORT_SCAN_SPAN,
            second_base + PORT_SCAN_SPAN <= u16::MAX,
            r@ == mid + port_range(second_base, j as nat),
        decreases PORT_SCAN_SPAN - j,
    {
        r.push(second_base + j);
        proof {
            assert(r@ =~= mid + port_range(second_base, (j + 1) as nat));
        }
        j = j + 1;
    }
    proof {
        assert(r@ =~= spec_port_candidates(dev_mode));
    }
    r
}

/// Index of the first `true` verdict at or after position `i`.
pub open spec fn first_true_index(free: Seq<bool>, i: int) -> Option<int>
    decreases free.len() - i,
{
    if i < 0 || i >= free.len() {
        None
    } else if free[i] {
        Some(i)
    } else {
        first_true_index(free, i + 1)
    }
}

/// A prefix of `false` verdicts does not change where the scan settles.
proof fn lemma_first_true_skip(free: Seq<bool>, k: int)
    requires
        0 <= k <= free.len(),
        forall|j: int| 0 <= j < k ==> !free[j],
    ensures
        first_true_index(free, 0) == first_true_index(free, k),
    decreases k,
{
    if k > 0 {
        lemma_first_true_skip(free, k - 1);
        assert(first_true_index(free, k - 1) == first_true_index(free, k));
    }
}

/// If some verdict at or after `k` is `true`, the scan finds one.
proof fn lemma_first_true_found(free: Seq<bool>, k: int)
    requires
        0 <= k <= free.len(),
        exists|j: int| k <= j < free.len() && free[j],
    ensures
        first_true_index(free, k) matches Some(i) && k <= i < free.len() && free[i],
    decreases free.len() - k,
{
    if k < free.len() && !free[k] {
        lemma_first_true_found(free, k + 1);
    }
}

/// Select the port a launch should use, given one bindability verdict per
/// candidate (`free[i]` reports whether candidate `i` could be bound when
/// probed). The first free candidate wins; with none free, development mode
/// falls back to the preferred base while production mode defers to an
/// OS-assigned ephemeral port.
pub fn select_port(dev_mode: bool, free: &Vec<bool>) -> (d: PortDecision)
    requires
        free@.len() == spec_port_candidates(dev_mode).len(),
    ensures
        match first_true_index(free@, 0) {
            Some(i) => d == PortDecision::Free(spec_port_candidates(dev_mode)[i]),
            None => if dev_mode {
                d == PortDecision::LastResort(DEV_BASE_PORT)
            } else {
                d == PortDecision::OsEphemeral
            },
        },
{
    let candidates = port_candidates(dev_mode);
    let mut i: usize = 0;
    while i < free.len()
        invariant
            0 <= i <= free@.len(),
            free@.len() == spec_port_candidates(dev_mode).len(),
            candidates@ == spec_port_candidates(dev_mode),
            forall|j: int| 0 <= j < i ==> !free@[j],
        decreases free@.len() - i,
    {
        if free[i] {
            proof {
                lemma_first_true_skip(free@, i as int);
            }
            return PortDecision::Free(candidates[i]);
        }
        i = i + 1;
    }
    proof {
        lemma_first_true_skip(free@, free@.len() as int);
    }
    if dev_mode {
        PortDecision::LastResort(DEV_BASE_PORT)
    } else {
        PortDecision::OsEphemeral
    }
}

/// Port arbitration fallback: if every candidate in the primary development
/// range (the preferred base and ports 8000 through 8100) is occupied while
/// some port of the secondary range is free, the scan settles on a free port
/// within 18000..=18100.
pub proof fn lemma_secondary_range_fallback(free: Seq<bool>)
    requires
        free.len() == spec_port_candidates(true).len(),
        forall|j: int| 0 <= j < 102 ==> !free[j],
        exists|j: int| 102 <= j < free.len() && free[j],
    ensures
        first_true_index(free, 0) matches Some(i) && 102 <= i < free.len() && free[i]
            && SECONDARY_BASE_PORT <= spec_port_candidates(true)[i] && spec_port_candidates(true)[i]
            <= SECONDARY_BASE_PORT + PORT_SCAN_SPAN - 1,
{
    lemma_first_true_skip(free, 102);
    lemma_first_true_found(free, 102);
}

} // verus!
