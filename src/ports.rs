use vstd::prelude::*;

verus! {

/// The first port that a scan tries.
pub const PORT_BASE: u16 = 4444;

/// What the port scan asks for next.
#[derive(Debug, Clone, Copy, PartialEq, Eq, Structural)]
pub enum ScanStep {
    /// Try to bind this loopback port and report whether it was in use.
    Probe(u16),
    /// The scan is over: use this port.
    Found(u16),
    /// Every port from the base up was in use.
    Exhausted,
}

/// Starts a scan: a preferred port is taken as it is, without a probe; otherwise the
/// scan probes the base port first.
pub fn scan_start(preferred: Option<u16>) -> (r: ScanStep)
    ensures
        match preferred {
            Some(p) => r == ScanStep::Found(p),
            None => r == ScanStep::Probe(PORT_BASE),
        },
{
    match preferred {
        Some(p) => ScanStep::Found(p),
        None => ScanStep::Probe(PORT_BASE),
    }
}

/// Continues a scan after port `probed` was tried: a free port ends the scan, a busy
/// one moves it to the next port, and a busy last port exhausts it.
pub fn scan_next(probed: u16, in_use: bool) -> (r: ScanStep)
    ensures
        !in_use ==> r == ScanStep::Found(probed),
        in_use && probed == u16::MAX ==> r == ScanStep::Exhausted,
        in_use && probed < u16::MAX ==> r == ScanStep::Probe((probed + 1) as u16),
{
    if !in_use {
        ScanStep::Found(probed)
    } else if probed == u16::MAX {
        ScanStep::Exhausted
    } else {
        ScanStep::Probe(probed + 1)
    }
}

/// Where a scan that probes from port `from` upward ends, when `busy` tells which ports
/// are in use.
pub open spec fn scan_from(busy: spec_fn(u16) -> bool, from: int) -> ScanStep
    decreases 65536 - from,
{
    if from < 0 || from > u16::MAX as int {
        ScanStep::Exhausted
    } else if !busy(from as u16) {
        ScanStep::Found(from as u16)
    } else {
        scan_from(busy, from + 1)
    }
}

/// Where a scan that starts from `preferred` ends.
pub open spec fn scan_result(preferred: Option<u16>, busy: spec_fn(u16) -> bool) -> ScanStep {
    match preferred {
        Some(p) => ScanStep::Found(p),
        None => scan_from(busy, PORT_BASE as int),
    }
}

/// One probe moves the scan one port up: the result of `scan_next` on the probed port
/// leads where the scan from that port leads.
pub proof fn lemma_scan_step(busy: spec_fn(u16) -> bool, probed: u16, next: ScanStep)
    requires
        !busy(probed) ==> next == ScanStep::Found(probed),
        busy(probed) && probed == u16::MAX ==> next == ScanStep::Exhausted,
        busy(probed) && probed < u16::MAX ==> next == ScanStep::Probe((probed + 1) as u16),
    ensures
        scan_from(busy, probed as int) == match next {
            ScanStep::Probe(q) => scan_from(busy, q as int),
            other => other,
        },
{
    assert(scan_from(busy, probed as int + 1) == ScanStep::Exhausted || probed < u16::MAX);
}

proof fn lemma_scan_from_first_free(busy: spec_fn(u16) -> bool, from: int)
    requires
        0 <= from <= u16::MAX as int,
    ensures
        match scan_from(busy, from) {
            ScanStep::Found(p) => from <= p && !busy(p) && forall|q: u16|
                from <= q < p ==> #[trigger] busy(q),
            ScanStep::Exhausted => forall|q: u16| from <= q ==> #[trigger] busy(q),
            ScanStep::Probe(_) => false,
        },
    decreases 65536 - from,
{
    if busy(from as u16) {
        if from < u16::MAX as int {
            lemma_scan_from_first_free(busy, from + 1);
        }
    }
}

/// A scan without a preferred port returns the lowest port from the base up that the
/// probes found free, and reports exhaustion only when every such port is in use.
pub proof fn lemma_scan_finds_lowest_free(busy: spec_fn(u16) -> bool)
    ensures
        match scan_result(None, busy) {
            ScanStep::Found(p) => PORT_BASE <= p && !busy(p) && forall|q: u16|
                PORT_BASE <= q < p ==> #[trigger] busy(q),
            ScanStep::Exhausted => forall|q: u16| PORT_BASE <= q ==> #[trigger] busy(q),
            ScanStep::Probe(_) => false,
        },
{
    lemma_scan_from_first_free(busy, PORT_BASE as int);
}

/// Scans held one after another under the port lock hand out distinct ports: once the
/// port that a scan returned is bound, a later scan, which sees it in use, returns
/// another port.
pub proof fn lemma_scans_give_distinct_ports(
    first: spec_fn(u16) -> bool,
    later: spec_fn(u16) -> bool,
    p: u16,
)
    requires
        scan_result(None, first) == ScanStep::Found(p),
        later(p),
    ensures
        scan_result(None, later) != ScanStep::Found(p),
{
    lemma_scan_finds_lowest_free(later);
}

} // verus!
