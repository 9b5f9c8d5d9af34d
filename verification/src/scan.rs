//! Orchestration of one discovery pass: expansion of the enabled subnets into
//! candidates, batching under the two concurrency ceilings, selection of the
//! port-open addresses for the API phase, and aggregation into a scan result.
//!
//! The caller drives the two probing phases: it probes one batch at a time —
//! so at no point are more probes in flight than the batch ceiling — and
//! feeds the outcomes back in.

use vstd::prelude::*;
use crate::config::{PORT_SCAN_CONCURRENCY, API_SCAN_CONCURRENCY};
use crate::error::{MoonrakerError, MoonrakerResult};
use crate::host::{HostInfo, SubnetConfig, ScanResult};
use crate::ip::{CidrParse, cidr_class, host_count, ipv4_chars, parse_cidr, expand_v4};

verus! {

/// One candidate address of a scan, paired with its owning subnet's range.
#[derive(Debug, Clone)]
pub struct ScanCandidate {
    pub ip: String,
    pub subnet: String,
}

/// The (address, subnet) views of a candidate list.
pub open spec fn candidate_views(c: Seq<ScanCandidate>) -> Seq<(Seq<char>, Seq<char>)> {
    c.map_values(|x: ScanCandidate| (x.ip@, x.subnet@))
}

/// The candidate views one subnet contributes: each address of its expansion,
/// in order, paired with the subnet's range. A disabled subnet contributes
/// nothing.
pub open spec fn spec_subnet_candidates(s: SubnetConfig) -> Seq<(Seq<char>, Seq<char>)> {
    if !s.enabled {
        Seq::empty()
    } else {
        match cidr_class(s.range@) {
            CidrParse::V4 { net, prefix } => Seq::new(
                host_count(prefix),
                |i: int| (ipv4_chars((net + 1 + i) as u32), s.range@),
            ),
            _ => Seq::empty(),
        }
    }
}

/// All candidates of a subnet list, in list order.
pub open spec fn spec_scan_candidates(subnets: Seq<SubnetConfig>) -> Seq<(Seq<char>, Seq<char>)>
    decreases subnets.len(),
{
    if subnets.len() == 0 {
        Seq::empty()
    } else {
        spec_scan_candidates(subnets.drop_last()) + spec_subnet_candidates(subnets.last())
    }
}

/// Whether every enabled subnet of the list parses as an IPv4 network.
pub open spec fn spec_all_subnets_valid(subnets: Seq<SubnetConfig>) -> bool {
    forall|i: int|
        0 <= i < subnets.len() ==> (#[trigger] subnets[i].enabled ==> cidr_class(
            subnets[i].range@,
        ) is V4)
}

/// Validates and expands every enabled subnet, pairing each candidate address
/// with its owning subnet. Any invalid enabled subnet — malformed, or an IPv6
/// block above the enumeration ceiling — aborts the whole call with
/// `InvalidSubnet`, however many other subnets are valid: no partial scan on
/// bad input.
pub fn expand_subnets(subnets: &Vec<SubnetConfig>) -> (r: MoonrakerResult<Vec<ScanCandidate>>)
    ensures
        (r is Ok) == spec_all_subnets_valid(subnets@),
        r matches Ok(c) ==> candidate_views(c@) == spec_scan_candidates(subnets@),
        r matches Err(e) ==> (e matches MoonrakerError::InvalidSubnet(s) && exists|i: int|
            0 <= i < subnets@.len() && (#[trigger] subnets@[i].enabled) && !(cidr_class(
                subnets@[i].range@,
            ) is V4) && s@ == subnets@[i].range@),
{
    let mut out: Vec<ScanCandidate> = Vec::new();
    let mut i: usize = 0;
    while i < subnets.len()
        invariant
            i <= subnets@.len(),
            forall|k: int|
                0 <= k < i ==> (#[trigger] subnets@[k].enabled ==> cidr_class(
                    subnets@[k].range@,
                ) is V4),
            candidate_views(out@) == spec_scan_candidates(subnets@.take(i as int)),
        decreases subnets@.len() - i,
    {
        let ghost prev = out@;
        let s = &subnets[i];
        if s.enabled {
            match parse_cidr(s.range.as_str()) {
                CidrParse::V4 { net, prefix } => {
                    let ips = expand_v4(net, prefix);
                    let mut j: usize = 0;
                    while j < ips.len()
                        invariant
                            j <= ips@.len(),
                            out@.len() == prev.len() + j,
                            forall|k: int| 0 <= k < prev.len() ==> out@[k] == prev[k],
                            forall|k: int|
                                prev.len() <= k < out@.len() ==> (#[trigger] out@[k]).ip == ips@[k
                                    - prev.len()] && out@[k].subnet@ == s.range@,
                        decreases ips@.len() - j,
                    {
                        out.push(ScanCandidate { ip: ips[j].clone(), subnet: s.range.clone() });
                        j = j + 1;
                    }
                },
                _ => {
                    return Err(MoonrakerError::InvalidSubnet(s.range.clone()));
                },
            }
        }
        proof {
            assert(subnets@.take(i as int + 1).drop_last() =~= subnets@.take(i as int));
            assert(subnets@.take(i as int + 1).last() == subnets@[i as int]);
            assert(candidate_views(out@) =~= candidate_views(prev) + spec_subnet_candidates(
                subnets@[i as int],
            ));
            assert(candidate_views(out@) == spec_scan_candidates(subnets@.take(i as int + 1)));
        }
        i = i + 1;
    }
    proof {
        assert(subnets@.take(subnets@.len() as int) =~= subnets@);
    }
    Ok(out)
}

/// The addresses of a candidate list, in order.
pub fn candidate_ips(candidates: &Vec<ScanCandidate>) -> (r: Vec<String>)
    ensures
        r@.len() == candidates@.len(),
        forall|i: int| 0 <= i < r@.len() ==> r@[i] == (#[trigger] candidates@[i]).ip,
{
    let mut r: Vec<String> = Vec::new();
    let mut i: usize = 0;
    while i < candidates.len()
        invariant
            i <= candidates@.len(),
            r@.len() == i,
            forall|k: int| 0 <= k < i ==> r@[k] == (#[trigger] candidates@[k]).ip,
        decreases candidates@.len() - i,
    {
        r.push(candidates[i].ip.clone());
        i = i + 1;
    }
    r
}

/// The owning subnet of an address: that of its first candidate entry.
pub fn find_subnet(candidates: &Vec<ScanCandidate>, ip: &String) -> (r: Option<String>)
    ensures
        r matches Some(s) ==> exists|i: int|
            0 <= i < candidates@.len() && (#[trigger] candidates@[i]).ip@ == ip@
                && candidates@[i].subnet@ == s@ && (forall|k: int|
                0 <= k < i ==> (#[trigger] candidates@[k]).ip@ != ip@),
        r is None ==> forall|i: int|
            0 <= i < candidates@.len() ==> (#[trigger] candidates@[i]).ip@ != ip@,
{
    let mut i: usize = 0;
    while i < candidates.len()
        invariant
            i <= candidates@.len(),
            forall|k: int| 0 <= k < i ==> (#[trigger] candidates@[k]).ip@ != ip@,
        decreases candidates@.len() - i,
    {
        if candidates[i].ip.eq(ip) {
            proof {
                assert((candidates@[i as int]).ip@ == ip@ && (forall|k: int|
                    0 <= k < i as int ==> (#[trigger] candidates@[k]).ip@ != ip@));
            }
            return Some(candidates[i].subnet.clone());
        }
        i = i + 1;
    }
    None
}

/// The length of batch `b` when `total` items are split under a ceiling.
pub open spec fn spec_batch_len(total: int, ceiling: int, b: int) -> int {
    if total - b * ceiling < ceiling {
        total - b * ceiling
    } else {
        ceiling
    }
}

/// How many of `total` items the first `n` batches cover.
pub open spec fn spec_covered(total: int, ceiling: int, n: int) -> int {
    if n * ceiling < total {
        n * ceiling
    } else {
        total
    }
}

/// Splits the addresses into consecutive batches of at most `ceiling` items;
/// every batch but the last is full, and none is empty. The caller probes one
/// batch at a time, so no more than `ceiling` probes are ever in flight.
pub fn make_batches(items: &Vec<String>, ceiling: usize) -> (r: Vec<Vec<String>>)
    requires
        ceiling >= 1,
    ensures
        forall|b: int|
            0 <= b < r@.len() ==> 0 < (#[trigger] r@[b])@.len() <= ceiling && r@[b]@.len()
                == spec_batch_len(items@.len() as int, ceiling as int, b),
        forall|b: int, k: int|
            0 <= b < r@.len() && 0 <= k < r@[b]@.len() ==> b * ceiling + k < items@.len() && (
            #[trigger] r@[b]@[k]) == items@[b * ceiling + k],
        items@.len() == 0 ==> r@.len() == 0,
        items@.len() > 0 ==> (r@.len() - 1) * ceiling < items@.len() <= r@.len() * ceiling,
{
    let mut r: Vec<Vec<String>> = Vec::new();
    let mut start: usize = 0;
    proof {
        assert(spec_covered(items@.len() as int, ceiling as int, 0) == 0);
    }
    while start < items.len()
        invariant
            ceiling >= 1,
            start <= items@.len(),
            start == spec_covered(items@.len() as int, ceiling as int, r@.len() as int),
            forall|b: int|
                0 <= b < r@.len() ==> 0 < (#[trigger] r@[b])@.len() <= ceiling && r@[b]@.len()
                    == spec_batch_len(items@.len() as int, ceiling as int, b),
            forall|b: int, k: int|
                0 <= b < r@.len() && 0 <= k < r@[b]@.len() ==> b * ceiling + k < items@.len() && (
                #[trigger] r@[b]@[k]) == items@[b * ceiling + k],
        decreases items@.len() - start,
    {
        let remaining = items.len() - start;
        let size = if remaining < ceiling {
            remaining
        } else {
            ceiling
        };
        let mut batch: Vec<String> = Vec::new();
        let mut k: usize = 0;
        while k < size
            invariant
                k <= size,
                size <= ceiling,
                start + size <= items@.len(),
                items@.len() <= usize::MAX,
                batch@.len() == k,
                forall|t: int| 0 <= t < k ==> (#[trigger] batch@[t]) == items@[start + t],
            decreases size - k,
        {
            batch.push(items[start + k].clone());
            k = k + 1;
        }
        let ghost old_r = r@;
        let ghost old_start = start as int;
        r.push(batch);
        start = start + size;
        proof {
            let total = items@.len() as int;
            let c = ceiling as int;
            let n = old_r.len() as int;
            assert(n * c < total);
            assert((n + 1) * c == n * c + c) by (nonlinear_arith);
            assert(start == spec_covered(total, c, n + 1));
            assert(forall|b: int| 0 <= b < n ==> r@[b] == old_r[b]);
            assert(r@[n]@.len() == spec_batch_len(total, c, n));
            assert forall|b: int, k: int|
                0 <= b < r@.len() && 0 <= k < r@[b]@.len() implies b * c + k < total && (
            #[trigger] r@[b]@[k]) == items@[b * c + k] by {
                if b == n {
                    assert(r@[b]@[k] == items@[old_start + k]);
                }
            }
        }
    }
    proof {
        let total = items@.len() as int;
        let c = ceiling as int;
        let n = r@.len() as int;
        if total == 0 && n > 0 {
            assert(r@[0]@.len() > 0);
            assert(r@[0]@[0] == items@[0 * c + 0]);
            assert(false);
        }
        if total > 0 {
            assert(start == spec_covered(total, c, n));
            assert(total <= n * c);
            assert(n > 0) by {
                if n == 0 {
                    assert(spec_covered(total, c, 0) == 0);
                }
            }
            assert(r@[n - 1]@.len() == spec_batch_len(total, c, n - 1));
            assert((n - 1) * c < total);
        }
    }
    r
}

/// Batches the candidate addresses of the port-probing phase under the port
/// concurrency ceiling.
pub fn port_scan_batches(ips: &Vec<String>) -> (r: Vec<Vec<String>>)
    ensures
        forall|b: int|
            0 <= b < r@.len() ==> 0 < (#[trigger] r@[b])@.len() <= PORT_SCAN_CONCURRENCY
                && r@[b]@.len() == spec_batch_len(
                ips@.len() as int,
                PORT_SCAN_CONCURRENCY as int,
                b,
            ),
        forall|b: int, k: int|
            0 <= b < r@.len() && 0 <= k < r@[b]@.len() ==> b * PORT_SCAN_CONCURRENCY + k
                < ips@.len() && (#[trigger] r@[b]@[k]) == ips@[b * PORT_SCAN_CONCURRENCY + k],
        ips@.len() == 0 ==> r@.len() == 0,
        ips@.len() > 0 ==> (r@.len() - 1) * PORT_SCAN_CONCURRENCY < ips@.len() <= r@.len()
            * PORT_SCAN_CONCURRENCY,
{
    make_batches(ips, PORT_SCAN_CONCURRENCY)
}

/// Batches the port-open addresses of the API phase under the smaller API
/// concurrency ceiling.
pub fn api_scan_batches(ips: &Vec<String>) -> (r: Vec<Vec<String>>)
    ensures
        forall|b: int|
            0 <= b < r@.len() ==> 0 < (#[trigger] r@[b])@.len() <= API_SCAN_CONCURRENCY
                && r@[b]@.len() == spec_batch_len(
                ips@.len() as int,
                API_SCAN_CONCURRENCY as int,
                b,
            ),
        forall|b: int, k: int|
            0 <= b < r@.len() && 0 <= k < r@[b]@.len() ==> b * API_SCAN_CONCURRENCY + k
                < ips@.len() && (#[trigger] r@[b]@[k]) == ips@[b * API_SCAN_CONCURRENCY + k],
        ips@.len() == 0 ==> r@.len() == 0,
        ips@.len() > 0 ==> (r@.len() - 1) * API_SCAN_CONCURRENCY < ips@.len() <= r@.len()
            * API_SCAN_CONCURRENCY,
{
    make_batches(ips, API_SCAN_CONCURRENCY)
}

/// The outcome of one port probe.
#[derive(Debug, Clone)]
pub struct PortProbeResult {
    pub ip: String,
    pub open: bool,
}

/// The addresses whose port probe succeeded, in probe order.
pub open spec fn spec_open_addrs(results: Seq<PortProbeResult>) -> Seq<String>
    decreases results.len(),
{
    if results.len() == 0 {
        Seq::empty()
    } else {
        spec_open_addrs(results.drop_last()) + (if results.last().open {
            seq![results.last().ip]
        } else {
            Seq::empty()
        })
    }
}

/// Collects the addresses whose port probe succeeded; these and only these go
/// on to the API phase.
pub fn select_open(results: &Vec<PortProbeResult>) -> (r: Vec<String>)
    ensures
        r@ == spec_open_addrs(results@),
{
    let mut r: Vec<String> = Vec::new();
    let mut i: usize = 0;
    while i < results.len()
        invariant
            i <= results@.len(),
            r@ == spec_open_addrs(results@.take(i as int)),
        decreases results@.len() - i,
    {
        proof {
            assert(results@.take(i + 1 as int).drop_last() =~= results@.take(i as int));
            assert(results@.take(i + 1 as int).last() == results@[i as int]);
        }
        if results[i].open {
            r.push(results[i].ip.clone());
        }
        proof {
            assert(r@ =~= spec_open_addrs(results@.take(i + 1 as int)));
        }
        i = i + 1;
    }
    proof {
        assert(results@.take(results@.len() as int) =~= results@);
    }
    r
}

/// Law: an address goes on to the API phase iff some port probe of it
/// succeeded — a host whose port probe failed never triggers an API probe.
pub proof fn lemma_api_only_for_port_open(results: Seq<PortProbeResult>, ip: Seq<char>)
    ensures
        spec_open_addrs(results).map_values(|s: String| s@).contains(ip) <==> exists|i: int|
            0 <= i < results.len() && (#[trigger] results[i]).open && results[i].ip@ == ip,
    decreases results.len(),
{
    let opened = spec_open_addrs(results).map_values(|s: String| s@);
    if results.len() == 0 {
        assert(!opened.contains(ip));
    } else {
        let prefix = results.drop_last();
        lemma_api_only_for_port_open(prefix, ip);
        let sub = spec_open_addrs(prefix).map_values(|s: String| s@);
        let full = spec_open_addrs(results).map_values(|s: String| s@);
        assert(full =~= sub + (if results.last().open {
            seq![results.last().ip@]
        } else {
            Seq::<Seq<char>>::empty()
        }));
        if full.contains(ip) {
            let j = choose|j: int| 0 <= j < full.len() && full[j] == ip;
            if j < sub.len() {
                assert(sub.contains(ip));
                let i = choose|i: int|
                    0 <= i < prefix.len() && (#[trigger] prefix[i]).open && prefix[i].ip@ == ip;
                assert(results[i] == prefix[i]);
            } else {
                assert(results.last().open && results.last().ip@ == ip);
                assert(results[results.len() - 1].open);
            }
        }
        if exists|i: int|
            0 <= i < results.len() && (#[trigger] results[i]).open && results[i].ip@ == ip {
            let i = choose|i: int|
                0 <= i < results.len() && (#[trigger] results[i]).open && results[i].ip@ == ip;
            if i < results.len() - 1 {
                assert(prefix[i] == results[i]);
                assert(sub.contains(ip));
                let j = choose|j: int| 0 <= j < sub.len() && sub[j] == ip;
                assert(full[j] == ip);
            } else {
                assert(full[full.len() - 1] == ip);
            }
        }
    }
}

/// The records of the hosts that were classified online, in probe order; a
/// host that could not be classified is simply not included.
pub open spec fn spec_found_hosts(outcomes: Seq<Option<HostInfo>>) -> Seq<HostInfo>
    decreases outcomes.len(),
{
    if outcomes.len() == 0 {
        Seq::empty()
    } else {
        (match outcomes.first() {
            Some(h) => seq![h],
            None => Seq::empty(),
        }) + spec_found_hosts(outcomes.drop_first())
    }
}

/// Aggregates one scan into its result: the discovered records in probe
/// order, the count of candidate addresses the scan considered, the online
/// count, and the completion flag at 100. A single host's failure never
/// aborts the batch — a failed host is absorbed as "not included".
pub fn assemble_scan_result(total_candidates: usize, outcomes: Vec<Option<HostInfo>>) -> (r:
    ScanResult)
    ensures
        r.total_hosts == total_candidates,
        r.scan_progress == 100,
        r.hosts@ == spec_found_hosts(outcomes@),
        r.online_hosts == spec_found_hosts(outcomes@).len(),
{
    let ghost all = outcomes@;
    let mut remaining = outcomes;
    let mut hosts: Vec<HostInfo> = Vec::new();
    while remaining.len() > 0
        invariant
            hosts@ + spec_found_hosts(remaining@) == spec_found_hosts(all),
        decreases remaining@.len(),
    {
        let o = remaining.remove(0);
        let ghost prev = hosts@;
        match o {
            Some(h) => {
                hosts.push(h);
            },
            None => {
            },
        }
        proof {
            assert(hosts@ + spec_found_hosts(remaining@) =~= prev + (match o {
                Some(h) => seq![h],
                None => Seq::<HostInfo>::empty(),
            }) + spec_found_hosts(remaining@));
        }
    }
    proof {
        assert(spec_found_hosts(remaining@) =~= Seq::<HostInfo>::empty());
        assert(hosts@ =~= spec_found_hosts(all));
    }
    let online = hosts.len();
    ScanResult { hosts, total_hosts: total_candidates, online_hosts: online, scan_progress: 100 }
}

} // verus!
