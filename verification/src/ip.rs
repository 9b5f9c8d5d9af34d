//! Subnet expansion: turning a CIDR range into the candidate host addresses,
//! excluding exactly the network and the broadcast address.
//!
//! Parsing the CIDR notation is delegated to the `ipnetwork` crate; the
//! enumeration and the dotted-quad formatting of the addresses are verified
//! here. Enumeration is supported for IPv4 networks; an IPv6 network is above
//! the supported size ceiling and is rejected as an invalid subnet rather
//! than silently truncated.

use vstd::prelude::*;
use vstd::string::StringExecFns;
use vstd::arithmetic::power2::{pow2, lemma_pow2_pos, lemma_pow2_adds, lemma_pow2_strictly_increases, lemma2_to64};
use vstd::arithmetic::div_mod::lemma_fundamental_div_mod;
use crate::text::{dec_digits, append_u64};
use crate::error::{MoonrakerError, MoonrakerResult};

verus! {

/// The dotted-quad text of an IPv4 address given as one 32-bit value.
pub open spec fn ipv4_chars(a: u32) -> Seq<char> {
    dec_digits((a as nat) / 16777216) + seq!['.'] + dec_digits(((a as nat) / 65536) % 256)
        + seq!['.'] + dec_digits(((a as nat) / 256) % 256) + seq!['.'] + dec_digits(
        (a as nat) % 256,
    )
}

/// Formats an IPv4 address as its dotted-quad string.
pub fn format_ipv4(a: u32) -> (r: String)
    ensures
        r@ == ipv4_chars(a),
{
    let mut s = String::new();
    append_u64(&mut s, (a / 16777216) as u64);
    s.append(".");
    append_u64(&mut s, ((a / 65536) % 256) as u64);
    s.append(".");
    append_u64(&mut s, ((a / 256) % 256) as u64);
    s.append(".");
    append_u64(&mut s, (a % 256) as u64);
    proof {
        reveal_strlit(".");
        assert(s@ =~= ipv4_chars(a));
    }
    s
}

/// What a CIDR string denotes: an IPv4 or IPv6 network, given by its masked
/// network address and prefix length, or nothing.
#[derive(PartialEq, Eq, Structural)]
pub enum CidrParse {
    V4 { net: u32, prefix: u8 },
    V6 { net: u128, prefix: u8 },
    Invalid,
}

/// The parse of a CIDR string. Parsing depends on the characters alone.
pub uninterp spec fn cidr_class(s: Seq<char>) -> CidrParse;

/// Relies on `ipnetwork::IpNetwork::from_str` to recognise CIDR notation, on
/// `Ipv4Network::network()` / `Ipv6Network::network()` for the masked network
/// address (the address bits below the prefix are zero), and on the
/// `prefix()` accessors, which stay within the address width.
#[verifier::external_body]
pub(crate) fn parse_cidr(s: &str) -> (r: CidrParse)
    ensures
        r == cidr_class(s@),
        r matches CidrParse::V4 { net, prefix } ==> prefix <= 32 && (net as nat) % block_size(
            prefix,
        ) == 0,
        r matches CidrParse::V6 { net, prefix } ==> prefix <= 128,
{
    match s.parse::<ipnetwork::IpNetwork>() {
        Ok(ipnetwork::IpNetwork::V4(n)) => CidrParse::V4 {
            net: u32::from(n.network()),
            prefix: n.prefix(),
        },
        Ok(ipnetwork::IpNetwork::V6(n)) => CidrParse::V6 {
            net: u128::from(n.network()),
            prefix: n.prefix(),
        },
        Err(_) => CidrParse::Invalid,
    }
}

/// The number of addresses in an IPv4 block with the given prefix length.
pub open spec fn block_size(prefix: u8) -> nat
    recommends
        prefix <= 32,
{
    pow2((32 - prefix) as nat)
}

/// The number of candidate host addresses in such a block: the block without
/// its network and broadcast addresses. A /31 or /32 block has no room for
/// both and yields no candidates.
pub open spec fn host_count(prefix: u8) -> nat
    recommends
        prefix <= 32,
{
    if prefix <= 30 {
        (block_size(prefix) - 2) as nat
    } else {
        0
    }
}

/// The address values the expansion yields, in order: the block's addresses
/// strictly between the network and the broadcast address.
pub open spec fn host_addr_values(net: u32, prefix: u8) -> Seq<int> {
    Seq::new(host_count(prefix), |i: int| net + 1 + i)
}

/// A masked network address leaves room for its whole block below 2^32.
proof fn lemma_net_block_bound(net: u32, prefix: u8)
    requires
        prefix <= 32,
        (net as nat) % block_size(prefix) == 0,
    ensures
        block_size(prefix) <= 0x1_0000_0000,
        net as nat + block_size(prefix) <= 0x1_0000_0000,
{
    let m = block_size(prefix) as int;
    let p = pow2(prefix as nat) as int;
    let n = net as int;
    lemma_pow2_pos((32 - prefix) as nat);
    lemma_pow2_pos(prefix as nat);
    lemma_pow2_adds(prefix as nat, (32 - prefix) as nat);
    lemma2_to64();
    assert(p * m == 0x1_0000_0000);
    assert(m <= 0x1_0000_0000) by (nonlinear_arith)
        requires
            p >= 1,
            m >= 1,
            p * m == 0x1_0000_0000,
    ;
    lemma_fundamental_div_mod(n, m);
    let q = n / m;
    assert(n == m * q);
    assert(n + m <= m * p) by (nonlinear_arith)
        requires
            n == m * q,
            m >= 1,
            p >= 1,
            n >= 0,
            n < m * p,
    ;
}

/// 2^e as a 64-bit value, for exponents up to 32.
fn pow2_u64(e: u8) -> (r: u64)
    requires
        e <= 32,
    ensures
        r as nat == pow2(e as nat),
{
    proof {
        lemma2_to64();
    }
    let mut r: u64 = 1;
    let mut j: u8 = 0;
    while j < e
        invariant
            j <= e,
            e <= 32,
            r as nat == pow2(j as nat),
        decreases e - j,
    {
        proof {
            lemma_pow2_adds(j as nat, 1);
            lemma2_to64();
            if (j + 1) < 32 {
                lemma_pow2_strictly_increases((j + 1) as nat, 32);
            }
        }
        r = r * 2;
        j = j + 1;
    }
    r
}

/// Enumerates the candidate host addresses of a masked IPv4 block, in
/// ascending order, as dotted-quad strings.
pub fn expand_v4(net: u32, prefix: u8) -> (r: Vec<String>)
    requires
        prefix <= 32,
        (net as nat) % block_size(prefix) == 0,
    ensures
        r@.len() == host_count(prefix),
        forall|i: int| 0 <= i < r@.len() ==> r@[i]@ == ipv4_chars((net + 1 + i) as u32),
{
    proof {
        lemma_net_block_bound(net, prefix);
    }
    let mut out: Vec<String> = Vec::new();
    if prefix > 30 {
        return out;
    }
    let size: u64 = pow2_u64(32 - prefix);
    proof {
        if (32 - prefix) < 32 {
            lemma_pow2_strictly_increases((32 - prefix) as nat, 32);
        }
        lemma_pow2_strictly_increases(1, (32 - prefix) as nat);
        lemma2_to64();
    }
    let count: u64 = size - 2;
    let mut i: u64 = 0;
    while i < count
        invariant
            prefix <= 30,
            size as nat == block_size(prefix),
            count == size - 2,
            4 <= size,
            net as nat + size as nat <= 0x1_0000_0000,
            i <= count,
            out@.len() == i,
            forall|j: int| 0 <= j < i ==> out@[j]@ == ipv4_chars((net + 1 + j) as u32),
        decreases count - i,
    {
        let addr: u32 = net + 1 + (i as u32);
        out.push(format_ipv4(addr));
        i = i + 1;
    }
    out
}

/// Law: the expansion of a supported IPv4 block (prefix at most 30) yields
/// exactly the block's addresses with the network address and the broadcast
/// address removed, so its length is the block size minus two.
pub proof fn lemma_expansion_excludes_exactly_bounds(net: u32, prefix: u8)
    requires
        prefix <= 30,
        (net as nat) % block_size(prefix) == 0,
    ensures
        host_addr_values(net, prefix).len() == block_size(prefix) - 2,
        forall|a: int| #[trigger]
            host_addr_values(net, prefix).contains(a) <==> (net <= a
                < net + block_size(prefix) && a != net && a != net + block_size(prefix) - 1),
{
    lemma2_to64();
    lemma_pow2_strictly_increases(1, (32 - prefix) as nat);
    let vals = host_addr_values(net, prefix);
    assert forall|a: int|
        (net <= a < net + block_size(prefix) && a != net && a != net + block_size(prefix)
            - 1) implies #[trigger] vals.contains(a) by {
        let i = a - net - 1;
        assert(vals[i] == a);
    }
    assert forall|a: int| #[trigger]
        vals.contains(a) implies (net <= a < net + block_size(prefix) && a != net && a != net
        + block_size(prefix) - 1) by {
        let i = choose|i: int| 0 <= i < vals.len() && vals[i] == a;
        assert(vals[i] == net + 1 + i);
    }
}

/// Generates the candidate host addresses of a subnet given in CIDR notation,
/// excluding the network and broadcast addresses. A string that does not
/// parse as an IPv4 network — malformed, or an IPv6 block, which is above the
/// supported enumeration ceiling — fails with `InvalidSubnet` carrying the
/// offending string.
pub fn generate_ip_range(subnet: &str) -> (r: MoonrakerResult<Vec<String>>)
    ensures
        (r is Ok) == (cidr_class(subnet@) is V4),
        r matches Ok(ips) ==> (cidr_class(subnet@) matches CidrParse::V4 { net, prefix }
            && ips@.len() == host_count(prefix) && (forall|i: int|
            0 <= i < ips@.len() ==> ips@[i]@ == ipv4_chars((net + 1 + i) as u32))),
        r matches Err(e) ==> (e matches MoonrakerError::InvalidSubnet(s) && s@ == subnet@),
{
    match parse_cidr(subnet) {
        CidrParse::V4 { net, prefix } => Ok(expand_v4(net, prefix)),
        _ => Err(MoonrakerError::InvalidSubnet(String::from_str(subnet))),
    }
}

/// Whether a string is a subnet in CIDR notation (IPv4 or IPv6).
pub fn is_valid_subnet(subnet: &str) -> (r: bool)
    ensures
        r == !(cidr_class(subnet@) is Invalid),
{
    match parse_cidr(subnet) {
        CidrParse::Invalid => false,
        _ => true,
    }
}

/// The network address of an IPv4 subnet given in CIDR notation.
pub fn get_network_address(subnet: &str) -> (r: MoonrakerResult<String>)
    ensures
        (r is Ok) == (cidr_class(subnet@) is V4),
        r matches Ok(s) ==> (cidr_class(subnet@) matches CidrParse::V4 { net, prefix } && s@
            == ipv4_chars(net)),
        r matches Err(e) ==> (e matches MoonrakerError::InvalidSubnet(s) && s@ == subnet@),
{
    match parse_cidr(subnet) {
        CidrParse::V4 { net, prefix: _ } => Ok(format_ipv4(net)),
        _ => Err(MoonrakerError::InvalidSubnet(String::from_str(subnet))),
    }
}

/// The number of candidate host addresses in a subnet. For an IPv6 network,
/// whose blocks are above the enumeration ceiling, a fixed estimate is
/// reported instead.
pub fn get_subnet_host_count(subnet: &str) -> (r: MoonrakerResult<u64>)
    ensures
        (r is Ok) == !(cidr_class(subnet@) is Invalid),
        r matches Ok(n) ==> (cidr_class(subnet@) matches CidrParse::V4 { net, prefix } ==> n
            == host_count(prefix)),
        r matches Ok(n) ==> (cidr_class(subnet@) is V6 ==> n == 65536),
        r matches Err(e) ==> (e matches MoonrakerError::InvalidSubnet(s) && s@ == subnet@),
{
    match parse_cidr(subnet) {
        CidrParse::V4 { net: _, prefix } => {
            if prefix > 30 {
                Ok(0)
            } else {
                proof {
                    lemma2_to64();
                    lemma_pow2_strictly_increases(1, (32 - prefix) as nat);
                }
                Ok(pow2_u64(32 - prefix) - 2)
            }
        },
        CidrParse::V6 { .. } => Ok(65536),
        CidrParse::Invalid => Err(MoonrakerError::InvalidSubnet(String::from_str(subnet))),
    }
}

} // verus!
