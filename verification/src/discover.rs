//! Gateway discovery values and the address-preference rule.
//!
//! The network browsing itself is I/O and lives outside the library; what is
//! verified here is which of a resolved service's addresses is picked: a
//! routable IPv4 address when one exists, else anything non-loopback, else
//! whatever is left.

use vstd::prelude::*;

verus! {

/// A gateway found on the local network.
#[derive(Debug, Clone, PartialEq)]
pub struct DiscoveredGateway {
    /// Ready-to-use HTTP base URL.
    pub url: String,
    pub host: String,
    pub port: u16,
}

/// A network address as the preference rule reads it.
#[derive(Debug, Clone, Copy, PartialEq, Eq)]
pub enum NetAddr {
    V4 { octets: [u8; 4] },
    V6 { segments: [u16; 8] },
}

/// The address only reaches the local host.
pub open spec fn addr_is_loopback(a: NetAddr) -> bool {
    match a {
        NetAddr::V4 { octets } => octets[0] == 127,
        NetAddr::V6 { segments } => segments[0] == 0 && segments[1] == 0 && segments[2] == 0
            && segments[3] == 0 && segments[4] == 0 && segments[5] == 0 && segments[6] == 0
            && segments[7] == 1,
    }
}

/// Link-local addresses are not routable and are skipped.
pub open spec fn addr_is_link_local(a: NetAddr) -> bool {
    match a {
        NetAddr::V4 { octets } => octets[0] == 169 && octets[1] == 254,
        NetAddr::V6 { segments } => segments[0] & 0xffc0 == 0xfe80,
    }
}

/// The kind of address the rule prefers outright.
pub open spec fn addr_preferred(a: NetAddr) -> bool {
    a is V4 && !addr_is_loopback(a) && !addr_is_link_local(a)
}

fn is_loopback(a: &NetAddr) -> (r: bool)
    ensures
        r == addr_is_loopback(*a),
{
    match a {
        NetAddr::V4 { octets } => octets[0] == 127,
        NetAddr::V6 { segments } => segments[0] == 0 && segments[1] == 0 && segments[2] == 0
            && segments[3] == 0 && segments[4] == 0 && segments[5] == 0 && segments[6] == 0
            && segments[7] == 1,
    }
}

fn is_link_local(a: &NetAddr) -> (r: bool)
    ensures
        r == addr_is_link_local(*a),
{
    match a {
        NetAddr::V4 { octets } => octets[0] == 169 && octets[1] == 254,
        NetAddr::V6 { segments } => segments[0] & 0xffc0 == 0xfe80,
    }
}

/// Pick the address to dial: the first routable IPv4 address, else the
/// first non-loopback address, else the first address at all.
pub fn pick_gateway_addr(addrs: &Vec<NetAddr>) -> (r: Option<usize>)
    ensures
        addrs@.len() == 0 <==> r is None,
        r matches Some(i) ==> i < addrs@.len(),
        (exists|i: int| 0 <= i < addrs@.len() && addr_preferred(#[trigger] addrs@[i])) ==> (r
            matches Some(i) && addr_preferred(addrs@[i as int]) && forall|j: int|
            0 <= j < i ==> !addr_preferred(#[trigger] addrs@[j])),
        (!(exists|i: int| 0 <= i < addrs@.len() && addr_preferred(#[trigger] addrs@[i])) && (
        exists|i: int| 0 <= i < addrs@.len() && !addr_is_loopback(#[trigger] addrs@[i]))) ==> (r
            matches Some(i) && !addr_is_loopback(addrs@[i as int]) && forall|j: int|
            0 <= j < i ==> addr_is_loopback(#[trigger] addrs@[j])),
        (!(exists|i: int| 0 <= i < addrs@.len() && addr_preferred(#[trigger] addrs@[i])) && !(
        exists|i: int| 0 <= i < addrs@.len() && !addr_is_loopback(#[trigger] addrs@[i]))
            && addrs@.len() > 0) ==> r == Some(0usize),
{
    let n = addrs.len();
    let mut i: usize = 0;
    while i < n
        invariant
            0 <= i <= n,
            n == addrs@.len(),
            forall|j: int| 0 <= j < i ==> !addr_preferred(#[trigger] addrs@[j]),
        decreases n - i,
    {
        let a = &addrs[i];
        let v4 = match a {
            NetAddr::V4 { .. } => true,
            _ => false,
        };
        if v4 && !is_loopback(a) && !is_link_local(a) {
            return Some(i);
        }
        i += 1;
    }
    let mut k: usize = 0;
    while k < n
        invariant
            0 <= k <= n,
            n == addrs@.len(),
            forall|j: int| 0 <= j < k ==> addr_is_loopback(#[trigger] addrs@[j]),
            forall|j: int| 0 <= j < n ==> !addr_preferred(#[trigger] addrs@[j]),
        decreases n - k,
    {
        if !is_loopback(&addrs[k]) {
            return Some(k);
        }
        k += 1;
    }
    if n > 0 {
        Some(0)
    } else {
        None
    }
}

} // verus!
