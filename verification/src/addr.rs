//! Network addresses as plain values.
use vstd::prelude::*;

verus! {

/// An IP address: version 4 as its 32-bit number, version 6 as its 128-bit number
/// (both in network byte order, most significant octet first).
#[derive(Debug, Clone, Copy, PartialEq, Eq, Structural)]
pub enum IpAddress {
    V4(u32),
    V6(u128),
}

/// An IP address and a port.
#[derive(Debug, Clone, Copy, PartialEq, Eq, Structural)]
pub struct SocketAddress {
    pub ip: IpAddress,
    pub port: u16,
}

impl SocketAddress {
    /// The address `ip:port`.
    pub fn new(ip: IpAddress, port: u16) -> (a: SocketAddress)
        ensures
            a.ip == ip,
            a.port == port,
    {
        SocketAddress { ip, port }
    }

    /// The IP part of the address.
    pub fn ip(&self) -> (ip: IpAddress)
        ensures
            ip == self.ip,
    {
        self.ip
    }

    /// The port part of the address.
    pub fn port(&self) -> (port: u16)
        ensures
            port == self.port,
    {
        self.port
    }
}

/// The IPv4 address `a.b.c.d`.
pub open spec fn v4_spec(a: u8, b: u8, c: u8, d: u8) -> u32 {
    (a * 0x100_0000 + b * 0x1_0000 + c * 0x100 + d) as u32
}

/// The IPv4 address `a.b.c.d`.
pub fn ipv4(a: u8, b: u8, c: u8, d: u8) -> (ip: IpAddress)
    ensures
        ip == IpAddress::V4(v4_spec(a, b, c, d)),
{
    IpAddress::V4((a as u32) * 0x100_0000 + (b as u32) * 0x1_0000 + (c as u32) * 0x100 + (d as u32))
}

/// The address `0.0.0.0:port`, on which a socket listens on every interface.
pub fn unspecified_v4(port: u16) -> (a: SocketAddress)
    ensures
        a == (SocketAddress { ip: IpAddress::V4(0), port }),
{
    SocketAddress { ip: IpAddress::V4(0), port }
}

/// Whether `ip` occurs in `ips`.
pub fn contains_ip(ips: &Vec<IpAddress>, ip: IpAddress) -> (found: bool)
    ensures
        found == ips@.contains(ip),
{
    let mut i: usize = 0;
    while i < ips.len()
        invariant
            0 <= i <= ips@.len(),
            forall|j: int| 0 <= j < i ==> ips@[j] != ip,
        decreases ips@.len() - i,
    {
        if ips[i] == ip {
            assert(ips@[i as int] == ip);
            return true;
        }
        i = i + 1;
    }
    false
}

/// Whether a peer at `ip` may connect, given an optional whitelist: with no
/// whitelist every address may, with one only the listed addresses may.
pub open spec fn whitelisted(whitelist: Option<Seq<IpAddress>>, ip: IpAddress) -> bool {
    match whitelist {
        None => true,
        Some(ips) => ips.contains(ip),
    }
}

/// The view of an optional whitelist.
pub open spec fn whitelist_view(whitelist: &Option<Vec<IpAddress>>) -> Option<Seq<IpAddress>> {
    match whitelist {
        None => None,
        Some(ips) => Some(ips@),
    }
}

/// Whether a peer at `ip` passes the optional whitelist.
pub fn is_peer_whitelisted(whitelist: &Option<Vec<IpAddress>>, ip: IpAddress) -> (ok: bool)
    ensures
        ok == whitelisted(whitelist_view(whitelist), ip),
{
    match whitelist {
        None => true,
        Some(ips) => contains_ip(ips, ip),
    }
}

/// Keeps, in order, the addresses whose IP passes the optional whitelist.
pub fn retain_whitelisted(addrs: Vec<SocketAddress>, whitelist: &Option<Vec<IpAddress>>) -> (kept:
    Vec<SocketAddress>)
    ensures
        kept@ == addrs@.filter(|a: SocketAddress| whitelisted(whitelist_view(whitelist), a.ip)),
{
    let mut kept: Vec<SocketAddress> = Vec::new();
    let mut i: usize = 0;
    while i < addrs.len()
        invariant
            0 <= i <= addrs@.len(),
            kept@ == addrs@.take(i as int).filter(
                |a: SocketAddress| whitelisted(whitelist_view(whitelist), a.ip),
            ),
        decreases addrs@.len() - i,
    {
        reveal_with_fuel(Seq::<_>::filter, 1);
        assert(addrs@.take(i + 1).drop_last() =~= addrs@.take(i as int));
        let a = addrs[i];
        assert(addrs@.take(i + 1).last() == a);
        if is_peer_whitelisted(whitelist, a.ip) {
            kept.push(a);
        }
        i = i + 1;
    }
    assert(addrs@.take(addrs@.len() as int) =~= addrs@);
    kept
}

/// Whether an IPv4 address (as its number) is reachable on the public internet:
/// not private (10/8, 172.16/12, 192.168/16), loopback (127/8), link-local
/// (169.254/16), broadcast (255.255.255.255), documentation (192.0.2/24,
/// 198.51.100/24, 203.0.113/24) or unspecified (0.0.0.0).
pub open spec fn ipv4_is_global(ip: u32) -> bool {
    let a = ip / 0x100_0000;
    let b = (ip / 0x1_0000) % 0x100;
    let c = (ip / 0x100) % 0x100;
    &&& a != 10
    &&& !(a == 172 && 16 <= b < 32)
    &&& !(a == 192 && b == 168)
    &&& a != 127
    &&& !(a == 169 && b == 254)
    &&& ip != 0xffff_ffff
    &&& !(a == 192 && b == 0 && c == 2)
    &&& !(a == 198 && b == 51 && c == 100)
    &&& !(a == 203 && b == 0 && c == 113)
    &&& ip != 0
}

/// Whether an IPv6 address (as its number) is global: neither loopback (::1)
/// nor unspecified (::).
pub open spec fn ipv6_is_global(ip: u128) -> bool {
    ip != 1 && ip != 0
}

/// Whether an IP address is global.
pub open spec fn ip_is_global(ip: IpAddress) -> bool {
    match ip {
        IpAddress::V4(n) => ipv4_is_global(n),
        IpAddress::V6(n) => ipv6_is_global(n),
    }
}

/// Whether an IP address is global.
pub fn ip_addr_is_global(ip: &IpAddress) -> (g: bool)
    ensures
        g == ip_is_global(*ip),
{
    match *ip {
        IpAddress::V4(n) => {
            let a = n / 0x100_0000;
            let b = (n / 0x1_0000) % 0x100;
            let c = (n / 0x100) % 0x100;
            a != 10 && !(a == 172 && 16 <= b && b < 32) && !(a == 192 && b == 168) && a != 127
                && !(a == 169 && b == 254) && n != 0xffff_ffff && !(a == 192 && b == 0 && c == 2)
                && !(a == 198 && b == 51 && c == 100) && !(a == 203 && b == 0 && c == 113) && n
                != 0
        },
        IpAddress::V6(n) => n != 1 && n != 0,
    }
}

/// Keeps, in order, the addresses with a global IP.
pub fn retain_global(addrs: &Vec<SocketAddress>) -> (kept: Vec<SocketAddress>)
    ensures
        kept@ == addrs@.filter(|a: SocketAddress| ip_is_global(a.ip)),
{
    let mut kept: Vec<SocketAddress> = Vec::new();
    let mut i: usize = 0;
    while i < addrs.len()
        invariant
            0 <= i <= addrs@.len(),
            kept@ == addrs@.take(i as int).filter(|a: SocketAddress| ip_is_global(a.ip)),
        decreases addrs@.len() - i,
    {
        reveal_with_fuel(Seq::<_>::filter, 1);
        assert(addrs@.take(i + 1).drop_last() =~= addrs@.take(i as int));
        let a = addrs[i];
        assert(addrs@.take(i + 1).last() == a);
        if ip_addr_is_global(&a.ip) {
            kept.push(a);
        }
        i = i + 1;
    }
    assert(addrs@.take(addrs@.len() as int) =~= addrs@);
    kept
}

/// Copies a list of addresses.
pub fn copy_addrs(addrs: &Vec<SocketAddress>) -> (out: Vec<SocketAddress>)
    ensures
        out@ == addrs@,
{
    let mut out: Vec<SocketAddress> = Vec::new();
    let mut i: usize = 0;
    while i < addrs.len()
        invariant
            0 <= i <= addrs@.len(),
            out@ == addrs@.take(i as int),
        decreases addrs@.len() - i,
    {
        assert(addrs@.take(i + 1) =~= addrs@.take(i as int).push(addrs@[i as int]));
        out.push(addrs[i]);
        i = i + 1;
    }
    assert(addrs@.take(addrs@.len() as int) =~= addrs@);
    out
}

} // verus!
