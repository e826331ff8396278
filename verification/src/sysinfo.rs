//! System network facts: active interface, gateway, local IP, DNS resolvers.
//!
//! The active interface is not the operating system's "default interface"
//! guess, which mis-picks on split-tunnel VPNs. The caller asks the kernel for
//! the local address it would use to reach the internet (a UDP `connect` that
//! sends nothing) and lists the interfaces; the interface that owns that
//! address is the active one. Only when none does is the default guess used.
use vstd::prelude::*;

use crate::net::Ipv4;

verus! {

/// What the logic reads of a network interface.
pub struct IfaceInfo {
    pub name: String,
    /// The human-friendly name that Windows exposes.
    pub friendly_name: Option<String>,
    /// Its IPv4 addresses, in the order the system lists them.
    pub ipv4: Vec<Ipv4>,
    /// The IPv4 addresses of its gateway (empty without a gateway).
    pub gateway_ipv4: Vec<Ipv4>,
}

/// Everything we can learn about the local network standpoint.
pub struct SysInfo {
    pub interface: Option<String>,
    pub gateway: Option<Ipv4>,
    pub local_ip: Option<Ipv4>,
    pub dns_servers: Vec<String>,
}

/// The egress address the kernel reported; `0.0.0.0` means it found no route.
pub open spec fn usable(addr: Option<Ipv4>) -> Option<Ipv4> {
    match addr {
        Some(ip) if !ip.spec_is_unspecified() => Some(ip),
        _ => None,
    }
}

/// The egress address, unless it is `0.0.0.0`.
pub fn usable_egress(addr: Option<Ipv4>) -> (r: Option<Ipv4>)
    ensures
        r == usable(addr),
{
    match addr {
        Some(ip) => if ip.is_unspecified() {
            None
        } else {
            Some(ip)
        },
        None => None,
    }
}

/// The first interface at or after `i` that owns `ip`, or -1.
pub open spec fn owner_index(ifs: Seq<IfaceInfo>, ip: Ipv4, i: int) -> int
    decreases ifs.len() - i,
{
    if i < 0 || i >= ifs.len() {
        -1
    } else if ifs[i].ipv4@.contains(ip) {
        i
    } else {
        owner_index(ifs, ip, i + 1)
    }
}

/// The interface that owns the egress address, if any.
pub open spec fn active_index(egress: Option<Ipv4>, ifs: Seq<IfaceInfo>) -> int {
    match usable(egress) {
        Some(ip) => owner_index(ifs, ip, 0),
        None => -1,
    }
}

fn owns(iface: &IfaceInfo, ip: Ipv4) -> (r: bool)
    ensures
        r == iface.ipv4@.contains(ip),
{
    let mut k: usize = 0;
    while k < iface.ipv4.len()
        invariant
            k <= iface.ipv4.len(),
            forall|j: int| 0 <= j < k ==> iface.ipv4@[j] != ip,
        decreases iface.ipv4.len() - k,
    {
        if iface.ipv4[k] == ip {
            assert(iface.ipv4@[k as int] == ip);
            return true;
        }
        k = k + 1;
    }
    false
}

/// The position of the interface that actually owns the egress address.
pub fn active_interface(egress: Option<Ipv4>, interfaces: &Vec<IfaceInfo>) -> (r: Option<usize>)
    ensures
        match r {
            Some(k) => active_index(egress, interfaces@) == k as int && k < interfaces@.len(),
            None => active_index(egress, interfaces@) == -1,
        },
{
    let ip = match usable_egress(egress) {
        Some(ip) => ip,
        None => return None,
    };
    let mut i: usize = 0;
    while i < interfaces.len()
        invariant
            usable(egress) == Some(ip),
            i <= interfaces.len(),
            owner_index(interfaces@, ip, 0) == owner_index(interfaces@, ip, i as int),
        decreases interfaces.len() - i,
    {
        if owns(&interfaces[i], ip) {
            return Some(i);
        }
        i = i + 1;
    }
    None
}

/// The name to show: the friendly name when there is a non-empty one.
pub open spec fn display_name(i: IfaceInfo) -> Seq<char> {
    match i.friendly_name {
        Some(f) if f@.len() > 0 => f@,
        _ => i.name@,
    }
}

/// The interface the facts are read from.
pub open spec fn chosen(egress: Option<Ipv4>, ifs: Seq<IfaceInfo>, default_iface: Option<IfaceInfo>) -> Option<IfaceInfo> {
    if active_index(egress, ifs) >= 0 {
        Some(ifs[active_index(egress, ifs)])
    } else {
        default_iface
    }
}

/// The facts that `gather` reports.
pub open spec fn gathered(
    egress: Option<Ipv4>,
    ifs: Seq<IfaceInfo>,
    default_iface: Option<IfaceInfo>,
    r: SysInfo,
) -> bool {
    let c = chosen(egress, ifs, default_iface);
    &&& match c {
        Some(i) => r.interface matches Some(n) && n@ == display_name(i),
        None => r.interface is None,
    }
    &&& r.gateway == match c {
        Some(i) => if i.gateway_ipv4@.len() > 0 {
            Some(i.gateway_ipv4@[0])
        } else {
            None
        },
        None => None,
    }
    &&& r.local_ip == match usable(egress) {
        Some(ip) => Some(ip),
        None => match c {
            Some(i) => if i.ipv4@.len() > 0 {
                Some(i.ipv4@[0])
            } else {
                None
            },
            None => None,
        },
    }
}

fn iface_facts(i: &IfaceInfo) -> (r: (String, Option<Ipv4>, Option<Ipv4>))
    ensures
        r.0@ == display_name(*i),
        r.1 == (if i.gateway_ipv4@.len() > 0 {
            Some(i.gateway_ipv4@[0])
        } else {
            None
        }),
        r.2 == (if i.ipv4@.len() > 0 {
            Some(i.ipv4@[0])
        } else {
            None
        }),
{
    let name = match &i.friendly_name {
        Some(f) => if f.as_str().unicode_len() > 0 {
            f.clone()
        } else {
            i.name.clone()
        },
        None => i.name.clone(),
    };
    let gw = if i.gateway_ipv4.len() > 0 {
        Some(i.gateway_ipv4[0])
    } else {
        None
    };
    let first = if i.ipv4.len() > 0 {
        Some(i.ipv4[0])
    } else {
        None
    };
    (name, gw, first)
}

/// Put the standpoint together: the interface that owns the egress address
/// (else `default_iface`, the system's own guess), its gateway, the local
/// address (the egress address, else the interface's first), and the DNS
/// servers.
pub fn gather(
    egress: Option<Ipv4>,
    interfaces: &Vec<IfaceInfo>,
    default_iface: Option<IfaceInfo>,
    dns_servers: Vec<String>,
) -> (r: SysInfo)
    ensures
        gathered(egress, interfaces@, default_iface, r),
        r.dns_servers == dns_servers,
        egress matches Some(ip) ==> (!(ip.a == 0 && ip.b == 0 && ip.c == 0 && ip.d == 0)
            ==> r.local_ip == Some(ip)),
        egress matches Some(ip) ==> (!(ip.a == 0 && ip.b == 0 && ip.c == 0 && ip.d == 0)
            ==> forall|k: int|
            0 <= k < interfaces@.len() && (#[trigger] interfaces@[k]).ipv4@.contains(ip)
                ==> r.interface is Some),
{
    proof {
        if let Some(ip) = egress {
            if !ip.spec_is_unspecified() {
                assert forall|k: int|
                    0 <= k < interfaces@.len() && (#[trigger] interfaces@[k]).ipv4@.contains(
                        ip,
                    ) implies chosen(egress, interfaces@, default_iface) is Some by {
                    law_egress_owner_preferred(egress, interfaces@, default_iface, ip, k);
                }
            }
        }
    }
    let egress_ip = usable_egress(egress);
    let facts = match active_interface(egress, interfaces) {
        Some(k) => Some(iface_facts(&interfaces[k])),
        None => match &default_iface {
            Some(d) => Some(iface_facts(d)),
            None => None,
        },
    };
    match facts {
        Some((name, gw, first)) => SysInfo {
            interface: Some(name),
            gateway: gw,
            local_ip: match egress_ip {
                Some(ip) => Some(ip),
                None => first,
            },
            dns_servers,
        },
        None => SysInfo {
            interface: None,
            gateway: None,
            local_ip: egress_ip,
            dns_servers,
        },
    }
}

/// An interface that owns the egress address is preferred to the system's
/// default guess, which is consulted only when none does.
pub proof fn law_egress_owner_preferred(
    egress: Option<Ipv4>,
    ifs: Seq<IfaceInfo>,
    default_iface: Option<IfaceInfo>,
    ip: Ipv4,
    k: int,
)
    requires
        usable(egress) == Some(ip),
        0 <= k < ifs.len(),
        ifs[k].ipv4@.contains(ip),
    ensures
        chosen(egress, ifs, default_iface) matches Some(c) && c.ipv4@.contains(ip),
{
    lemma_owner_index(ifs, ip, 0);
}

proof fn lemma_owner_index(ifs: Seq<IfaceInfo>, ip: Ipv4, i: int)
    requires
        0 <= i,
    ensures
        owner_index(ifs, ip, i) == -1 || (i <= owner_index(ifs, ip, i) < ifs.len()
            && ifs[owner_index(ifs, ip, i)].ipv4@.contains(ip)),
        owner_index(ifs, ip, i) == -1 ==> forall|j: int|
            i <= j < ifs.len() ==> !(#[trigger] ifs[j]).ipv4@.contains(ip),
    decreases ifs.len() - i,
{
    if i < ifs.len() && !ifs[i].ipv4@.contains(ip) {
        lemma_owner_index(ifs, ip, i + 1);
    }
}

} // verus!
