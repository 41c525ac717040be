//! The decisions behind the commands that change the system's DNS
//! settings and network interfaces.

use vstd::prelude::*;

use crate::dns_server::listen_address;
use crate::dns_types::texts;
use crate::ipv4::Ipv4Literal;
use crate::text::{decimal_text, join, same_text, u32_to_text};

verus! {

/// How the system's DNS servers are to be set.
#[derive(Debug)]
pub enum DnsChange {
    /// Start the proxy towards `server`, then point the interface at the
    /// proxy's listening address.
    ThroughProxy { server: String, dns_servers: Vec<String> },
    /// Point the interface at the servers as they were given.
    Direct { dns_servers: Vec<String> },
}

/// Contents of a [`DnsChange`].
pub enum DnsChangeView {
    ThroughProxy { server: Seq<char>, dns_servers: Seq<Seq<char>> },
    Direct { dns_servers: Seq<Seq<char>> },
}

impl View for DnsChange {
    type V = DnsChangeView;

    open spec fn view(&self) -> DnsChangeView {
        match self {
            DnsChange::ThroughProxy { server, dns_servers } => DnsChangeView::ThroughProxy {
                server: server@,
                dns_servers: texts(dns_servers@),
            },
            DnsChange::Direct { dns_servers } => DnsChangeView::Direct {
                dns_servers: texts(dns_servers@),
            },
        }
    }
}

/// The change that a request for DNS servers of a type asks for: the type
/// `doh` goes through the proxy, towards the first server given; any other
/// type sets the servers directly.
pub open spec fn dns_change_of(dns_servers: Seq<Seq<char>>, dns_type: Seq<char>) -> DnsChangeView {
    if dns_type == "doh"@ {
        DnsChangeView::ThroughProxy { server: dns_servers[0], dns_servers: seq!["127.0.0.2"@] }
    } else {
        DnsChangeView::Direct { dns_servers }
    }
}

/// Decides how the system's DNS servers are to be set. The type `doh`
/// needs a server to go to.
pub fn set_dns(dns_servers: Vec<String>, dns_type: &str) -> (r: DnsChange)
    requires
        dns_type@ == "doh"@ ==> dns_servers@.len() > 0,
    ensures
        r@ == dns_change_of(texts(dns_servers@), dns_type@),
{
    if same_text(dns_type, "doh") {
        let server = dns_servers[0].clone();
        let mut proxy: Vec<String> = Vec::new();
        proxy.push(listen_address());
        assert(texts(proxy@) =~= seq!["127.0.0.2"@]);
        DnsChange::ThroughProxy { server, dns_servers: proxy }
    } else {
        DnsChange::Direct { dns_servers }
    }
}

/// The interface index that a request means: the given one, or, where it
/// is 0, the best interface's, and 0 again where that is not known.
pub fn get_interface_dns_info(interface_idx: u32, best: Result<u32, String>) -> (r: u32)
    ensures
        r == if interface_idx != 0 {
            interface_idx
        } else {
            match best {
                Ok(idx) => idx,
                Err(_) => 0,
            }
        },
{
    if interface_idx != 0 {
        interface_idx
    } else {
        match best {
            Ok(idx) => idx,
            Err(_) => 0,
        }
    }
}

/// The method that switches an adapter on or off.
pub fn change_interface_state(enable: bool) -> (r: &'static str)
    ensures
        r@ == if enable {
            "Enable"@
        } else {
            "Disable"@
        },
{
    if enable {
        "Enable"
    } else {
        "Disable"
    }
}

/// What the system's answer to flushing its resolver cache means: 1 is
/// success, anything else failure.
pub fn clear_dns_cache(result: i32) -> (r: Result<(), String>)
    ensures
        result == 1 ==> r is Ok,
        result != 1 ==> (r matches Err(m) && m@ == "Failed to clear DNS cache"@),
{
    if result == 1 {
        Ok(())
    } else {
        Err("Failed to clear DNS cache".to_owned())
    }
}

/// The address as one number, its first octet the most significant.
pub open spec fn ipv4_number(ipv4: Ipv4Literal) -> int {
    ipv4.a * 0x100_0000 + ipv4.b * 0x1_0000 + ipv4.c * 0x100 + ipv4.d
}

/// The address as one number, its first octet the most significant.
pub fn ipv4_to_u32(ipv4: Ipv4Literal) -> (r: u32)
    ensures
        r == ipv4_number(ipv4),
{
    let a: u32 = ipv4.a as u32;
    let b: u32 = ipv4.b as u32;
    let c: u32 = ipv4.c as u32;
    let d: u32 = ipv4.d as u32;
    a * 0x100_0000 + b * 0x1_0000 + c * 0x100 + d
}

/// The address that the system is asked the best route for.
pub fn probe_address() -> (r: Ipv4Literal)
    ensures
        r == (Ipv4Literal { a: 8, b: 8, c: 8, d: 8 }),
{
    Ipv4Literal { a: 8, b: 8, c: 8, d: 8 }
}

/// What the system's answer to the question for the best interface means:
/// the status 0 gives the interface index, any other is an error.
pub fn get_best_interface_idx(status: u32, if_index: u32) -> (r: Result<u32, String>)
    ensures
        status == 0 ==> r == Ok::<u32, String>(if_index),
        status != 0 ==> (r matches Err(m) && m@ == "Failed to get best interface index: "@
            + decimal_text(status as nat)),
{
    if status == 0 {
        Ok(if_index)
    } else {
        Err(join("Failed to get best interface index: ", u32_to_text(status).as_str()))
    }
}

} // verus!
