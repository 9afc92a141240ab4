//! The addresses that are bound to the local network interfaces.

use vstd::prelude::*;
use vstd::string::*;
use crate::address::{IpAddress, Ipv4Address};
use crate::gateway::{ip_to_gateway, ip_to_gateway_spec, lemma_gateway_of_address};
use crate::text::same_text;

verus! {

/// One address of one local network interface. An interface with several
/// addresses is listed once for each.
pub struct NetworkInterface {
    pub name: String,
    pub addr: IpAddress,
}

/// The address of the chosen interface and the gateway inferred from it,
/// both in dotted-decimal notation.
pub struct RouteInfo {
    pub ip: String,
    pub gateway: String,
}

/// The first IPv4 address in `interfaces` that is bound to the interface
/// called `name`, if there is one.
pub open spec fn first_ipv4_of(interfaces: Seq<NetworkInterface>, name: Seq<char>) -> Option<
    Ipv4Address,
>
    decreases interfaces.len(),
{
    if interfaces.len() == 0 {
        None
    } else if interfaces[0].name@ == name && interfaces[0].addr is V4 {
        Some(interfaces[0].addr->V4_0)
    } else {
        first_ipv4_of(interfaces.skip(1), name)
    }
}

/// Looks up the interface called `interface` among the local addresses and
/// keeps only IPv4. The first match gives the local address and, with its
/// last octet replaced by 1, the gateway. Without a match there is nothing
/// to go by.
pub fn read_local_ip_addr(interfaces: &Vec<NetworkInterface>, interface: &str) -> (info: Option<
    RouteInfo,
>)
    ensures
        match first_ipv4_of(interfaces@, interface@) {
            Some(addr) => {
                &&& info is Some
                &&& info->0.ip@ == addr.text()
                &&& info->0.gateway@ == addr.gateway().text()
                &&& info->0.gateway@ == ip_to_gateway_spec(info->0.ip@)
            },
            None => info is None,
        },
{
    let mut i: usize = 0;
    proof {
        assert(interfaces@.skip(0) =~= interfaces@);
    }
    while i < interfaces.len()
        invariant
            i <= interfaces.len(),
            first_ipv4_of(interfaces@, interface@) == first_ipv4_of(
                interfaces@.skip(i as int),
                interface@,
            ),
        decreases interfaces.len() - i,
    {
        proof {
            assert(interfaces@.skip(i as int)[0] == interfaces@[i as int]);
            assert(interfaces@.skip(i as int).skip(1) =~= interfaces@.skip(i + 1));
        }
        match interfaces[i].addr {
            IpAddress::V4(addr) => {
                if same_text(interfaces[i].name.as_str(), interface) {
                    let ip = addr.to_text();
                    proof {
                        lemma_gateway_of_address(addr);
                    }
                    let gateway = ip_to_gateway(ip.as_str());
                    return Some(RouteInfo { ip, gateway });
                }
            },
            IpAddress::V6(_) => {},
        }
        i = i + 1;
    }
    None
}

} // verus!
