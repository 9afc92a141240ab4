//! The route that is wanted, the route that is found, and what a poll of the
//! routing table calls for.

use vstd::prelude::*;
use vstd::string::*;
use crate::interfaces::{first_ipv4_of, read_local_ip_addr, NetworkInterface};
use crate::text::same_text;

verus! {

/// Seconds between two polls of the routing table.
pub const POLL_INTERVAL_SECS: u64 = 1;

/// The default route that is to be kept in place: destination `0.0.0.0`
/// with prefix length 0, through one gateway. It is made once and has no
/// operation that changes it.
#[derive(Clone, Debug)]
pub struct DesiredRoute {
    gateway: String,
    ifindex: Option<u32>,
}

/// What a `DesiredRoute` holds.
pub struct DesiredRouteView {
    pub gateway: Seq<char>,
    pub ifindex: Option<u32>,
}

impl View for DesiredRoute {
    type V = DesiredRouteView;

    closed spec fn view(&self) -> DesiredRouteView {
        DesiredRouteView { gateway: self.gateway@, ifindex: self.ifindex }
    }
}

/// Why no desired route could be made.
#[derive(Clone, Copy, Debug, PartialEq, Eq, Structural)]
pub enum ConfigError {
    /// No IPv4 address is bound to an interface of the given name.
    InterfaceNotFound,
}

/// An entry of the routing table, as far as the route keeper reads it: the
/// destination, and the gateway if the entry names one, both as text.
#[derive(Clone, Debug)]
pub struct RouteEntry {
    pub destination: String,
    pub gateway: Option<String>,
}

/// What one query for the current default route brought.
#[derive(Clone, Debug)]
pub enum PollObservation {
    /// The query itself failed.
    QueryFailed,
    /// The table holds no default route.
    Absent,
    /// The table's current default route.
    Present(RouteEntry),
}

/// What the poll reconciler does after one query.
#[derive(Clone, Copy, Debug, PartialEq, Eq, Structural)]
pub enum PollAction {
    /// Give up: the routing table cannot be read.
    Abort,
    /// Install the desired route, whatever comes of it.
    Install,
    /// The table is as desired: wait for the next tick.
    Rest,
}

/// The destination of the default route.
pub open spec fn default_destination() -> Seq<char> {
    "0.0.0.0"@
}

/// Whether `entry` differs from the desired default route through
/// `gateway`: it is for another destination, it names no gateway, or it
/// names another one.
pub open spec fn diverges(entry: RouteEntry, gateway: Seq<char>) -> bool {
    ||| entry.destination@ != default_destination()
    ||| entry.gateway is None
    ||| entry.gateway->0@ != gateway
}

/// What one poll calls for. A query that failed ends the polling. A table
/// without default route, or with one that diverges, is repaired.
pub open spec fn poll_action(observation: PollObservation, gateway: Seq<char>) -> PollAction {
    match observation {
        PollObservation::QueryFailed => PollAction::Abort,
        PollObservation::Absent => PollAction::Install,
        PollObservation::Present(entry) => if diverges(entry, gateway) {
            PollAction::Install
        } else {
            PollAction::Rest
        },
    }
}

impl DesiredRoute {
    /// The default route through `gateway`, on interface index 0.
    pub fn new(gateway: String) -> (route: DesiredRoute)
        ensures
            route@ == (DesiredRouteView { gateway: gateway@, ifindex: Some(0u32) }),
    {
        DesiredRoute { gateway, ifindex: Some(0) }
    }

    /// The destination of the route: always `0.0.0.0`.
    pub fn destination(&self) -> (destination: &'static str)
        ensures
            destination@ == default_destination(),
    {
        "0.0.0.0"
    }

    /// The prefix length of the destination: always 0.
    pub fn prefix(&self) -> (prefix: u8)
        ensures
            prefix == 0,
    {
        0
    }

    /// The gateway of the route, as text.
    pub fn gateway(&self) -> (gateway: &str)
        ensures
            gateway@ == self@.gateway,
    {
        self.gateway.as_str()
    }

    /// The index of the interface of the route, if one is set.
    pub fn ifindex(&self) -> (ifindex: Option<u32>)
        ensures
            ifindex == self@.ifindex,
    {
        self.ifindex
    }

    /// The routing-table entry that holds exactly this route.
    pub open spec fn entry_matches(&self, entry: RouteEntry) -> bool {
        &&& entry.destination@ == default_destination()
        &&& entry.gateway is Some
        &&& entry.gateway->0@ == self@.gateway
    }
}

/// Makes the desired route for the interface called `interface`.
///
/// It fails with `InterfaceNotFound` if and only if no IPv4 address is bound
/// to an interface of that name. Otherwise the gateway is `gateway_override`
/// where that is not empty, and else the gateway inferred from the first such
/// address: its first three octets, then 1.
pub fn desired_route(
    interfaces: &Vec<NetworkInterface>,
    interface: &str,
    gateway_override: &str,
) -> (made: Result<DesiredRoute, ConfigError>)
    ensures
        match first_ipv4_of(interfaces@, interface@) {
            Some(addr) => {
                &&& made is Ok
                &&& made->Ok_0@.ifindex == Some(0u32)
                &&& made->Ok_0@.gateway == if gateway_override@.len() == 0 {
                    addr.gateway().text()
                } else {
                    gateway_override@
                }
            },
            None => made == Err::<DesiredRoute, ConfigError>(ConfigError::InterfaceNotFound),
        },
{
    match read_local_ip_addr(interfaces, interface) {
        None => Err(ConfigError::InterfaceNotFound),
        Some(info) => {
            let gateway = if gateway_override.is_empty() {
                info.gateway
            } else {
                String::from_str(gateway_override)
            };
            Ok(DesiredRoute::new(gateway))
        },
    }
}

/// Whether the routing-table entry `entry` calls for a repair.
pub fn route_diverges(entry: &RouteEntry, desired: &DesiredRoute) -> (repair: bool)
    ensures
        repair == diverges(*entry, desired@.gateway),
        repair == !desired.entry_matches(*entry),
{
    if !same_text(entry.destination.as_str(), "0.0.0.0") {
        return true;
    }
    match &entry.gateway {
        None => true,
        Some(gateway) => !same_text(gateway.as_str(), desired.gateway()),
    }
}

/// Decides what the poll reconciler does after one query for the current
/// default route.
pub fn poll_tick(observation: &PollObservation, desired: &DesiredRoute) -> (action: PollAction)
    ensures
        action == poll_action(*observation, desired@.gateway),
{
    match observation {
        PollObservation::QueryFailed => PollAction::Abort,
        PollObservation::Absent => PollAction::Install,
        PollObservation::Present(entry) => {
            if route_diverges(entry, desired) {
                PollAction::Install
            } else {
                PollAction::Rest
            }
        },
    }
}

} // verus!
