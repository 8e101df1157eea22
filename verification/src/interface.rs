//! Classification of the active connection medium from what the host reports
//! about its network interfaces or network services.
//!
//! Two strategies exist. One reads per-interface traffic counters, the other
//! reads the link status text of the device behind each network service. Both
//! check wireless first: a wireless and a wired link that are active together
//! classify as [`NetworkStatus::Wifi`].

use crate::text::{
    contains, lines, lines_of, lowercase_of, occurs_in, split_whitespace, texts, to_lowercase, words_of,
};
use vstd::prelude::*;

verus! {

/// The connection medium of the host.
#[derive(Clone, Copy, Debug, PartialEq, Eq, Structural)]
pub enum NetworkStatus {
    Wifi,
    Ethernet,
    Disconnected,
}

/// What a name says about the kind of link behind it.
#[derive(Clone, Copy, Debug, PartialEq, Eq, Structural)]
pub enum Medium {
    Wireless,
    Wired,
    Other,
}

/// One network interface with its cumulative traffic counters.
#[derive(Debug)]
pub struct InterfaceCounters {
    pub name: String,
    pub received: u64,
    pub transmitted: u64,
}

/// One network service with the link status text of its device; `None` where
/// no device was found for the service or the device could not be queried.
#[derive(Debug)]
pub struct ServiceLink {
    pub name: String,
    pub link_report: Option<String>,
}

/// What the lower-cased name of an interface says: wireless is checked first.
pub open spec fn interface_medium(lowered: Seq<char>) -> Medium {
    if occurs_in("wi-fi"@, lowered) || occurs_in("wireless"@, lowered) {
        Medium::Wireless
    } else if occurs_in("ethernet"@, lowered) || occurs_in("local area connection"@, lowered) {
        Medium::Wired
    } else {
        Medium::Other
    }
}

/// What the lower-cased display name of a network service says: wireless is
/// checked first.
pub open spec fn service_medium(lowered: Seq<char>) -> Medium {
    if occurs_in("wi-fi"@, lowered) {
        Medium::Wireless
    } else if occurs_in("ethernet"@, lowered) || occurs_in("lan"@, lowered) {
        Medium::Wired
    } else {
        Medium::Other
    }
}

/// Whether traffic counters show an interface as active: both must be above
/// zero.
pub open spec fn counters_active(received: u64, transmitted: u64) -> bool {
    received > 0 && transmitted > 0
}

/// Whether a device's link status text reports an active link.
pub open spec fn link_active(report: Seq<char>) -> bool {
    occurs_in("status: active"@, report)
}

/// The verdict from what was found active: wireless wins over wired.
pub open spec fn status_of(wireless: bool, wired: bool) -> NetworkStatus {
    if wireless {
        NetworkStatus::Wifi
    } else if wired {
        NetworkStatus::Ethernet
    } else {
        NetworkStatus::Disconnected
    }
}

impl InterfaceCounters {
    /// The medium this interface carries: that of its name if its counters
    /// show it active, none otherwise.
    pub open spec fn active_medium(self) -> Medium {
        if counters_active(self.received, self.transmitted) {
            interface_medium(lowercase_of(self.name@))
        } else {
            Medium::Other
        }
    }
}

impl ServiceLink {
    /// The medium this service carries: that of its name if its device
    /// reports an active link, none otherwise.
    pub open spec fn active_medium(self) -> Medium {
        match self.link_report {
            Some(report) => if link_active(report@) {
                service_medium(lowercase_of(self.name@))
            } else {
                Medium::Other
            },
            None => Medium::Other,
        }
    }
}

/// Whether one of the first `n` interfaces carries `medium`.
pub open spec fn interfaces_carry(
    interfaces: Seq<InterfaceCounters>,
    n: int,
    medium: Medium,
) -> bool {
    exists|k: int| 0 <= k < n && (#[trigger] interfaces[k]).active_medium() == medium
}

/// Whether one of the first `n` services carries `medium`.
pub open spec fn services_carry(services: Seq<ServiceLink>, n: int, medium: Medium) -> bool {
    exists|k: int| 0 <= k < n && (#[trigger] services[k]).active_medium() == medium
}

/// What the counter strategy returns for a list of interfaces.
pub open spec fn counters_status(interfaces: Seq<InterfaceCounters>) -> NetworkStatus {
    status_of(
        interfaces_carry(interfaces, interfaces.len() as int, Medium::Wireless),
        interfaces_carry(interfaces, interfaces.len() as int, Medium::Wired),
    )
}

/// What the link-status strategy returns for a list of services.
pub open spec fn services_status(services: Seq<ServiceLink>) -> NetworkStatus {
    status_of(
        services_carry(services, services.len() as int, Medium::Wireless),
        services_carry(services, services.len() as int, Medium::Wired),
    )
}

/// Classifies the lower-cased name of an interface.
pub fn classify_interface_name(lowered: &str) -> (medium: Medium)
    ensures
        medium == interface_medium(lowered@),
{
    if contains(lowered, "wi-fi") || contains(lowered, "wireless") {
        Medium::Wireless
    } else if contains(lowered, "ethernet") || contains(lowered, "local area connection") {
        Medium::Wired
    } else {
        Medium::Other
    }
}

/// Classifies the lower-cased display name of a network service.
pub fn classify_service_name(lowered: &str) -> (medium: Medium)
    ensures
        medium == service_medium(lowered@),
{
    if contains(lowered, "wi-fi") {
        Medium::Wireless
    } else if contains(lowered, "ethernet") || contains(lowered, "lan") {
        Medium::Wired
    } else {
        Medium::Other
    }
}

/// Whether a device's link status text reports an active link.
pub fn is_link_active(report: &str) -> (active: bool)
    ensures
        active == link_active(report@),
{
    contains(report, "status: active")
}

/// Turns what was found active into the verdict.
pub fn combine(wireless: bool, wired: bool) -> (status: NetworkStatus)
    ensures
        status == status_of(wireless, wired),
{
    if wireless {
        NetworkStatus::Wifi
    } else if wired {
        NetworkStatus::Ethernet
    } else {
        NetworkStatus::Disconnected
    }
}

/// The counter strategy: an interface counts for the medium of its name if
/// both of its cumulative counters are above zero.
pub fn windows_network_status(interfaces: &[InterfaceCounters]) -> (status: NetworkStatus)
    ensures
        status == counters_status(interfaces@),
{
    let mut wireless = false;
    let mut wired = false;
    let mut i: usize = 0;
    while i < interfaces.len()
        invariant
            i <= interfaces.len(),
            wireless == interfaces_carry(interfaces@, i as int, Medium::Wireless),
            wired == interfaces_carry(interfaces@, i as int, Medium::Wired),
        decreases interfaces.len() - i,
    {
        let entry = &interfaces[i];
        if entry.received > 0 && entry.transmitted > 0 {
            let lowered = to_lowercase(entry.name.as_str());
            match classify_interface_name(lowered.as_str()) {
                Medium::Wireless => {
                    wireless = true;
                },
                Medium::Wired => {
                    wired = true;
                },
                Medium::Other => {},
            }
        }
        assert(interfaces@[i as int].active_medium() == Medium::Wireless ==> wireless);
        assert(interfaces@[i as int].active_medium() == Medium::Wired ==> wired);
        i += 1;
    }
    combine(wireless, wired)
}

/// The link-status strategy: a service counts for the medium of its display
/// name if the status text of its device reports an active link.
pub fn macos_network_status(services: &[ServiceLink]) -> (status: NetworkStatus)
    ensures
        status == services_status(services@),
{
    let mut wireless = false;
    let mut wired = false;
    let mut i: usize = 0;
    while i < services.len()
        invariant
            i <= services.len(),
            wireless == services_carry(services@, i as int, Medium::Wireless),
            wired == services_carry(services@, i as int, Medium::Wired),
        decreases services.len() - i,
    {
        let entry = &services[i];
        let active = match &entry.link_report {
            Some(report) => is_link_active(report.as_str()),
            None => false,
        };
        if active {
            let lowered = to_lowercase(entry.name.as_str());
            match classify_service_name(lowered.as_str()) {
                Medium::Wireless => {
                    wireless = true;
                },
                Medium::Wired => {
                    wired = true;
                },
                Medium::Other => {},
            }
        }
        assert(services@[i as int].active_medium() == Medium::Wireless ==> wireless);
        assert(services@[i as int].active_medium() == Medium::Wired ==> wired);
        i += 1;
    }
    combine(wireless, wired)
}

/// The lines of a listing after its first line, which is a heading.
pub open spec fn after_heading(lines: Seq<Seq<char>>) -> Seq<Seq<char>> {
    if lines.len() == 0 {
        lines
    } else {
        lines.subrange(1, lines.len() as int)
    }
}

/// The index of the first line at or after `from` in which `service` occurs,
/// or the number of lines if there is none.
pub open spec fn mention_at(lines: Seq<Seq<char>>, service: Seq<char>, from: int) -> int
    decreases lines.len() - from,
{
    if from < 0 || from >= lines.len() {
        lines.len() as int
    } else if occurs_in(service, lines[from]) {
        from
    } else {
        mention_at(lines, service, from + 1)
    }
}

/// The index of the line that names the device of `service`: the line after
/// the first one in which the service's name occurs.
pub open spec fn device_line(lines: Seq<Seq<char>>, service: Seq<char>) -> Option<int> {
    let at = mention_at(lines, service, 0);
    if at + 1 < lines.len() {
        Some(at + 1)
    } else {
        None
    }
}

/// The second word of a line, if it has two.
pub open spec fn second_word(words: Seq<Seq<char>>) -> Option<Seq<char>> {
    if words.len() > 1 {
        Some(words[1])
    } else {
        None
    }
}

/// The device that a hardware-port listing gives for a service.
pub open spec fn device_of(ports: Seq<char>, service: Seq<char>) -> Option<Seq<char>> {
    match device_line(lines_of(ports), service) {
        Some(at) => second_word(words_of(lines_of(ports)[at])),
        None => None,
    }
}

/// Drops the heading line from the lines of a service listing.
pub fn drop_heading(lines: &[String]) -> (names: Vec<String>)
    ensures
        texts(names@) == after_heading(texts(lines@)),
{
    let mut names: Vec<String> = Vec::new();
    let mut i: usize = 1;
    while i < lines.len()
        invariant
            1 <= i,
            i <= lines.len() || i == 1,
            names@.len() == i - 1,
            forall|k: int| 0 <= k < names@.len() ==> (#[trigger] names@[k]) == lines@[k + 1],
        decreases lines.len() - i,
    {
        names.push(lines[i].clone());
        i += 1;
    }
    assert(texts(names@) =~= after_heading(texts(lines@)));
    names
}

/// The names of the network services in the output of the service listing.
pub fn service_names(listing: &str) -> (names: Vec<String>)
    ensures
        texts(names@) == after_heading(lines_of(listing@)),
{
    let all = lines(listing);
    drop_heading(all.as_slice())
}

/// Finds the line that names the device of `service` among the lines of a
/// hardware-port listing.
pub fn find_device_line(lines: &[String], service: &str) -> (at: Option<usize>)
    ensures
        match at {
            Some(i) => device_line(texts(lines@), service@) == Some(i as int),
            None => device_line(texts(lines@), service@) is None,
        },
{
    let mut i: usize = 0;
    while i < lines.len()
        invariant
            i <= lines.len(),
            mention_at(texts(lines@), service@, 0) == mention_at(texts(lines@), service@, i as int),
        decreases lines.len() - i,
    {
        assert(texts(lines@)[i as int] == lines@[i as int]@);
        if contains(lines[i].as_str(), service) {
            if i + 1 < lines.len() {
                return Some(i + 1);
            } else {
                return None;
            }
        }
        i += 1;
    }
    None
}

/// Picks the device name out of the words of the line that names it.
pub fn pick_device(words: &[String]) -> (device: Option<String>)
    ensures
        match device {
            Some(d) => second_word(texts(words@)) == Some(d@),
            None => second_word(texts(words@)) is None,
        },
{
    if words.len() > 1 {
        Some(words[1].clone())
    } else {
        None
    }
}

/// Looks up the device behind a network service in the output of the
/// hardware-port listing.
pub fn device_for_service(ports: &str, service: &str) -> (device: Option<String>)
    ensures
        match device {
            Some(d) => device_of(ports@, service@) == Some(d@),
            None => device_of(ports@, service@) is None,
        },
{
    let all = lines(ports);
    match find_device_line(all.as_slice(), service) {
        Some(at) => {
            assert(texts(all@)[at as int] == all@[at as int]@);
            let words = split_whitespace(all[at].as_str());
            pick_device(words.as_slice())
        },
        None => None,
    }
}

/// What a platform's query yielded.
#[derive(Debug)]
pub enum Inventory {
    /// Interfaces with traffic counters.
    Counters(Vec<InterfaceCounters>),
    /// Network services with the link status text of their devices.
    Services(Vec<ServiceLink>),
    /// The platform has no strategy, or the query failed.
    Unavailable,
}

/// What classification returns for an inventory.
pub open spec fn inventory_status(inventory: Inventory) -> NetworkStatus {
    match inventory {
        Inventory::Counters(interfaces) => counters_status(interfaces@),
        Inventory::Services(services) => services_status(services@),
        Inventory::Unavailable => NetworkStatus::Disconnected,
    }
}

/// Classifies by the strategy that fits the inventory; without one the host
/// counts as disconnected.
pub fn get_network_status(inventory: &Inventory) -> (status: NetworkStatus)
    ensures
        status == inventory_status(*inventory),
{
    match inventory {
        Inventory::Counters(interfaces) => windows_network_status(interfaces.as_slice()),
        Inventory::Services(services) => macos_network_status(services.as_slice()),
        Inventory::Unavailable => NetworkStatus::Disconnected,
    }
}

/// Precedence: when a wireless and a wired interface are active together the
/// counter strategy answers `Wifi`; it answers `Ethernet` only when no wireless
/// interface is active, and `Disconnected` only when neither kind is.
pub proof fn lemma_wireless_takes_precedence(
    interfaces: Seq<InterfaceCounters>,
    wireless: int,
)
    requires
        0 <= wireless < interfaces.len(),
        interfaces[wireless].active_medium() == Medium::Wireless,
    ensures
        counters_status(interfaces) == NetworkStatus::Wifi,
{
}

/// Precedence for the link-status strategy: one active wireless service makes
/// the answer `Wifi`, whatever else is active.
pub proof fn lemma_wireless_service_takes_precedence(services: Seq<ServiceLink>, wireless: int)
    requires
        0 <= wireless < services.len(),
        services[wireless].active_medium() == Medium::Wireless,
    ensures
        services_status(services) == NetworkStatus::Wifi,
{
}

} // verus!
