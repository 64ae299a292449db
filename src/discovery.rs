use vstd::prelude::*;

use crate::device::{build_device_address, device_address, Description, Device, NetworkInformation};
use crate::device_data::DeviceData;
use crate::named::Named;
use crate::request::{create_requests, requests_built};

verus! {

/// Service transport protocol.
#[derive(Debug, Clone, Copy, PartialEq, Eq, Structural)]
pub enum TransportProtocol {
    /// TCP service.
    TCP,
    /// UDP service.
    UDP,
}

/// The name of a transport protocol in a service type.
pub open spec fn protocol_text(p: TransportProtocol) -> Seq<char> {
    match p {
        TransportProtocol::TCP => "tcp"@,
        TransportProtocol::UDP => "udp"@,
    }
}

impl TransportProtocol {
    /// The name of the protocol in a service type.
    pub fn name(&self) -> (r: &'static str)
        ensures
            r@ == protocol_text(*self),
    {
        match self {
            TransportProtocol::TCP => "tcp",
            TransportProtocol::UDP => "udp",
        }
    }
}

/// The configuration of a device discovery.
#[derive(Debug, Clone, PartialEq)]
pub struct Discovery {
    /// The service domain.
    pub domain: String,
    /// The service transport protocol.
    pub transport_protocol: TransportProtocol,
    /// The service top-level domain.
    pub top_level_domain: String,
    /// How long, in milliseconds, the scan waits for the next service before
    /// it ends.
    pub timeout_millis: u64,
    /// Whether IPv6 interfaces are left out of the scan.
    pub disable_ipv6: bool,
    /// An address left out of the scan.
    pub disable_ip: Option<String>,
    /// A network interface left out of the scan.
    pub disable_network_interface: Option<String>,
}

impl Discovery {
    /// Creates a discovery of the given service domain over TCP, in the
    /// `local` top-level domain, with a quiet period of two seconds.
    pub fn new(domain: &str) -> (r: Discovery)
        ensures
            r.domain@ == domain@,
            r.transport_protocol == TransportProtocol::TCP,
            r.top_level_domain@ == "local"@,
            r.timeout_millis == 2000,
            !r.disable_ipv6,
            r.disable_ip is None,
            r.disable_network_interface is None,
    {
        Discovery {
            domain: String::from_str(domain),
            transport_protocol: TransportProtocol::TCP,
            top_level_domain: String::from_str("local"),
            timeout_millis: 2000,
            disable_ipv6: false,
            disable_ip: None,
            disable_network_interface: None,
        }
    }

    /// Sets the quiet period, in milliseconds.
    pub fn timeout(self, millis: u64) -> (r: Discovery)
        ensures
            r == (Discovery { timeout_millis: millis, ..self }),
    {
        Discovery { timeout_millis: millis, ..self }
    }

    /// Sets the service transport protocol.
    pub fn transport_protocol(self, transport_protocol: TransportProtocol) -> (r: Discovery)
        ensures
            r == (Discovery { transport_protocol, ..self }),
    {
        Discovery { transport_protocol, ..self }
    }

    /// Changes the service domain.
    pub fn domain(self, domain: &str) -> (r: Discovery)
        ensures
            r.domain@ == domain@,
            r == (Discovery { domain: r.domain, ..self }),
    {
        Discovery { domain: String::from_str(domain), ..self }
    }

    /// Sets the service top-level domain.
    pub fn top_level_domain(self, top_level_domain: &str) -> (r: Discovery)
        ensures
            r.top_level_domain@ == top_level_domain@,
            r == (Discovery { top_level_domain: r.top_level_domain, ..self }),
    {
        Discovery { top_level_domain: String::from_str(top_level_domain), ..self }
    }

    /// Leaves IPv6 interfaces out of the scan.
    pub fn disable_ipv6(self) -> (r: Discovery)
        ensures
            r == (Discovery { disable_ipv6: true, ..self }),
    {
        Discovery { disable_ipv6: true, ..self }
    }

    /// Leaves the given address out of the scan.
    pub fn disable_ip(self, ip: &str) -> (r: Discovery)
        ensures
            r.disable_ip matches Some(a) && a@ == ip@,
            r == (Discovery { disable_ip: r.disable_ip, ..self }),
    {
        Discovery { disable_ip: Some(String::from_str(ip)), ..self }
    }

    /// Leaves the given network interface out of the scan.
    pub fn disable_network_interface(self, network_interface: &str) -> (r: Discovery)
        ensures
            r.disable_network_interface matches Some(a) && a@ == network_interface@,
            r == (Discovery { disable_network_interface: r.disable_network_interface, ..self }),
    {
        Discovery { disable_network_interface: Some(String::from_str(network_interface)), ..self }
    }

    /// The service type that the scan browses:
    /// `_{domain}._{protocol}.{top-level domain}.`.
    pub fn service_type(&self) -> (r: String)
        ensures
            r@ == "_"@ + self.domain@ + "._"@ + protocol_text(self.transport_protocol) + "."@
                + self.top_level_domain@ + "."@,
    {
        let mut r = String::from_str("_");
        r.append(self.domain.as_str());
        r.append("._");
        r.append(self.transport_protocol.name());
        r.append(".");
        r.append(self.top_level_domain.as_str());
        r.append(".");
        r
    }
}

/// A service found by the scan, with its addresses as canonical text.
#[derive(Debug, Clone, PartialEq)]
pub struct ResolvedService {
    /// The full advertised name.
    pub fullname: String,
    /// The advertised addresses.
    pub addresses: Vec<String>,
    /// The advertised port.
    pub port: u16,
    /// The advertised properties.
    pub properties: Named<String>,
}

/// Whether two services share an address.
pub open spec fn share_address(a: ResolvedService, b: ResolvedService) -> bool {
    exists|i: int, j: int|
        0 <= i < a.addresses@.len() && 0 <= j < b.addresses@.len() && #[trigger] a.addresses@[i]@
            == #[trigger] b.addresses@[j]@
}

/// Whether two services are the same device: same port, and a shared
/// address or the same full name.
pub open spec fn same_device(a: ResolvedService, b: ResolvedService) -> bool {
    a.port == b.port && (share_address(a, b) || a.fullname@ == b.fullname@)
}

/// Whether `info` is the same device as one of `services`.
pub open spec fn is_duplicate(services: Seq<ResolvedService>, info: ResolvedService) -> bool {
    exists|k: int| 0 <= k < services.len() && same_device(#[trigger] services[k], info)
}

fn share_address_exec(a: &ResolvedService, b: &ResolvedService) -> (r: bool)
    ensures
        r == share_address(*a, *b),
{
    let mut i: usize = 0;
    while i < a.addresses.len()
        invariant
            i <= a.addresses@.len(),
            forall|x: int, y: int|
                0 <= x < i && 0 <= y < b.addresses@.len() ==> #[trigger] a.addresses@[x]@
                    != #[trigger] b.addresses@[y]@,
        decreases a.addresses@.len() - i,
    {
        let mut j: usize = 0;
        while j < b.addresses.len()
            invariant
                i < a.addresses@.len(),
                j <= b.addresses@.len(),
                forall|x: int, y: int|
                    0 <= x < i && 0 <= y < b.addresses@.len() ==> #[trigger] a.addresses@[x]@
                        != #[trigger] b.addresses@[y]@,
                forall|y: int| 0 <= y < j ==> a.addresses@[i as int]@ != #[trigger] b.addresses@[y]@,
            decreases b.addresses@.len() - j,
        {
            if a.addresses[i] == b.addresses[j] {
                proof {
                    assert(a.addresses@[i as int]@ == b.addresses@[j as int]@);
                }
                return true;
            }
            j = j + 1;
        }
        i = i + 1;
    }
    false
}

/// Whether `info` is the same device as a service found before.
pub fn check_device_duplicates(discovery_service: &Vec<ResolvedService>, info: &ResolvedService) -> (r:
    bool)
    ensures
        r == is_duplicate(discovery_service@, *info),
{
    let mut k: usize = 0;
    while k < discovery_service.len()
        invariant
            k <= discovery_service@.len(),
            forall|x: int| 0 <= x < k ==> !same_device(#[trigger] discovery_service@[x], *info),
        decreases discovery_service@.len() - k,
    {
        let service = &discovery_service[k];
        if service.port == info.port {
            if share_address_exec(service, info) {
                return true;
            }
            if service.fullname == info.fullname {
                return true;
            }
        }
        k = k + 1;
    }
    false
}

/// An event of the scan.
#[derive(Debug, Clone, PartialEq)]
pub enum ScanEvent {
    /// A service was resolved.
    Resolved(ResolvedService),
    /// Something else was announced.
    Other,
    /// The quiet period went by without any event.
    TimedOut,
    /// The source of events went away.
    Disconnected,
}

/// The services a scan has accepted so far, in acceptance order.
#[derive(Debug, Clone, PartialEq)]
pub struct Scan {
    /// The accepted services.
    pub services: Vec<ResolvedService>,
}

/// Whether a resolved service is accepted after `services`: it has an
/// address and is not the same device as an accepted one.
pub open spec fn accepts(services: Seq<ResolvedService>, info: ResolvedService) -> bool {
    info.addresses@.len() > 0 && !is_duplicate(services, info)
}

impl Scan {
    /// A scan that has accepted nothing yet.
    pub fn new() -> (r: Scan)
        ensures
            r.services@ == Seq::<ResolvedService>::empty(),
    {
        Scan { services: Vec::new() }
    }

    /// Takes in one event; returns whether the scan goes on. It ends when
    /// the quiet period goes by or the source goes away.
    pub fn on_event(&mut self, event: ScanEvent) -> (go_on: bool)
        ensures
            go_on == (event is Resolved || event is Other),
            match event {
                ScanEvent::Resolved(info) => if accepts(old(self).services@, info) {
                    final(self).services@ == old(self).services@.push(info)
                } else {
                    final(self).services@ == old(self).services@
                },
                _ => final(self).services@ == old(self).services@,
            },
    {
        match event {
            ScanEvent::Resolved(info) => {
                if info.addresses.len() > 0 && !check_device_duplicates(&self.services, &info) {
                    self.services.push(info);
                }
                true
            },
            ScanEvent::Other => true,
            ScanEvent::TimedOut => false,
            ScanEvent::Disconnected => false,
        }
    }
}

/// Two services with the same port and a shared address, or with the same
/// port and the same full name, are one device; two services with different
/// ports never are. A scan keeps the first and drops the second.
pub proof fn lemma_duplicate_resolution(first: ResolvedService, second: ResolvedService)
    ensures
        first.port == second.port && share_address(first, second) ==> !accepts(seq![first], second),
        first.port == second.port && first.fullname@ == second.fullname@ ==> !accepts(
            seq![first],
            second,
        ),
        first.port != second.port ==> !is_duplicate(seq![first], second),
        first.port != second.port && second.addresses@.len() > 0 ==> accepts(seq![first], second),
{
    if first.port == second.port && (share_address(first, second) || first.fullname@
        == second.fullname@) {
        assert(same_device(seq![first][0], second));
    }
}

/// The scheme of a service: its `scheme` property, or `http`.
pub open spec fn service_scheme(service: ResolvedService) -> Seq<char> {
    match service.properties.lookup("scheme"@) {
        Some(s) => s@,
        None => "http"@,
    }
}

/// The address at which the descriptor of a service is asked for, through
/// its address with the given index.
pub fn candidate_address(service: &ResolvedService, index: usize) -> (r: String)
    requires
        index < service.addresses@.len(),
    ensures
        r@ == device_address(service_scheme(*service), service.addresses@[index as int]@, service.port),
{
    let scheme = match service.properties.get("scheme") {
        Some(s) => s.as_str(),
        None => "http",
    };
    build_device_address(scheme, service.addresses[index].as_str(), service.port)
}

/// Builds the device that a service describes in the descriptor fetched at
/// `complete_address`; devices without any MAC address are refused.
pub fn device_from_descriptor(
    service: ResolvedService,
    complete_address: String,
    data: DeviceData,
) -> (r: Option<Device>)
    ensures
        r is None <==> (data.wifi_mac is None && data.ethernet_mac is None),
        r matches Some(d) ==> {
            &&& d.network_view() == (NetworkInformation {
                name: service.fullname,
                addresses: service.addresses,
                wifi_mac: data.wifi_mac,
                ethernet_mac: data.ethernet_mac,
                port: service.port,
                properties: service.properties,
                last_reachable_address: complete_address,
            })
            &&& d.description_view() == (Description {
                kind: data.kind,
                environment: data.environment,
                main_route: data.main_route,
            })
            &&& requests_built(
                d.requests_view(),
                data.route_configs.items(),
                complete_address@,
                data.main_route@,
                data.environment,
            )
            &&& d.events_view() == data.events_description
            &&& !d.receiver_running()
        },
{
    if data.wifi_mac.is_none() && data.ethernet_mac.is_none() {
        return None;
    }
    let requests = create_requests(
        data.route_configs,
        complete_address.as_str(),
        data.main_route.as_str(),
        data.environment,
    );
    let description = Description::new(data.kind, data.environment, data.main_route);
    let network_info = NetworkInformation {
        name: service.fullname,
        addresses: service.addresses,
        wifi_mac: data.wifi_mac,
        ethernet_mac: data.ethernet_mac,
        port: service.port,
        properties: service.properties,
        last_reachable_address: complete_address,
    };
    Some(Device::init(network_info, description, requests, data.events_description))
}

} // verus!
