use vstd::prelude::*;
use vstd::std_specs::iter::IteratorSpec;

use crate::device_data::{DeviceEnvironment, DeviceKind, EventsDescription};
use crate::error::{Error, ErrorKind};
use crate::hazards::Hazards;
use crate::named::Named;
use crate::parameters::ParametersData;
use crate::request::{create_requests, requests_built, Request};
use crate::route::{RestKind, ResponseKind, RouteConfigs};
use crate::text::{decimal, push_decimal};

verus! {

/// The address of a device: scheme, host and port.
pub open spec fn device_address(scheme: Seq<char>, address: Seq<char>, port: u16) -> Seq<char> {
    scheme + "://"@ + address + ":"@ + decimal(port as nat)
}

/// Builds the address of a device from a scheme, a host address and a port.
pub fn build_device_address(scheme: &str, address: &str, port: u16) -> (r: String)
    ensures
        r@ == device_address(scheme@, address@, port),
{
    let mut r = String::from_str(scheme);
    r.append("://");
    r.append(address);
    r.append(":");
    push_decimal(&mut r, port as u64);
    r
}

/// All data needed to contact a device in a network.
///
/// Addresses are held as their canonical text.
#[derive(Debug, Clone, PartialEq)]
pub struct NetworkInformation {
    /// Device complete name.
    pub name: String,
    /// Device addresses.
    pub addresses: Vec<String>,
    /// Device Wi-Fi MAC address.
    pub wifi_mac: Option<[u8; 6]>,
    /// Device Ethernet MAC address.
    pub ethernet_mac: Option<[u8; 6]>,
    /// Device port.
    pub port: u16,
    /// Device properties.
    pub properties: Named<String>,
    /// The last address at which the device answered.
    pub last_reachable_address: String,
}

impl NetworkInformation {
    /// Creates network information without MAC addresses.
    pub fn new(
        name: String,
        addresses: Vec<String>,
        port: u16,
        properties: Named<String>,
        last_reachable_address: String,
    ) -> (r: NetworkInformation)
        ensures
            r == (NetworkInformation {
                name,
                addresses,
                wifi_mac: None,
                ethernet_mac: None,
                port,
                properties,
                last_reachable_address,
            }),
    {
        NetworkInformation {
            name,
            addresses,
            wifi_mac: None,
            ethernet_mac: None,
            port,
            properties,
            last_reachable_address,
        }
    }

    /// Sets the Wi-Fi MAC address.
    pub fn wifi_mac(self, mac: [u8; 6]) -> (r: NetworkInformation)
        ensures
            r == (NetworkInformation { wifi_mac: Some(mac), ..self }),
    {
        NetworkInformation { wifi_mac: Some(mac), ..self }
    }

    /// Sets the Ethernet MAC address.
    pub fn ethernet_mac(self, mac: [u8; 6]) -> (r: NetworkInformation)
        ensures
            r == (NetworkInformation { ethernet_mac: Some(mac), ..self }),
    {
        NetworkInformation { ethernet_mac: Some(mac), ..self }
    }
}

/// All properties which describe a device.
#[derive(Debug, Clone, PartialEq)]
pub struct Description {
    /// Device kind.
    pub kind: DeviceKind,
    /// Device environment.
    pub environment: DeviceEnvironment,
    /// Device main route.
    pub main_route: String,
}

impl Description {
    /// Creates a description.
    pub fn new(kind: DeviceKind, environment: DeviceEnvironment, main_route: String) -> (r:
        Description)
        ensures
            r == (Description { kind, environment, main_route }),
    {
        Description { kind, environment, main_route }
    }
}

/// What a device route offers, for listing.
pub struct RequestInfo<'a> {
    /// Route path.
    pub route: &'a str,
    /// Route description.
    pub description: Option<&'a str>,
    /// Method.
    pub rest_kind: RestKind,
    /// Route hazards.
    pub hazards: &'a Hazards,
    /// Route parameters.
    pub parameters_data: &'a ParametersData,
    /// Response kind.
    pub response_kind: ResponseKind,
}

impl<'a> RequestInfo<'a> {
    /// The information of a request under the given route path.
    pub fn new(route: &'a str, request: &'a Request) -> (r: RequestInfo<'a>)
        ensures
            r.route == route,
            r.rest_kind == request.kind,
            *r.hazards == request.hazards,
            *r.parameters_data == request.parameters_data,
            r.response_kind == request.response_kind,
            match (r.description, request.description) {
                (Some(a), Some(b)) => a@ == b@,
                (None, None) => true,
                _ => false,
            },
    {
        RequestInfo {
            route,
            description: match &request.description {
                Some(d) => Some(d.as_str()),
                None => None,
            },
            rest_kind: request.kind,
            hazards: &request.hazards,
            parameters_data: &request.parameters_data,
            response_kind: request.response_kind,
        }
    }
}

/// A compliant device: how to reach it, what it is, its requests keyed by
/// route path, and its event support.
#[derive(Debug, PartialEq)]
pub struct Device {
    network_info: NetworkInformation,
    description: Description,
    requests: Named<Request>,
    events: Option<EventsDescription>,
    event_receiver_running: bool,
}

/// Whether starting an event receiver on a device is refused: it already
/// runs one, or the device has no events.
pub open spec fn start_refused(device: Device) -> bool {
    device.receiver_running() || device.events_view() is None
}

impl Device {
    /// How to reach the device.
    pub closed spec fn network_view(&self) -> NetworkInformation {
        self.network_info
    }

    /// What the device is.
    pub closed spec fn description_view(&self) -> Description {
        self.description
    }

    /// The requests of the device, keyed by route path.
    pub closed spec fn requests_view(&self) -> Named<Request> {
        self.requests
    }

    /// Where the device publishes events; `None` when it has none.
    pub closed spec fn events_view(&self) -> Option<EventsDescription> {
        self.events
    }

    /// Whether an event receiver runs for the device.
    pub closed spec fn receiver_running(&self) -> bool {
        self.event_receiver_running
    }

    /// Creates a device without events from its network information, its
    /// description and its route configurations.
    pub fn new(
        network_info: NetworkInformation,
        description: Description,
        route_configs: RouteConfigs,
    ) -> (r: Device)
        ensures
            r.network_view() == network_info,
            r.description_view() == description,
            requests_built(
                r.requests_view(),
                route_configs.items(),
                network_info.last_reachable_address@,
                description.main_route@,
                description.environment,
            ),
            r.events_view() is None,
            !r.receiver_running(),
    {
        let requests = create_requests(
            route_configs,
            network_info.last_reachable_address.as_str(),
            description.main_route.as_str(),
            description.environment,
        );
        Device { network_info, description, requests, events: None, event_receiver_running: false }
    }

    /// Creates a device from its parts; no event receiver runs for it.
    pub fn init(
        network_info: NetworkInformation,
        description: Description,
        requests: Named<Request>,
        events: Option<EventsDescription>,
    ) -> (r: Device)
        ensures
            r.network_view() == network_info,
            r.description_view() == description,
            r.requests_view() == requests,
            r.events_view() == events,
            !r.receiver_running(),
    {
        Device { network_info, description, requests, events, event_receiver_running: false }
    }

    /// How to reach the device.
    pub fn network_info(&self) -> (r: &NetworkInformation)
        ensures
            *r == self.network_view(),
    {
        &self.network_info
    }

    /// What the device is.
    pub fn description(&self) -> (r: &Description)
        ensures
            *r == self.description_view(),
    {
        &self.description
    }

    /// Where the device publishes events; `None` when it has none.
    pub fn events_metadata(&self) -> (r: Option<&EventsDescription>)
        ensures
            match r {
                Some(e) => self.events_view() == Some(*e),
                None => self.events_view() is None,
            },
    {
        match &self.events {
            Some(e) => Some(e),
            None => None,
        }
    }

    /// The information of every request, in route order.
    pub fn requests_info(&self) -> (r: Vec<RequestInfo<'_>>)
        ensures
            r@.len() == self.requests_view().names().len(),
            forall|i: int|
                0 <= i < r@.len() ==> {
                    &&& (#[trigger] r@[i]).route@ == self.requests_view().names()[i]
                    &&& r@[i].rest_kind == self.requests_view().values()[i].kind
                    &&& *r@[i].hazards == self.requests_view().values()[i].hazards
                    &&& *r@[i].parameters_data == self.requests_view().values()[i].parameters_data
                    &&& r@[i].response_kind == self.requests_view().values()[i].response_kind
                },
    {
        let n = self.requests.len();
        let mut r: Vec<RequestInfo<'_>> = Vec::new();
        let mut i: usize = 0;
        while i < n
            invariant
                n as nat == self.requests.names().len(),
                n as nat == self.requests.values().len(),
                i <= n,
                r@.len() == i,
                forall|j: int|
                    0 <= j < i ==> {
                        &&& (#[trigger] r@[j]).route@ == self.requests.names()[j]
                        &&& r@[j].rest_kind == self.requests.values()[j].kind
                        &&& *r@[j].hazards == self.requests.values()[j].hazards
                        &&& *r@[j].parameters_data == self.requests.values()[j].parameters_data
                        &&& r@[j].response_kind == self.requests.values()[j].response_kind
                    },
            decreases n - i,
        {
            let info = RequestInfo::new(self.requests.name_at(i).as_str(), self.requests.value_at(i));
            r.push(info);
            i = i + 1;
        }
        r
    }

    /// The number of requests of the device.
    pub fn requests_count(&self) -> (r: usize)
        ensures
            r as nat == self.requests_view().names().len(),
    {
        self.requests.len()
    }

    /// The request under the given route path, if any.
    pub fn request(&self, route: &str) -> (r: Option<&Request>)
        ensures
            match r {
                Some(req) => self.requests_view().lookup(route@) == Some(*req),
                None => self.requests_view().lookup(route@) is None,
            },
    {
        self.requests.get(route)
    }

    /// Whether the device publishes events.
    pub fn has_events(&self) -> (r: bool)
        ensures
            r == (self.events_view() is Some),
    {
        self.events.is_some()
    }

    /// Whether an event receiver runs for the device.
    pub fn is_event_receiver_running(&self) -> (r: bool)
        ensures
            r == self.receiver_running(),
    {
        self.event_receiver_running
    }

    /// Decides whether an event receiver may start for the device with index
    /// `id`: on success, where to subscribe.
    pub fn start_event_receiver(&self, id: usize) -> (r: Result<EventsDescription, Error>)
        ensures
            r is Err <==> start_refused(*self),
            r matches Ok(e) ==> self.events_view() == Some(e),
            r matches Err(e) ==> e.kind == ErrorKind::Events,
            self.receiver_running() ==> (r matches Err(e) && e.description@
                == "Event receiver already started for device with id `"@ + decimal(id as nat)
                + "`"@),
            !self.receiver_running() && self.events_view() is None ==> (r matches Err(e)
                && e.description@ == "The device with `"@ + decimal(id as nat)
                + "` does not support events"@),
    {
        if self.event_receiver_running {
            let mut message = String::from_str("Event receiver already started for device with id `");
            push_decimal(&mut message, id as u64);
            message.append("`");
            return Err(Error::new(ErrorKind::Events, message.as_str()));
        }
        match &self.events {
            None => {
                let mut message = String::from_str("The device with `");
                push_decimal(&mut message, id as u64);
                message.append("` does not support events");
                Err(Error::new(ErrorKind::Events, message.as_str()))
            },
            Some(events) => Ok(events.duplicate()),
        }
    }

    /// Records that an event receiver now runs for the device.
    pub fn event_receiver_started(&mut self)
        ensures
            final(self).receiver_running(),
            final(self).network_view() == old(self).network_view(),
            final(self).description_view() == old(self).description_view(),
            final(self).requests_view() == old(self).requests_view(),
            final(self).events_view() == old(self).events_view(),
    {
        self.event_receiver_running = true;
    }

    /// Records that the event receiver of the device has terminated.
    pub fn event_receiver_stopped(&mut self)
        ensures
            !final(self).receiver_running(),
            final(self).network_view() == old(self).network_view(),
            final(self).description_view() == old(self).description_view(),
            final(self).requests_view() == old(self).requests_view(),
            final(self).events_view() == old(self).events_view(),
    {
        self.event_receiver_running = false;
    }
}

/// Once an event receiver runs for a device, starting another one is
/// refused until the first has stopped.
pub proof fn lemma_second_start_refused(device: Device)
    requires
        device.receiver_running(),
    ensures
        start_refused(device),
{
}

/// A collection of devices; a device's index is its identifier.
#[derive(Debug, PartialEq)]
pub struct Devices {
    devices: Vec<Device>,
}

impl View for Devices {
    type V = Seq<Device>;

    closed spec fn view(&self) -> Seq<Device> {
        self.devices@
    }
}

impl Devices {
    /// Creates an empty collection.
    pub fn new() -> (r: Devices)
        ensures
            r@ == Seq::<Device>::empty(),
    {
        Devices { devices: Vec::new() }
    }

    /// Creates a collection from a vector of devices, in its order.
    pub fn from_devices(devices: Vec<Device>) -> (r: Devices)
        ensures
            r@ == devices@,
    {
        Devices { devices }
    }

    /// Adds a device at the end.
    pub fn add(&mut self, device: Device)
        ensures
            final(self)@ == old(self)@.push(device),
    {
        self.devices.push(device);
    }

    /// Whether the collection is empty.
    pub fn is_empty(&self) -> (r: bool)
        ensures
            r == (self@.len() == 0),
    {
        self.devices.len() == 0
    }

    /// The number of devices.
    pub fn len(&self) -> (r: usize)
        ensures
            r as nat == self@.len(),
    {
        self.devices.len()
    }

    /// The device with the given index, if any.
    pub fn get(&self, index: usize) -> (r: Option<&Device>)
        ensures
            index < self@.len() ==> r == Some(&self@[index as int]),
            index >= self@.len() ==> r is None,
    {
        if index < self.devices.len() {
            Some(&self.devices[index])
        } else {
            None
        }
    }

    /// Records whether an event receiver runs for the device with the given
    /// index.
    pub fn set_event_receiver_running(&mut self, index: usize, running: bool)
        requires
            index < old(self)@.len(),
        ensures
            final(self)@.len() == old(self)@.len(),
            final(self)@[index as int].receiver_running() == running,
            final(self)@[index as int].events_view() == old(self)@[index as int].events_view(),
            final(self)@[index as int].requests_view() == old(self)@[index as int].requests_view(),
            final(self)@[index as int].network_view() == old(self)@[index as int].network_view(),
            final(self)@[index as int].description_view() == old(
                self,
            )@[index as int].description_view(),
            forall|j: int| 0 <= j < old(self)@.len() && j != index ==> final(self)@[j] == old(self)@[j],
    {
        let mut device = self.devices.remove(index);
        if running {
            device.event_receiver_started();
        } else {
            device.event_receiver_stopped();
        }
        self.devices.insert(index, device);
    }

    /// An iterator over the devices, in index order.
    pub fn iter(&self) -> (r: std::slice::Iter<'_, Device>)
        ensures
            r.remaining().len() == self@.len(),
            forall|i: int| 0 <= i < self@.len() ==> *(#[trigger] r.remaining()[i]) == self@[i],
    {
        proof {
            broadcast use vstd::std_specs::slice::axiom_spec_slice_iter;
        }
        self.devices.as_slice().iter()
    }

    /// Takes the devices out of the collection, in order.
    pub fn into_vec(self) -> (r: Vec<Device>)
        ensures
            r@ == self@,
    {
        self.devices
    }
}

} // verus!
