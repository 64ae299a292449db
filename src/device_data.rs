use vstd::prelude::*;

use crate::route::RouteConfigs;

verus! {

/// A kind of device type, for firmware authors that name their own kinds.
pub trait DeviceKindTrait {
    /// The display name of the kind.
    fn name(&self) -> &'static str;
}

/// A device kind.
#[derive(Debug, Clone, Copy, PartialEq, Eq, Structural)]
pub enum DeviceKind {
    /// Unknown.
    Unknown,
    /// Light.
    Light,
}

impl DeviceKind {
    /// The name of the kind.
    pub fn description(self) -> (r: &'static str)
        ensures
            r@ == match self {
                DeviceKind::Unknown => "Unknown"@,
                DeviceKind::Light => "Light"@,
            },
    {
        match self {
            DeviceKind::Unknown => "Unknown",
            DeviceKind::Light => "Light",
        }
    }
}

/// The JSON text of a device kind in a descriptor: its name, quoted.
pub open spec fn kind_json(kind: DeviceKind) -> Seq<char> {
    match kind {
        DeviceKind::Unknown => "\"Unknown\""@,
        DeviceKind::Light => "\"Light\""@,
    }
}

impl DeviceKind {
    /// The JSON text of the kind in a descriptor.
    pub fn to_json(&self) -> (r: String)
        ensures
            r@ == kind_json(*self),
    {
        match self {
            DeviceKind::Unknown => String::from_str("\"Unknown\""),
            DeviceKind::Light => String::from_str("\"Light\""),
        }
    }

    /// Reads a kind from its JSON text in a descriptor.
    pub fn from_json(text: &str) -> (r: Option<DeviceKind>)
        ensures
            r matches Some(k) ==> kind_json(k) == text@,
            (exists|k: DeviceKind| kind_json(k) == text@) ==> r is Some,
    {
        let t = String::from_str(text);
        if t == String::from_str("\"Unknown\"") {
            Some(DeviceKind::Unknown)
        } else if t == String::from_str("\"Light\"") {
            Some(DeviceKind::Light)
        } else {
            None
        }
    }
}

/// The runtime a device runs on, which decides how requests are built.
#[derive(Debug, Clone, Copy, PartialEq, Eq, Structural)]
pub enum DeviceEnvironment {
    /// A general-purpose operating system.
    Os,
    /// An Esp32 microcontroller.
    Esp32,
}

/// The JSON text of a device environment in a descriptor: its name, quoted.
pub open spec fn environment_json(environment: DeviceEnvironment) -> Seq<char> {
    match environment {
        DeviceEnvironment::Os => "\"Os\""@,
        DeviceEnvironment::Esp32 => "\"Esp32\""@,
    }
}

impl DeviceEnvironment {
    /// The JSON text of the environment in a descriptor.
    pub fn to_json(&self) -> (r: String)
        ensures
            r@ == environment_json(*self),
    {
        match self {
            DeviceEnvironment::Os => String::from_str("\"Os\""),
            DeviceEnvironment::Esp32 => String::from_str("\"Esp32\""),
        }
    }

    /// Reads an environment from its JSON text in a descriptor.
    pub fn from_json(text: &str) -> (r: Option<DeviceEnvironment>)
        ensures
            r matches Some(e) ==> environment_json(e) == text@,
            (exists|e: DeviceEnvironment| environment_json(e) == text@) ==> r is Some,
    {
        let t = String::from_str(text);
        if t == String::from_str("\"Os\"") {
            Some(DeviceEnvironment::Os)
        } else if t == String::from_str("\"Esp32\"") {
            Some(DeviceEnvironment::Esp32)
        } else {
            None
        }
    }
}

/// Distinct kinds have distinct JSON texts, so reading the text of a kind
/// gives that kind back.
pub proof fn lemma_kind_json_round_trip(kind: DeviceKind, read: DeviceKind)
    requires
        kind_json(read) == kind_json(kind),
    ensures
        read == kind,
{
    reveal_strlit("\"Unknown\"");
    reveal_strlit("\"Light\"");
    assert(kind_json(DeviceKind::Unknown).len() != kind_json(DeviceKind::Light).len());
}

/// Distinct environments have distinct JSON texts, so reading the text of
/// an environment gives that environment back.
pub proof fn lemma_environment_json_round_trip(environment: DeviceEnvironment, read: DeviceEnvironment)
    requires
        environment_json(read) == environment_json(environment),
    ensures
        read == environment,
{
    reveal_strlit("\"Os\"");
    reveal_strlit("\"Esp32\"");
    assert(environment_json(DeviceEnvironment::Os).len() != environment_json(
        DeviceEnvironment::Esp32,
    ).len());
}

/// Where a device publishes its events: a broker and a topic.
#[derive(Debug, Clone, PartialEq)]
pub struct EventsDescription {
    /// The address of the broker.
    pub broker_address: String,
    /// The port of the broker.
    pub broker_port: u16,
    /// The topic the device publishes to.
    pub topic: String,
}

impl EventsDescription {
    /// Creates an events description.
    pub fn new(broker_address: &str, broker_port: u16, topic: &str) -> (r: EventsDescription)
        ensures
            r.broker_address@ == broker_address@,
            r.broker_port == broker_port,
            r.topic@ == topic@,
    {
        EventsDescription {
            broker_address: String::from_str(broker_address),
            broker_port,
            topic: String::from_str(topic),
        }
    }

    /// A copy of the description.
    pub fn duplicate(&self) -> (r: EventsDescription)
        ensures
            r == *self,
    {
        EventsDescription {
            broker_address: self.broker_address.clone(),
            broker_port: self.broker_port,
            topic: self.topic.clone(),
        }
    }
}

/// The descriptor a device hands out: what it is and which routes it has.
#[derive(Debug, PartialEq)]
pub struct DeviceData {
    /// Device kind.
    pub kind: DeviceKind,
    /// Device environment.
    pub environment: DeviceEnvironment,
    /// Device description.
    pub description: Option<String>,
    /// Wi-Fi MAC address.
    pub wifi_mac: Option<[u8; 6]>,
    /// Ethernet MAC address.
    pub ethernet_mac: Option<[u8; 6]>,
    /// Device main route.
    pub main_route: String,
    /// All route configurations of the device.
    pub route_configs: RouteConfigs,
    /// Number of mandatory routes.
    pub mandatory_routes: u8,
    /// Events description.
    pub events_description: Option<EventsDescription>,
}

impl DeviceData {
    /// Creates a descriptor without description and events.
    pub fn new(
        kind: DeviceKind,
        environment: DeviceEnvironment,
        wifi_mac: Option<[u8; 6]>,
        ethernet_mac: Option<[u8; 6]>,
        main_route: &str,
        route_configs: RouteConfigs,
        mandatory_routes: u8,
    ) -> (r: DeviceData)
        ensures
            r.kind == kind,
            r.environment == environment,
            r.description is None,
            r.wifi_mac == wifi_mac,
            r.ethernet_mac == ethernet_mac,
            r.main_route@ == main_route@,
            r.route_configs == route_configs,
            r.mandatory_routes == mandatory_routes,
            r.events_description is None,
    {
        DeviceData {
            kind,
            environment,
            description: None,
            wifi_mac,
            ethernet_mac,
            main_route: String::from_str(main_route),
            route_configs,
            mandatory_routes,
            events_description: None,
        }
    }

    /// Sets the device description.
    pub fn description(self, description: &str) -> (r: DeviceData)
        ensures
            r.description matches Some(d) && d@ == description@,
            r.kind == self.kind,
            r.environment == self.environment,
            r.wifi_mac == self.wifi_mac,
            r.ethernet_mac == self.ethernet_mac,
            r.main_route == self.main_route,
            r.route_configs == self.route_configs,
            r.mandatory_routes == self.mandatory_routes,
            r.events_description == self.events_description,
    {
        DeviceData { description: Some(String::from_str(description)), ..self }
    }

    /// Sets the events description.
    pub fn events_description(self, events_description: EventsDescription) -> (r: DeviceData)
        ensures
            r.events_description == Some(events_description),
            r.kind == self.kind,
            r.environment == self.environment,
            r.description == self.description,
            r.wifi_mac == self.wifi_mac,
            r.ethernet_mac == self.ethernet_mac,
            r.main_route == self.main_route,
            r.route_configs == self.route_configs,
            r.mandatory_routes == self.mandatory_routes,
    {
        DeviceData { events_description: Some(events_description), ..self }
    }
}

} // verus!
