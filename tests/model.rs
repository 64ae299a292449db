use tosca_controller::device::build_device_address;
use tosca_controller::device_data::{DeviceData, DeviceEnvironment, DeviceKind, EventsDescription};
use tosca_controller::discovery::{
    candidate_address, check_device_duplicates, device_from_descriptor, Discovery,
    ResolvedService, Scan, ScanEvent, TransportProtocol,
};
use tosca_controller::hazards::{Hazard, Hazards};
use tosca_controller::named::Named;
use tosca_controller::parameters::{
    DecimalPrecision, ParameterKind, ParameterValue, Parameters, ParametersValues,
};
use tosca_controller::policy::Policy;
use tosca_controller::route::{ResponseKind, RestKind, Route, RouteConfigs};
use tosca_controller::text::decimal_text;

#[test]
fn test_device_kind() {
    for device_kind in &[DeviceKind::Unknown, DeviceKind::Light] {
        assert_eq!(
            DeviceKind::from_json(&device_kind.to_json()),
            Some(*device_kind)
        );
    }
}

#[test]
fn test_device_environment() {
    for device_environment in &[DeviceEnvironment::Os, DeviceEnvironment::Esp32] {
        assert_eq!(
            DeviceEnvironment::from_json(&device_environment.to_json()),
            Some(*device_environment)
        );
    }
}

#[test]
fn json_texts_of_kinds() {
    assert_eq!(DeviceKind::Light.to_json(), "\"Light\"");
    assert_eq!(DeviceEnvironment::Esp32.to_json(), "\"Esp32\"");
    assert_eq!(DeviceKind::from_json("Light"), None);
    assert_eq!(DeviceEnvironment::from_json("\"Linux\""), None);
    assert_eq!(DeviceKind::Light.description(), "Light");
}

#[test]
fn test_allowed_hazards() {
    let allowed_hazards: &[Hazard] = &[Hazard::FireHazard, Hazard::ElectricEnergyConsumption];

    // Wrong AirPoisoning hazard.
    let route = Route::get("Route", "/route")
        .description("A GET route")
        .with_hazards(
            Hazards::new()
                .insert(Hazard::FireHazard)
                .insert(Hazard::AirPoisoning),
        );

    let expected_hazards = Hazards::init(Hazard::FireHazard);
    assert_eq!(
        route.remove_prohibited_hazards(allowed_hazards).hazards(),
        &expected_hazards
    );
}

#[test]
fn hazards_set_operations() {
    let a = Hazards::init_from_hazards(&[Hazard::FireHazard, Hazard::SpendMoney, Hazard::FireHazard]);
    assert_eq!(a.len(), 2);
    assert!(a.contains(Hazard::SpendMoney));
    assert!(!a.contains(Hazard::Explosion));
    let b = Hazards::new().insert(Hazard::SpendMoney).insert(Hazard::FireHazard);
    assert_eq!(a, b);
    assert_eq!(a.to_vec(), vec![Hazard::FireHazard, Hazard::SpendMoney]);
    let c = Hazards::init(Hazard::Explosion).insert(Hazard::SpendMoney);
    assert_eq!(a.intersection(&c), Hazards::init(Hazard::SpendMoney));
    assert!(a.intersection(&Hazards::new()).is_empty());
    assert_eq!(Hazard::FireHazard.name(), "Fire Hazard");
}

#[test]
fn policy_blocked_hazards() {
    let policy = Policy::new(Hazards::init(Hazard::LogEnergyConsumption))
        .block_device_on_hazards(0, Hazards::init(Hazard::FireHazard))
        .block_device_on_hazards(0, Hazards::init(Hazard::WaterFlooding));
    let request = Hazards::init_from_hazards(&[
        Hazard::FireHazard,
        Hazard::WaterFlooding,
        Hazard::LogEnergyConsumption,
    ]);
    assert_eq!(
        policy.global_blocked_hazards(&request),
        Hazards::init(Hazard::LogEnergyConsumption)
    );
    // The latest rule for a device replaces the earlier one.
    assert_eq!(
        policy.local_blocked_hazards(0, &request),
        Hazards::init(Hazard::WaterFlooding)
    );
    assert!(policy.local_blocked_hazards(1, &request).is_empty());
}

#[test]
fn route_configs_keep_first_of_same_path_and_method() {
    let configs = RouteConfigs::new()
        .insert(Route::put("On", "/on").serialize_data())
        .insert(Route::put("Other on", "/on").serialize_data())
        .insert(Route::post("On", "/on").serialize_data());
    assert_eq!(configs.len(), 2);
    let merged = RouteConfigs::init(Route::get("A", "/a").serialize_data()).merge(configs);
    let items = merged.into_vec();
    assert_eq!(items.len(), 3);
    assert_eq!(items[1].data.name, "On");
    assert_eq!(items[2].rest_kind, RestKind::Post);
    assert_eq!(RestKind::Delete.name(), "DELETE");
    assert_eq!(ResponseKind::default(), ResponseKind::Success);
}

#[test]
fn parameter_kinds_and_values() {
    let parameters = Parameters::new()
        .u8_with_limits("u8", 1, 0, 9)
        .f32_with_limits("f32", "0.5", "0", "1", DecimalPrecision::TwoDigits)
        .float64("f64", "2.5")
        .u16("u16", 3)
        .u16("u16", 4);
    let data = parameters.serialize_data();
    assert_eq!(data.len(), 4);
    assert_eq!(data.get("u16"), Some(&ParameterKind::U16 { default: 4, min: u16::MAX, max: u16::MIN }));
    let f32_kind = data.get("f32").unwrap();
    assert_eq!(f32_kind.as_type(), "f32");
    assert_eq!(f32_kind.name(), "F32");
    assert_eq!(
        f32_kind,
        &ParameterKind::F32 {
            default: "0.5".into(),
            min: "0".into(),
            max: "1".into(),
            step: "0.01".into()
        }
    );
    assert_eq!(ParameterValue::from_parameter_kind(data.get("f64").unwrap()).text(), "2.5");
    assert!(ParameterValue::U8(3).match_kind(data.get("u8").unwrap()));
    assert!(!ParameterValue::U16(3).match_kind(data.get("u8").unwrap()));
    assert_eq!(ParameterValue::Bool(true).text(), "true");
    assert_eq!(ParameterValue::U64(18446744073709551615).text(), "18446744073709551615");
    let mut values = ParametersValues::new();
    values.characters_sequence("name", "hall".to_string());
    values.u32("name", 2);
    assert_eq!(values.get("name"), Some(&ParameterValue::U32(2)));
    assert!(!values.is_empty());
}

#[test]
fn decimal_and_addresses() {
    assert_eq!(decimal_text(0), "0");
    assert_eq!(decimal_text(1203), "1203");
    assert_eq!(
        build_device_address("https", "fe80::1", 65535),
        "https://fe80::1:65535"
    );
}

#[test]
fn service_type_is_composed() {
    let discovery = Discovery::new("tosca")
        .transport_protocol(TransportProtocol::UDP)
        .top_level_domain("home");
    assert_eq!(discovery.service_type(), "_tosca._udp.home.");
    assert_eq!(Discovery::new("tosca").service_type(), "_tosca._tcp.local.");
    assert_eq!(Discovery::new("x").timeout_millis, 2000);
    assert_eq!(TransportProtocol::TCP.name(), "tcp");
}

fn service(fullname: &str, addresses: &[&str], port: u16) -> ResolvedService {
    ResolvedService {
        fullname: fullname.to_string(),
        addresses: addresses.iter().map(|a| a.to_string()).collect(),
        port,
        properties: Named::new(),
    }
}

#[test]
fn duplicate_resolution() {
    let first = service("a._tosca._tcp.local.", &["10.0.0.1", "10.0.0.2"], 80);
    let accepted = vec![first];

    // Same port and a shared address.
    assert!(check_device_duplicates(
        &accepted,
        &service("b._tosca._tcp.local.", &["10.0.0.2"], 80)
    ));
    // Same port and the same full name.
    assert!(check_device_duplicates(
        &accepted,
        &service("a._tosca._tcp.local.", &["10.0.0.9"], 80)
    ));
    // Different ports never collapse, even with the same name and address.
    assert!(!check_device_duplicates(
        &accepted,
        &service("a._tosca._tcp.local.", &["10.0.0.1"], 81)
    ));
    // Same port, different name and addresses.
    assert!(!check_device_duplicates(
        &accepted,
        &service("c._tosca._tcp.local.", &["10.0.0.3"], 80)
    ));
}

#[test]
fn scan_accepts_first_and_stops_on_quiet_period() {
    let mut scan = Scan::new();
    assert!(scan.on_event(ScanEvent::Resolved(service("a", &["10.0.0.1"], 80))));
    assert!(scan.on_event(ScanEvent::Resolved(service("b", &["10.0.0.1"], 80))));
    assert!(scan.on_event(ScanEvent::Resolved(service("a", &["10.0.0.5"], 80))));
    assert!(scan.on_event(ScanEvent::Resolved(service("a", &["10.0.0.1"], 81))));
    assert!(scan.on_event(ScanEvent::Resolved(service("d", &[], 80))));
    assert!(scan.on_event(ScanEvent::Other));
    assert_eq!(scan.services.len(), 2);
    assert_eq!(scan.services[1].port, 81);
    assert!(!scan.on_event(ScanEvent::TimedOut));
    assert!(!scan.on_event(ScanEvent::Disconnected));
}

#[test]
fn descriptor_makes_device() {
    let mut with_scheme = service("lamp._tosca._tcp.local.", &["10.0.0.7", "10.0.0.8"], 3000);
    assert_eq!(candidate_address(&with_scheme, 1), "http://10.0.0.8:3000");
    with_scheme.properties.insert("scheme".to_string(), "https".to_string());
    let address = candidate_address(&with_scheme, 0);
    assert_eq!(address, "https://10.0.0.7:3000");

    let routes = RouteConfigs::init(Route::put("On", "/on").serialize_data());
    let no_mac = DeviceData::new(
        DeviceKind::Light,
        DeviceEnvironment::Os,
        None,
        None,
        "light",
        routes.clone(),
        2,
    );
    assert!(device_from_descriptor(with_scheme.clone(), address.clone(), no_mac).is_none());

    let data = DeviceData::new(
        DeviceKind::Light,
        DeviceEnvironment::Os,
        Some([1, 2, 3, 4, 5, 6]),
        None,
        "light",
        routes,
        2,
    )
    .description("A light device.")
    .events_description(EventsDescription::new("10.0.0.7", 1883, "lamp"));
    let device = device_from_descriptor(with_scheme, address, data).unwrap();
    assert_eq!(device.network_info().addresses.len(), 2);
    assert_eq!(device.network_info().wifi_mac, Some([1, 2, 3, 4, 5, 6]));
    assert_eq!(device.network_info().last_reachable_address, "https://10.0.0.7:3000");
    assert_eq!(
        device.request("/on").unwrap().route,
        "https://10.0.0.7:3000/light/on"
    );
    assert!(device.has_events());
    assert_eq!(device.events_metadata().unwrap().topic, "lamp");
}
