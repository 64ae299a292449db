use tosca_controller::controller::{sender_error, Controller, Outcome};
use tosca_controller::device::{build_device_address, Description, Device, Devices, NetworkInformation};
use tosca_controller::device_data::{DeviceEnvironment, DeviceKind, EventsDescription};
use tosca_controller::discovery::Discovery;
use tosca_controller::error::ErrorKind;
use tosca_controller::hazards::{Hazard, Hazards};
use tosca_controller::named::Named;
use tosca_controller::parameters::{Parameters, ParametersValues};
use tosca_controller::policy::Policy;
use tosca_controller::request::create_requests;
use tosca_controller::route::{ResponseKind, RestKind, Route, RouteConfigs};

const DOMAIN: &str = "tosca";

fn configure_discovery() -> Discovery {
    Discovery::new(DOMAIN)
        .timeout(1000)
        .disable_ipv6()
        .disable_network_interface("docker0")
}

fn create_network_info(address: &str, port: u16) -> NetworkInformation {
    let complete_address = build_device_address("http", address, port);

    let addresses = vec![address.to_string(), "172.0.0.1".to_string()];

    let mut properties = Named::new();
    properties.insert("scheme".to_string(), "http".to_string());

    NetworkInformation::new(
        "device-name1._tosca._tcp.local.".into(),
        addresses,
        port,
        properties,
        complete_address,
    )
    .wifi_mac([0x02, 0x11, 0x22, 0x33, 0x44, 0x55])
    .ethernet_mac([0x06, 0xAA, 0xBB, 0xCC, 0xDD, 0xEE])
}

fn create_description(device_kind: DeviceKind, main_route: &str) -> Description {
    Description::new(device_kind, DeviceEnvironment::Os, main_route.into())
}

fn light_routes() -> RouteConfigs {
    let light_on_route = Route::put("On", "/on")
        .description("Turn light on.")
        .with_hazard(Hazard::ElectricEnergyConsumption);

    let light_off_route = Route::put("Off", "/off")
        .description("Turn light off.")
        .with_hazard(Hazard::LogEnergyConsumption);

    let toggle_route = Route::get("Toggle", "/toggle")
        .description("Toggle a light.")
        .with_hazards(
            Hazards::new()
                .insert(Hazard::FireHazard)
                .insert(Hazard::ElectricEnergyConsumption),
        )
        .with_parameters(Parameters::new().rangeu64("brightness", (0, 20, 1)));

    RouteConfigs::new()
        .insert(light_on_route.serialize_data())
        .insert(light_off_route.serialize_data())
        .insert(toggle_route.serialize_data().change_response_kind(ResponseKind::Serial))
}

fn create_light() -> Device {
    let network_info = create_network_info("192.168.1.174", 5000);
    let description = create_description(DeviceKind::Light, "light/");
    Device::new(network_info, description, light_routes())
}

fn create_unknown() -> Device {
    let network_info = create_network_info("192.168.1.176", 5500);
    let description = create_description(DeviceKind::Unknown, "ip-camera/");

    let camera_stream_route = Route::get("Stream", "/stream")
        .description("View camera stream.")
        .with_hazards(
            Hazards::new()
                .insert(Hazard::ElectricEnergyConsumption)
                .insert(Hazard::VideoDisplay)
                .insert(Hazard::VideoRecordAndStore),
        );

    let screenshot_route = Route::get("Take screenshot", "/take-screenshot")
        .description("Take a screenshot.")
        .with_hazards(
            Hazards::new()
                .insert(Hazard::ElectricEnergyConsumption)
                .insert(Hazard::TakeDeviceScreenshots)
                .insert(Hazard::TakePictures),
        );

    let route_configs = RouteConfigs::new()
        .insert(camera_stream_route.serialize_data())
        .insert(screenshot_route.serialize_data());

    Device::new(network_info, description, route_configs)
}

fn create_sensor_with_events() -> Device {
    let network_info = create_network_info("192.168.1.180", 80);
    let description = Description::new(DeviceKind::Unknown, DeviceEnvironment::Esp32, "sensor".into());
    let requests = create_requests(
        RouteConfigs::new(),
        "http://192.168.1.180:80",
        "sensor",
        DeviceEnvironment::Esp32,
    );
    let events = EventsDescription::new("192.168.1.180", 1883, "sensor/events");
    Device::init(network_info, description, requests, Some(events))
}

#[test]
fn empty_controller() {
    let controller = Controller::new(configure_discovery());

    assert_eq!(controller.discovery(), &configure_discovery());
    assert_eq!(controller.devices(), &Devices::new());
    assert_eq!(controller.privacy_policy(), &Policy::init());

    // No devices.
    assert_eq!(controller.device(0), Err(sender_error("No devices found.")));
}

#[test]
fn controller_from_devices() {
    let devices = Devices::from_devices(vec![create_light(), create_unknown()]);

    let controller = Controller::from_devices(configure_discovery(), devices);

    assert_eq!(controller.discovery(), &configure_discovery());
    assert_eq!(
        controller.devices(),
        &Devices::from_devices(vec![create_light(), create_unknown()])
    );
    assert_eq!(controller.privacy_policy(), &Policy::init());
}

#[test]
fn check_devices() {
    let devices_vector = vec![create_light(), create_unknown()];

    let devices_from_vector = Devices::from_devices(devices_vector);

    let mut devices = Devices::new();

    // A device is empty when being created.
    assert!(devices.is_empty());

    devices.add(create_light());
    devices.add(create_unknown());

    // Compare devices created with two different methods.
    assert_eq!(devices_from_vector, devices);

    // A device must not be empty.
    assert!(!devices.is_empty());

    // Check number of elements in devices.
    assert_eq!(devices.len(), 2);

    // Get a non-existent device.
    assert_eq!(devices.get(1000), None);

    // Get a reference to a device. The order is important.
    assert_eq!(devices.get(1), Some(&create_unknown()));
}

fn light_controller(policy: Policy) -> Controller {
    let devices = Devices::from_devices(vec![create_light(), create_unknown()]);
    Controller::from_devices(configure_discovery(), devices).policy(policy)
}

#[test]
fn controller_checks_without_policy() {
    let controller = light_controller(Policy::init());

    assert_eq!(
        controller.device(2).unwrap_err().description,
        "Error in retrieving the device with identifier 2."
    );

    let device_sender = controller.device(0).unwrap();
    assert_eq!(
        device_sender.request("/wrong"),
        Err(sender_error(
            "Error in retrieving the request with route `/wrong`."
        ))
    );

    match device_sender.request("/on").unwrap().send() {
        Outcome::Call {
            dispatch,
            response_kind,
        } => {
            assert_eq!(dispatch.method, RestKind::Put);
            assert_eq!(dispatch.url, "http://192.168.1.174:5000/light/on");
            assert_eq!(dispatch.body, None);
            assert_eq!(response_kind, ResponseKind::Success);
        }
        Outcome::Skipped => panic!("`/on` is not blocked"),
    }

    let toggle = device_sender.request("/toggle").unwrap();
    match toggle.send() {
        Outcome::Call {
            dispatch,
            response_kind,
        } => {
            assert_eq!(dispatch.url, "http://192.168.1.174:5000/light/toggle/0");
            assert_eq!(response_kind, ResponseKind::Serial);
        }
        Outcome::Skipped => panic!("`/toggle` is not blocked"),
    }

    let mut parameters = ParametersValues::new();
    parameters.u64("brightness", 5);
    match toggle.send_with_parameters(&parameters).unwrap() {
        Outcome::Call { dispatch, .. } => {
            assert_eq!(dispatch.url, "http://192.168.1.174:5000/light/toggle/5");
            assert_eq!(dispatch.body, None);
        }
        Outcome::Skipped => panic!("`/toggle` is not blocked"),
    }

    // A route without parameters ignores the given values.
    let off = device_sender.request("/off").unwrap();
    assert_eq!(off.send_with_parameters(&parameters).unwrap(), off.send());
}

#[test]
fn light_scenario_with_policy() {
    let global_hazards = Hazards::new().insert(Hazard::LogEnergyConsumption);
    let local_hazards = Hazards::new().insert(Hazard::FireHazard);
    let policy = Policy::new(global_hazards).block_device_on_hazards(0, local_hazards);
    let controller = light_controller(policy);

    let device_sender = controller.device(0).unwrap();

    let on = device_sender.request("/on").unwrap();
    assert!(!on.is_skipped());
    assert!(matches!(
        on.send(),
        Outcome::Call {
            response_kind: ResponseKind::Success,
            ..
        }
    ));

    let off = device_sender.request("/off").unwrap();
    assert_eq!(off.send(), Outcome::Skipped);

    let toggle = device_sender.request("/toggle").unwrap();
    assert_eq!(toggle.send(), Outcome::Skipped);

    let mut parameters = ParametersValues::new();
    parameters.u64("brightness", 5);
    assert_eq!(toggle.send_with_parameters(&parameters), Ok(Outcome::Skipped));

    // Policy is evaluated before the values are checked.
    let mut wrong = ParametersValues::new();
    wrong.bool("missing", true);
    assert_eq!(toggle.send_with_parameters(&wrong), Ok(Outcome::Skipped));

    // The local rule only concerns device 0.
    let camera = controller.device(1).unwrap();
    assert!(!camera.request("/stream").unwrap().is_skipped());
}

#[test]
fn device_lookup_succeeds_exactly_in_range() {
    let controller = light_controller(Policy::init());
    let len = controller.devices().len();
    assert_eq!(len, 2);
    for id in 0..5 {
        assert_eq!(controller.device(id).is_ok(), id < len);
    }
    let sender = controller.device(1).unwrap();
    assert_eq!(sender.id(), 1);
    assert_eq!(sender.device(), &create_unknown());
}

#[test]
fn requests_without_hazards_are_never_skipped() {
    let all = Hazards::init_from_hazards(&[
        Hazard::FireHazard,
        Hazard::ElectricEnergyConsumption,
        Hazard::LogEnergyConsumption,
    ]);
    let policy = Policy::new(all.clone()).block_device_on_hazards(0, all);
    let network_info = create_network_info("10.0.0.9", 8080);
    let description = create_description(DeviceKind::Light, "light");
    let routes = RouteConfigs::init(Route::get("Status", "/status").serialize_data());
    let device = Device::new(network_info, description, routes);
    let controller =
        Controller::from_devices(configure_discovery(), Devices::from_devices(vec![device]))
            .policy(policy);
    let sender = controller.device(0).unwrap().request("/status").unwrap();
    assert!(!sender.is_skipped());
    assert!(matches!(sender.send(), Outcome::Call { .. }));
}

#[test]
fn locally_blocked_hazard_skips_only_that_device() {
    let policy = Policy::init().block_device_on_hazards(1, Hazards::init(Hazard::VideoDisplay));
    let controller = light_controller(policy);
    assert_eq!(
        controller.device(1).unwrap().request("/stream").unwrap().send(),
        Outcome::Skipped
    );
    assert!(!controller
        .device(1)
        .unwrap()
        .request("/take-screenshot")
        .unwrap()
        .is_skipped());
    assert!(!controller.device(0).unwrap().request("/on").unwrap().is_skipped());
}

#[test]
fn second_event_receiver_start_is_refused() {
    let mut device = create_sensor_with_events();
    assert!(device.has_events());
    assert!(!device.is_event_receiver_running());

    let events = device.start_event_receiver(0).unwrap();
    assert_eq!(events.topic, "sensor/events");
    assert_eq!(events.broker_port, 1883);
    device.event_receiver_started();

    let error = device.start_event_receiver(0).unwrap_err();
    assert_eq!(error.kind, ErrorKind::Events);
    assert_eq!(
        error.description,
        "Event receiver already started for device with id `0`"
    );

    device.event_receiver_stopped();
    assert!(device.start_event_receiver(0).is_ok());

    let light = create_light();
    let error = light.start_event_receiver(3).unwrap_err();
    assert_eq!(error.kind, ErrorKind::Events);
    assert_eq!(error.description, "The device with `3` does not support events");
}

#[test]
fn controller_event_receivers_and_shutdown() {
    let devices = Devices::from_devices(vec![
        create_light(),
        create_sensor_with_events(),
        create_sensor_with_events(),
    ]);
    let mut controller = Controller::from_devices(configure_discovery(), devices);

    let candidates = controller.event_receiver_candidates();
    let ids: Vec<usize> = candidates.iter().map(|c| c.0).collect();
    assert_eq!(ids, vec![1, 2]);

    let none_started = controller.record_event_receivers(&vec![]).unwrap_err();
    assert_eq!(none_started.kind, ErrorKind::Events);
    assert_eq!(none_started.description, "No event receiver tasks has started");

    controller.record_event_receivers(&vec![2]).unwrap();
    assert!(controller.devices().get(2).unwrap().is_event_receiver_running());
    assert!(!controller.devices().get(1).unwrap().is_event_receiver_running());

    let ids: Vec<usize> = controller
        .event_receiver_candidates()
        .iter()
        .map(|c| c.0)
        .collect();
    assert_eq!(ids, vec![1]);

    let plan = controller.shutdown();
    assert_eq!(plan.cancel, vec![1, 2]);
    assert_eq!(plan.join, vec![2]);
}

#[test]
fn no_candidates_without_events() {
    let controller = light_controller(Policy::init());
    assert!(controller.event_receiver_candidates().is_empty());
    let plan = controller.shutdown();
    assert!(plan.cancel.is_empty());
    assert!(plan.join.is_empty());
}

#[test]
fn requests_info_lists_every_route() {
    let light = create_light();
    assert_eq!(light.requests_count(), 3);
    let info = light.requests_info();
    let routes: Vec<&str> = info.iter().map(|i| i.route).collect();
    assert_eq!(routes, vec!["/on", "/off", "/toggle"]);
    assert_eq!(info[2].rest_kind, RestKind::Get);
    assert_eq!(info[2].description, Some("Toggle a light."));
    assert_eq!(info[2].response_kind, ResponseKind::Serial);
    assert!(light.events_metadata().is_none());
    assert_eq!(light.network_info().port, 5000);
    assert_eq!(light.description().main_route, "light/");
}

#[test]
fn devices_can_be_changed_in_place() {
    let mut controller = light_controller(Policy::init());
    controller.devices_mut().add(create_sensor_with_events());
    assert_eq!(controller.devices().len(), 3);
    assert!(controller.device(2).unwrap().device().has_events());
    controller.devices_mut().set_event_receiver_running(2, true);
    assert!(controller.devices().get(2).unwrap().is_event_receiver_running());
    controller.set_devices(Devices::new());
    assert!(controller.devices().is_empty());
    let mut changed = Policy::init();
    changed = changed.block_device_on_hazards(0, Hazards::init(Hazard::FireHazard));
    controller.change_policy(changed.clone());
    assert_eq!(controller.privacy_policy(), &changed);
}

#[test]
fn devices_iterate_in_index_order() {
    let devices = Devices::from_devices(vec![create_light(), create_unknown()]);
    let kinds: Vec<DeviceKind> = devices.iter().map(|d| d.description().kind).collect();
    assert_eq!(kinds, vec![DeviceKind::Light, DeviceKind::Unknown]);
    let ports: Vec<u16> = devices.into_vec().iter().map(|d| d.network_info().port).collect();
    assert_eq!(ports, vec![5000, 5500]);
}
