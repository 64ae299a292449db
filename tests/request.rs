use tosca_controller::device_data::DeviceEnvironment;
use tosca_controller::hazards::{Hazard, Hazards};
use tosca_controller::parameters::{ParameterKind, Parameters, ParametersData, ParametersValues};
use tosca_controller::request::{parameter_error, Request, RequestData};
use tosca_controller::route::{ResponseKind, RestKind, Route, RouteConfig};

const ADDRESS_ROUTE: &str = "http://tosca.local/";
const ADDRESS_ROUTE_WITHOUT_SLASH: &str = "http://tosca.local/";
const COMPLETE_ROUTE: &str = "http://tosca.local/light/route";

fn plain_request(route: Route, kind: RestKind, hazards: Hazards) {
    let route = route.serialize_data();
    let description = route.data.description.clone();

    let request = Request::new(ADDRESS_ROUTE, "light/", DeviceEnvironment::Os, route);

    assert_eq!(
        request,
        Request {
            kind,
            hazards,
            route: COMPLETE_ROUTE.into(),
            description,
            parameters_data: ParametersData::new(),
            response_kind: ResponseKind::Success,
            device_environment: DeviceEnvironment::Os,
        }
    );
}

fn request_with_parameters(route: Route, kind: RestKind, hazards: &Hazards) {
    let route = route
        .with_parameters(
            Parameters::new()
                .rangeu64_with_default("rangeu64", (0, 20, 1), 5)
                .rangef64("rangef64", ("0", "20", "0.1")),
        )
        .serialize_data();
    let description = route.data.description.clone();

    let parameters_data = ParametersData::new()
        .insert(
            "rangeu64".into(),
            ParameterKind::RangeU64 {
                min: 0,
                max: 20,
                step: 1,
                default: 5,
            },
        )
        .insert(
            "rangef64".into(),
            ParameterKind::RangeF64 {
                min: "0".into(),
                max: "20".into(),
                step: "0.1".into(),
                default: "0".into(),
            },
        );

    let request = Request::new(ADDRESS_ROUTE, "light/", DeviceEnvironment::Os, route);

    assert_eq!(
        request,
        Request {
            kind,
            hazards: hazards.clone(),
            route: COMPLETE_ROUTE.into(),
            description,
            parameters_data,
            response_kind: ResponseKind::Success,
            device_environment: DeviceEnvironment::Os,
        }
    );

    // Non-existent parameter.
    let mut wrong = ParametersValues::new();
    wrong.u64("wrong", 0);
    assert_eq!(
        request.create_request(&wrong),
        Err(parameter_error("`wrong` does not exist".into()))
    );

    // Wrong parameter type.
    let mut wrong_type = ParametersValues::new();
    wrong_type.float64("rangeu64", "0");
    assert_eq!(
        request.create_request(&wrong_type),
        Err(parameter_error(
            "Found type `f64` for `rangeu64`, expected type `u64`".into()
        ))
    );

    let parameters = vec![
        ("rangeu64".to_string(), "3".to_string()),
        ("rangef64".to_string(), "0".to_string()),
    ];

    let mut values = ParametersValues::new();
    values.u64("rangeu64", 3);
    assert_eq!(
        request.create_request(&values),
        Ok(RequestData {
            request: if kind == RestKind::Get {
                format!("{COMPLETE_ROUTE}/3/0")
            } else {
                COMPLETE_ROUTE.into()
            },
            parameters,
        })
    );
}

fn request_builder(
    route: &str,
    main_route: &str,
    device_environment: DeviceEnvironment,
    route_config: RouteConfig,
) {
    assert_eq!(
        Request::new(route, main_route, device_environment, route_config),
        Request {
            kind: RestKind::Put,
            hazards: Hazards::new(),
            route: COMPLETE_ROUTE.into(),
            description: None,
            parameters_data: ParametersData::new(),
            response_kind: ResponseKind::Success,
            device_environment: DeviceEnvironment::Os,
        }
    );
}

#[test]
fn check_request_builder() {
    let route = Route::put("Route", "/route").serialize_data();
    let environment = DeviceEnvironment::Os;

    request_builder(ADDRESS_ROUTE, "light/", environment, route.clone());
    request_builder(ADDRESS_ROUTE_WITHOUT_SLASH, "light", environment, route);
}

#[test]
fn create_plain_get_request() {
    let route = Route::get("Route", "/route").description("A GET route.");
    plain_request(route, RestKind::Get, Hazards::new());
}

#[test]
fn create_plain_post_request() {
    let route = Route::post("Route", "/route").description("A POST route.");
    plain_request(route, RestKind::Post, Hazards::new());
}

#[test]
fn create_plain_put_request() {
    let route = Route::put("Route", "/route").description("A PUT route.");
    plain_request(route, RestKind::Put, Hazards::new());
}

#[test]
fn create_plain_delete_request() {
    let route = Route::delete("Route", "/route").description("A DELETE route.");
    plain_request(route, RestKind::Delete, Hazards::new());
}

#[test]
fn create_plain_get_request_with_hazards() {
    let hazards = Hazards::new()
        .insert(Hazard::FireHazard)
        .insert(Hazard::AirPoisoning);
    plain_request(
        Route::get("Route", "/route")
            .description("A GET route.")
            .with_hazards(hazards.clone()),
        RestKind::Get,
        hazards,
    );
}

#[test]
fn create_get_request_with_parameters() {
    request_with_parameters(
        Route::get("Route", "/route").description("A GET route."),
        RestKind::Get,
        &Hazards::new(),
    );
}

#[test]
fn create_post_request_with_parameters() {
    let route = Route::post("Route", "/route").description("A POST route.");
    request_with_parameters(route, RestKind::Post, &Hazards::new());
}

#[test]
fn create_put_request_with_parameters() {
    let route = Route::put("Route", "/route").description("A PUT route.");
    request_with_parameters(route, RestKind::Put, &Hazards::new());
}

#[test]
fn create_delete_request_with_parameters() {
    let route = Route::delete("Route", "/route").description("A DELETE route.");
    request_with_parameters(route, RestKind::Delete, &Hazards::new());
}

#[test]
fn create_get_request_with_hazards_and_parameters() {
    let hazards = Hazards::new()
        .insert(Hazard::FireHazard)
        .insert(Hazard::AirPoisoning);

    request_with_parameters(
        Route::get("Route", "/route")
            .description("A GET route.")
            .with_hazards(hazards.clone()),
        RestKind::Get,
        &hazards,
    );
}

#[test]
fn get_on_microcontroller_keeps_the_route_address() {
    let route = Route::get("Route", "/route")
        .with_parameters(Parameters::new().rangeu64("level", (0, 20, 1)))
        .serialize_data();
    let request = Request::new(ADDRESS_ROUTE, "light", DeviceEnvironment::Esp32, route);
    let mut values = ParametersValues::new();
    values.u64("level", 7);
    let data = request.create_request(&values).unwrap();
    assert_eq!(data.request, COMPLETE_ROUTE);
    assert_eq!(data.parameters, vec![("level".to_string(), "7".to_string())]);
    let call = request.dispatch(data);
    assert_eq!(call.method, RestKind::Get);
    assert_eq!(call.body, None);
}

#[test]
fn post_carries_parameters_in_body() {
    let route = Route::post("Route", "/route")
        .with_parameters(
            Parameters::new()
                .bool("on", true)
                .characters_sequence("label", "hall")
                .u8("level", 4),
        )
        .serialize_data();
    let request = Request::new(ADDRESS_ROUTE, "light", DeviceEnvironment::Os, route);
    let mut values = ParametersValues::new();
    values.bool("on", false);
    values.u8("level", 200);
    let data = request.create_request(&values).unwrap();
    let call = request.dispatch(data);
    assert_eq!(call.url, COMPLETE_ROUTE);
    assert_eq!(
        call.body,
        Some(vec![
            ("on".to_string(), "false".to_string()),
            ("label".to_string(), "hall".to_string()),
            ("level".to_string(), "200".to_string()),
        ])
    );
}

#[test]
fn get_on_os_appends_defaults_and_values() {
    let route = Route::get("Route", "/route/")
        .with_parameters(
            Parameters::new()
                .u16("a", 12)
                .u32_with_limits("b", 7, 0, 10)
                .characters_sequence("c", "x"),
        )
        .serialize_data();
    let request = Request::new("http://10.0.0.2:80", "/main/", DeviceEnvironment::Os, route);
    assert_eq!(request.route, "http://10.0.0.2:80/main/route");
    let mut values = ParametersValues::new();
    values.u32("b", 4294967295);
    let data = request.create_request(&values).unwrap();
    assert_eq!(data.request, "http://10.0.0.2:80/main/route/12/4294967295/x");
    let plain = request.plain_request_data();
    assert_eq!(plain.request, "http://10.0.0.2:80/main/route/12/7/x");
    assert_eq!(request.dispatch(plain).body, None);
}

#[test]
fn first_misfit_value_is_reported() {
    let route = Route::put("Route", "/route")
        .with_parameters(Parameters::new().bool("on", true))
        .serialize_data();
    let request = Request::new(ADDRESS_ROUTE, "light", DeviceEnvironment::Os, route);
    let mut values = ParametersValues::new();
    values.u16("on", 1);
    values.u8("missing", 1);
    let error = request.create_request(&values).unwrap_err();
    assert_eq!(
        error.format(),
        "Invalid Parameter: Found type `u16` for `on`, expected type `bool`"
    );
}

#[test]
fn parameters_data_is_none_without_parameters() {
    let route = Route::put("Route", "/route").serialize_data();
    let request = Request::new(ADDRESS_ROUTE, "light", DeviceEnvironment::Os, route);
    assert!(request.parameters_data().is_none());
    assert_eq!(request.kind(), RestKind::Put);
    assert!(request.hazards().is_empty());
}
