use vstd::prelude::*;
use vstd::string::StrSliceExecFns;

use crate::device_data::DeviceEnvironment;
use crate::error::{Error, ErrorKind};
use crate::hazards::Hazards;
use crate::named::Named;
use crate::parameters::{
    default_value, kind_matches, kind_type, value_text, value_type, ParameterKind, ParameterValue,
    ParametersData, ParametersValues,
};
use crate::route::{RestKind, ResponseKind, RouteConfig, RouteConfigs};

verus! {

/// `s` without one trailing slash, unless `s` is a single character.
pub open spec fn trim_end(s: Seq<char>) -> Seq<char> {
    if s.len() > 1 && s.last() == '/' {
        s.drop_last()
    } else {
        s
    }
}

/// `s` without one leading slash, unless `s` is a single character.
pub open spec fn trim_start(s: Seq<char>) -> Seq<char> {
    if s.len() > 1 && s[0] == '/' {
        s.subrange(1, s.len() as int)
    } else {
        s
    }
}

/// `s` without one trailing and then one leading slash.
pub open spec fn trim_both(s: Seq<char>) -> Seq<char> {
    trim_start(trim_end(s))
}

/// The full address of a route: the device address, the main route and the
/// route path, joined by single slashes.
pub open spec fn route_address(address: Seq<char>, main_route: Seq<char>, path: Seq<char>) -> Seq<
    char,
> {
    trim_end(address) + "/"@ + trim_both(main_route) + "/"@ + trim_both(path)
}

fn slash_end(s: &str) -> (r: String)
    ensures
        r@ == trim_end(s@),
{
    let n = s.unicode_len();
    if n > 1 && s.get_char(n - 1) == '/' {
        String::from_str(s.substring_char(0, n - 1))
    } else {
        String::from_str(s)
    }
}

fn slash_start(s: &str) -> (r: String)
    ensures
        r@ == trim_start(s@),
{
    let n = s.unicode_len();
    if n > 1 && s.get_char(0) == '/' {
        String::from_str(s.substring_char(1, n))
    } else {
        String::from_str(s)
    }
}

fn slash_start_end(s: &str) -> (r: String)
    ensures
        r@ == trim_both(s@),
{
    let end = slash_end(s);
    slash_start(end.as_str())
}

/// The text a parameter takes in a request: the given value, or the
/// default of its kind.
pub open spec fn parameter_text(values: ParametersValues, name: Seq<char>, kind: ParameterKind) -> Seq<
    char,
> {
    match values.lookup(name) {
        Some(v) => value_text(v),
        None => value_text(default_value(kind)),
    }
}

/// The path segments of the first `n` declared parameters, each led by a
/// slash.
pub open spec fn path_segments(data: ParametersData, values: ParametersValues, n: nat) -> Seq<char>
    decreases n,
{
    if n == 0 {
        Seq::empty()
    } else {
        path_segments(data, values, (n - 1) as nat) + "/"@ + parameter_text(
            values,
            data.names()[n - 1],
            data.values()[n - 1],
        )
    }
}

/// Each declared parameter with its text, in declaration order.
pub open spec fn body_entries(data: ParametersData, values: ParametersValues) -> Seq<
    (Seq<char>, Seq<char>),
> {
    Seq::new(
        data.names().len(),
        |i: int| (data.names()[i], parameter_text(values, data.names()[i], data.values()[i])),
    )
}

/// Two sets of values that hold the same value under every name give the
/// same path segments and the same body.
pub proof fn lemma_same_lookups(data: ParametersData, a: ParametersValues, b: ParametersValues)
    requires
        forall|name: Seq<char>| #[trigger] a.lookup(name) == b.lookup(name),
    ensures
        forall|n: nat| #[trigger] path_segments(data, a, n) == path_segments(data, b, n),
        body_entries(data, a) == body_entries(data, b),
{
    assert forall|n: nat| #[trigger] path_segments(data, a, n) == path_segments(data, b, n) by {
        lemma_same_segments(data, a, b, n);
    }
    assert(body_entries(data, a) =~= body_entries(data, b));
}

proof fn lemma_same_segments(data: ParametersData, a: ParametersValues, b: ParametersValues, n: nat)
    requires
        forall|name: Seq<char>| #[trigger] a.lookup(name) == b.lookup(name),
    ensures
        path_segments(data, a, n) == path_segments(data, b, n),
    decreases n,
{
    if n > 0 {
        lemma_same_segments(data, a, b, (n - 1) as nat);
    }
}

/// Whether a given value names a declared parameter and has its type.
pub open spec fn value_fits(data: ParametersData, name: Seq<char>, value: ParameterValue) -> bool {
    match data.lookup(name) {
        Some(kind) => kind_matches(value, kind),
        None => false,
    }
}

/// Whether every given value names a declared parameter and has its type.
pub open spec fn values_fit(data: ParametersData, values: ParametersValues) -> bool {
    forall|i: int|
        0 <= i < values.names().len() ==> value_fits(
            data,
            #[trigger] values.names()[i],
            values.values()[i],
        )
}

/// The description of the error for a given value that does not fit.
pub open spec fn misfit_message(data: ParametersData, name: Seq<char>, value: ParameterValue) -> Seq<
    char,
> {
    match data.lookup(name) {
        Some(kind) => "Found type `"@ + value_type(value) + "` for `"@ + name + "`, expected type `"@
            + kind_type(kind) + "`"@,
        None => "`"@ + name + "` does not exist"@,
    }
}

/// Whether `e` is the error for the first given value that does not fit.
pub open spec fn is_misfit_error(data: ParametersData, values: ParametersValues, e: Error) -> bool {
    exists|i: int|
        0 <= i < values.names().len() && !value_fits(data, values.names()[i], values.values()[i])
            && (forall|j: int|
            0 <= j < i ==> value_fits(data, #[trigger] values.names()[j], values.values()[j]))
            && e.kind == ErrorKind::InvalidParameter && e.description@ == misfit_message(
            data,
            values.names()[i],
            values.values()[i],
        )
}

/// Checks the given values against the declared parameters: every name must
/// be declared and every value must have the declared type.
pub fn compare_values_with_params_data(
    parameter_values: &ParametersValues,
    parameters_data: &ParametersData,
) -> (r: Result<(), Error>)
    ensures
        r is Ok <==> values_fit(*parameters_data, *parameter_values),
        r matches Err(e) ==> is_misfit_error(*parameters_data, *parameter_values, e),
{
    let n = parameter_values.len();
    let mut i: usize = 0;
    while i < n
        invariant
            n as nat == parameter_values.names().len(),
            n as nat == parameter_values.values().len(),
            i <= n,
            forall|j: int|
                0 <= j < i ==> value_fits(
                    *parameters_data,
                    #[trigger] parameter_values.names()[j],
                    parameter_values.values()[j],
                ),
        decreases n - i,
    {
        let name = parameter_values.name_at(i);
        let value = parameter_values.value_at(i);
        match parameters_data.get(name.as_str()) {
            None => {
                let mut message = String::from_str("`");
                message.append(name.as_str());
                message.append("` does not exist");
                proof {
                    reveal_strlit("`");
                    reveal_strlit("` does not exist");
                }
                return Err(parameter_error(message));
            },
            Some(kind) => {
                if !value.match_kind(kind) {
                    let mut message = String::from_str("Found type `");
                    message.append(value.as_type());
                    message.append("` for `");
                    message.append(name.as_str());
                    message.append("`, expected type `");
                    message.append(kind.as_type());
                    message.append("`");
                    return Err(parameter_error(message));
                }
            },
        }
        i = i + 1;
    }
    Ok(())
}

/// An error for a parameter that does not fit its declaration.
pub fn parameter_error(message: String) -> (r: Error)
    ensures
        r.kind == ErrorKind::InvalidParameter,
        r.description@ == message@,
{
    Error::new(ErrorKind::InvalidParameter, message.as_str())
}

/// The address of a request and the parameters that go with it.
#[derive(Debug, Clone, PartialEq)]
pub struct RequestData {
    /// The address the request goes to.
    pub request: String,
    /// Each declared parameter with its text, in declaration order.
    pub parameters: Vec<(String, String)>,
}

impl RequestData {
    /// Creates the data of a request.
    pub fn new(request: String, parameters: Vec<(String, String)>) -> (r: RequestData)
        ensures
            r.request == request,
            r.parameters == parameters,
    {
        RequestData { request, parameters }
    }
}

/// The view of a list of text pairs.
pub open spec fn pairs_view(pairs: Seq<(String, String)>) -> Seq<(Seq<char>, Seq<char>)> {
    pairs.map_values(|p: (String, String)| (p.0@, p.1@))
}

/// An outbound call: the method, the address, and the parameters carried in
/// a JSON body, if any.
#[derive(Debug, Clone, PartialEq)]
pub struct Dispatch {
    /// The method of the call.
    pub method: RestKind,
    /// The address of the call.
    pub url: String,
    /// The parameters carried in a JSON body.
    pub body: Option<Vec<(String, String)>>,
}

/// A device request: the address of a route and what the route declares.
#[derive(Debug, PartialEq)]
pub struct Request {
    /// The method.
    pub kind: RestKind,
    /// The hazards the route declares.
    pub hazards: Hazards,
    /// The full address of the route.
    pub route: String,
    /// The description of the route.
    pub description: Option<String>,
    /// The parameters the route declares.
    pub parameters_data: ParametersData,
    /// The shape of the reply.
    pub response_kind: ResponseKind,
    /// The runtime of the device.
    pub device_environment: DeviceEnvironment,
}

/// Whether `request` is what the given route configuration of a device at
/// `address`, with main route `main_route`, builds.
pub open spec fn built_from(
    request: Request,
    address: Seq<char>,
    main_route: Seq<char>,
    environment: DeviceEnvironment,
    config: RouteConfig,
) -> bool {
    &&& request.kind == config.rest_kind
    &&& request.hazards == config.data.hazards
    &&& request.route@ == route_address(address, main_route, config.data.path@)
    &&& request.description == config.data.description
    &&& request.parameters_data == config.data.parameters
    &&& request.response_kind == config.response_kind
    &&& request.device_environment == environment
}

/// Whether parameters travel as path segments: only `GET` requests to
/// devices that run a general-purpose operating system.
pub open spec fn uses_path_parameters(request: Request) -> bool {
    request.kind == RestKind::Get && request.device_environment == DeviceEnvironment::Os
}

/// The address a request goes to with the given values.
pub open spec fn request_address(request: Request, values: ParametersValues) -> Seq<char> {
    if uses_path_parameters(request) {
        request.route@ + path_segments(
            request.parameters_data,
            values,
            request.parameters_data.names().len(),
        )
    } else {
        request.route@
    }
}

/// Whether `data` is what a request builds from the given values.
pub open spec fn is_request_data(request: Request, values: ParametersValues, data: RequestData) -> bool {
    &&& data.request@ == request_address(request, values)
    &&& pairs_view(data.parameters@) == body_entries(request.parameters_data, values)
}

/// Whether `d` is the outbound call for the given request data: a JSON body
/// goes with every method but `GET`, when there are parameters.
pub open spec fn is_dispatch(request: Request, data: RequestData, d: Dispatch) -> bool {
    &&& d.method == request.kind
    &&& d.url == data.request
    &&& if request.kind != RestKind::Get && data.parameters@.len() > 0 {
        d.body == Some(data.parameters)
    } else {
        d.body is None
    }
}

impl Request {
    /// Builds the request for a route configuration of a device.
    pub fn new(
        address: &str,
        main_route: &str,
        device_environment: DeviceEnvironment,
        route_config: RouteConfig,
    ) -> (r: Request)
        ensures
            built_from(r, address@, main_route@, device_environment, route_config),
    {
        let mut route = slash_end(address);
        route.append("/");
        let main = slash_start_end(main_route);
        route.append(main.as_str());
        route.append("/");
        let path = slash_start_end(route_config.data.path.as_str());
        route.append(path.as_str());
        Request {
            kind: route_config.rest_kind,
            hazards: route_config.data.hazards,
            route,
            description: route_config.data.description,
            parameters_data: route_config.data.parameters,
            response_kind: route_config.response_kind,
            device_environment,
        }
    }

    /// The hazards the route declares.
    pub fn hazards(&self) -> (r: &Hazards)
        ensures
            *r == self.hazards,
    {
        &self.hazards
    }

    /// The method.
    pub fn kind(&self) -> (r: RestKind)
        ensures
            r == self.kind,
    {
        self.kind
    }

    /// The declared parameters, or `None` when the route declares none.
    pub fn parameters_data(&self) -> (r: Option<&ParametersData>)
        ensures
            self.parameters_data.names().len() == 0 ==> r is None,
            self.parameters_data.names().len() > 0 ==> r == Some(&self.parameters_data),
    {
        if self.parameters_data.is_empty() {
            None
        } else {
            Some(&self.parameters_data)
        }
    }

    /// The address and parameters of the request with the given values;
    /// parameters without a value take their default.
    pub fn request_data(&self, parameters: &ParametersValues) -> (r: RequestData)
        ensures
            is_request_data(*self, *parameters, r),
    {
        let data = &self.parameters_data;
        let n = data.len();
        let path_style = self.kind == RestKind::Get && self.device_environment
            == DeviceEnvironment::Os;
        let mut route = self.route.clone();
        let mut params: Vec<(String, String)> = Vec::new();
        let mut i: usize = 0;
        proof {
            data.lemma_lengths();
            assert(route@ =~= self.route@ + path_segments(*data, *parameters, 0));
        }
        while i < n
            invariant
                n as nat == data.names().len(),
                data.names().len() == data.values().len(),
                data == &self.parameters_data,
                i <= n,
                path_style ==> route@ == self.route@ + path_segments(*data, *parameters, i as nat),
                !path_style ==> route@ == self.route@,
                pairs_view(params@) == body_entries(*data, *parameters).subrange(0, i as int),
            decreases n - i,
        {
            let name = data.name_at(i);
            let kind = data.value_at(i);
            let text = match parameters.get(name.as_str()) {
                Some(value) => value.text(),
                None => ParameterValue::from_parameter_kind(kind).text(),
            };
            if path_style {
                route.append("/");
                route.append(text.as_str());
            }
            let ghost old_params = params@;
            params.push((name.clone(), text));
            proof {
                assert(pairs_view(params@) =~= pairs_view(old_params).push(
                    body_entries(*data, *parameters)[i as int],
                ));
                assert(body_entries(*data, *parameters).subrange(0, i + 1) =~= body_entries(
                    *data,
                    *parameters,
                ).subrange(0, i as int).push(body_entries(*data, *parameters)[i as int]));
            }
            i = i + 1;
        }
        proof {
            assert(body_entries(*data, *parameters).subrange(0, n as int) =~= body_entries(
                *data,
                *parameters,
            ));
        }
        RequestData::new(route, params)
    }

    /// Checks the given values against the declared parameters, then builds
    /// the address and parameters of the request.
    pub fn create_request(&self, parameters: &ParametersValues) -> (r: Result<RequestData, Error>)
        ensures
            r is Ok <==> values_fit(self.parameters_data, *parameters),
            r matches Ok(d) ==> is_request_data(*self, *parameters, d),
            r matches Err(e) ==> is_misfit_error(self.parameters_data, *parameters, e),
    {
        match compare_values_with_params_data(parameters, &self.parameters_data) {
            Ok(()) => Ok(self.request_data(parameters)),
            Err(e) => Err(e),
        }
    }

    /// The address and parameters of the request without values: every
    /// parameter takes its default.
    pub fn plain_request_data(&self) -> (r: RequestData)
        ensures
            forall|values: ParametersValues|
                values.names().len() == 0 ==> is_request_data(*self, values, r),
    {
        let empty = ParametersValues::new();
        let r = self.request_data(&empty);
        proof {
            empty.lemma_empty();
            assert forall|values: ParametersValues| values.names().len() == 0 implies is_request_data(
                *self,
                values,
                r,
            ) by {
                values.lemma_empty();
                lemma_same_lookups(self.parameters_data, empty, values);
            }
        }
        r
    }

    /// The outbound call for the given request data.
    pub fn dispatch(&self, data: RequestData) -> (r: Dispatch)
        ensures
            is_dispatch(*self, data, r),
    {
        let with_body = self.kind != RestKind::Get && data.parameters.len() > 0;
        Dispatch {
            method: self.kind,
            url: data.request,
            body: if with_body {
                Some(data.parameters)
            } else {
                None
            },
        }
    }
}

/// Whether `request` is built from the last of the first `n` configurations
/// whose path is `name`.
pub open spec fn built_from_last(
    configs: Seq<RouteConfig>,
    n: int,
    name: Seq<char>,
    request: Request,
    address: Seq<char>,
    main_route: Seq<char>,
    environment: DeviceEnvironment,
) -> bool {
    exists|i: int|
        0 <= i < n && configs[i].data.path@ == name && (forall|j: int|
            i < j < n ==> (#[trigger] configs[j]).data.path@ != name) && built_from(
            request,
            address,
            main_route,
            environment,
            configs[i],
        )
}

/// Whether `requests` holds one request for each path of `configs`, built
/// from the last configuration with that path.
pub open spec fn requests_built(
    requests: Named<Request>,
    configs: Seq<RouteConfig>,
    address: Seq<char>,
    main_route: Seq<char>,
    environment: DeviceEnvironment,
) -> bool {
    &&& forall|i: int| 0 <= i < configs.len() ==> #[trigger] requests.lookup(configs[i].data.path@) is Some
    &&& forall|name: Seq<char>|
        #[trigger] requests.lookup(name) is Some ==> built_from_last(
            configs,
            configs.len() as int,
            name,
            requests.lookup(name)->Some_0,
            address,
            main_route,
            environment,
        )
}

/// The requests of a device, one for each route path; when two
/// configurations share a path, the later one wins.
pub fn create_requests(
    route_configs: RouteConfigs,
    complete_address: &str,
    main_route: &str,
    environment: DeviceEnvironment,
) -> (r: Named<Request>)
    ensures
        requests_built(r, route_configs.items(), complete_address@, main_route@, environment),
{
    let ghost all = route_configs.items();
    let mut rest = route_configs.into_vec();
    let total: usize = rest.len();
    let mut r: Named<Request> = Named::new();
    let mut k: usize = 0;
    proof {
        Named::<Request>::lemma_empty(r);
    }
    while rest.len() > 0
        invariant
            k + rest@.len() == all.len(),
            all.len() == total,
            rest@ == all.subrange(k as int, all.len() as int),
            forall|i: int| 0 <= i < k ==> #[trigger] r.lookup(all[i].data.path@) is Some,
            forall|name: Seq<char>|
                #[trigger] r.lookup(name) is Some ==> built_from_last(
                    all,
                    k as int,
                    name,
                    r.lookup(name)->Some_0,
                    complete_address@,
                    main_route@,
                    environment,
                ),
        decreases rest@.len(),
    {
        let config = rest.remove(0);
        proof {
            assert(config == all[k as int]);
        }
        let ghost before = r;
        let ghost path = config.data.path@;
        let key = config.data.path.clone();
        let request = Request::new(complete_address, main_route, environment, config);
        r.insert(key, request);
        proof {
            assert forall|i: int| 0 <= i < k + 1 implies #[trigger] r.lookup(all[i].data.path@) is Some by {
                r.lemma_lookup_insert(before, path, request, all[i].data.path@);
            }
            assert forall|name: Seq<char>| #[trigger] r.lookup(name) is Some implies built_from_last(
                all,
                k + 1,
                name,
                r.lookup(name)->Some_0,
                complete_address@,
                main_route@,
                environment,
            ) by {
                r.lemma_lookup_insert(before, path, request, name);
                if name == path {
                    assert(forall|j: int| k < j < k + 1 ==> (#[trigger] all[j]).data.path@ != name);
                    assert(built_from(request, complete_address@, main_route@, environment, all[k as int]));
                } else {
                    let req = r.lookup(name)->Some_0;
                    assert(before.lookup(name) is Some);
                    let i = choose|i: int|
                        0 <= i < k && all[i].data.path@ == name && (forall|j: int|
                            i < j < k ==> (#[trigger] all[j]).data.path@ != name) && built_from(
                            req,
                            complete_address@,
                            main_route@,
                            environment,
                            all[i],
                        );
                    assert(forall|j: int| i < j < k + 1 ==> (#[trigger] all[j]).data.path@ != name);
                }
            }
        }
        k = k + 1;
    }
    r
}

/// A request built from a route configuration and given values that fit
/// its parameters keeps the route's method; its address is the route
/// address followed, for `GET` on a general-purpose operating system, by one
/// path segment per declared parameter; its body, for every other method,
/// holds each declared parameter with its text.
pub proof fn lemma_request_round_trip(
    address: Seq<char>,
    main_route: Seq<char>,
    environment: DeviceEnvironment,
    config: RouteConfig,
    request: Request,
    values: ParametersValues,
    data: RequestData,
    call: Dispatch,
)
    requires
        built_from(request, address, main_route, environment, config),
        values_fit(config.data.parameters, values),
        is_request_data(request, values, data),
        is_dispatch(request, data, call),
    ensures
        call.method == config.rest_kind,
        config.rest_kind == RestKind::Get && environment == DeviceEnvironment::Os ==> call.url@
            == route_address(address, main_route, config.data.path@) + path_segments(
            config.data.parameters,
            values,
            config.data.parameters.names().len(),
        ),
        !(config.rest_kind == RestKind::Get && environment == DeviceEnvironment::Os) ==> call.url@
            == route_address(address, main_route, config.data.path@),
        config.rest_kind != RestKind::Get && config.data.parameters.names().len() > 0 ==> (
        call.body matches Some(b) && pairs_view(b@) == body_entries(config.data.parameters, values)),
        config.rest_kind == RestKind::Get ==> call.body is None,
{
    assert(pairs_view(data.parameters@).len() == body_entries(config.data.parameters, values).len());
}

/// A value under a name that no parameter declares never fits.
pub proof fn lemma_unknown_name_rejected(data: ParametersData, values: ParametersValues, i: int)
    requires
        0 <= i < values.names().len(),
        data.lookup(values.names()[i]) is None,
    ensures
        !values_fit(data, values),
{
}

/// A single value of the wrong type is refused with an error that names
/// the type found and the type expected.
pub proof fn lemma_wrong_kind_message(data: ParametersData, values: ParametersValues, e: Error)
    requires
        values.names().len() == 1,
        data.lookup(values.names()[0]) is Some,
        !kind_matches(values.values()[0], data.lookup(values.names()[0])->Some_0),
        is_misfit_error(data, values, e),
    ensures
        !values_fit(data, values),
        e.kind == ErrorKind::InvalidParameter,
        e.description@ == "Found type `"@ + value_type(values.values()[0]) + "` for `"@
            + values.names()[0] + "`, expected type `"@ + kind_type(
            data.lookup(values.names()[0])->Some_0,
        ) + "`"@,
{
    assert(!value_fits(data, values.names()[0], values.values()[0]));
}

} // verus!
