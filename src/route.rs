use vstd::prelude::*;

use indexmap::IndexMap;

use crate::hazards::{Hazard, Hazards};
use crate::index_map::{
    entry_names, entry_values, route_entries, routes_contains_key, routes_insert,
    routes_into_values, routes_len, routes_new,
};
use crate::named::{first_index, lemma_first_index};
use crate::parameters::{Parameters, ParametersData};

verus! {

/// The kind of `REST` request.
#[derive(Debug, Clone, Copy, PartialEq, Eq, Structural, Hash)]
pub enum RestKind {
    /// `GET` request.
    Get,
    /// `PUT` request.
    Put,
    /// `POST` request.
    Post,
    /// `DELETE` request.
    Delete,
}

impl RestKind {
    /// The name of the request method.
    pub fn name(&self) -> (r: &'static str)
        ensures
            r@ == match *self {
                RestKind::Get => "GET"@,
                RestKind::Put => "PUT"@,
                RestKind::Post => "POST"@,
                RestKind::Delete => "DELETE"@,
            },
    {
        match self {
            RestKind::Get => "GET",
            RestKind::Put => "PUT",
            RestKind::Post => "POST",
            RestKind::Delete => "DELETE",
        }
    }
}

/// The shape of the reply of a route.
#[derive(Debug, Clone, Copy, PartialEq, Eq, Structural)]
pub enum ResponseKind {
    /// A plain success marker.
    Success,
    /// A serialized value of the caller's choice.
    Serial,
    /// Information on the device: energy and economy.
    Info,
    /// A stream of bytes.
    Stream,
}

impl Default for ResponseKind {
    fn default() -> (r: ResponseKind)
        ensures
            r == ResponseKind::Success,
    {
        ResponseKind::Success
    }
}

/// Route data.
#[derive(Debug, Clone, PartialEq)]
pub struct RouteData {
    /// Name.
    pub name: String,
    /// Path.
    pub path: String,
    /// Description.
    pub description: Option<String>,
    /// Hazards.
    pub hazards: Hazards,
    /// Parameters.
    pub parameters: ParametersData,
}

/// A route configuration, as a device declares it.
#[derive(Debug, Clone, PartialEq)]
pub struct RouteConfig {
    /// Route data.
    pub data: RouteData,
    /// The kind of `REST` request.
    pub rest_kind: RestKind,
    /// Response kind.
    pub response_kind: ResponseKind,
}

impl RouteConfig {
    /// Changes the response kind.
    pub fn change_response_kind(self, response_kind: ResponseKind) -> (r: RouteConfig)
        ensures
            r == (RouteConfig { response_kind, ..self }),
    {
        let mut r = self;
        r.response_kind = response_kind;
        r
    }
}

/// What tells two route configurations apart: their path and their method.
pub open spec fn route_key(config: RouteConfig) -> (Seq<char>, RestKind) {
    (config.data.path@, config.rest_kind)
}

/// Whether a list of route configurations holds one with the given key.
pub open spec fn has_route_key(items: Seq<RouteConfig>, key: (Seq<char>, RestKind)) -> bool {
    exists|i: int| 0 <= i < items.len() && route_key(#[trigger] items[i]) == key
}

/// The code of a method in the key of a route configuration.
pub open spec fn method_code(kind: RestKind) -> u8 {
    match kind {
        RestKind::Get => 0,
        RestKind::Put => 1,
        RestKind::Post => 2,
        RestKind::Delete => 3,
    }
}

impl RestKind {
    /// The code of the method in the key of a route configuration.
    pub fn code(&self) -> (r: u8)
        ensures
            r == method_code(*self),
    {
        match self {
            RestKind::Get => 0,
            RestKind::Put => 1,
            RestKind::Post => 2,
            RestKind::Delete => 3,
        }
    }
}

/// The key under which a route configuration is held: its path and the code
/// of its method.
pub open spec fn config_key(config: RouteConfig) -> (Seq<char>, u8) {
    (config.data.path@, method_code(config.rest_kind))
}

/// A collection of route configurations in insertion order, at most one
/// for each path and method: adding one whose path and method are already
/// held leaves the collection unchanged.
#[derive(Debug, Clone, PartialEq)]
pub struct RouteConfigs {
    map: IndexMap<(String, u8), RouteConfig>,
}

impl RouteConfigs {
    /// Each configuration under its key, in insertion order.
    pub closed spec fn entries(&self) -> Seq<((Seq<char>, u8), RouteConfig)> {
        route_entries(self.map)
    }

    /// The configurations, in insertion order.
    pub open spec fn items(&self) -> Seq<RouteConfig> {
        entry_values(self.entries())
    }

    /// Each configuration is held under its own path and method.
    pub open spec fn wf(&self) -> bool {
        forall|i: int|
            0 <= i < self.entries().len() ==> (#[trigger] self.entries()[i]).0 == config_key(
                self.entries()[i].1,
            )
    }

    /// Creates an empty collection.
    pub fn new() -> (r: RouteConfigs)
        ensures
            r.items() == Seq::<RouteConfig>::empty(),
            r.wf(),
    {
        let r = RouteConfigs { map: routes_new() };
        proof {
            assert(r.items() =~= Seq::<RouteConfig>::empty());
        }
        r
    }

    /// Creates a collection that holds one configuration.
    pub fn init(config: RouteConfig) -> (r: RouteConfigs)
        ensures
            r.items() == seq![config],
            r.wf(),
    {
        let mut r = RouteConfigs::new();
        r.add(config);
        proof {
            assert(r.items() =~= seq![config]);
        }
        r
    }

    /// Adds a configuration unless one with the same path and method is
    /// held; returns whether it was added.
    pub fn add(&mut self, config: RouteConfig) -> (added: bool)
        requires
            old(self).wf(),
        ensures
            final(self).wf(),
            added == !has_route_key(old(self).items(), route_key(config)),
            added ==> final(self).items() == old(self).items().push(config),
            !added ==> final(self).items() == old(self).items(),
    {
        let key = (config.data.path.clone(), config.rest_kind.code());
        let ghost k = (key.0@, key.1);
        let ghost keys = entry_names(self.entries());
        proof {
            lemma_first_index(keys, k);
            assert(k == config_key(config));
        }
        if routes_contains_key(&self.map, &key) {
            proof {
                let i = first_index(keys, k);
                assert(self.entries()[i].0 == k);
                assert(route_key(self.items()[i]) == route_key(config)) by {
                    lemma_method_code_injective(self.items()[i].rest_kind, config.rest_kind);
                }
            }
            return false;
        }
        proof {
            assert forall|i: int| 0 <= i < self.items().len() implies route_key(#[trigger] self.items()[i])
                != route_key(config) by {
                assert(keys[i] != k);
                assert(self.entries()[i].0 == config_key(self.entries()[i].1));
            }
        }
        routes_insert(&mut self.map, key, config);
        proof {
            assert(self.entries() == old(self).entries().push((k, config)));
            assert(self.items() =~= old(self).items().push(config));
            assert forall|i: int|
                0 <= i < self.entries().len() implies (#[trigger] self.entries()[i]).0
                == config_key(self.entries()[i].1) by {
                if i < old(self).entries().len() {
                    assert(self.entries()[i] == old(self).entries()[i]);
                }
            }
        }
        true
    }

    /// Adds a configuration, as [`RouteConfigs::add`] does, and returns the
    /// updated collection.
    pub fn insert(self, config: RouteConfig) -> (r: RouteConfigs)
        requires
            self.wf(),
        ensures
            r.wf(),
            has_route_key(self.items(), route_key(config)) ==> r.items() == self.items(),
            !has_route_key(self.items(), route_key(config)) ==> r.items() == self.items().push(
                config,
            ),
    {
        let mut r = self;
        r.add(config);
        r
    }

    /// Adds every configuration of `other`, in its order, to this one.
    pub fn merge(self, other: RouteConfigs) -> (r: RouteConfigs)
        requires
            self.wf(),
        ensures
            r.wf(),
            r.items() == merged(self.items(), other.items()),
    {
        let mut r = self;
        let mut rest = other.into_vec();
        let ghost all = rest@;
        let total: usize = rest.len();
        let mut k: usize = 0;
        while rest.len() > 0
            invariant
                k + rest@.len() == all.len(),
                all.len() == total,
                rest@ == all.subrange(k as int, all.len() as int),
                r.wf(),
                r.items() == merged(self.items(), all.subrange(0, k as int)),
            decreases rest@.len(),
        {
            let config = rest.remove(0);
            proof {
                assert(config == all[k as int]);
                assert(all.subrange(0, k + 1).drop_last() =~= all.subrange(0, k as int));
            }
            r.add(config);
            k = k + 1;
        }
        proof {
            assert(all.subrange(0, k as int) =~= all);
        }
        r
    }

    /// The number of configurations.
    pub fn len(&self) -> (r: usize)
        ensures
            r as nat == self.items().len(),
    {
        routes_len(&self.map)
    }

    /// Whether the collection is empty.
    pub fn is_empty(&self) -> (r: bool)
        ensures
            r == (self.items().len() == 0),
    {
        routes_len(&self.map) == 0
    }

    /// The configurations, in insertion order.
    pub fn into_vec(self) -> (r: Vec<RouteConfig>)
        ensures
            r@ == self.items(),
    {
        routes_into_values(self.map)
    }
}

/// Two methods with the same code are the same method.
pub proof fn lemma_method_code_injective(a: RestKind, b: RestKind)
    requires
        method_code(a) == method_code(b),
    ensures
        a == b,
{
}

/// The configurations of `base` followed by those of `extra` whose path and
/// method were not held yet.
pub open spec fn merged(base: Seq<RouteConfig>, extra: Seq<RouteConfig>) -> Seq<RouteConfig>
    decreases extra.len(),
{
    if extra.len() == 0 {
        base
    } else {
        let before = merged(base, extra.drop_last());
        if has_route_key(before, route_key(extra.last())) {
            before
        } else {
            before.push(extra.last())
        }
    }
}

/// A route definition: a named, path-addressed operation with its method,
/// description, parameters and hazards.
#[derive(Debug, Clone)]
pub struct Route {
    name: String,
    path: String,
    rest_kind: RestKind,
    description: Option<String>,
    parameters: Parameters,
    hazards: Hazards,
}

impl Route {
    /// The name of the route.
    pub closed spec fn name_view(&self) -> Seq<char> {
        self.name@
    }

    /// The path of the route.
    pub closed spec fn path_view(&self) -> Seq<char> {
        self.path@
    }

    /// The method of the route.
    pub closed spec fn kind_view(&self) -> RestKind {
        self.rest_kind
    }

    /// The description of the route.
    pub closed spec fn description_view(&self) -> Option<Seq<char>> {
        match self.description {
            Some(d) => Some(d@),
            None => None,
        }
    }

    /// The parameters of the route.
    pub closed spec fn parameters_view(&self) -> Parameters {
        self.parameters
    }

    /// The hazards of the route.
    pub closed spec fn hazards_view(&self) -> Set<Hazard> {
        self.hazards@
    }

    fn init(rest_kind: RestKind, name: &str, path: &str) -> (r: Route)
        ensures
            r.kind_view() == rest_kind,
            r.name_view() == name@,
            r.path_view() == path@,
            r.description_view() is None,
            r.hazards_view() == Set::<Hazard>::empty(),
            r.parameters_view().data().names().len() == 0,
    {
        Route {
            name: String::from_str(name),
            path: String::from_str(path),
            rest_kind,
            description: None,
            parameters: Parameters::new(),
            hazards: Hazards::new(),
        }
    }

    /// Creates a `GET` route.
    pub fn get(name: &str, path: &str) -> (r: Route)
        ensures
            r.kind_view() == RestKind::Get,
            r.name_view() == name@,
            r.path_view() == path@,
            r.description_view() is None,
            r.hazards_view() == Set::<Hazard>::empty(),
            r.parameters_view().data().names().len() == 0,
    {
        Route::init(RestKind::Get, name, path)
    }

    /// Creates a `PUT` route.
    pub fn put(name: &str, path: &str) -> (r: Route)
        ensures
            r.kind_view() == RestKind::Put,
            r.name_view() == name@,
            r.path_view() == path@,
            r.description_view() is None,
            r.hazards_view() == Set::<Hazard>::empty(),
            r.parameters_view().data().names().len() == 0,
    {
        Route::init(RestKind::Put, name, path)
    }

    /// Creates a `POST` route.
    pub fn post(name: &str, path: &str) -> (r: Route)
        ensures
            r.kind_view() == RestKind::Post,
            r.name_view() == name@,
            r.path_view() == path@,
            r.description_view() is None,
            r.hazards_view() == Set::<Hazard>::empty(),
            r.parameters_view().data().names().len() == 0,
    {
        Route::init(RestKind::Post, name, path)
    }

    /// Creates a `DELETE` route.
    pub fn delete(name: &str, path: &str) -> (r: Route)
        ensures
            r.kind_view() == RestKind::Delete,
            r.name_view() == name@,
            r.path_view() == path@,
            r.description_view() is None,
            r.hazards_view() == Set::<Hazard>::empty(),
            r.parameters_view().data().names().len() == 0,
    {
        Route::init(RestKind::Delete, name, path)
    }

    /// Sets the description.
    pub fn description(self, description: &str) -> (r: Route)
        ensures
            r.description_view() == Some(description@),
            r.name_view() == self.name_view(),
            r.path_view() == self.path_view(),
            r.kind_view() == self.kind_view(),
            r.hazards_view() == self.hazards_view(),
            r.parameters_view() == self.parameters_view(),
    {
        Route { description: Some(String::from_str(description)), ..self }
    }

    /// Changes the name.
    pub fn change_name(self, name: &str) -> (r: Route)
        ensures
            r.name_view() == name@,
            r.description_view() == self.description_view(),
            r.path_view() == self.path_view(),
            r.kind_view() == self.kind_view(),
            r.hazards_view() == self.hazards_view(),
            r.parameters_view() == self.parameters_view(),
    {
        Route { name: String::from_str(name), ..self }
    }

    /// Changes the path.
    pub fn change_path(self, path: &str) -> (r: Route)
        ensures
            r.path_view() == path@,
            r.name_view() == self.name_view(),
            r.description_view() == self.description_view(),
            r.kind_view() == self.kind_view(),
            r.hazards_view() == self.hazards_view(),
            r.parameters_view() == self.parameters_view(),
    {
        Route { path: String::from_str(path), ..self }
    }

    /// Sets the hazards.
    pub fn with_hazards(self, hazards: Hazards) -> (r: Route)
        ensures
            r.hazards_view() == hazards@,
            r.name_view() == self.name_view(),
            r.path_view() == self.path_view(),
            r.description_view() == self.description_view(),
            r.kind_view() == self.kind_view(),
            r.parameters_view() == self.parameters_view(),
    {
        Route { hazards, ..self }
    }

    /// Sets a single hazard.
    pub fn with_hazard(self, hazard: Hazard) -> (r: Route)
        ensures
            r.hazards_view() == Set::<Hazard>::empty().insert(hazard),
            r.name_view() == self.name_view(),
            r.path_view() == self.path_view(),
            r.description_view() == self.description_view(),
            r.kind_view() == self.kind_view(),
            r.parameters_view() == self.parameters_view(),
    {
        Route { hazards: Hazards::init(hazard), ..self }
    }

    /// Sets the hazards of a slice.
    pub fn with_array_of_hazards(self, hazards: &[Hazard]) -> (r: Route)
        ensures
            r.hazards_view() == hazards@.to_set(),
            r.name_view() == self.name_view(),
            r.path_view() == self.path_view(),
            r.description_view() == self.description_view(),
            r.kind_view() == self.kind_view(),
            r.parameters_view() == self.parameters_view(),
    {
        Route { hazards: Hazards::init_from_hazards(hazards), ..self }
    }

    /// Sets the parameters.
    pub fn with_parameters(self, parameters: Parameters) -> (r: Route)
        ensures
            r.parameters_view() == parameters,
            r.name_view() == self.name_view(),
            r.path_view() == self.path_view(),
            r.description_view() == self.description_view(),
            r.kind_view() == self.kind_view(),
            r.hazards_view() == self.hazards_view(),
    {
        Route { parameters, ..self }
    }

    /// The path.
    pub fn route(&self) -> (r: &str)
        ensures
            r@ == self.path_view(),
    {
        self.path.as_str()
    }

    /// The method.
    pub fn kind(&self) -> (r: RestKind)
        ensures
            r == self.kind_view(),
    {
        self.rest_kind
    }

    /// The hazards.
    pub fn hazards(&self) -> (r: &Hazards)
        ensures
            r@ == self.hazards_view(),
    {
        &self.hazards
    }

    /// The parameters.
    pub fn parameters(&self) -> (r: &Parameters)
        ensures
            *r == self.parameters_view(),
    {
        &self.parameters
    }

    /// Keeps only the hazards that `allowed_hazards` lists.
    pub fn remove_prohibited_hazards(self, allowed_hazards: &[Hazard]) -> (r: Route)
        ensures
            r.hazards_view() == self.hazards_view().intersect(allowed_hazards@.to_set()),
            r.name_view() == self.name_view(),
            r.path_view() == self.path_view(),
            r.description_view() == self.description_view(),
            r.kind_view() == self.kind_view(),
            r.parameters_view() == self.parameters_view(),
    {
        let allowed = Hazards::init_from_hazards(allowed_hazards);
        let hazards = self.hazards.intersection(&allowed);
        Route { hazards, ..self }
    }

    /// Turns the route into the configuration that a device declares.
    pub fn serialize_data(self) -> (r: RouteConfig)
        ensures
            r.rest_kind == self.kind_view(),
            r.response_kind == ResponseKind::Success,
            r.data.name@ == self.name_view(),
            r.data.path@ == self.path_view(),
            r.data.hazards@ == self.hazards_view(),
            r.data.parameters == self.parameters_view().data(),
            match r.data.description {
                Some(d) => self.description_view() == Some(d@),
                None => self.description_view() is None,
            },
    {
        RouteConfig {
            rest_kind: self.rest_kind,
            response_kind: ResponseKind::Success,
            data: RouteData {
                name: self.name,
                path: self.path,
                description: self.description,
                hazards: self.hazards,
                parameters: self.parameters.serialize_data(),
            },
        }
    }
}

} // verus!
