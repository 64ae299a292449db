use vstd::prelude::*;

use crate::device::{Device, Devices};
use crate::device_data::EventsDescription;
use crate::discovery::Discovery;
use crate::error::{Error, ErrorKind};
use crate::hazards::Hazard;
use crate::parameters::ParametersValues;
use crate::policy::Policy;
use crate::request::{
    body_entries, is_misfit_error, pairs_view, request_address, values_fit, Dispatch, Request,
};
use crate::route::{ResponseKind, RestKind};
use crate::text::{decimal, push_decimal};

verus! {

/// An error raised while building a sender.
pub fn sender_error(description: &str) -> (r: Error)
    ensures
        r.kind == ErrorKind::Sender,
        r.description@ == description@,
{
    Error::new(ErrorKind::Sender, description)
}

/// Whether a request with the given hazards is suppressed for the device
/// with index `id`: it declares hazards, and some of them are blocked on
/// every device or on that device.
pub open spec fn skip_decision(policy: Policy, id: usize, hazards: Set<Hazard>) -> bool {
    hazards != Set::<Hazard>::empty() && (hazards.intersect(policy.global_set()) != Set::<
        Hazard,
    >::empty() || hazards.intersect(policy.local_set(id)) != Set::<Hazard>::empty())
}

/// What sending a request comes to.
#[derive(Debug, Clone, PartialEq)]
pub enum Outcome {
    /// The policy suppressed the request: no call is made.
    Skipped,
    /// The call to make, and the shape of the reply it expects.
    Call {
        /// The outbound call.
        dispatch: Dispatch,
        /// The shape of the reply.
        response_kind: ResponseKind,
    },
}

/// Whether `d` is the call for a request with the given values: the address
/// follows the method and the device environment, and a JSON body goes with
/// every method but `GET` when the route declares parameters.
pub open spec fn is_call_for(request: Request, values: ParametersValues, d: Dispatch) -> bool {
    &&& d.method == request.kind
    &&& d.url@ == request_address(request, values)
    &&& if request.kind != RestKind::Get && request.parameters_data.names().len() > 0 {
        d.body matches Some(b) && pairs_view(b@) == body_entries(request.parameters_data, values)
    } else {
        d.body is None
    }
}

/// Whether `o` is what sending `request` with `values` comes to.
pub open spec fn is_outcome(request: Request, skip: bool, values: ParametersValues, o: Outcome) -> bool {
    if skip {
        o is Skipped
    } else {
        o matches Outcome::Call { dispatch, response_kind } && response_kind
            == request.response_kind && is_call_for(request, values, dispatch)
    }
}

/// A sender of one request of one device.
#[derive(Debug, PartialEq)]
pub struct RequestSender<'a> {
    request: &'a Request,
    skip: bool,
}

impl<'a> RequestSender<'a> {
    /// The request to send.
    pub closed spec fn request_view(&self) -> Request {
        *self.request
    }

    /// Whether the policy suppresses the request.
    pub closed spec fn skip_view(&self) -> bool {
        self.skip
    }

    /// Whether the policy suppresses the request.
    pub fn is_skipped(&self) -> (r: bool)
        ensures
            r == self.skip_view(),
    {
        self.skip
    }

    /// The request to send.
    pub fn request(&self) -> (r: &'a Request)
        ensures
            *r == self.request_view(),
    {
        self.request
    }

    /// What sending the request without values comes to: nothing when the
    /// policy suppresses it, else a call where every parameter takes its
    /// default.
    pub fn send(&self) -> (r: Outcome)
        ensures
            forall|values: ParametersValues|
                values.names().len() == 0 ==> is_outcome(
                    self.request_view(),
                    self.skip_view(),
                    values,
                    r,
                ),
    {
        if self.skip {
            return Outcome::Skipped;
        }
        let data = self.request.plain_request_data();
        let ghost d = data;
        let dispatch = self.request.dispatch(data);
        proof {
            assert forall|values: ParametersValues|
                values.names().len() == 0 implies is_outcome(
                self.request_view(),
                self.skip_view(),
                values,
                Outcome::Call { dispatch, response_kind: self.request.response_kind },
            ) by {
                assert(crate::request::is_request_data(*self.request, values, d));
                assert(pairs_view(d.parameters@).len() == body_entries(
                    self.request.parameters_data,
                    values,
                ).len());
            }
        }
        Outcome::Call { dispatch, response_kind: self.request.response_kind }
    }

    /// What sending the request with the given values comes to. When the
    /// policy suppresses it, nothing, whatever the values; when the route
    /// declares no parameters, what [`RequestSender::send`] gives; else the
    /// values are checked against the declared parameters first.
    pub fn send_with_parameters(&self, parameters: &ParametersValues) -> (r: Result<Outcome, Error>)
        ensures
            self.request_view().parameters_data.names().len() == 0 ==> (r matches Ok(o)
                && forall|values: ParametersValues|
                values.names().len() == 0 ==> is_outcome(
                    self.request_view(),
                    self.skip_view(),
                    values,
                    o,
                )),
            self.request_view().parameters_data.names().len() > 0 && self.skip_view() ==> r
                == Ok::<Outcome, Error>(Outcome::Skipped),
            self.request_view().parameters_data.names().len() > 0 && !self.skip_view() ==> {
                &&& r is Ok <==> values_fit(self.request_view().parameters_data, *parameters)
                &&& r matches Ok(o) ==> is_outcome(
                    self.request_view(),
                    false,
                    *parameters,
                    o,
                )
                &&& r matches Err(e) ==> is_misfit_error(
                    self.request_view().parameters_data,
                    *parameters,
                    e,
                )
            },
    {
        if self.request.parameters_data.is_empty() {
            return Ok(self.send());
        }
        if self.skip {
            return Ok(Outcome::Skipped);
        }
        match self.request.create_request(parameters) {
            Ok(data) => {
                let ghost d = data;
                let dispatch = self.request.dispatch(data);
                proof {
                    assert(pairs_view(d.parameters@).len() == body_entries(
                        self.request.parameters_data,
                        *parameters,
                    ).len());
                }
                Ok(Outcome::Call { dispatch, response_kind: self.request.response_kind })
            },
            Err(e) => Err(e),
        }
    }
}

/// A sender for the requests of one device.
#[derive(Debug, PartialEq)]
pub struct DeviceSender<'a> {
    policy: &'a Policy,
    device: &'a Device,
    id: usize,
}

impl<'a> DeviceSender<'a> {
    /// The index of the device.
    pub closed spec fn id_view(&self) -> usize {
        self.id
    }

    /// The device.
    pub closed spec fn device_view(&self) -> Device {
        *self.device
    }

    /// The policy in force.
    pub closed spec fn policy_view(&self) -> Policy {
        *self.policy
    }

    /// The index of the device.
    pub fn id(&self) -> (r: usize)
        ensures
            r == self.id_view(),
    {
        self.id
    }

    /// The device.
    pub fn device(&self) -> (r: &'a Device)
        ensures
            *r == self.device_view(),
    {
        self.device
    }

    /// Builds the sender of the request under the given route path, with
    /// the policy decision for it.
    pub fn request(&self, route: &str) -> (r: Result<RequestSender<'a>, Error>)
        ensures
            r is Ok <==> self.device_view().requests_view().lookup(route@) is Some,
            r matches Ok(s) ==> {
                &&& Some(s.request_view()) == self.device_view().requests_view().lookup(route@)
                &&& s.skip_view() == skip_decision(
                    self.policy_view(),
                    self.id_view(),
                    s.request_view().hazards@,
                )
            },
            r matches Err(e) ==> e.kind == ErrorKind::Sender && e.description@
                == "Error in retrieving the request with route `"@ + route@ + "`."@,
    {
        match self.device.request(route) {
            None => {
                let mut message = String::from_str("Error in retrieving the request with route `");
                message.append(route);
                message.append("`.");
                Err(sender_error(message.as_str()))
            },
            Some(request) => {
                let skip = if request.hazards.is_empty() {
                    false
                } else {
                    self.evaluate_privacy_policy(request)
                };
                Ok(RequestSender { request, skip })
            },
        }
    }

    fn evaluate_privacy_policy(&self, request: &Request) -> (r: bool)
        ensures
            r == (request.hazards@.intersect(self.policy_view().global_set()) != Set::<
                Hazard,
            >::empty() || request.hazards@.intersect(self.policy_view().local_set(self.id_view()))
                != Set::<Hazard>::empty()),
    {
        let global_blocked_hazards = self.policy.global_blocked_hazards(&request.hazards);
        let local_blocked_hazards = self.policy.local_blocked_hazards(self.id, &request.hazards);
        let mut skip = false;
        if !global_blocked_hazards.is_empty() {
            skip = true;
        }
        if !local_blocked_hazards.is_empty() {
            skip = true;
        }
        skip
    }
}

/// A request that declares no hazard is never suppressed, whatever the
/// policy.
pub proof fn lemma_no_hazards_never_skipped(policy: Policy, id: usize)
    ensures
        !skip_decision(policy, id, Set::<Hazard>::empty()),
{
}

/// A request with a hazard blocked on every device, or on the device it
/// goes to, is suppressed, and sending it makes no call.
pub proof fn lemma_blocked_hazards_skipped(
    policy: Policy,
    id: usize,
    request: Request,
    values: ParametersValues,
    outcome: Outcome,
)
    requires
        request.hazards@.intersect(policy.global_set()) != Set::<Hazard>::empty()
            || request.hazards@.intersect(policy.local_set(id)) != Set::<Hazard>::empty(),
        is_outcome(request, skip_decision(policy, id, request.hazards@), values, outcome),
    ensures
        skip_decision(policy, id, request.hazards@),
        outcome is Skipped,
{
    if request.hazards@ == Set::<Hazard>::empty() {
        assert(request.hazards@.intersect(policy.global_set()) =~= Set::<Hazard>::empty());
        assert(request.hazards@.intersect(policy.local_set(id)) =~= Set::<Hazard>::empty());
    }
}

/// What the controller must do to shut down: the devices whose event
/// receiver is cancelled, and those whose receiver is awaited until it has
/// terminated.
#[derive(Debug, Clone, PartialEq)]
pub struct Shutdown {
    /// Indices of the devices with events, whose receivers are cancelled.
    pub cancel: Vec<usize>,
    /// Indices of the devices whose receiver runs, awaited in order.
    pub join: Vec<usize>,
}

/// A controller: the discovery configuration, the devices, and the privacy
/// policy that gates every request.
#[derive(Debug, PartialEq)]
pub struct Controller {
    discovery: Discovery,
    devices: Devices,
    privacy_policy: Policy,
}

impl Controller {
    /// The discovery configuration.
    pub closed spec fn discovery_view(&self) -> Discovery {
        self.discovery
    }

    /// The devices.
    pub closed spec fn devices_view(&self) -> Seq<Device> {
        self.devices@
    }

    /// The policy in force.
    pub closed spec fn policy_view(&self) -> Policy {
        self.privacy_policy
    }

    /// Creates a controller without devices, whose policy blocks nothing.
    pub fn new(discovery: Discovery) -> (r: Controller)
        ensures
            r.discovery_view() == discovery,
            r.devices_view() == Seq::<Device>::empty(),
            r.policy_view().global_set() == Set::<Hazard>::empty(),
            forall|id: usize| #[trigger] r.policy_view().local_set(id) == Set::<Hazard>::empty(),
    {
        Controller { discovery, devices: Devices::new(), privacy_policy: Policy::init() }
    }

    /// Creates a controller with the given devices, whose policy blocks
    /// nothing.
    pub fn from_devices(discovery: Discovery, devices: Devices) -> (r: Controller)
        ensures
            r.discovery_view() == discovery,
            r.devices_view() == devices@,
            r.policy_view().global_set() == Set::<Hazard>::empty(),
            forall|id: usize| #[trigger] r.policy_view().local_set(id) == Set::<Hazard>::empty(),
    {
        Controller { discovery, devices, privacy_policy: Policy::init() }
    }

    /// Sets the policy.
    pub fn policy(self, privacy_policy: Policy) -> (r: Controller)
        ensures
            r.discovery_view() == self.discovery_view(),
            r.devices_view() == self.devices_view(),
            r.policy_view() == privacy_policy,
    {
        Controller { privacy_policy, ..self }
    }

    /// Replaces the policy.
    pub fn change_policy(&mut self, privacy_policy: Policy)
        ensures
            final(self).discovery_view() == old(self).discovery_view(),
            final(self).devices_view() == old(self).devices_view(),
            final(self).policy_view() == privacy_policy,
    {
        self.privacy_policy = privacy_policy;
    }

    /// The discovery configuration.
    pub fn discovery(&self) -> (r: &Discovery)
        ensures
            *r == self.discovery_view(),
    {
        &self.discovery
    }

    /// The policy in force.
    pub fn privacy_policy(&self) -> (r: &Policy)
        ensures
            *r == self.policy_view(),
    {
        &self.privacy_policy
    }

    /// The devices.
    pub fn devices(&self) -> (r: &Devices)
        ensures
            r@ == self.devices_view(),
    {
        &self.devices
    }

    /// The devices, to change them in place.
    pub fn devices_mut(&mut self) -> (r: &mut Devices)
        ensures
            r@ == old(self).devices_view(),
            final(self).devices_view() == final(r)@,
            final(self).discovery_view() == old(self).discovery_view(),
            final(self).policy_view() == old(self).policy_view(),
    {
        &mut self.devices
    }

    /// Replaces the devices with those of a new discovery.
    pub fn set_devices(&mut self, devices: Devices)
        ensures
            final(self).discovery_view() == old(self).discovery_view(),
            final(self).devices_view() == devices@,
            final(self).policy_view() == old(self).policy_view(),
    {
        self.devices = devices;
    }

    /// Builds the sender for the device with the given index.
    pub fn device(&self, id: usize) -> (r: Result<DeviceSender<'_>, Error>)
        ensures
            r is Ok <==> id < self.devices_view().len(),
            r matches Ok(s) ==> s.id_view() == id && s.device_view() == self.devices_view()[id as int]
                && s.policy_view() == self.policy_view(),
            r matches Err(e) ==> e.kind == ErrorKind::Sender,
            self.devices_view().len() == 0 ==> (r matches Err(e) && e.description@
                == "No devices found."@),
            0 < self.devices_view().len() <= id ==> (r matches Err(e) && e.description@
                == "Error in retrieving the device with identifier "@ + decimal(id as nat) + "."@),
    {
        if self.devices.is_empty() {
            return Err(sender_error("No devices found."));
        }
        match self.devices.get(id) {
            None => {
                let mut message = String::from_str("Error in retrieving the device with identifier ");
                push_decimal(&mut message, id as u64);
                message.append(".");
                Err(sender_error(message.as_str()))
            },
            Some(device) => Ok(DeviceSender { policy: &self.privacy_policy, device, id }),
        }
    }

    /// The devices whose event receiver may start: each one that has events
    /// and runs no receiver, with where to subscribe, in index order.
    pub fn event_receiver_candidates(&self) -> (r: Vec<(usize, EventsDescription)>)
        ensures
            forall|k: int|
                0 <= k < r@.len() ==> {
                    &&& (#[trigger] r@[k]).0 < self.devices_view().len()
                    &&& self.devices_view()[r@[k].0 as int].events_view() == Some(r@[k].1)
                    &&& !self.devices_view()[r@[k].0 as int].receiver_running()
                },
            forall|i: int|
                0 <= i < self.devices_view().len() && !self.devices_view()[i].receiver_running()
                    && #[trigger] self.devices_view()[i].events_view() is Some ==> exists|k: int|
                    0 <= k < r@.len() && r@[k].0 == i,
            forall|a: int, b: int| 0 <= a < b < r@.len() ==> r@[a].0 < r@[b].0,
    {
        let n = self.devices.len();
        let mut r: Vec<(usize, EventsDescription)> = Vec::new();
        let mut i: usize = 0;
        while i < n
            invariant
                n as nat == self.devices@.len(),
                i <= n,
                forall|k: int|
                    0 <= k < r@.len() ==> {
                        &&& (#[trigger] r@[k]).0 < i
                        &&& self.devices@[r@[k].0 as int].events_view() == Some(r@[k].1)
                        &&& !self.devices@[r@[k].0 as int].receiver_running()
                    },
                forall|j: int|
                    0 <= j < i && !self.devices@[j].receiver_running()
                        && #[trigger] self.devices@[j].events_view() is Some ==> exists|k: int|
                        0 <= k < r@.len() && r@[k].0 == j,
                forall|a: int, b: int| 0 <= a < b < r@.len() ==> r@[a].0 < r@[b].0,
            decreases n - i,
        {
            let device = self.devices.get(i).unwrap();
            let ghost old_r = r@;
            if let Ok(events) = device.start_event_receiver(i) {
                r.push((i, events));
                proof {
                    assert(r@[r@.len() - 1].0 == i);
                }
            }
            proof {
                assert forall|j: int|
                    0 <= j < i + 1 && !self.devices@[j].receiver_running()
                        && #[trigger] self.devices@[j].events_view() is Some implies exists|k: int|
                    0 <= k < r@.len() && r@[k].0 == j by {
                    if j < i {
                        let k = choose|k: int| 0 <= k < old_r.len() && old_r[k].0 == j;
                        assert(r@[k] == old_r[k]);
                    } else {
                        assert(r@[r@.len() - 1].0 == i);
                    }
                }
            }
            i = i + 1;
        }
        r
    }

    /// Records the event receivers that started; fails when none did.
    pub fn record_event_receivers(&mut self, started: &Vec<usize>) -> (r: Result<(), Error>)
        requires
            forall|k: int|
                0 <= k < started@.len() ==> #[trigger] started@[k] < old(self).devices_view().len(),
        ensures
            r is Err <==> started@.len() == 0,
            r matches Err(e) ==> e.kind == ErrorKind::Events && e.description@
                == "No event receiver tasks has started"@,
            final(self).devices_view().len() == old(self).devices_view().len(),
            forall|k: int|
                0 <= k < started@.len() ==> final(self).devices_view()[#[trigger] started@[k] as int].receiver_running(),
            forall|i: int|
                0 <= i < old(self).devices_view().len() && !started@.contains(i as usize)
                    ==> #[trigger] final(self).devices_view()[i] == old(self).devices_view()[i],
            final(self).policy_view() == old(self).policy_view(),
            final(self).discovery_view() == old(self).discovery_view(),
    {
        if started.len() == 0 {
            return Err(Error::new(ErrorKind::Events, "No event receiver tasks has started"));
        }
        let mut k: usize = 0;
        while k < started.len()
            invariant
                k <= started@.len(),
                forall|j: int|
                    0 <= j < started@.len() ==> #[trigger] started@[j] < old(self).devices_view().len(),
                self.devices@.len() == old(self).devices_view().len(),
                forall|j: int|
                    0 <= j < k ==> self.devices@[#[trigger] started@[j] as int].receiver_running(),
                forall|i: int|
                    0 <= i < old(self).devices_view().len() && !started@.subrange(0, k as int).contains(
                        i as usize,
                    ) ==> #[trigger] self.devices@[i] == old(self).devices_view()[i],
                self.privacy_policy == old(self).policy_view(),
                self.discovery == old(self).discovery_view(),
            decreases started@.len() - k,
        {
            let index = started[k];
            self.devices.set_event_receiver_running(index, true);
            proof {
                assert forall|i: int|
                    0 <= i < old(self).devices_view().len() && !started@.subrange(
                        0,
                        k + 1,
                    ).contains(i as usize) implies #[trigger] self.devices@[i] == old(
                    self,
                ).devices_view()[i] by {
                    assert(started@.subrange(0, k + 1)[k as int] == index);
                    if started@.subrange(0, k as int).contains(i as usize) {
                        let w = choose|w: int|
                            0 <= w < k && started@.subrange(0, k as int)[w] == i as usize;
                        assert(started@.subrange(0, k + 1)[w] == i as usize);
                    }
                }
            }
            k = k + 1;
        }
        proof {
            assert(started@.subrange(0, k as int) =~= started@);
        }
        Ok(())
    }

    /// Shuts the controller down: every device with events has its receiver
    /// cancelled, and every running receiver is awaited until it has
    /// terminated.
    pub fn shutdown(self) -> (r: Shutdown)
        ensures
            forall|i: int|
                0 <= i < self.devices_view().len() ==> (#[trigger] self.devices_view()[i].receiver_running()
                    <==> r.join@.contains(i as usize)),
            forall|i: int|
                0 <= i < self.devices_view().len() ==> (#[trigger] self.devices_view()[i].events_view() is Some
                    <==> r.cancel@.contains(i as usize)),
            forall|k: int| 0 <= k < r.join@.len() ==> #[trigger] r.join@[k] < self.devices_view().len(),
            forall|k: int|
                0 <= k < r.cancel@.len() ==> #[trigger] r.cancel@[k] < self.devices_view().len(),
    {
        let n = self.devices.len();
        let mut cancel: Vec<usize> = Vec::new();
        let mut join: Vec<usize> = Vec::new();
        let mut i: usize = 0;
        while i < n
            invariant
                n as nat == self.devices@.len(),
                i <= n,
                forall|j: int|
                    0 <= j < i ==> (#[trigger] self.devices@[j].receiver_running() <==> join@.contains(
                        j as usize,
                    )),
                forall|j: int|
                    0 <= j < i ==> (#[trigger] self.devices@[j].events_view() is Some
                        <==> cancel@.contains(j as usize)),
                forall|k: int| 0 <= k < join@.len() ==> #[trigger] join@[k] < i,
                forall|k: int| 0 <= k < cancel@.len() ==> #[trigger] cancel@[k] < i,
            decreases n - i,
        {
            let device = self.devices.get(i).unwrap();
            let ghost old_join = join@;
            let ghost old_cancel = cancel@;
            if device.has_events() {
                cancel.push(i);
            }
            if device.is_event_receiver_running() {
                join.push(i);
            }
            proof {
                assert forall|j: int|
                    0 <= j < i + 1 implies (#[trigger] self.devices@[j].receiver_running()
                    <==> join@.contains(j as usize)) by {
                    if j < i {
                        if old_join.contains(j as usize) {
                            let w = old_join.index_of(j as usize);
                            assert(join@[w] == j as usize);
                        }
                        if join@.contains(j as usize) {
                            let w = join@.index_of(j as usize);
                            if w < old_join.len() {
                                assert(old_join[w] == j as usize);
                            }
                        }
                    } else {
                        if join@.contains(j as usize) {
                            let w = join@.index_of(j as usize);
                            if w < old_join.len() {
                                assert(old_join[w] < i);
                            }
                        }
                        if self.devices@[j].receiver_running() {
                            assert(join@[join@.len() - 1] == i);
                        }
                    }
                }
                assert forall|j: int|
                    0 <= j < i + 1 implies (#[trigger] self.devices@[j].events_view() is Some
                    <==> cancel@.contains(j as usize)) by {
                    if j < i {
                        if old_cancel.contains(j as usize) {
                            let w = old_cancel.index_of(j as usize);
                            assert(cancel@[w] == j as usize);
                        }
                        if cancel@.contains(j as usize) {
                            let w = cancel@.index_of(j as usize);
                            if w < old_cancel.len() {
                                assert(old_cancel[w] == j as usize);
                            }
                        }
                    } else {
                        if cancel@.contains(j as usize) {
                            let w = cancel@.index_of(j as usize);
                            if w < old_cancel.len() {
                                assert(old_cancel[w] < i);
                            }
                        }
                        if self.devices@[j].events_view() is Some {
                            assert(cancel@[cancel@.len() - 1] == i);
                        }
                    }
                }
            }
            i = i + 1;
        }
        Shutdown { cancel, join }
    }
}

/// Every event receiver that runs when the controller shuts down is among
/// those awaited until they have terminated.
pub proof fn lemma_shutdown_joins_running(devices: Seq<Device>, plan: Shutdown, i: int)
    requires
        0 <= i < devices.len(),
        devices[i].receiver_running(),
        forall|j: int|
            0 <= j < devices.len() ==> (#[trigger] devices[j].receiver_running() <==> plan.join@.contains(
                j as usize,
            )),
    ensures
        plan.join@.contains(i as usize),
{
}

} // verus!
