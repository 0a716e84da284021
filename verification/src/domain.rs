//! What is exchanged with the provisioning controller: the bodies of its
//! requests and answers, where each call is sent, and when an answer counts
//! as a refusal.

use vstd::prelude::*;
use vstd::string::*;
use crate::text::{decimal_text, joined, join, append_decimal};

verus! {

/// A change of a domain's power state.
#[derive(Clone, Copy, PartialEq, Eq, Debug, Structural)]
pub enum PowerAction {
    Shutdown,
    PowerOn,
    Restart,
}

/// What a call to the controller is meant to do.
#[derive(Clone, Copy, PartialEq, Eq, Debug, Structural)]
pub enum ControllerTask {
    Create,
    Running,
    Fetch,
    Delete,
    Power(PowerAction),
}

/// The method of a call to the controller.
#[derive(Clone, Copy, PartialEq, Eq, Debug, Structural)]
pub enum Method {
    Get,
    Post,
    Delete,
}

/// The network part of a request to create a domain.
#[derive(Clone, Debug, PartialEq, Eq)]
pub struct CreateDomainRequestNetwork {
    pub address: String,
    pub gateway: String,
    pub interface: String,
}

/// `CreateDomainRequestNetwork` as sequences of characters.
pub struct CreateDomainRequestNetworkView {
    pub address: Seq<char>,
    pub gateway: Seq<char>,
    pub interface: Seq<char>,
}

impl DeepView for CreateDomainRequestNetwork {
    type V = CreateDomainRequestNetworkView;

    open spec fn deep_view(&self) -> CreateDomainRequestNetworkView {
        CreateDomainRequestNetworkView {
            address: self.address@,
            gateway: self.gateway@,
            interface: self.interface@,
        }
    }
}

/// The sizing part of a request to create a domain: processors, memory in
/// GiB, and the disk as a number followed by `G`.
#[derive(Clone, Debug, PartialEq, Eq)]
pub struct CreateDomainRequestResources {
    pub cpu: i32,
    pub memory: i32,
    pub disk: String,
}

/// `CreateDomainRequestResources` with the disk as a sequence of characters.
pub struct CreateDomainRequestResourcesView {
    pub cpu: i32,
    pub memory: i32,
    pub disk: Seq<char>,
}

impl DeepView for CreateDomainRequestResources {
    type V = CreateDomainRequestResourcesView;

    open spec fn deep_view(&self) -> CreateDomainRequestResourcesView {
        CreateDomainRequestResourcesView { cpu: self.cpu, memory: self.memory, disk: self.disk@ }
    }
}

/// A request to create a domain.
#[derive(Clone, Debug, PartialEq, Eq)]
pub struct CreateDomainRequest {
    pub password: String,
    pub network: CreateDomainRequestNetwork,
    pub resources: CreateDomainRequestResources,
    pub script: Option<String>,
}

/// `CreateDomainRequest` as sequences of characters.
pub struct CreateDomainRequestView {
    pub password: Seq<char>,
    pub network: CreateDomainRequestNetworkView,
    pub resources: CreateDomainRequestResourcesView,
    pub script: Option<Seq<char>>,
}

impl DeepView for CreateDomainRequest {
    type V = CreateDomainRequestView;

    open spec fn deep_view(&self) -> CreateDomainRequestView {
        CreateDomainRequestView {
            password: self.password@,
            network: self.network.deep_view(),
            resources: self.resources.deep_view(),
            script: self.script.deep_view(),
        }
    }
}

/// The controller's answer to a request to create a domain: the id it gave
/// the domain.
#[derive(Clone, Debug, PartialEq, Eq)]
pub struct CreateDomainResponse {
    pub id: String,
}

impl DeepView for CreateDomainResponse {
    type V = Seq<char>;

    open spec fn deep_view(&self) -> Seq<char> {
        self.id@
    }
}

/// The controller's answer to the question which of some domains are
/// running. A missing list stands for the empty one.
#[derive(Clone, Debug, PartialEq, Eq)]
pub struct AddServerResponse {
    pub domains: Option<Vec<String>>,
}

impl DeepView for AddServerResponse {
    type V = Option<Seq<Seq<char>>>;

    open spec fn deep_view(&self) -> Option<Seq<Seq<char>>> {
        self.domains.deep_view()
    }
}

/// The controller's answer to the question how one domain is doing.
#[derive(Clone, Debug, PartialEq, Eq)]
pub struct ServerModel {
    pub status: String,
}

impl DeepView for ServerModel {
    type V = Seq<char>;

    open spec fn deep_view(&self) -> Seq<char> {
        self.status@
    }
}

/// A call to the controller.
#[derive(Clone, Debug, PartialEq, Eq)]
pub enum ControllerCall {
    /// Create a domain.
    Create(CreateDomainRequest),
    /// Ask which of these domains are running.
    Running(Vec<String>),
    /// Ask how one domain is doing.
    Fetch(String),
    /// Delete a domain.
    Delete(String),
    /// Change the power state of a domain.
    Power(String, PowerAction),
}

/// `ControllerCall` as sequences of characters.
pub enum ControllerCallView {
    Create(CreateDomainRequestView),
    Running(Seq<Seq<char>>),
    Fetch(Seq<char>),
    Delete(Seq<char>),
    Power(Seq<char>, PowerAction),
}

impl DeepView for ControllerCall {
    type V = ControllerCallView;

    open spec fn deep_view(&self) -> ControllerCallView {
        match self {
            ControllerCall::Create(request) => ControllerCallView::Create(request.deep_view()),
            ControllerCall::Running(ids) => ControllerCallView::Running(ids.deep_view()),
            ControllerCall::Fetch(id) => ControllerCallView::Fetch(id@),
            ControllerCall::Delete(id) => ControllerCallView::Delete(id@),
            ControllerCall::Power(id, action) => ControllerCallView::Power(id@, *action),
        }
    }
}

/// Where and how a call is sent: the method, the address, and the pairs of
/// the query.
#[derive(Clone, Debug, PartialEq, Eq)]
pub struct Endpoint {
    pub method: Method,
    pub url: String,
    pub query: Vec<(String, String)>,
}

/// `Endpoint` as sequences of characters.
pub struct EndpointView {
    pub method: Method,
    pub url: Seq<char>,
    pub query: Seq<(Seq<char>, Seq<char>)>,
}

impl DeepView for Endpoint {
    type V = EndpointView;

    open spec fn deep_view(&self) -> EndpointView {
        EndpointView { method: self.method, url: self.url@, query: self.query.deep_view() }
    }
}

/// The last part of the address of a change of power state.
pub open spec fn power_segment(action: PowerAction) -> Seq<char> {
    match action {
        PowerAction::Shutdown => "shutdown"@,
        PowerAction::PowerOn => "power_on"@,
        PowerAction::Restart => "restart"@,
    }
}

/// The ids as the controller takes them: in a row, with commas between.
pub open spec fn ids_text(ids: Seq<Seq<char>>) -> Seq<char> {
    joined(ids, ","@)
}

/// Where and how a call is sent, for a controller at `base`.
pub open spec fn endpoint_of(base: Seq<char>, call: ControllerCallView) -> EndpointView {
    match call {
        ControllerCallView::Create(_) => EndpointView {
            method: Method::Post,
            url: base + "/domains"@,
            query: Seq::empty(),
        },
        ControllerCallView::Running(ids) => EndpointView {
            method: Method::Get,
            url: base + "/domains"@,
            query: seq![("running"@, "true"@), ("ids"@, ids_text(ids))],
        },
        ControllerCallView::Fetch(id) => EndpointView {
            method: Method::Get,
            url: base + "/domains/"@ + id,
            query: Seq::empty(),
        },
        ControllerCallView::Delete(id) => EndpointView {
            method: Method::Delete,
            url: base + "/domains/"@ + id,
            query: Seq::empty(),
        },
        ControllerCallView::Power(id, action) => EndpointView {
            method: Method::Post,
            url: base + "/domains/"@ + id + "/"@ + power_segment(action),
            query: Seq::empty(),
        },
    }
}

/// The statuses with which the controller accepts a call: 200 to 299.
pub open spec fn is_success_status(status: u16) -> bool {
    200 <= status <= 299
}

/// What a call is meant to do.
pub open spec fn task_of(call: ControllerCallView) -> ControllerTask {
    match call {
        ControllerCallView::Create(_) => ControllerTask::Create,
        ControllerCallView::Running(_) => ControllerTask::Running,
        ControllerCallView::Fetch(_) => ControllerTask::Fetch,
        ControllerCallView::Delete(_) => ControllerTask::Delete,
        ControllerCallView::Power(_, action) => ControllerTask::Power(action),
    }
}

/// What a refused call failed to do, in words.
pub open spec fn refusal_subject(task: ControllerTask) -> Seq<char> {
    match task {
        ControllerTask::Create => "Failed to create domain"@,
        ControllerTask::Running => "Failed to get all servers"@,
        ControllerTask::Fetch => "Failed to fetch server"@,
        ControllerTask::Delete => "Failed to delete server"@,
        ControllerTask::Power(action) => match action {
            PowerAction::Shutdown => "Failed to shutdown server"@,
            PowerAction::PowerOn => "Failed to power on server"@,
            PowerAction::Restart => "Failed to restart server"@,
        },
    }
}

/// The message of a refusal: what the call failed to do, and the status it
/// was answered with.
pub open spec fn refusal_message(task: ControllerTask, status: u16) -> Seq<char> {
    refusal_subject(task) + ": "@ + decimal_text(status as nat)
}

/// The domains that an answer reports as running.
pub open spec fn running_ids(answer: Option<Seq<Seq<char>>>) -> Seq<Seq<char>> {
    match answer {
        Some(ids) => ids,
        None => Seq::empty(),
    }
}

impl PowerAction {
    /// The last part of the address of this change.
    pub fn segment(self) -> (r: &'static str)
        ensures
            r@ == power_segment(self),
    {
        match self {
            PowerAction::Shutdown => "shutdown",
            PowerAction::PowerOn => "power_on",
            PowerAction::Restart => "restart",
        }
    }
}

impl ControllerCall {
    /// Where and how this call is sent, for a controller at `base`.
    pub fn endpoint(&self, base: &str) -> (r: Endpoint)
        ensures
            r.deep_view() == endpoint_of(base@, self.deep_view()),
    {
        let mut url = String::from_str(base);
        match self {
            ControllerCall::Create(_) => {
                url.append("/domains");
                let r = Endpoint { method: Method::Post, url, query: Vec::new() };
                proof {
                    assert(r.query.deep_view() =~= Seq::empty());
                }
                r
            },
            ControllerCall::Running(ids) => {
                url.append("/domains");
                let mut query: Vec<(String, String)> = Vec::new();
                query.push((String::from_str("running"), String::from_str("true")));
                query.push((String::from_str("ids"), join(ids, ",")));
                let r = Endpoint { method: Method::Get, url, query };
                proof {
                    assert(r.query.deep_view() =~= seq![
                        ("running"@, "true"@),
                        ("ids"@, ids_text(ids.deep_view())),
                    ]);
                }
                r
            },
            ControllerCall::Fetch(id) => {
                url.append("/domains/");
                url.append(id.as_str());
                let r = Endpoint { method: Method::Get, url, query: Vec::new() };
                proof {
                    assert(r.query.deep_view() =~= Seq::empty());
                }
                r
            },
            ControllerCall::Delete(id) => {
                url.append("/domains/");
                url.append(id.as_str());
                let r = Endpoint { method: Method::Delete, url, query: Vec::new() };
                proof {
                    assert(r.query.deep_view() =~= Seq::empty());
                }
                r
            },
            ControllerCall::Power(id, action) => {
                url.append("/domains/");
                url.append(id.as_str());
                url.append("/");
                url.append(action.segment());
                let r = Endpoint { method: Method::Post, url, query: Vec::new() };
                proof {
                    assert(r.query.deep_view() =~= Seq::empty());
                }
                r
            },
        }
    }

    /// What this call is meant to do.
    pub fn task(&self) -> (r: ControllerTask)
        ensures
            r == task_of(self.deep_view()),
    {
        match self {
            ControllerCall::Create(_) => ControllerTask::Create,
            ControllerCall::Running(_) => ControllerTask::Running,
            ControllerCall::Fetch(_) => ControllerTask::Fetch,
            ControllerCall::Delete(_) => ControllerTask::Delete,
            ControllerCall::Power(_, action) => ControllerTask::Power(*action),
        }
    }
}

impl ControllerTask {
    /// The message of a refusal with `status`.
    pub fn refusal(self, status: u16) -> (r: String)
        ensures
            r@ == refusal_message(self, status),
    {
        let subject: &'static str = match self {
            ControllerTask::Create => "Failed to create domain",
            ControllerTask::Running => "Failed to get all servers",
            ControllerTask::Fetch => "Failed to fetch server",
            ControllerTask::Delete => "Failed to delete server",
            ControllerTask::Power(action) => match action {
                PowerAction::Shutdown => "Failed to shutdown server",
                PowerAction::PowerOn => "Failed to power on server",
                PowerAction::Restart => "Failed to restart server",
            },
        };
        let mut out = String::from_str(subject);
        out.append(": ");
        append_decimal(&mut out, status as u64);
        out
    }
}

/// Whether the controller accepted a call that it answered with `status`.
pub fn is_success(status: u16) -> (r: bool)
    ensures
        r == is_success_status(status),
{
    200 <= status && status <= 299
}

impl AddServerResponse {
    /// The domains that this answer reports as running: none where the list
    /// is missing.
    pub fn running(self) -> (r: Vec<String>)
        ensures
            r.deep_view() == running_ids(self.deep_view()),
    {
        match self.domains {
            Some(ids) => ids,
            None => {
                let r: Vec<String> = Vec::new();
                proof {
                    assert(r.deep_view() =~= Seq::empty());
                }
                r
            },
        }
    }
}

} // verus!
