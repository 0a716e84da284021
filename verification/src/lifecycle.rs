//! The lifecycle of a server, as steps between the registry, the script
//! store and the provisioning controller.
//!
//! Each use case begins with a function that says what is to be done first,
//! and goes on with `advance`, which takes the reply to what was done and
//! says what is to be done next. The caller does the work and hands the reply
//! back, until the effect is `Respond`. Nothing is retried, and no step is
//! undone: where the registry fails after the controller created a domain,
//! the domain stays.

use vstd::prelude::*;
use vstd::string::*;
use crate::domain::{
    AddServerResponse, ControllerCall, ControllerCallView, ControllerTask, CreateDomainResponse,
    PowerAction, ServerModel, refusal_message, running_ids,
};
use crate::error::{APIError, APIErrorView, ErrorKind, failure};
use crate::ip_calc::{
    AllocateError, allocate, allocation, cidr_block, cidr_error_text, gateway_name, host_texts,
    lemma_allocation_is_free,
};
use crate::server::{
    CreateServerRequest, CreateServerRequestView, GetServerResponse, GetServerResponseView, Server,
    ServerPlan, ServerPlanResource, ServerPlanView, ServerPlansResponse, ServerView,
    build_domain_request, domain_request, find_plan, ids_of, keep_owned, owned_by, owned_row,
    plan_resources, report_all, report_of, reports_of, says_running, server_ids, status_text,
};

verus! {

/// The configuration of the process: the network that addresses are taken
/// from, where the controller is reached, and the catalog of plans. It is
/// made once and never changed.
#[derive(Clone, Debug, PartialEq, Eq)]
pub struct Settings {
    pub network_cidr: String,
    pub network_gateway: String,
    pub network_interface: String,
    pub controller_endpoint: String,
    pub plans: Vec<ServerPlan>,
}

/// `Settings` as sequences of characters.
pub struct SettingsView {
    pub network_cidr: Seq<char>,
    pub network_gateway: Seq<char>,
    pub network_interface: Seq<char>,
    pub controller_endpoint: Seq<char>,
    pub plans: Seq<ServerPlanView>,
}

impl DeepView for Settings {
    type V = SettingsView;

    open spec fn deep_view(&self) -> SettingsView {
        SettingsView {
            network_cidr: self.network_cidr@,
            network_gateway: self.network_gateway@,
            network_interface: self.network_interface@,
            controller_endpoint: self.controller_endpoint@,
            plans: self.plans.deep_view(),
        }
    }
}

/// A call to the registry of servers.
#[derive(Clone, Debug, PartialEq, Eq)]
pub enum RegistryCall {
    /// Read the addresses of all servers.
    UsedAddresses,
    /// Record a server.
    Insert(Server),
    /// Read the servers of an owner.
    OwnedBy(i32),
    /// Read the server with an id, if it belongs to an owner.
    Find(String, i32),
    /// Remove the server with an id, if it belongs to an owner.
    Remove(String, i32),
}

/// `RegistryCall` as sequences of characters.
pub enum RegistryCallView {
    UsedAddresses,
    Insert(ServerView),
    OwnedBy(i32),
    Find(Seq<char>, i32),
    Remove(Seq<char>, i32),
}

impl DeepView for RegistryCall {
    type V = RegistryCallView;

    open spec fn deep_view(&self) -> RegistryCallView {
        match self {
            RegistryCall::UsedAddresses => RegistryCallView::UsedAddresses,
            RegistryCall::Insert(server) => RegistryCallView::Insert(server.deep_view()),
            RegistryCall::OwnedBy(owner) => RegistryCallView::OwnedBy(*owner),
            RegistryCall::Find(id, owner) => RegistryCallView::Find(id@, *owner),
            RegistryCall::Remove(id, owner) => RegistryCallView::Remove(id@, *owner),
        }
    }
}

/// How a use case ends.
#[derive(Clone, Debug, PartialEq, Eq)]
pub enum Outcome {
    /// It was done, and there is nothing to report.
    Done,
    /// The servers of the caller.
    Servers(Vec<GetServerResponse>),
    /// One server of the caller.
    Server(GetServerResponse),
    /// It failed.
    Failed(APIError),
}

/// `Outcome` as sequences of characters.
pub enum OutcomeView {
    Done,
    Servers(Seq<GetServerResponseView>),
    Server(GetServerResponseView),
    Failed(APIErrorView),
}

impl DeepView for Outcome {
    type V = OutcomeView;

    open spec fn deep_view(&self) -> OutcomeView {
        match self {
            Outcome::Done => OutcomeView::Done,
            Outcome::Servers(reports) => OutcomeView::Servers(reports.deep_view()),
            Outcome::Server(report) => OutcomeView::Server(report.deep_view()),
            Outcome::Failed(e) => OutcomeView::Failed(e.deep_view()),
        }
    }
}

/// What the caller is to do next.
#[derive(Clone, Debug, PartialEq, Eq)]
pub enum Effect {
    /// Call the registry.
    Registry(RegistryCall),
    /// Read the body of the setup script with an id.
    Script(i32),
    /// Call the controller.
    Controller(ControllerCall),
    /// Answer the request: the use case is over.
    Respond(Outcome),
}

/// `Effect` as sequences of characters.
pub enum EffectView {
    Registry(RegistryCallView),
    Script(i32),
    Controller(ControllerCallView),
    Respond(OutcomeView),
}

impl DeepView for Effect {
    type V = EffectView;

    open spec fn deep_view(&self) -> EffectView {
        match self {
            Effect::Registry(call) => EffectView::Registry(call.deep_view()),
            Effect::Script(id) => EffectView::Script(*id),
            Effect::Controller(call) => EffectView::Controller(call.deep_view()),
            Effect::Respond(outcome) => EffectView::Respond(outcome.deep_view()),
        }
    }
}

/// What came of the work that an effect asked for.
#[derive(Clone, Debug, PartialEq, Eq)]
pub enum Reply {
    /// The addresses of all servers.
    UsedAddresses(Vec<String>),
    /// The body of the script, if there is one with that id.
    Script(Option<String>),
    /// A write to the registry, or a call to the controller that answers
    /// with no body, went through.
    Completed,
    /// The servers that the registry found.
    Servers(Vec<Server>),
    /// The server that the registry found, if any.
    Server(Option<Server>),
    /// The controller created the domain.
    DomainCreated(CreateDomainResponse),
    /// The controller said which domains are running.
    Running(AddServerResponse),
    /// The controller said how the domain is doing.
    Domain(ServerModel),
    /// The controller answered with a status outside 200 to 299.
    Refused(u16),
    /// The controller could not be reached.
    Unreachable(String),
    /// Storage failed, or an answer could not be decoded.
    Broken(String),
}

/// `Reply` as sequences of characters.
pub enum ReplyView {
    UsedAddresses(Seq<Seq<char>>),
    Script(Option<Seq<char>>),
    Completed,
    Servers(Seq<ServerView>),
    Server(Option<ServerView>),
    DomainCreated(Seq<char>),
    Running(Option<Seq<Seq<char>>>),
    Domain(Seq<char>),
    Refused(u16),
    Unreachable(Seq<char>),
    Broken(Seq<char>),
}

impl DeepView for Reply {
    type V = ReplyView;

    open spec fn deep_view(&self) -> ReplyView {
        match self {
            Reply::UsedAddresses(used) => ReplyView::UsedAddresses(used.deep_view()),
            Reply::Script(script) => ReplyView::Script(script.deep_view()),
            Reply::Completed => ReplyView::Completed,
            Reply::Servers(rows) => ReplyView::Servers(rows.deep_view()),
            Reply::Server(found) => ReplyView::Server(found.deep_view()),
            Reply::DomainCreated(answer) => ReplyView::DomainCreated(answer.deep_view()),
            Reply::Running(answer) => ReplyView::Running(answer.deep_view()),
            Reply::Domain(answer) => ReplyView::Domain(answer.deep_view()),
            Reply::Refused(status) => ReplyView::Refused(*status),
            Reply::Unreachable(message) => ReplyView::Unreachable(message@),
            Reply::Broken(message) => ReplyView::Broken(message@),
        }
    }
}

/// Where a use case stands: what it waits for, and what it has to remember.
#[derive(Clone, Debug, PartialEq, Eq)]
pub enum Flow {
    /// Creating: waits for the addresses in use.
    Allocating { owner: i32, request: CreateServerRequest, resources: ServerPlanResource },
    /// Creating: has an address, waits for the script.
    ResolvingScript {
        owner: i32,
        request: CreateServerRequest,
        resources: ServerPlanResource,
        address: String,
    },
    /// Creating: waits for the controller to create the domain.
    Creating { owner: i32, name: String, plan: i32, address: String },
    /// Creating: the domain exists, waits for the registry to record it.
    Recording,
    /// Listing: waits for the servers of the owner.
    Listing { owner: i32 },
    /// Listing: waits for the controller to say which are running.
    CheckingRunning { servers: Vec<Server> },
    /// Reading one: waits for the server of the owner.
    Finding { owner: i32, id: String },
    /// Reading one: waits for the controller to say how it is doing.
    CheckingDomain { server: Server },
    /// Deleting: waits for the server of the owner.
    ConfirmingDelete { owner: i32, id: String },
    /// Deleting: waits for the controller to delete the domain.
    Deleting { owner: i32, id: String },
    /// Deleting: the domain is gone, waits for the registry to remove it.
    Removing,
    /// Changing power: waits for the server of the owner.
    ConfirmingPower { owner: i32, id: String, action: PowerAction },
    /// Changing power: waits for the controller.
    Switching { action: PowerAction },
    /// The use case is over.
    Finished,
}

/// `Flow` as sequences of characters.
pub enum FlowView {
    Allocating { owner: i32, request: CreateServerRequestView, resources: ServerPlanResource },
    ResolvingScript {
        owner: i32,
        request: CreateServerRequestView,
        resources: ServerPlanResource,
        address: Seq<char>,
    },
    Creating { owner: i32, name: Seq<char>, plan: i32, address: Seq<char> },
    Recording,
    Listing { owner: i32 },
    CheckingRunning { servers: Seq<ServerView> },
    Finding { owner: i32, id: Seq<char> },
    CheckingDomain { server: ServerView },
    ConfirmingDelete { owner: i32, id: Seq<char> },
    Deleting { owner: i32, id: Seq<char> },
    Removing,
    ConfirmingPower { owner: i32, id: Seq<char>, action: PowerAction },
    Switching { action: PowerAction },
    Finished,
}

impl DeepView for Flow {
    type V = FlowView;

    open spec fn deep_view(&self) -> FlowView {
        match self {
            Flow::Allocating { owner, request, resources } => FlowView::Allocating {
                owner: *owner,
                request: request.deep_view(),
                resources: *resources,
            },
            Flow::ResolvingScript { owner, request, resources, address } => {
                FlowView::ResolvingScript {
                    owner: *owner,
                    request: request.deep_view(),
                    resources: *resources,
                    address: address@,
                }
            },
            Flow::Creating { owner, name, plan, address } => FlowView::Creating {
                owner: *owner,
                name: name@,
                plan: *plan,
                address: address@,
            },
            Flow::Recording => FlowView::Recording,
            Flow::Listing { owner } => FlowView::Listing { owner: *owner },
            Flow::CheckingRunning { servers } => FlowView::CheckingRunning {
                servers: servers.deep_view(),
            },
            Flow::Finding { owner, id } => FlowView::Finding { owner: *owner, id: id@ },
            Flow::CheckingDomain { server } => FlowView::CheckingDomain {
                server: server.deep_view(),
            },
            Flow::ConfirmingDelete { owner, id } => FlowView::ConfirmingDelete {
                owner: *owner,
                id: id@,
            },
            Flow::Deleting { owner, id } => FlowView::Deleting { owner: *owner, id: id@ },
            Flow::Removing => FlowView::Removing,
            Flow::ConfirmingPower { owner, id, action } => FlowView::ConfirmingPower {
                owner: *owner,
                id: id@,
                action: *action,
            },
            Flow::Switching { action } => FlowView::Switching { action: *action },
            Flow::Finished => FlowView::Finished,
        }
    }
}

/// The use case ends with a failure.
pub open spec fn ends_with(e: APIErrorView) -> (FlowView, EffectView) {
    (FlowView::Finished, EffectView::Respond(OutcomeView::Failed(e)))
}

/// The use case ends with nothing to report.
pub open spec fn ends_done() -> (FlowView, EffectView) {
    (FlowView::Finished, EffectView::Respond(OutcomeView::Done))
}

/// The use case ends because a reply came that it did not wait for.
pub open spec fn ends_unexpected() -> (FlowView, EffectView) {
    ends_with(failure(ErrorKind::Internal, "Unexpected reply"@))
}

/// The use case ends because the server is not there for this caller.
pub open spec fn ends_not_found() -> (FlowView, EffectView) {
    ends_with(failure(ErrorKind::NotFound, "Server not found"@))
}

/// The call to the controller that a use case waits for, if it waits for
/// one.
pub open spec fn awaited_task(flow: FlowView) -> Option<ControllerTask> {
    match flow {
        FlowView::Creating { .. } => Some(ControllerTask::Create),
        FlowView::CheckingRunning { .. } => Some(ControllerTask::Running),
        FlowView::CheckingDomain { .. } => Some(ControllerTask::Fetch),
        FlowView::Deleting { .. } => Some(ControllerTask::Delete),
        FlowView::Switching { action } => Some(ControllerTask::Power(action)),
        _ => None,
    }
}

/// Creating a server begins with the plan: an unknown plan ends the use
/// case, a known one asks for the addresses in use.
pub open spec fn create_begins(
    settings: SettingsView,
    owner: i32,
    request: CreateServerRequestView,
) -> (FlowView, EffectView) {
    match plan_resources(settings.plans, request.plan) {
        None => ends_with(failure(ErrorKind::BadRequest, "Unknown plan"@)),
        Some(resources) => (
            FlowView::Allocating { owner, request, resources },
            EffectView::Registry(RegistryCallView::UsedAddresses),
        ),
    }
}

/// With the addresses in use at hand, an address is allocated. An exhausted
/// pool ends the use case. Otherwise the script is asked for, where the
/// request names one, or the controller is asked to create the domain.
pub open spec fn create_allocates(
    settings: SettingsView,
    owner: i32,
    request: CreateServerRequestView,
    resources: ServerPlanResource,
    used: Seq<Seq<char>>,
) -> (FlowView, EffectView) {
    match allocation(settings.network_cidr, settings.network_gateway, used) {
        Err(AllocateError::PoolExhausted) => ends_with(
            failure(ErrorKind::BadRequest, "No available IP addresses"@),
        ),
        Err(AllocateError::Cidr(e)) => ends_with(failure(ErrorKind::Internal, cidr_error_text(e))),
        Ok(address) => match request.script_id {
            Some(script_id) => (
                FlowView::ResolvingScript { owner, request, resources, address },
                EffectView::Script(script_id),
            ),
            None => create_asks_controller(settings, owner, request, resources, address, None),
        },
    }
}

/// With the address and the script at hand, the controller is asked to
/// create the domain.
pub open spec fn create_asks_controller(
    settings: SettingsView,
    owner: i32,
    request: CreateServerRequestView,
    resources: ServerPlanResource,
    address: Seq<char>,
    script: Option<Seq<char>>,
) -> (FlowView, EffectView) {
    (
        FlowView::Creating { owner, name: request.name, plan: request.plan, address },
        EffectView::Controller(
            ControllerCallView::Create(
                domain_request(
                    settings.network_gateway,
                    settings.network_interface,
                    request.server_password,
                    resources,
                    address,
                    script,
                ),
            ),
        ),
    )
}

/// Once the controller has created the domain, the server is recorded
/// under the id the controller gave, for the caller.
pub open spec fn create_records(
    owner: i32,
    name: Seq<char>,
    plan: i32,
    address: Seq<char>,
    id: Seq<char>,
) -> (FlowView, EffectView) {
    (
        FlowView::Recording,
        EffectView::Registry(
            RegistryCallView::Insert(ServerView { id, name, address, plan, owner }),
        ),
    )
}

/// With the servers of the owner at hand, the controller is asked which of
/// exactly these are running. Rows of other owners are left out.
pub open spec fn list_asks_controller(owner: i32, rows: Seq<ServerView>) -> (FlowView, EffectView) {
    (
        FlowView::CheckingRunning { servers: owned_by(rows, owner) },
        EffectView::Controller(ControllerCallView::Running(ids_of(owned_by(rows, owner)))),
    )
}

/// With the controller's answer at hand, each server is reported online
/// exactly where its id is among the running ones.
pub open spec fn list_reports(servers: Seq<ServerView>, answer: Option<Seq<Seq<char>>>) -> (
    FlowView,
    EffectView,
) {
    (
        FlowView::Finished,
        EffectView::Respond(OutcomeView::Servers(reports_of(servers, running_ids(answer)))),
    )
}

/// With the row at hand, the controller is asked how the domain is doing.
/// No row, or a row of another owner, ends the use case as not found.
pub open spec fn get_asks_controller(owner: i32, id: Seq<char>, found: Option<ServerView>) -> (
    FlowView,
    EffectView,
) {
    match owned_row(found, id, owner) {
        Some(server) => (
            FlowView::CheckingDomain { server },
            EffectView::Controller(ControllerCallView::Fetch(server.id)),
        ),
        None => ends_not_found(),
    }
}

/// With the controller's answer at hand, the server is reported online
/// exactly where the answer says `running`.
pub open spec fn get_reports(server: ServerView, status: Seq<char>) -> (FlowView, EffectView) {
    (
        FlowView::Finished,
        EffectView::Respond(OutcomeView::Server(report_of(server, says_running(status)))),
    )
}

/// With the row at hand, the controller is asked to delete the domain. No
/// row, or a row of another owner, ends the use case as not found.
pub open spec fn delete_asks_controller(owner: i32, id: Seq<char>, found: Option<ServerView>) -> (
    FlowView,
    EffectView,
) {
    match owned_row(found, id, owner) {
        Some(_) => (
            FlowView::Deleting { owner, id },
            EffectView::Controller(ControllerCallView::Delete(id)),
        ),
        None => ends_not_found(),
    }
}

/// With the row at hand, the controller is asked to change the power
/// state. No row, or a row of another owner, ends the use case as not found.
pub open spec fn power_asks_controller(
    owner: i32,
    id: Seq<char>,
    action: PowerAction,
    found: Option<ServerView>,
) -> (FlowView, EffectView) {
    match owned_row(found, id, owner) {
        Some(_) => (
            FlowView::Switching { action },
            EffectView::Controller(ControllerCallView::Power(id, action)),
        ),
        None => ends_not_found(),
    }
}

/// What a use case does with a reply that is no failure.
pub open spec fn proceeds(settings: SettingsView, flow: FlowView, reply: ReplyView) -> (
    FlowView,
    EffectView,
) {
    match (flow, reply) {
        (FlowView::Allocating { owner, request, resources }, ReplyView::UsedAddresses(used)) => {
            create_allocates(settings, owner, request, resources, used)
        },
        (
            FlowView::ResolvingScript { owner, request, resources, address },
            ReplyView::Script(script),
        ) => create_asks_controller(settings, owner, request, resources, address, script),
        (FlowView::Creating { owner, name, plan, address }, ReplyView::DomainCreated(id)) => {
            create_records(owner, name, plan, address, id)
        },
        (FlowView::Recording, ReplyView::Completed) => ends_done(),
        (FlowView::Listing { owner }, ReplyView::Servers(rows)) => list_asks_controller(
            owner,
            rows,
        ),
        (FlowView::CheckingRunning { servers }, ReplyView::Running(answer)) => list_reports(
            servers,
            answer,
        ),
        (FlowView::Finding { owner, id }, ReplyView::Server(found)) => get_asks_controller(
            owner,
            id,
            found,
        ),
        (FlowView::CheckingDomain { server }, ReplyView::Domain(status)) => get_reports(
            server,
            status,
        ),
        (FlowView::ConfirmingDelete { owner, id }, ReplyView::Server(found)) => {
            delete_asks_controller(owner, id, found)
        },
        (FlowView::Deleting { owner, id }, ReplyView::Completed) => (
            FlowView::Removing,
            EffectView::Registry(RegistryCallView::Remove(id, owner)),
        ),
        (FlowView::Removing, ReplyView::Completed) => ends_done(),
        (FlowView::ConfirmingPower { owner, id, action }, ReplyView::Server(found)) => {
            power_asks_controller(owner, id, action, found)
        },
        (FlowView::Switching { .. }, ReplyView::Completed) => ends_done(),
        _ => ends_unexpected(),
    }
}

/// What a use case does with a reply. A use case that is over, and a reply
/// that it did not wait for, end in an internal failure. A controller that
/// could not be reached or that refused the call ends it as a failure of the
/// controller; broken storage or decoding ends it as an internal failure.
pub open spec fn next_step(settings: SettingsView, flow: FlowView, reply: ReplyView) -> (
    FlowView,
    EffectView,
) {
    if flow is Finished {
        ends_unexpected()
    } else {
        match reply {
            ReplyView::Unreachable(message) => ends_with(
                failure(ErrorKind::UpstreamFailure, message),
            ),
            ReplyView::Broken(message) => ends_with(failure(ErrorKind::Internal, message)),
            ReplyView::Refused(status) => match awaited_task(flow) {
                Some(task) => ends_with(
                    failure(ErrorKind::UpstreamFailure, refusal_message(task, status)),
                ),
                None => ends_unexpected(),
            },
            _ => proceeds(settings, flow, reply),
        }
    }
}

/// Ends a use case with a failure.
fn end_with(e: APIError) -> (r: (Flow, Effect))
    ensures
        r.deep_view() == ends_with(e.deep_view()),
{
    (Flow::Finished, Effect::Respond(Outcome::Failed(e)))
}

/// Ends a use case with nothing to report.
fn end_done() -> (r: (Flow, Effect))
    ensures
        r.deep_view() == ends_done(),
{
    (Flow::Finished, Effect::Respond(Outcome::Done))
}

/// Ends a use case because a reply came that it did not wait for.
fn end_unexpected() -> (r: (Flow, Effect))
    ensures
        r.deep_view() == ends_unexpected(),
{
    end_with(APIError::internal_server_error("Unexpected reply"))
}

/// Ends a use case because the server is not there for this caller.
fn end_not_found() -> (r: (Flow, Effect))
    ensures
        r.deep_view() == ends_not_found(),
{
    end_with(APIError::not_found("Server not found"))
}

/// The row that a lookup of `id` for `owner` may use.
fn check_owner(found: Option<Server>, id: &String, owner: i32) -> (r: Option<Server>)
    ensures
        r.deep_view() == owned_row(found.deep_view(), id@, owner),
{
    match found {
        Some(server) => if server.id == *id && server.owner == owner {
            Some(server)
        } else {
            None
        },
        None => None,
    }
}

/// Allocates an address for a server that is being created.
fn allocate_for(
    settings: &Settings,
    owner: i32,
    request: CreateServerRequest,
    resources: ServerPlanResource,
    used: &Vec<String>,
) -> (r: (Flow, Effect))
    ensures
        r.deep_view() == create_allocates(
            settings.deep_view(),
            owner,
            request.deep_view(),
            resources,
            used.deep_view(),
        ),
{
    match allocate(settings.network_cidr.as_str(), settings.network_gateway.as_str(), used) {
        Err(AllocateError::PoolExhausted) => end_with(
            APIError::bad_request("No available IP addresses"),
        ),
        Err(AllocateError::Cidr(e)) => end_with(APIError::internal_server_error(e.message())),
        Ok(address) => match request.script_id {
            Some(script_id) => (
                Flow::ResolvingScript { owner, request, resources, address },
                Effect::Script(script_id),
            ),
            None => ask_to_create(settings, owner, request, resources, address, None),
        },
    }
}

/// Asks the controller to create the domain of a server.
fn ask_to_create(
    settings: &Settings,
    owner: i32,
    request: CreateServerRequest,
    resources: ServerPlanResource,
    address: String,
    script: Option<String>,
) -> (r: (Flow, Effect))
    ensures
        r.deep_view() == create_asks_controller(
            settings.deep_view(),
            owner,
            request.deep_view(),
            resources,
            address@,
            script.deep_view(),
        ),
{
    let body = build_domain_request(
        settings.network_gateway.as_str(),
        settings.network_interface.as_str(),
        request.server_password,
        resources,
        address.clone(),
        script,
    );
    (
        Flow::Creating { owner, name: request.name, plan: request.plan, address },
        Effect::Controller(ControllerCall::Create(body)),
    )
}

/// Begins the creation of a server for `owner`.
pub fn create_server(settings: &Settings, owner: i32, request: CreateServerRequest) -> (r: (
    Flow,
    Effect,
))
    ensures
        r.deep_view() == create_begins(settings.deep_view(), owner, request.deep_view()),
{
    match find_plan(&settings.plans, request.plan) {
        None => end_with(APIError::bad_request("Unknown plan")),
        Some(resources) => (
            Flow::Allocating { owner, request, resources },
            Effect::Registry(RegistryCall::UsedAddresses),
        ),
    }
}

/// Begins the listing of the servers of `owner`.
pub fn get_all_servers(owner: i32) -> (r: (Flow, Effect))
    ensures
        r.deep_view() == (
            FlowView::Listing { owner },
            EffectView::Registry(RegistryCallView::OwnedBy(owner)),
        ),
{
    (Flow::Listing { owner }, Effect::Registry(RegistryCall::OwnedBy(owner)))
}

/// Begins the reading of one server for `owner`.
pub fn get_server_by_id(owner: i32, server_id: String) -> (r: (Flow, Effect))
    ensures
        r.deep_view() == (
            FlowView::Finding { owner, id: server_id@ },
            EffectView::Registry(RegistryCallView::Find(server_id@, owner)),
        ),
{
    let id = server_id.clone();
    (Flow::Finding { owner, id }, Effect::Registry(RegistryCall::Find(server_id, owner)))
}

/// Begins the deletion of one server for `owner`. The registry is asked
/// first: the controller is called only for a server of the caller.
pub fn delete_server(owner: i32, server_id: String) -> (r: (Flow, Effect))
    ensures
        r.deep_view() == (
            FlowView::ConfirmingDelete { owner, id: server_id@ },
            EffectView::Registry(RegistryCallView::Find(server_id@, owner)),
        ),
{
    let id = server_id.clone();
    (Flow::ConfirmingDelete { owner, id }, Effect::Registry(RegistryCall::Find(server_id, owner)))
}

/// Begins a change of the power state of one server for `owner`.
pub fn switch_power(owner: i32, server_id: String, action: PowerAction) -> (r: (Flow, Effect))
    ensures
        r.deep_view() == (
            FlowView::ConfirmingPower { owner, id: server_id@, action },
            EffectView::Registry(RegistryCallView::Find(server_id@, owner)),
        ),
{
    let id = server_id.clone();
    (
        Flow::ConfirmingPower { owner, id, action },
        Effect::Registry(RegistryCall::Find(server_id, owner)),
    )
}

/// Begins the shutdown of one server for `owner`.
pub fn shutdown_server(owner: i32, server_id: String) -> (r: (Flow, Effect))
    ensures
        r.deep_view() == (
            FlowView::ConfirmingPower { owner, id: server_id@, action: PowerAction::Shutdown },
            EffectView::Registry(RegistryCallView::Find(server_id@, owner)),
        ),
{
    switch_power(owner, server_id, PowerAction::Shutdown)
}

/// Begins the powering on of one server for `owner`.
pub fn power_on_server(owner: i32, server_id: String) -> (r: (Flow, Effect))
    ensures
        r.deep_view() == (
            FlowView::ConfirmingPower { owner, id: server_id@, action: PowerAction::PowerOn },
            EffectView::Registry(RegistryCallView::Find(server_id@, owner)),
        ),
{
    switch_power(owner, server_id, PowerAction::PowerOn)
}

/// Begins the restart of one server for `owner`.
pub fn restart_server(owner: i32, server_id: String) -> (r: (Flow, Effect))
    ensures
        r.deep_view() == (
            FlowView::ConfirmingPower { owner, id: server_id@, action: PowerAction::Restart },
            EffectView::Registry(RegistryCallView::Find(server_id@, owner)),
        ),
{
    switch_power(owner, server_id, PowerAction::Restart)
}

impl Flow {
    /// The call to the controller that this use case waits for, if it waits
    /// for one.
    pub fn awaited(&self) -> (r: Option<ControllerTask>)
        ensures
            r == awaited_task(self.deep_view()),
    {
        match self {
            Flow::Creating { .. } => Some(ControllerTask::Create),
            Flow::CheckingRunning { .. } => Some(ControllerTask::Running),
            Flow::CheckingDomain { .. } => Some(ControllerTask::Fetch),
            Flow::Deleting { .. } => Some(ControllerTask::Delete),
            Flow::Switching { action } => Some(ControllerTask::Power(*action)),
            _ => None,
        }
    }

    /// Whether this use case is over.
    pub fn is_finished(&self) -> (r: bool)
        ensures
            r == (self.deep_view() is Finished),
    {
        match self {
            Flow::Finished => true,
            _ => false,
        }
    }
}

/// Goes on with a reply that is no failure.
fn proceed(settings: &Settings, flow: Flow, reply: Reply) -> (r: (Flow, Effect))
    ensures
        r.deep_view() == proceeds(settings.deep_view(), flow.deep_view(), reply.deep_view()),
{
    match (flow, reply) {
        (Flow::Allocating { owner, request, resources }, Reply::UsedAddresses(used)) => {
            allocate_for(settings, owner, request, resources, &used)
        },
        (Flow::ResolvingScript { owner, request, resources, address }, Reply::Script(script)) => {
            ask_to_create(settings, owner, request, resources, address, script)
        },
        (Flow::Creating { owner, name, plan, address }, Reply::DomainCreated(answer)) => (
            Flow::Recording,
            Effect::Registry(
                RegistryCall::Insert(Server { id: answer.id, name, address, plan, owner }),
            ),
        ),
        (Flow::Recording, Reply::Completed) => end_done(),
        (Flow::Listing { owner }, Reply::Servers(rows)) => {
            let servers = keep_owned(&rows, owner);
            let ids = server_ids(&servers);
            (Flow::CheckingRunning { servers }, Effect::Controller(ControllerCall::Running(ids)))
        },
        (Flow::CheckingRunning { servers }, Reply::Running(answer)) => {
            let running = answer.running();
            let reports = report_all(&servers, &running);
            (Flow::Finished, Effect::Respond(Outcome::Servers(reports)))
        },
        (Flow::Finding { owner, id }, Reply::Server(found)) => match check_owner(
            found,
            &id,
            owner,
        ) {
            Some(server) => {
                let id = server.id.clone();
                (
                    Flow::CheckingDomain { server },
                    Effect::Controller(ControllerCall::Fetch(id)),
                )
            },
            None => end_not_found(),
        },
        (Flow::CheckingDomain { server }, Reply::Domain(answer)) => {
            let report = server.report(answer.is_running());
            (Flow::Finished, Effect::Respond(Outcome::Server(report)))
        },
        (Flow::ConfirmingDelete { owner, id }, Reply::Server(found)) => match check_owner(
            found,
            &id,
            owner,
        ) {
            Some(_) => {
                let target = id.clone();
                (Flow::Deleting { owner, id }, Effect::Controller(ControllerCall::Delete(target)))
            },
            None => end_not_found(),
        },
        (Flow::Deleting { owner, id }, Reply::Completed) => (
            Flow::Removing,
            Effect::Registry(RegistryCall::Remove(id, owner)),
        ),
        (Flow::Removing, Reply::Completed) => end_done(),
        (Flow::ConfirmingPower { owner, id, action }, Reply::Server(found)) => match check_owner(
            found,
            &id,
            owner,
        ) {
            Some(_) => (
                Flow::Switching { action },
                Effect::Controller(ControllerCall::Power(id, action)),
            ),
            None => end_not_found(),
        },
        (Flow::Switching { .. }, Reply::Completed) => end_done(),
        _ => end_unexpected(),
    }
}

/// Goes on with a use case: takes the reply to what was done last, and says
/// what is to be done next.
pub fn advance(settings: &Settings, flow: Flow, reply: Reply) -> (r: (Flow, Effect))
    ensures
        r.deep_view() == next_step(settings.deep_view(), flow.deep_view(), reply.deep_view()),
{
    if flow.is_finished() {
        return end_unexpected();
    }
    match reply {
        Reply::Unreachable(message) => end_with(
            APIError { kind: ErrorKind::UpstreamFailure, message },
        ),
        Reply::Broken(message) => end_with(APIError { kind: ErrorKind::Internal, message }),
        Reply::Refused(status) => match flow.awaited() {
            Some(task) => end_with(
                APIError { kind: ErrorKind::UpstreamFailure, message: task.refusal(status) },
            ),
            None => end_unexpected(),
        },
        other => proceed(settings, flow, other),
    }
}

/// The catalog of plans.
pub fn get_server_plans(settings: &Settings) -> (r: ServerPlansResponse)
    ensures
        r.deep_view() == settings.deep_view().plans,
{
    let mut plans: Vec<ServerPlan> = Vec::new();
    let mut i: usize = 0;
    while i < settings.plans.len()
        invariant
            i <= settings.plans@.len(),
            plans@.len() == i,
            forall|j: int|
                0 <= j < i ==> (#[trigger] plans@[j]).deep_view() == settings.plans@[j].deep_view(),
        decreases settings.plans@.len() - i,
    {
        let plan = &settings.plans[i];
        plans.push(ServerPlan { id: plan.id, name: plan.name.clone(), resources: plan.resources });
        i = i + 1;
    }
    proof {
        assert(plans.deep_view() =~= settings.plans.deep_view());
    }
    ServerPlansResponse { plans }
}

/// How many steps a use case can still take before it is over.
pub open spec fn steps_left(flow: FlowView) -> nat {
    match flow {
        FlowView::Allocating { .. } => 4,
        FlowView::ResolvingScript { .. } => 3,
        FlowView::Creating { .. } => 2,
        FlowView::Recording => 1,
        FlowView::Listing { .. } => 2,
        FlowView::CheckingRunning { .. } => 1,
        FlowView::Finding { .. } => 2,
        FlowView::CheckingDomain { .. } => 1,
        FlowView::ConfirmingDelete { .. } => 3,
        FlowView::Deleting { .. } => 2,
        FlowView::Removing => 1,
        FlowView::ConfirmingPower { .. } => 2,
        FlowView::Switching { .. } => 1,
        FlowView::Finished => 0,
    }
}

/// The address that a use case has allocated, if it has one.
pub open spec fn allocated_address(flow: FlowView) -> Option<Seq<char>> {
    match flow {
        FlowView::ResolvingScript { address, .. } => Some(address),
        FlowView::Creating { address, .. } => Some(address),
        _ => None,
    }
}

/// Every step brings a use case nearer to its end, and a use case is over
/// exactly when the effect is to respond: no use case runs on for ever, and
/// none takes more than four steps after its first.
pub proof fn lemma_every_step_nears_the_end(
    settings: SettingsView,
    flow: FlowView,
    reply: ReplyView,
)
    ensures
        next_step(settings, flow, reply).0 is Finished <==> next_step(settings, flow, reply).1
            is Respond,
        !(flow is Finished) ==> steps_left(next_step(settings, flow, reply).0) < steps_left(flow),
        steps_left(flow) <= 4,
{
}

/// A failure ends the use case with a failure: nothing is tried again, and
/// nothing that was done is undone. The controller's failures are reported
/// as its own, those of storage and decoding as internal.
pub proof fn lemma_failure_ends_the_use_case(
    settings: SettingsView,
    flow: FlowView,
    reply: ReplyView,
)
    requires
        reply is Unreachable || reply is Broken || reply is Refused,
    ensures
        next_step(settings, flow, reply).0 is Finished,
        next_step(settings, flow, reply).1 matches EffectView::Respond(OutcomeView::Failed(e)) && (
        e.kind == ErrorKind::UpstreamFailure || e.kind == ErrorKind::Internal),
        !(flow is Finished) && reply is Unreachable ==> next_step(settings, flow, reply).1
            == EffectView::Respond(
            OutcomeView::Failed(failure(ErrorKind::UpstreamFailure, reply->Unreachable_0)),
        ),
        !(flow is Finished) && reply is Broken ==> next_step(settings, flow, reply).1
            == EffectView::Respond(
            OutcomeView::Failed(failure(ErrorKind::Internal, reply->Broken_0)),
        ),
{
}

/// The registry is asked to record a server only in reply to the controller
/// having created its domain, and then under the id that the controller
/// gave, for the caller, with the name, the plan and the address of the
/// request.
pub proof fn lemma_server_is_recorded_after_creation(
    settings: SettingsView,
    flow: FlowView,
    reply: ReplyView,
)
    requires
        next_step(settings, flow, reply).1 matches EffectView::Registry(
            RegistryCallView::Insert(_),
        ),
    ensures
        flow is Creating,
        reply is DomainCreated,
        next_step(settings, flow, reply).1 == EffectView::Registry(
            RegistryCallView::Insert(
                ServerView {
                    id: reply->DomainCreated_0,
                    name: flow->Creating_name,
                    address: flow->Creating_address,
                    plan: flow->Creating_plan,
                    owner: flow->Creating_owner,
                },
            ),
        ),
{
}

/// The address that is allocated when a server is created is a host of the
/// configured block, is not among the addresses in use, and is not the
/// gateway's. An exhausted pool ends the use case as a bad request.
pub proof fn lemma_created_address_is_free(
    settings: SettingsView,
    owner: i32,
    request: CreateServerRequestView,
    resources: ServerPlanResource,
    used: Seq<Seq<char>>,
)
    ensures
        ({
            let flow = FlowView::Allocating { owner, request, resources };
            let next = next_step(settings, flow, ReplyView::UsedAddresses(used));
            let pool = allocation(settings.network_cidr, settings.network_gateway, used);
            &&& pool matches Ok(address) ==> {
                &&& allocated_address(next.0) == Some(address)
                &&& !used.contains(address)
                &&& address != gateway_name(
                    settings.network_gateway,
                    (cidr_block(settings.network_cidr)->Ok_0).prefix_text,
                )
                &&& host_texts(cidr_block(settings.network_cidr)->Ok_0).contains(address)
            }
            &&& pool == Err::<Seq<char>, AllocateError>(AllocateError::PoolExhausted) ==> next
                == ends_with(failure(ErrorKind::BadRequest, "No available IP addresses"@))
            &&& pool is Err ==> next.0 is Finished
        }),
{
    if allocation(settings.network_cidr, settings.network_gateway, used) is Ok {
        lemma_allocation_is_free(settings.network_cidr, settings.network_gateway, used);
    }
}

/// An address, once allocated, is the one the controller is asked to
/// create the domain with, and the one the server is recorded with.
pub proof fn lemma_address_is_carried(settings: SettingsView, flow: FlowView, reply: ReplyView)
    requires
        allocated_address(flow) is Some,
    ensures
        match next_step(settings, flow, reply).1 {
            EffectView::Controller(ControllerCallView::Create(body)) => Some(body.network.address)
                == allocated_address(flow) && allocated_address(next_step(settings, flow, reply).0)
                == allocated_address(flow),
            EffectView::Registry(RegistryCallView::Insert(server)) => Some(server.address)
                == allocated_address(flow),
            EffectView::Respond(_) => true,
            _ => false,
        },
{
}

/// A server that is not there, and one that belongs to someone else, end
/// every use case in the same way: as not found, with the same message, and
/// without a call to the controller.
pub proof fn lemma_foreign_server_is_not_found(
    settings: SettingsView,
    owner: i32,
    id: Seq<char>,
    action: PowerAction,
    found: Option<ServerView>,
)
    requires
        found matches Some(server) ==> server.owner != owner || server.id != id,
    ensures
        next_step(settings, FlowView::Finding { owner, id }, ReplyView::Server(found))
            == ends_not_found(),
        next_step(settings, FlowView::ConfirmingDelete { owner, id }, ReplyView::Server(found))
            == ends_not_found(),
        next_step(
            settings,
            FlowView::ConfirmingPower { owner, id, action },
            ReplyView::Server(found),
        ) == ends_not_found(),
        ends_not_found().1 == EffectView::Respond(
            OutcomeView::Failed(failure(ErrorKind::NotFound, "Server not found"@)),
        ),
{
}

/// The controller is asked about a domain, or to delete it or to change its
/// power state, only in reply to the registry having found the server with
/// that id for the caller.
pub proof fn lemma_controller_acts_for_the_owner(
    settings: SettingsView,
    flow: FlowView,
    reply: ReplyView,
)
    requires
        next_step(settings, flow, reply).1 matches EffectView::Controller(call) && (call is Fetch
            || call is Delete || call is Power),
    ensures
        reply matches ReplyView::Server(Some(server)) && match next_step(settings, flow, reply).1 {
            EffectView::Controller(ControllerCallView::Fetch(id)) => flow
                matches FlowView::Finding { owner, id: asked } && asked == id && server.id == id
                && server.owner == owner,
            EffectView::Controller(ControllerCallView::Delete(id)) => flow
                matches FlowView::ConfirmingDelete { owner, id: asked } && asked == id && server.id
                == id && server.owner == owner,
            EffectView::Controller(ControllerCallView::Power(id, action)) => flow
                matches FlowView::ConfirmingPower { owner, id: asked, action: wanted } && asked
                == id && wanted == action && server.id == id && server.owner == owner,
            _ => false,
        },
{
}

/// The two statuses differ.
pub proof fn lemma_statuses_differ()
    ensures
        status_text(true) != status_text(false),
{
    reveal_strlit("online");
    reveal_strlit("offline");
    assert("online"@.len() != "offline"@.len());
}

/// In the list, every server of the caller is reported once, in order, and
/// is online exactly where its id is among those the controller reported as
/// running: all are offline where the controller reported none.
pub proof fn lemma_listed_status(
    settings: SettingsView,
    servers: Seq<ServerView>,
    answer: Option<Seq<Seq<char>>>,
)
    ensures
        next_step(settings, FlowView::CheckingRunning { servers }, ReplyView::Running(answer)).1
            matches EffectView::Respond(OutcomeView::Servers(reports)) && {
            &&& reports.len() == servers.len()
            &&& forall|i: int|
                0 <= i < servers.len() ==> {
                    &&& (#[trigger] reports[i]).id == servers[i].id
                    &&& reports[i].name == servers[i].name
                    &&& reports[i].plan == servers[i].plan
                    &&& reports[i].ip_address == servers[i].address
                    &&& reports[i].status == "online"@ <==> running_ids(answer).contains(
                        servers[i].id,
                    )
                    &&& reports[i].status == "offline"@ <==> !running_ids(answer).contains(
                        servers[i].id,
                    )
                }
            &&& (answer is None || answer == Some(Seq::<Seq<char>>::empty())) ==> forall|i: int|
                0 <= i < servers.len() ==> (#[trigger] reports[i]).status == "offline"@
        },
{
    lemma_statuses_differ();
}

/// One server is reported online exactly where the controller's answer
/// says `running`, and offline for every other answer.
pub proof fn lemma_single_status(settings: SettingsView, server: ServerView, status: Seq<char>)
    ensures
        next_step(settings, FlowView::CheckingDomain { server }, ReplyView::Domain(status)).1
            matches EffectView::Respond(OutcomeView::Server(report)) && {
            &&& report.id == server.id
            &&& report.ip_address == server.address
            &&& report.status == "online"@ <==> status == "running"@
            &&& report.status == "offline"@ <==> status != "running"@
        },
{
    lemma_statuses_differ();
}

/// The controller is asked which servers are running for exactly the
/// servers of the caller: rows of other owners are neither asked about nor
/// reported.
pub proof fn lemma_list_asks_about_own_servers(
    settings: SettingsView,
    owner: i32,
    rows: Seq<ServerView>,
)
    ensures
        next_step(settings, FlowView::Listing { owner }, ReplyView::Servers(rows)) matches (
            FlowView::CheckingRunning { servers },
            EffectView::Controller(ControllerCallView::Running(ids)),
        ) && {
            &&& ids == ids_of(servers)
            &&& forall|i: int| 0 <= i < servers.len() ==> (#[trigger] servers[i]).owner == owner
            &&& forall|i: int|
                0 <= i < rows.len() && (#[trigger] rows[i]).owner == owner ==> servers.contains(
                    rows[i],
                )
        },
{
    let servers = owned_by(rows, owner);
    let pred = |s: ServerView| s.owner == owner;
    assert forall|i: int| 0 <= i < servers.len() implies (#[trigger] servers[i]).owner == owner by {
        rows.lemma_filter_pred(pred, i);
    }
    assert forall|i: int| 0 <= i < rows.len() && (#[trigger] rows[i]).owner
        == owner implies servers.contains(rows[i]) by {
        rows.lemma_filter_contains(pred, i);
    }
}

} // verus!
