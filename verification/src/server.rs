//! Servers as the panel records and reports them, the plans they are sized
//! by, and what is derived from both: the request that creates a domain, and
//! the status a server is reported with.

use vstd::prelude::*;
use vstd::string::*;
use crate::domain::{
    CreateDomainRequest, CreateDomainRequestNetwork, CreateDomainRequestNetworkView,
    CreateDomainRequestResources, CreateDomainRequestResourcesView, CreateDomainRequestView,
    ServerModel,
};
use crate::text::{signed_decimal_text, append_signed_decimal};

verus! {

/// The size of a plan: processors, memory in MiB, disk in GB.
#[derive(Clone, Copy, PartialEq, Eq, Debug, Structural)]
pub struct ServerPlanResource {
    pub cpu: i32,
    pub memory: i32,
    pub disk: i32,
}

/// A plan of the catalog.
#[derive(Clone, Debug, PartialEq, Eq)]
pub struct ServerPlan {
    pub id: i32,
    pub name: String,
    pub resources: ServerPlanResource,
}

/// `ServerPlan` with its name as a sequence of characters.
pub struct ServerPlanView {
    pub id: i32,
    pub name: Seq<char>,
    pub resources: ServerPlanResource,
}

impl DeepView for ServerPlan {
    type V = ServerPlanView;

    open spec fn deep_view(&self) -> ServerPlanView {
        ServerPlanView { id: self.id, name: self.name@, resources: self.resources }
    }
}

/// The catalog of plans.
#[derive(Clone, Debug, PartialEq, Eq)]
pub struct ServerPlansResponse {
    pub plans: Vec<ServerPlan>,
}

impl DeepView for ServerPlansResponse {
    type V = Seq<ServerPlanView>;

    open spec fn deep_view(&self) -> Seq<ServerPlanView> {
        self.plans.deep_view()
    }
}

/// What a user asks for when creating a server.
#[derive(Clone, Debug, PartialEq, Eq)]
pub struct CreateServerRequest {
    pub name: String,
    pub server_password: String,
    pub plan: i32,
    pub script_id: Option<i32>,
}

/// `CreateServerRequest` as sequences of characters.
pub struct CreateServerRequestView {
    pub name: Seq<char>,
    pub server_password: Seq<char>,
    pub plan: i32,
    pub script_id: Option<i32>,
}

impl DeepView for CreateServerRequest {
    type V = CreateServerRequestView;

    open spec fn deep_view(&self) -> CreateServerRequestView {
        CreateServerRequestView {
            name: self.name@,
            server_password: self.server_password@,
            plan: self.plan,
            script_id: self.script_id,
        }
    }
}

/// A server as the registry records it. The id is the one the controller
/// gave the domain.
#[derive(Clone, Debug, PartialEq, Eq)]
pub struct Server {
    pub id: String,
    pub name: String,
    pub address: String,
    pub plan: i32,
    pub owner: i32,
}

/// `Server` as sequences of characters.
pub struct ServerView {
    pub id: Seq<char>,
    pub name: Seq<char>,
    pub address: Seq<char>,
    pub plan: i32,
    pub owner: i32,
}

impl DeepView for Server {
    type V = ServerView;

    open spec fn deep_view(&self) -> ServerView {
        ServerView {
            id: self.id@,
            name: self.name@,
            address: self.address@,
            plan: self.plan,
            owner: self.owner,
        }
    }
}

/// A server as it is reported to its owner, with the status derived from
/// the controller's answer.
#[derive(Clone, Debug, PartialEq, Eq)]
pub struct GetServerResponse {
    pub id: String,
    pub name: String,
    pub plan: i32,
    pub ip_address: String,
    pub status: String,
}

/// `GetServerResponse` as sequences of characters.
pub struct GetServerResponseView {
    pub id: Seq<char>,
    pub name: Seq<char>,
    pub plan: i32,
    pub ip_address: Seq<char>,
    pub status: Seq<char>,
}

impl DeepView for GetServerResponse {
    type V = GetServerResponseView;

    open spec fn deep_view(&self) -> GetServerResponseView {
        GetServerResponseView {
            id: self.id@,
            name: self.name@,
            plan: self.plan,
            ip_address: self.ip_address@,
            status: self.status@,
        }
    }
}

/// The size of the first plan of the catalog with the id `plan`.
pub open spec fn plan_resources(plans: Seq<ServerPlanView>, plan: i32) -> Option<
    ServerPlanResource,
>
    decreases plans.len(),
{
    if plans.len() == 0 {
        None
    } else if plans[0].id == plan {
        Some(plans[0].resources)
    } else {
        plan_resources(plans.drop_first(), plan)
    }
}

/// Memory in whole GiB for memory in MiB, rounded towards zero.
pub open spec fn memory_gib(memory_mib: i32) -> i32 {
    if memory_mib >= 0 {
        (memory_mib / 1024) as i32
    } else {
        (-((-memory_mib) / 1024)) as i32
    }
}

/// The size of a disk as the controller takes it: the number of GB and `G`.
pub open spec fn disk_text(disk_gb: i32) -> Seq<char> {
    signed_decimal_text(disk_gb as int) + "G"@
}

/// The request that creates the domain of a server: the password the user
/// chose, the address allocated to the server with the gateway and the
/// interface of the network, the size of the plan, and the script if any.
pub open spec fn domain_request(
    gateway: Seq<char>,
    interface: Seq<char>,
    password: Seq<char>,
    resources: ServerPlanResource,
    address: Seq<char>,
    script: Option<Seq<char>>,
) -> CreateDomainRequestView {
    CreateDomainRequestView {
        password,
        network: CreateDomainRequestNetworkView { address, gateway, interface },
        resources: CreateDomainRequestResourcesView {
            cpu: resources.cpu,
            memory: memory_gib(resources.memory),
            disk: disk_text(resources.disk),
        },
        script,
    }
}

/// The status a server is reported with.
pub open spec fn status_text(online: bool) -> Seq<char> {
    if online {
        "online"@
    } else {
        "offline"@
    }
}

/// The report of a server with a status.
pub open spec fn report_of(server: ServerView, online: bool) -> GetServerResponseView {
    GetServerResponseView {
        id: server.id,
        name: server.name,
        plan: server.plan,
        ip_address: server.address,
        status: status_text(online),
    }
}

/// The reports of servers, each online exactly where its id is among those
/// the controller reported as running.
pub open spec fn reports_of(servers: Seq<ServerView>, running: Seq<Seq<char>>) -> Seq<
    GetServerResponseView,
> {
    Seq::new(servers.len(), |i: int| report_of(servers[i], running.contains(servers[i].id)))
}

/// The ids of servers, in order.
pub open spec fn ids_of(servers: Seq<ServerView>) -> Seq<Seq<char>> {
    Seq::new(servers.len(), |i: int| servers[i].id)
}

/// Those of `rows` that belong to `owner`, in order.
pub open spec fn owned_by(rows: Seq<ServerView>, owner: i32) -> Seq<ServerView> {
    rows.filter(|s: ServerView| s.owner == owner)
}

/// Whether the controller's answer says that the domain is running.
pub open spec fn says_running(status: Seq<char>) -> bool {
    status == "running"@
}

/// The row that a lookup of `id` for `owner` may use: the one that was
/// found, where it has that id and that owner.
pub open spec fn owned_row(found: Option<ServerView>, id: Seq<char>, owner: i32) -> Option<
    ServerView,
> {
    match found {
        Some(server) => if server.id == id && server.owner == owner {
            Some(server)
        } else {
            None
        },
        None => None,
    }
}

/// Looks a plan up in the catalog by its id.
pub fn find_plan(plans: &Vec<ServerPlan>, plan: i32) -> (r: Option<ServerPlanResource>)
    ensures
        r == plan_resources(plans.deep_view(), plan),
{
    let mut i: usize = 0;
    proof {
        assert(plans.deep_view().skip(0) =~= plans.deep_view());
    }
    while i < plans.len()
        invariant
            i <= plans@.len(),
            plan_resources(plans.deep_view(), plan) == plan_resources(
                plans.deep_view().skip(i as int),
                plan,
            ),
        decreases plans@.len() - i,
    {
        proof {
            let rest = plans.deep_view().skip(i as int);
            assert(rest[0] == plans@[i as int].deep_view());
            assert(rest.drop_first() =~= plans.deep_view().skip(i + 1));
        }
        if plans[i].id == plan {
            return Some(plans[i].resources);
        }
        i = i + 1;
    }
    None
}

/// Memory in whole GiB for memory in MiB.
pub fn to_gib(memory_mib: i32) -> (r: i32)
    ensures
        r == memory_gib(memory_mib),
{
    memory_mib / 1024
}

/// The size of a disk as the controller takes it.
pub fn disk_size(disk_gb: i32) -> (r: String)
    ensures
        r@ == disk_text(disk_gb),
{
    let mut out = String::new();
    append_signed_decimal(&mut out, disk_gb as i64);
    out.append("G");
    proof {
        assert(out@ =~= disk_text(disk_gb));
    }
    out
}

/// The request that creates the domain of a server.
pub fn build_domain_request(
    gateway: &str,
    interface: &str,
    password: String,
    resources: ServerPlanResource,
    address: String,
    script: Option<String>,
) -> (r: CreateDomainRequest)
    ensures
        r.deep_view() == domain_request(
            gateway@,
            interface@,
            password@,
            resources,
            address@,
            script.deep_view(),
        ),
{
    CreateDomainRequest {
        password,
        network: CreateDomainRequestNetwork {
            address,
            gateway: String::from_str(gateway),
            interface: String::from_str(interface),
        },
        resources: CreateDomainRequestResources {
            cpu: resources.cpu,
            memory: to_gib(resources.memory),
            disk: disk_size(resources.disk),
        },
        script,
    }
}

/// Whether `id` is among `ids`.
pub fn contains_id(ids: &Vec<String>, id: &String) -> (r: bool)
    ensures
        r == ids.deep_view().contains(id@),
{
    let mut i: usize = 0;
    while i < ids.len()
        invariant
            i <= ids@.len(),
            forall|j: int| 0 <= j < i ==> ids.deep_view()[j] != id@,
        decreases ids@.len() - i,
    {
        if ids[i] == *id {
            proof {
                assert(ids.deep_view()[i as int] == id@);
            }
            return true;
        }
        i = i + 1;
    }
    false
}

impl Server {
    /// A second record of the same server.
    pub fn duplicate(&self) -> (r: Server)
        ensures
            r.deep_view() == self.deep_view(),
    {
        Server {
            id: self.id.clone(),
            name: self.name.clone(),
            address: self.address.clone(),
            plan: self.plan,
            owner: self.owner,
        }
    }

    /// The report of this server with a status.
    pub fn report(&self, online: bool) -> (r: GetServerResponse)
        ensures
            r.deep_view() == report_of(self.deep_view(), online),
    {
        let status = if online {
            String::from_str("online")
        } else {
            String::from_str("offline")
        };
        GetServerResponse {
            id: self.id.clone(),
            name: self.name.clone(),
            plan: self.plan,
            ip_address: self.address.clone(),
            status,
        }
    }
}

impl ServerModel {
    /// Whether this answer says that the domain is running.
    pub fn is_running(&self) -> (r: bool)
        ensures
            r == says_running(self.status@),
    {
        self.status == String::from_str("running")
    }
}

/// The reports of servers, each online exactly where its id is among
/// `running`.
pub fn report_all(servers: &Vec<Server>, running: &Vec<String>) -> (r: Vec<GetServerResponse>)
    ensures
        r.deep_view() == reports_of(servers.deep_view(), running.deep_view()),
{
    let mut reports: Vec<GetServerResponse> = Vec::new();
    let mut i: usize = 0;
    while i < servers.len()
        invariant
            i <= servers@.len(),
            reports@.len() == i,
            forall|j: int|
                0 <= j < i ==> (#[trigger] reports@[j]).deep_view() == report_of(
                    servers@[j].deep_view(),
                    running.deep_view().contains(servers@[j].id@),
                ),
        decreases servers@.len() - i,
    {
        let online = contains_id(running, &servers[i].id);
        reports.push(servers[i].report(online));
        i = i + 1;
    }
    proof {
        assert(reports.deep_view() =~= reports_of(servers.deep_view(), running.deep_view()));
    }
    reports
}

/// The ids of servers, in order.
pub fn server_ids(servers: &Vec<Server>) -> (r: Vec<String>)
    ensures
        r.deep_view() == ids_of(servers.deep_view()),
{
    let mut ids: Vec<String> = Vec::new();
    let mut i: usize = 0;
    while i < servers.len()
        invariant
            i <= servers@.len(),
            ids@.len() == i,
            forall|j: int| 0 <= j < i ==> (#[trigger] ids@[j])@ == servers@[j].id@,
        decreases servers@.len() - i,
    {
        ids.push(servers[i].id.clone());
        i = i + 1;
    }
    proof {
        assert(ids.deep_view() =~= ids_of(servers.deep_view()));
    }
    ids
}

/// Those of `rows` that belong to `owner`, in order.
pub fn keep_owned(rows: &Vec<Server>, owner: i32) -> (r: Vec<Server>)
    ensures
        r.deep_view() == owned_by(rows.deep_view(), owner),
{
    let ghost all = rows.deep_view();
    let mut kept: Vec<Server> = Vec::new();
    let mut i: usize = 0;
    proof {
        reveal(Seq::filter);
        assert(kept.deep_view() =~= owned_by(all.take(0), owner));
    }
    while i < rows.len()
        invariant
            i <= rows@.len(),
            all == rows.deep_view(),
            kept.deep_view() == owned_by(all.take(i as int), owner),
        decreases rows@.len() - i,
    {
        proof {
            reveal(Seq::filter);
            assert(all.take(i + 1).drop_last() =~= all.take(i as int));
            assert(all.take(i + 1).last() == rows@[i as int].deep_view());
        }
        if rows[i].owner == owner {
            let ghost before = kept.deep_view();
            kept.push(rows[i].duplicate());
            proof {
                assert(kept.deep_view() =~= before.push(rows@[i as int].deep_view()));
            }
        }
        i = i + 1;
    }
    proof {
        assert(all.take(rows@.len() as int) =~= all);
    }
    kept
}

} // verus!
