use vm_panel::domain::{
    AddServerResponse, ControllerCall, CreateDomainResponse, PowerAction, ServerModel,
};
use vm_panel::error::ErrorKind;
use vm_panel::lifecycle::{
    advance, create_server, delete_server, get_all_servers, get_server_by_id, get_server_plans,
    power_on_server, restart_server, shutdown_server, Effect, Flow, Outcome, RegistryCall, Reply,
    Settings,
};
use vm_panel::server::{
    CreateServerRequest, GetServerResponse, Server, ServerPlan, ServerPlanResource,
};

fn settings() -> Settings {
    Settings {
        network_cidr: "10.0.0.0/29".to_string(),
        network_gateway: "10.0.0.1".to_string(),
        network_interface: "br0".to_string(),
        controller_endpoint: "http://ctl".to_string(),
        plans: vec![
            ServerPlan {
                id: 1,
                name: "small".to_string(),
                resources: ServerPlanResource { cpu: 1, memory: 2048, disk: 20 },
            },
            ServerPlan {
                id: 2,
                name: "large".to_string(),
                resources: ServerPlanResource { cpu: 4, memory: 8191, disk: 160 },
            },
        ],
    }
}

fn request(name: &str, plan: i32, script_id: Option<i32>) -> CreateServerRequest {
    CreateServerRequest {
        name: name.to_string(),
        server_password: "hunter2".to_string(),
        plan,
        script_id,
    }
}

/// A registry, a script store and a controller in memory, with a log of the
/// calls that reached the controller.
struct World {
    servers: Vec<Server>,
    scripts: Vec<(i32, String)>,
    domains: Vec<(String, bool)>,
    created: u32,
    log: Vec<String>,
    leak_foreign_rows: bool,
}

impl World {
    fn new() -> World {
        World {
            servers: Vec::new(),
            scripts: vec![(5, "apt update".to_string())],
            domains: Vec::new(),
            created: 0,
            log: Vec::new(),
            leak_foreign_rows: false,
        }
    }

    fn perform(&mut self, effect: Effect) -> Reply {
        match effect {
            Effect::Registry(RegistryCall::UsedAddresses) => {
                Reply::UsedAddresses(self.servers.iter().map(|s| s.address.clone()).collect())
            }
            Effect::Registry(RegistryCall::Insert(server)) => {
                self.servers.push(server);
                Reply::Completed
            }
            Effect::Registry(RegistryCall::OwnedBy(owner)) => Reply::Servers(
                self.servers
                    .iter()
                    .filter(|s| self.leak_foreign_rows || s.owner == owner)
                    .cloned()
                    .collect(),
            ),
            Effect::Registry(RegistryCall::Find(id, owner)) => Reply::Server(
                self.servers
                    .iter()
                    .find(|s| s.id == id && (self.leak_foreign_rows || s.owner == owner))
                    .cloned(),
            ),
            Effect::Registry(RegistryCall::Remove(id, owner)) => {
                self.servers.retain(|s| !(s.id == id && s.owner == owner));
                Reply::Completed
            }
            Effect::Script(id) => Reply::Script(
                self.scripts.iter().find(|(i, _)| *i == id).map(|(_, body)| body.clone()),
            ),
            Effect::Controller(call) => {
                let endpoint = call.endpoint("http://ctl");
                self.log.push(format!("{:?} {}", endpoint.method, endpoint.url));
                match call {
                    ControllerCall::Create(_) => {
                        self.created += 1;
                        let id = format!("dom-{}", self.created);
                        self.domains.push((id.clone(), true));
                        Reply::DomainCreated(CreateDomainResponse { id })
                    }
                    ControllerCall::Running(ids) => Reply::Running(AddServerResponse {
                        domains: Some(
                            self.domains
                                .iter()
                                .filter(|(id, up)| *up && ids.contains(id))
                                .map(|(id, _)| id.clone())
                                .collect(),
                        ),
                    }),
                    ControllerCall::Fetch(id) => {
                        match self.domains.iter().find(|(d, _)| *d == id) {
                            Some((_, true)) => {
                                Reply::Domain(ServerModel { status: "running".to_string() })
                            }
                            Some((_, false)) => {
                                Reply::Domain(ServerModel { status: "shut off".to_string() })
                            }
                            None => Reply::Refused(404),
                        }
                    }
                    ControllerCall::Delete(id) => {
                        self.domains.retain(|(d, _)| *d != id);
                        Reply::Completed
                    }
                    ControllerCall::Power(id, action) => {
                        for (d, up) in self.domains.iter_mut() {
                            if *d == id {
                                *up = action != PowerAction::Shutdown;
                            }
                        }
                        Reply::Completed
                    }
                }
            }
            Effect::Respond(_) => unreachable!(),
        }
    }

    fn run(&mut self, settings: &Settings, start: (Flow, Effect)) -> Outcome {
        let (mut flow, mut effect) = start;
        let mut steps = 0;
        loop {
            if let Effect::Respond(outcome) = effect {
                assert!(flow.is_finished());
                return outcome;
            }
            assert!(!flow.is_finished());
            steps += 1;
            assert!(steps <= 4);
            let reply = self.perform(effect);
            let next = advance(settings, flow, reply);
            flow = next.0;
            effect = next.1;
        }
    }
}

fn failed(outcome: Outcome) -> (ErrorKind, String) {
    match outcome {
        Outcome::Failed(e) => (e.kind, e.message),
        other => panic!("expected a failure, got {:?}", other),
    }
}

#[test]
fn creating_asks_for_the_used_addresses_first() {
    let (flow, effect) = create_server(&settings(), 7, request("web", 1, None));
    assert_eq!(effect, Effect::Registry(RegistryCall::UsedAddresses));
    assert_eq!(
        flow,
        Flow::Allocating {
            owner: 7,
            request: request("web", 1, None),
            resources: ServerPlanResource { cpu: 1, memory: 2048, disk: 20 },
        }
    );
}

#[test]
fn an_unknown_plan_is_a_bad_request() {
    let (flow, effect) = create_server(&settings(), 7, request("web", 99, None));
    assert!(flow.is_finished());
    assert_eq!(failed(match effect {
        Effect::Respond(o) => o,
        other => panic!("{:?}", other),
    }), (ErrorKind::BadRequest, "Unknown plan".to_string()));
}

#[test]
fn creation_sizes_the_domain_by_the_plan() {
    let s = settings();
    let (flow, _) = create_server(&s, 7, request("web", 2, None));
    let used = vec!["10.0.0.2/29".to_string()];
    let (flow, effect) = advance(&s, flow, Reply::UsedAddresses(used));
    let body = match effect {
        Effect::Controller(ControllerCall::Create(body)) => body,
        other => panic!("{:?}", other),
    };
    assert_eq!(body.password, "hunter2");
    assert_eq!(body.network.address, "10.0.0.3/29");
    assert_eq!(body.network.gateway, "10.0.0.1");
    assert_eq!(body.network.interface, "br0");
    assert_eq!(body.resources.cpu, 4);
    assert_eq!(body.resources.memory, 7);
    assert_eq!(body.resources.disk, "160G");
    assert_eq!(body.script, None);
    assert_eq!(
        flow,
        Flow::Creating {
            owner: 7,
            name: "web".to_string(),
            plan: 2,
            address: "10.0.0.3/29".to_string()
        }
    );
}

#[test]
fn the_server_is_recorded_under_the_id_the_controller_gave() {
    let s = settings();
    let flow = Flow::Creating {
        owner: 7,
        name: "web".to_string(),
        plan: 2,
        address: "10.0.0.3/29".to_string(),
    };
    let answer = CreateDomainResponse { id: "dom-x".to_string() };
    let (flow, effect) = advance(&s, flow, Reply::DomainCreated(answer));
    assert_eq!(flow, Flow::Recording);
    assert_eq!(
        effect,
        Effect::Registry(RegistryCall::Insert(Server {
            id: "dom-x".to_string(),
            name: "web".to_string(),
            address: "10.0.0.3/29".to_string(),
            plan: 2,
            owner: 7,
        }))
    );
    let (flow, effect) = advance(&s, flow, Reply::Completed);
    assert!(flow.is_finished());
    assert_eq!(effect, Effect::Respond(Outcome::Done));
}

#[test]
fn a_script_is_resolved_before_the_domain_is_created() {
    let s = settings();
    let mut world = World::new();
    let (flow, effect) = create_server(&s, 7, request("web", 1, Some(5)));
    let reply = world.perform(effect);
    let (flow, effect) = advance(&s, flow, reply);
    assert_eq!(effect, Effect::Script(5));
    assert!(matches!(flow, Flow::ResolvingScript { .. }));
    let reply = world.perform(effect);
    let (_, effect) = advance(&s, flow, reply);
    match effect {
        Effect::Controller(ControllerCall::Create(body)) => {
            assert_eq!(body.script, Some("apt update".to_string()));
            assert_eq!(body.network.address, "10.0.0.2/29");
            assert_eq!(body.resources.memory, 2);
            assert_eq!(body.resources.disk, "20G");
        }
        other => panic!("{:?}", other),
    }
}

#[test]
fn a_script_that_is_not_there_leaves_the_domain_without_one() {
    let s = settings();
    let mut world = World::new();
    let (flow, effect) = create_server(&s, 7, request("web", 1, Some(6)));
    let reply = world.perform(effect);
    let (flow, effect) = advance(&s, flow, reply);
    let reply = world.perform(effect);
    assert_eq!(reply, Reply::Script(None));
    let (_, effect) = advance(&s, flow, reply);
    match effect {
        Effect::Controller(ControllerCall::Create(body)) => assert_eq!(body.script, None),
        other => panic!("{:?}", other),
    }
}

#[test]
fn five_servers_exhaust_a_29_bit_block_with_a_gateway() {
    let s = settings();
    let mut world = World::new();
    for i in 0..5 {
        let name = format!("srv{}", i);
        let outcome = world.run(&s, create_server(&s, 7, request(&name, 1, None)));
        assert_eq!(outcome, Outcome::Done);
    }
    let addresses: Vec<&str> = world.servers.iter().map(|s| s.address.as_str()).collect();
    assert_eq!(
        addresses,
        vec!["10.0.0.2/29", "10.0.0.3/29", "10.0.0.4/29", "10.0.0.5/29", "10.0.0.6/29"]
    );
    let ids: Vec<&str> = world.servers.iter().map(|s| s.id.as_str()).collect();
    assert_eq!(ids, vec!["dom-1", "dom-2", "dom-3", "dom-4", "dom-5"]);
    let calls_before = world.log.len();
    let outcome = world.run(&s, create_server(&s, 7, request("sixth", 1, None)));
    assert_eq!(
        failed(outcome),
        (ErrorKind::BadRequest, "No available IP addresses".to_string())
    );
    assert_eq!(world.log.len(), calls_before);
    assert_eq!(world.servers.len(), 5);
}

#[test]
fn a_freed_address_is_handed_out_again() {
    let s = settings();
    let mut world = World::new();
    for i in 0..3 {
        world.run(&s, create_server(&s, 7, request(&format!("srv{}", i), 1, None)));
    }
    assert_eq!(world.run(&s, delete_server(7, "dom-2".to_string())), Outcome::Done);
    assert_eq!(world.servers.len(), 2);
    world.run(&s, create_server(&s, 7, request("again", 1, None)));
    assert_eq!(world.servers.last().unwrap().address, "10.0.0.3/29");
}

#[test]
fn a_malformed_block_is_an_internal_failure() {
    let mut s = settings();
    s.network_cidr = "10.0.0.0".to_string();
    let mut world = World::new();
    let outcome = world.run(&s, create_server(&s, 7, request("web", 1, None)));
    assert_eq!(failed(outcome), (ErrorKind::Internal, "Invalid CIDR format".to_string()));
    s.network_cidr = "10.0.0/24".to_string();
    let outcome = world.run(&s, create_server(&s, 7, request("web", 1, None)));
    assert_eq!(failed(outcome), (ErrorKind::Internal, "Invalid CIDR address".to_string()));
    s.network_cidr = "10.0.0.0/40".to_string();
    let outcome = world.run(&s, create_server(&s, 7, request("web", 1, None)));
    assert_eq!(failed(outcome), (ErrorKind::Internal, "Invalid CIDR prefix".to_string()));
    s.network_cidr = "255.255.255.255/24".to_string();
    let outcome = world.run(&s, create_server(&s, 7, request("web", 1, None)));
    assert_eq!(failed(outcome), (ErrorKind::Internal, "IP address overflow".to_string()));
    assert!(world.log.is_empty());
}

#[test]
fn a_failed_record_leaves_the_domain_in_place() {
    let s = settings();
    let mut world = World::new();
    let (flow, effect) = create_server(&s, 7, request("web", 1, None));
    let reply = world.perform(effect);
    let (flow, effect) = advance(&s, flow, reply);
    let reply = world.perform(effect);
    let (flow, effect) = advance(&s, flow, reply);
    assert!(matches!(effect, Effect::Registry(RegistryCall::Insert(_))));
    let (flow, effect) = advance(&s, flow, Reply::Broken("disk full".to_string()));
    assert!(flow.is_finished());
    assert_eq!(
        effect,
        Effect::Respond(Outcome::Failed(vm_panel::error::APIError::internal_server_error(
            "disk full"
        )))
    );
    assert_eq!(world.domains.len(), 1);
    assert_eq!(world.log, vec!["Post http://ctl/domains".to_string()]);
}

#[test]
fn listing_reports_running_servers_as_online() {
    let s = settings();
    let mut world = World::new();
    for i in 0..3 {
        world.run(&s, create_server(&s, 7, request(&format!("srv{}", i), 1, None)));
    }
    world.run(&s, create_server(&s, 8, request("other", 2, None)));
    assert_eq!(world.run(&s, shutdown_server(7, "dom-2".to_string())), Outcome::Done);
    let outcome = world.run(&s, get_all_servers(7));
    let report = |id: &str, name: &str, ip: &str, status: &str| GetServerResponse {
        id: id.to_string(),
        name: name.to_string(),
        plan: 1,
        ip_address: ip.to_string(),
        status: status.to_string(),
    };
    assert_eq!(
        outcome,
        Outcome::Servers(vec![
            report("dom-1", "srv0", "10.0.0.2/29", "online"),
            report("dom-2", "srv1", "10.0.0.3/29", "offline"),
            report("dom-3", "srv2", "10.0.0.4/29", "online"),
        ])
    );
    assert_eq!(world.log.last().unwrap(), "Get http://ctl/domains");
}

#[test]
fn listing_with_no_running_domains_reports_all_offline() {
    let s = settings();
    let servers = vec![
        Server {
            id: "a".to_string(),
            name: "one".to_string(),
            address: "10.0.0.2/29".to_string(),
            plan: 1,
            owner: 7,
        },
        Server {
            id: "b".to_string(),
            name: "two".to_string(),
            address: "10.0.0.3/29".to_string(),
            plan: 2,
            owner: 7,
        },
    ];
    for answer in [None, Some(Vec::new()), Some(vec!["zzz".to_string()])] {
        let flow = Flow::CheckingRunning { servers: servers.clone() };
        let (flow, effect) = advance(&s, flow, Reply::Running(AddServerResponse { domains: answer }));
        assert!(flow.is_finished());
        match effect {
            Effect::Respond(Outcome::Servers(reports)) => {
                assert_eq!(reports.len(), 2);
                assert!(reports.iter().all(|r| r.status == "offline"));
                assert_eq!(reports[0].id, "a");
                assert_eq!(reports[1].ip_address, "10.0.0.3/29");
            }
            other => panic!("{:?}", other),
        }
    }
}

#[test]
fn listing_asks_the_controller_about_the_rows_of_the_owner_only() {
    let s = settings();
    let rows = vec![
        Server {
            id: "a".to_string(),
            name: "one".to_string(),
            address: "10.0.0.2/29".to_string(),
            plan: 1,
            owner: 7,
        },
        Server {
            id: "b".to_string(),
            name: "two".to_string(),
            address: "10.0.0.3/29".to_string(),
            plan: 2,
            owner: 8,
        },
        Server {
            id: "c".to_string(),
            name: "three".to_string(),
            address: "10.0.0.4/29".to_string(),
            plan: 2,
            owner: 7,
        },
    ];
    let (flow, effect) = get_all_servers(7);
    assert_eq!(effect, Effect::Registry(RegistryCall::OwnedBy(7)));
    let (flow, effect) = advance(&s, flow, Reply::Servers(rows.clone()));
    assert_eq!(
        effect,
        Effect::Controller(ControllerCall::Running(vec!["a".to_string(), "c".to_string()]))
    );
    assert_eq!(flow, Flow::CheckingRunning { servers: vec![rows[0].clone(), rows[2].clone()] });
}

#[test]
fn a_refused_listing_fails_the_whole_call() {
    let s = settings();
    let flow = Flow::CheckingRunning { servers: Vec::new() };
    let (flow, effect) = advance(&s, flow, Reply::Refused(502));
    assert!(flow.is_finished());
    match effect {
        Effect::Respond(o) => assert_eq!(
            failed(o),
            (ErrorKind::UpstreamFailure, "Failed to get all servers: 502".to_string())
        ),
        other => panic!("{:?}", other),
    }
}

#[test]
fn one_server_is_online_only_where_the_controller_says_running() {
    let s = settings();
    let mut world = World::new();
    world.run(&s, create_server(&s, 7, request("web", 1, None)));
    let outcome = world.run(&s, get_server_by_id(7, "dom-1".to_string()));
    let expected = |status: &str| {
        Outcome::Server(GetServerResponse {
            id: "dom-1".to_string(),
            name: "web".to_string(),
            plan: 1,
            ip_address: "10.0.0.2/29".to_string(),
            status: status.to_string(),
        })
    };
    assert_eq!(outcome, expected("online"));
    world.run(&s, shutdown_server(7, "dom-1".to_string()));
    assert_eq!(world.run(&s, get_server_by_id(7, "dom-1".to_string())), expected("offline"));
    world.run(&s, power_on_server(7, "dom-1".to_string()));
    assert_eq!(world.run(&s, get_server_by_id(7, "dom-1".to_string())), expected("online"));
    assert_eq!(world.run(&s, restart_server(7, "dom-1".to_string())), Outcome::Done);
    assert_eq!(world.run(&s, get_server_by_id(7, "dom-1".to_string())), expected("online"));
    for status in ["Running", "running ", "", "paused"] {
        let flow = Flow::CheckingDomain { server: world.servers[0].clone() };
        let reply = Reply::Domain(ServerModel { status: status.to_string() });
        assert_eq!(advance(&s, flow, reply).1, Effect::Respond(expected("offline")));
    }
}

#[test]
fn a_server_of_someone_else_is_not_found() {
    let s = settings();
    for leak in [false, true] {
        let mut world = World::new();
        world.leak_foreign_rows = leak;
        world.run(&s, create_server(&s, 8, request("theirs", 1, None)));
        let calls = world.log.len();
        let not_found = (ErrorKind::NotFound, "Server not found".to_string());
        let foreign = world.run(&s, get_server_by_id(7, "dom-1".to_string()));
        let missing = world.run(&s, get_server_by_id(7, "dom-404".to_string()));
        assert_eq!(foreign, missing);
        assert_eq!(failed(foreign), not_found);
        assert_eq!(failed(world.run(&s, delete_server(7, "dom-1".to_string()))), not_found);
        assert_eq!(failed(world.run(&s, shutdown_server(7, "dom-1".to_string()))), not_found);
        assert_eq!(failed(world.run(&s, power_on_server(7, "dom-1".to_string()))), not_found);
        assert_eq!(failed(world.run(&s, restart_server(7, "dom-1".to_string()))), not_found);
        assert_eq!(world.log.len(), calls);
        assert_eq!(world.servers.len(), 1);
        assert_eq!(world.domains, vec![("dom-1".to_string(), true)]);
    }
}

#[test]
fn deleting_asks_the_registry_then_the_controller_then_the_registry() {
    let s = settings();
    let mut world = World::new();
    world.run(&s, create_server(&s, 7, request("web", 1, None)));
    let (flow, effect) = delete_server(7, "dom-1".to_string());
    assert_eq!(effect, Effect::Registry(RegistryCall::Find("dom-1".to_string(), 7)));
    let reply = world.perform(effect);
    let (flow, effect) = advance(&s, flow, reply);
    assert_eq!(effect, Effect::Controller(ControllerCall::Delete("dom-1".to_string())));
    let reply = world.perform(effect);
    let (flow, effect) = advance(&s, flow, reply);
    assert_eq!(effect, Effect::Registry(RegistryCall::Remove("dom-1".to_string(), 7)));
    let reply = world.perform(effect);
    let (flow, effect) = advance(&s, flow, reply);
    assert!(flow.is_finished());
    assert_eq!(effect, Effect::Respond(Outcome::Done));
    assert!(world.servers.is_empty());
    assert!(world.domains.is_empty());
}

#[test]
fn a_refused_delete_keeps_the_record() {
    let s = settings();
    let flow = Flow::Deleting { owner: 7, id: "dom-1".to_string() };
    let (flow, effect) = advance(&s, flow, Reply::Refused(500));
    assert!(flow.is_finished());
    match effect {
        Effect::Respond(o) => assert_eq!(
            failed(o),
            (ErrorKind::UpstreamFailure, "Failed to delete server: 500".to_string())
        ),
        other => panic!("{:?}", other),
    }
}

#[test]
fn power_changes_go_to_the_controller_for_the_owner() {
    let s = settings();
    let mut world = World::new();
    world.run(&s, create_server(&s, 7, request("web", 1, None)));
    for (start, action, url) in [
        (shutdown_server(7, "dom-1".to_string()), PowerAction::Shutdown, "shutdown"),
        (power_on_server(7, "dom-1".to_string()), PowerAction::PowerOn, "power_on"),
        (restart_server(7, "dom-1".to_string()), PowerAction::Restart, "restart"),
    ] {
        let (flow, effect) = start;
        assert_eq!(effect, Effect::Registry(RegistryCall::Find("dom-1".to_string(), 7)));
        assert_eq!(flow, Flow::ConfirmingPower { owner: 7, id: "dom-1".to_string(), action });
        let reply = world.perform(effect);
        let (flow, effect) = advance(&s, flow, reply);
        assert_eq!(flow.awaited().map(|t| t.refusal(418)), Some(match action {
            PowerAction::Shutdown => "Failed to shutdown server: 418".to_string(),
            PowerAction::PowerOn => "Failed to power on server: 418".to_string(),
            PowerAction::Restart => "Failed to restart server: 418".to_string(),
        }));
        assert_eq!(effect, Effect::Controller(ControllerCall::Power("dom-1".to_string(), action)));
        let reply = world.perform(effect);
        assert_eq!(world.log.last().unwrap(), &format!("Post http://ctl/domains/dom-1/{}", url));
        assert_eq!(advance(&s, flow, reply), (Flow::Finished, Effect::Respond(Outcome::Done)));
    }
    assert_eq!(world.servers.len(), 1);
}

#[test]
fn failures_end_the_use_case_with_their_kind() {
    let s = settings();
    let (flow, _) = get_all_servers(7);
    let (flow, effect) = advance(&s, flow, Reply::Broken("pool timed out".to_string()));
    assert!(flow.is_finished());
    match effect {
        Effect::Respond(o) => {
            assert_eq!(failed(o), (ErrorKind::Internal, "pool timed out".to_string()))
        }
        other => panic!("{:?}", other),
    }
    let flow = Flow::Creating {
        owner: 7,
        name: "web".to_string(),
        plan: 1,
        address: "10.0.0.2/29".to_string(),
    };
    let (_, effect) = advance(&s, flow.clone(), Reply::Unreachable("connection refused".to_string()));
    match effect {
        Effect::Respond(o) => {
            assert_eq!(failed(o), (ErrorKind::UpstreamFailure, "connection refused".to_string()))
        }
        other => panic!("{:?}", other),
    }
    let (_, effect) = advance(&s, flow, Reply::Refused(503));
    match effect {
        Effect::Respond(o) => assert_eq!(
            failed(o),
            (ErrorKind::UpstreamFailure, "Failed to create domain: 503".to_string())
        ),
        other => panic!("{:?}", other),
    }
    let flow = Flow::CheckingDomain {
        server: Server {
            id: "a".to_string(),
            name: "one".to_string(),
            address: "10.0.0.2/29".to_string(),
            plan: 1,
            owner: 7,
        },
    };
    let (_, effect) = advance(&s, flow, Reply::Refused(404));
    match effect {
        Effect::Respond(o) => assert_eq!(
            failed(o),
            (ErrorKind::UpstreamFailure, "Failed to fetch server: 404".to_string())
        ),
        other => panic!("{:?}", other),
    }
}

#[test]
fn a_reply_that_was_not_waited_for_is_an_internal_failure() {
    let s = settings();
    let unexpected = (ErrorKind::Internal, "Unexpected reply".to_string());
    let cases = vec![
        (get_all_servers(7).0, Reply::Completed),
        (get_server_by_id(7, "a".to_string()).0, Reply::Servers(Vec::new())),
        (Flow::Recording, Reply::Refused(500)),
        (Flow::Removing, Reply::Script(None)),
        (Flow::Finished, Reply::Completed),
        (Flow::Finished, Reply::Broken("late".to_string())),
        (Flow::Listing { owner: 1 }, Reply::Refused(500)),
    ];
    for (flow, reply) in cases {
        let (flow, effect) = advance(&s, flow, reply);
        assert!(flow.is_finished());
        match effect {
            Effect::Respond(o) => assert_eq!(failed(o), unexpected),
            other => panic!("{:?}", other),
        }
    }
}

#[test]
fn the_catalog_is_handed_out_unchanged() {
    let s = settings();
    assert_eq!(get_server_plans(&s).plans, s.plans);
}
