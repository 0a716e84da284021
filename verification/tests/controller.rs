use vm_panel::domain::{
    is_success, AddServerResponse, ControllerCall, ControllerTask, CreateDomainRequest,
    CreateDomainRequestNetwork, CreateDomainRequestResources, Method, PowerAction,
};

fn sample_request() -> CreateDomainRequest {
    CreateDomainRequest {
        password: "secret".to_string(),
        network: CreateDomainRequestNetwork {
            address: "10.0.0.2/29".to_string(),
            gateway: "10.0.0.1".to_string(),
            interface: "br0".to_string(),
        },
        resources: CreateDomainRequestResources { cpu: 2, memory: 4, disk: "40G".to_string() },
        script: None,
    }
}

fn pair(name: &str, value: &str) -> (String, String) {
    (name.to_string(), value.to_string())
}

#[test]
fn creating_posts_to_domains() {
    let e = ControllerCall::Create(sample_request()).endpoint("http://ctl:8080");
    assert_eq!(e.method, Method::Post);
    assert_eq!(e.url, "http://ctl:8080/domains");
    assert!(e.query.is_empty());
}

#[test]
fn asking_for_running_domains_sends_the_ids_with_commas() {
    let ids = vec!["a1".to_string(), "b2".to_string(), "c3".to_string()];
    let e = ControllerCall::Running(ids).endpoint("http://ctl");
    assert_eq!(e.method, Method::Get);
    assert_eq!(e.url, "http://ctl/domains");
    assert_eq!(e.query, vec![pair("running", "true"), pair("ids", "a1,b2,c3")]);
    let e = ControllerCall::Running(vec!["only".to_string()]).endpoint("http://ctl");
    assert_eq!(e.query, vec![pair("running", "true"), pair("ids", "only")]);
    let e = ControllerCall::Running(Vec::new()).endpoint("http://ctl");
    assert_eq!(e.query, vec![pair("running", "true"), pair("ids", "")]);
}

#[test]
fn one_domain_is_addressed_by_its_id() {
    let e = ControllerCall::Fetch("abc".to_string()).endpoint("http://ctl");
    assert_eq!((e.method, e.url.as_str()), (Method::Get, "http://ctl/domains/abc"));
    assert!(e.query.is_empty());
    let e = ControllerCall::Delete("abc".to_string()).endpoint("http://ctl");
    assert_eq!((e.method, e.url.as_str()), (Method::Delete, "http://ctl/domains/abc"));
    assert!(e.query.is_empty());
}

#[test]
fn power_changes_post_to_the_action_under_the_domain() {
    let e = ControllerCall::Power("abc".to_string(), PowerAction::Shutdown).endpoint("http://ctl");
    assert_eq!((e.method, e.url.as_str()), (Method::Post, "http://ctl/domains/abc/shutdown"));
    let e = ControllerCall::Power("abc".to_string(), PowerAction::PowerOn).endpoint("http://ctl");
    assert_eq!((e.method, e.url.as_str()), (Method::Post, "http://ctl/domains/abc/power_on"));
    let e = ControllerCall::Power("abc".to_string(), PowerAction::Restart).endpoint("http://ctl");
    assert_eq!((e.method, e.url.as_str()), (Method::Post, "http://ctl/domains/abc/restart"));
    assert_eq!(PowerAction::Shutdown.segment(), "shutdown");
    assert_eq!(PowerAction::PowerOn.segment(), "power_on");
    assert_eq!(PowerAction::Restart.segment(), "restart");
}

#[test]
fn only_statuses_from_200_to_299_are_successes() {
    assert!(!is_success(0));
    assert!(!is_success(199));
    assert!(is_success(200));
    assert!(is_success(204));
    assert!(is_success(299));
    assert!(!is_success(300));
    assert!(!is_success(404));
    assert!(!is_success(500));
    assert!(!is_success(u16::MAX));
}

#[test]
fn each_call_has_its_task() {
    assert_eq!(ControllerCall::Create(sample_request()).task(), ControllerTask::Create);
    assert_eq!(ControllerCall::Running(Vec::new()).task(), ControllerTask::Running);
    assert_eq!(ControllerCall::Fetch("x".to_string()).task(), ControllerTask::Fetch);
    assert_eq!(ControllerCall::Delete("x".to_string()).task(), ControllerTask::Delete);
    assert_eq!(
        ControllerCall::Power("x".to_string(), PowerAction::Restart).task(),
        ControllerTask::Power(PowerAction::Restart)
    );
}

#[test]
fn refusals_name_the_task_and_the_status() {
    assert_eq!(ControllerTask::Create.refusal(503), "Failed to create domain: 503");
    assert_eq!(ControllerTask::Running.refusal(500), "Failed to get all servers: 500");
    assert_eq!(ControllerTask::Fetch.refusal(404), "Failed to fetch server: 404");
    assert_eq!(ControllerTask::Delete.refusal(409), "Failed to delete server: 409");
    assert_eq!(
        ControllerTask::Power(PowerAction::Shutdown).refusal(400),
        "Failed to shutdown server: 400"
    );
    assert_eq!(
        ControllerTask::Power(PowerAction::PowerOn).refusal(0),
        "Failed to power on server: 0"
    );
    assert_eq!(
        ControllerTask::Power(PowerAction::Restart).refusal(65535),
        "Failed to restart server: 65535"
    );
}

#[test]
fn a_missing_list_of_running_domains_is_empty() {
    assert_eq!(AddServerResponse { domains: None }.running(), Vec::<String>::new());
    assert_eq!(AddServerResponse { domains: Some(Vec::new()) }.running(), Vec::<String>::new());
    assert_eq!(
        AddServerResponse { domains: Some(vec!["a".to_string(), "b".to_string()]) }.running(),
        vec!["a".to_string(), "b".to_string()]
    );
}
