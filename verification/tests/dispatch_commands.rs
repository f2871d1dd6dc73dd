use wash_ctl::command::{
    ApplyCommand, CtlCli, CtlCliCommand, GetCommand, GetHostInventoryCommand, GetHostsCommand,
    LinkCommand, LinkDelCommand, LinkPutCommand, Output, OutputKind, StartActorCommand,
    StartCommand, StartProviderCommand, StopActorCommand, StopCommand, StopHostCommand,
    StopProviderCommand, UpdateActorCommand, UpdateCommand,
};
use wash_ctl::config::ConnectionOpts;
use wash_ctl::dispatch::{
    apply_loaded, apply_manifest, command_failure, finish_operation, get_hosts, handle_command,
    link_del, link_put, manifest_load_failure, progress_message, start_actor, start_opts,
    start_provider, success_message, update_spinner_message, ControlRequest, Dispatch, Shown,
    SpinnerStep,
};
use wash_ctl::id::{parse_id, prefix, IdError, IdKind};
use wash_ctl::labels::{
    merge_labels, parse_label, parse_labels, parse_mapping, put_label, LabelError,
};
use wash_ctl::manifest::{split_contract, HostManifest, Label, Operation};
use wash_ctl::outcome::{Acknowledgement, Reply};
use wash_ctl::placement::WorkloadKind;
use wash_ctl::text::{join2, join3, join4, join5, split_at_first};

const ACTOR_ID: &str = "MDPDJEYIAK6MACO67PRFGOSSLODBISK4SCEYDY3HEOY4P5CVJN6UCWUK";
const PROVIDER_ID: &str = "VBKTSBG2WKP6RJWLQ5O7RDVIIB4LMW6U5R67A7QMIDBZDGZWYTUE3TSI";
const HOST_ID: &str = "NCE7YHGI42RWEKBRDJZWXBEJJCFNE5YIWYMSTLGHQBEGFY55BKJ3EG3G";

fn json() -> Output {
    Output { kind: OutputKind::Json }
}

fn unset() -> ConnectionOpts {
    ConnectionOpts {
        ctl_host: None,
        ctl_port: None,
        ctl_jwt: None,
        ctl_seed: None,
        ctl_credsfile: None,
        lattice_prefix: None,
        timeout_ms: None,
        context: None,
    }
}

fn start_actor_cmd(host: Option<&str>, constraints: Option<Vec<&str>>) -> StartActorCommand {
    StartActorCommand {
        opts: unset(),
        output: json(),
        host_id: host.map(|h| h.to_string()),
        actor_ref: "wasmcloud.azurecr.io/actor:v1".to_string(),
        constraints: constraints.map(|c| c.iter().map(|s| s.to_string()).collect()),
        auction_timeout_ms: Some(2000),
    }
}

#[test]
fn command_is_handed_out() {
    let cmd = CtlCliCommand::Get(GetCommand::Hosts(GetHostsCommand {
        opts: ConnectionOpts::default(),
        output: json(),
    }));
    let cli = CtlCli { command: cmd.clone() };
    assert_eq!(cli.command(), cmd);
    assert_eq!(cmd.output().kind, OutputKind::Json);
}

#[test]
fn pieces_are_joined_in_order() {
    assert_eq!(join2("a", "b"), "ab");
    assert_eq!(join3("a", "", "c"), "ac");
    assert_eq!(join4("1", "2", "3", "4"), "1234");
    assert_eq!(join5("v", "w", "x", "y", "z"), "vwxyz");
}

#[test]
fn labels_split_at_the_first_equals() {
    assert_eq!(
        parse_label("arch=x86_64"),
        Some(Label { key: "arch".to_string(), value: "x86_64".to_string() })
    );
    assert_eq!(
        parse_label("THING=a=b"),
        Some(Label { key: "THING".to_string(), value: "a=b".to_string() })
    );
    assert_eq!(parse_label("="), Some(Label { key: String::new(), value: String::new() }));
    assert_eq!(
        parse_label("k\u{e9}y=v\u{fc}"),
        Some(Label { key: "k\u{e9}y".to_string(), value: "v\u{fc}".to_string() })
    );
    assert_eq!(parse_label("novalue"), None);
    assert_eq!(parse_label(""), None);
    assert_eq!(
        parse_labels(&vec!["a=1".to_string(), "b=2".to_string()]),
        Ok(vec![
            Label { key: "a".to_string(), value: "1".to_string() },
            Label { key: "b".to_string(), value: "2".to_string() },
        ])
    );
    assert_eq!(
        parse_labels(&vec!["a=1".to_string(), "oops".to_string(), "nope".to_string()]),
        Err(LabelError::Malformed { index: 1, argument: "oops".to_string() })
    );
    assert_eq!(parse_labels(&vec![]), Ok(vec![]));
}

#[test]
fn get_hosts_waits_for_the_timeout_in_force() {
    let mut cmd = GetHostsCommand { opts: unset(), output: json() };
    assert_eq!(get_hosts(&cmd), ControlRequest::GetHosts { timeout_ms: 2000 });
    cmd.opts.timeout_ms = Some(123);
    assert_eq!(get_hosts(&cmd), ControlRequest::GetHosts { timeout_ms: 123 });
}

#[test]
fn link_requests_default_the_link_name() {
    let del = LinkDelCommand {
        opts: unset(),
        output: json(),
        actor_id: ACTOR_ID.to_string(),
        contract_id: "wasmcloud:provider".to_string(),
        link_name: None,
    };
    assert_eq!(
        link_del(&del),
        ControlRequest::RemoveLink {
            actor_id: ACTOR_ID.to_string(),
            contract_id: "wasmcloud:provider".to_string(),
            link_name: "default".to_string(),
        }
    );
    let mut put = LinkPutCommand {
        opts: unset(),
        output: json(),
        actor_id: ACTOR_ID.to_string(),
        provider_id: PROVIDER_ID.to_string(),
        contract_id: "wasmcloud:provider".to_string(),
        link_name: Some("backend".to_string()),
        values: vec!["THING=foo".to_string()],
    };
    assert_eq!(
        link_put(&put),
        Ok(ControlRequest::AdvertiseLink {
            actor_id: ACTOR_ID.to_string(),
            provider_id: PROVIDER_ID.to_string(),
            contract_id: "wasmcloud:provider".to_string(),
            link_name: "backend".to_string(),
            values: vec![Label { key: "THING".to_string(), value: "foo".to_string() }],
        })
    );
    put.link_name = None;
    put.values = vec!["THING".to_string()];
    let err = link_put(&put).unwrap_err();
    assert_eq!(err, LabelError::Malformed { index: 0, argument: "THING".to_string() });
    assert_eq!(err.message(), "Expected label=value, found THING");
    assert_eq!(
        handle_command(&CtlCliCommand::Link(LinkCommand::Put(put.clone()))),
        Ok(Dispatch::Show(Shown::Failed("Expected label=value, found THING".to_string())))
    );
    put.values = vec!["A=1".to_string(), "B".to_string(), "C".to_string()];
    assert_eq!(
        handle_command(&CtlCliCommand::Link(LinkCommand::Put(put.clone()))),
        Ok(Dispatch::Show(Shown::Failed("Expected label=value, found B".to_string())))
    );
    put.values = vec!["A=1".to_string()];
    assert!(matches!(
        handle_command(&CtlCliCommand::Link(LinkCommand::Put(put.clone()))),
        Ok(Dispatch::Call(ControlRequest::AdvertiseLink { .. }))
    ));
    put.values = vec![];
    match link_put(&put) {
        Ok(ControlRequest::AdvertiseLink { link_name, values, .. }) => {
            assert_eq!(link_name, "default");
            assert!(values.is_empty());
        }
        other => panic!("unexpected request {:?}", other),
    }
}

#[test]
fn start_fills_in_the_timeout_of_its_kind() {
    let plan = start_actor(&start_actor_cmd(None, Some(vec!["arch=x86_64"]))).unwrap();
    assert_eq!(plan.opts.timeout_ms, Some(15000));
    assert_eq!(plan.placement.kind, WorkloadKind::Actor);
    assert_eq!(plan.placement.explicit_host, None);
    assert_eq!(plan.placement.workload_ref, "wasmcloud.azurecr.io/actor:v1");
    assert_eq!(plan.placement.link_name, None);
    assert_eq!(plan.placement.auction_window_ms, Some(2000));
    assert_eq!(
        plan.placement.constraints,
        vec![Label { key: "arch".to_string(), value: "x86_64".to_string() }]
    );
    let mut opts = unset();
    opts.timeout_ms = Some(2000);
    opts.ctl_host = Some("127.0.0.1".to_string());
    let kept = start_opts(WorkloadKind::Provider, &opts);
    assert_eq!(kept, opts);
    assert_eq!(start_opts(WorkloadKind::Provider, &unset()).timeout_ms, Some(60000));
    let cmd = StartProviderCommand {
        opts: unset(),
        output: json(),
        host_id: None,
        provider_ref: "wasmcloud.azurecr.io/provider:v1".to_string(),
        link_name: "default".to_string(),
        constraints: None,
        auction_timeout_ms: None,
    };
    let plan = start_provider(&cmd).unwrap();
    assert_eq!(plan.opts.timeout_ms, Some(60000));
    assert_eq!(plan.placement.kind, WorkloadKind::Provider);
    assert_eq!(plan.placement.link_name, Some("default".to_string()));
    assert!(plan.placement.constraints.is_empty());
    assert_eq!(plan.placement.auction_window_ms, None);
}

#[test]
fn constraints_are_not_read_for_a_named_host() {
    let plan = start_actor(&start_actor_cmd(Some(HOST_ID), Some(vec!["not a label"]))).unwrap();
    assert_eq!(plan.placement.explicit_host, Some(HOST_ID.to_string()));
    assert!(plan.placement.constraints.is_empty());
    assert_eq!(
        start_actor(&start_actor_cmd(None, Some(vec!["a=b", "not a label"]))),
        Err(LabelError::Malformed { index: 1, argument: "not a label".to_string() })
    );
}

#[test]
fn progress_and_success_messages() {
    let inv = CtlCliCommand::Get(GetCommand::HostInventory(GetHostInventoryCommand {
        opts: unset(),
        output: json(),
        host_id: "NHOST".to_string(),
    }));
    assert_eq!(progress_message(&inv), " Retrieving inventory for host NHOST ...");
    assert_eq!(success_message(&inv), None);
    let del = CtlCliCommand::Link(LinkCommand::Del(LinkDelCommand {
        opts: unset(),
        output: json(),
        actor_id: "MA".to_string(),
        contract_id: "wasmcloud:provider".to_string(),
        link_name: None,
    }));
    assert_eq!(progress_message(&del), "Deleting link for MA on wasmcloud:provider (default) ... ");
    let start = CtlCliCommand::Start(StartCommand::Actor(start_actor_cmd(None, None)));
    assert_eq!(progress_message(&start), " Starting actor wasmcloud.azurecr.io/actor:v1 ... ");
    assert_eq!(
        success_message(&start),
        Some("Actor wasmcloud.azurecr.io/actor:v1 started successfully".to_string())
    );
    let stop = CtlCliCommand::Stop(StopCommand::Host(StopHostCommand {
        opts: unset(),
        output: json(),
        host_id: "NH".to_string(),
        host_shutdown_timeout: Some(5),
    }));
    assert_eq!(progress_message(&stop), " Stopping host NH ... ");
    assert_eq!(success_message(&stop), Some("Host NH acknowledged stop request".to_string()));
    let update = CtlCliCommand::Update(UpdateCommand::Actor(UpdateActorCommand {
        opts: unset(),
        output: json(),
        host_id: "NH".to_string(),
        actor_id: "MA".to_string(),
        new_actor_ref: "wasmcloud.azurecr.io/actor:v2".to_string(),
    }));
    assert_eq!(
        progress_message(&update),
        " Updating Actor MA to wasmcloud.azurecr.io/actor:v2 ... "
    );
    assert_eq!(
        success_message(&update),
        Some("Actor MA updated to wasmcloud.azurecr.io/actor:v2".to_string())
    );
    assert_eq!(manifest_load_failure("no such file"), "Failed to load manifest: no such file");
}

#[test]
fn spinner_is_for_text_output_only() {
    let text = Output { kind: OutputKind::Text };
    assert_eq!(update_spinner_message(false, &text), SpinnerStep::Open);
    assert_eq!(update_spinner_message(false, &json()), SpinnerStep::Silent);
    assert_eq!(update_spinner_message(true, &json()), SpinnerStep::Retitle);
    assert_eq!(update_spinner_message(true, &text), SpinnerStep::Retitle);
}

#[test]
fn commands_are_routed() {
    let apply = ApplyCommand {
        host_key: HOST_ID.to_string(),
        path: "manifest.yaml".to_string(),
        expand_env: true,
        opts: unset(),
        output: json(),
    };
    assert_eq!(
        handle_command(&CtlCliCommand::Apply(apply.clone())),
        Ok(Dispatch::Apply {
            host_key: HOST_ID.to_string(),
            path: "manifest.yaml".to_string(),
            expand_env: true,
        })
    );
    let m = HostManifest { actors: vec!["a".to_string()], capabilities: vec![], links: vec![] };
    let o = apply_manifest(&apply, &m);
    assert!(!o.is_done());
    let loaded = apply_loaded(HOST_ID, Ok(m.clone())).unwrap();
    assert!(loaded.outcomes().is_empty());
    match loaded.pending() {
        Some(Operation::StartActor { host_id, actor_ref }) => {
            assert_eq!(host_id, HOST_ID);
            assert_eq!(actor_ref, "a");
        }
        other => panic!("unexpected pending operation {:?}", other),
    }
    match apply_loaded(HOST_ID, Err("no such file".to_string())) {
        Err(msg) => assert_eq!(msg, "Failed to load manifest: no such file"),
        Ok(_) => panic!("a manifest that was not read was applied"),
    }
    let stop = CtlCliCommand::Stop(StopCommand::Actor(StopActorCommand {
        opts: unset(),
        output: json(),
        host_id: HOST_ID.to_string(),
        actor_id: ACTOR_ID.to_string(),
        count: 2,
    }));
    assert_eq!(
        handle_command(&stop),
        Ok(Dispatch::Call(ControlRequest::StopActor {
            host_id: HOST_ID.to_string(),
            actor_id: ACTOR_ID.to_string(),
            count: 2,
        }))
    );
    let stop = CtlCliCommand::Stop(StopCommand::Provider(StopProviderCommand {
        opts: unset(),
        output: json(),
        host_id: HOST_ID.to_string(),
        provider_id: PROVIDER_ID.to_string(),
        link_name: "default".to_string(),
        contract_id: "wasmcloud:provider".to_string(),
    }));
    assert_eq!(
        handle_command(&stop),
        Ok(Dispatch::Call(ControlRequest::StopProvider {
            host_id: HOST_ID.to_string(),
            provider_id: PROVIDER_ID.to_string(),
            link_name: "default".to_string(),
            contract_id: "wasmcloud:provider".to_string(),
        }))
    );
    let start = CtlCliCommand::Start(StartCommand::Actor(start_actor_cmd(None, Some(vec!["x"]))));
    assert_eq!(
        handle_command(&start),
        Err(LabelError::Malformed { index: 0, argument: "x".to_string() })
    );
    let start = CtlCliCommand::Start(StartCommand::Actor(start_actor_cmd(Some(HOST_ID), None)));
    match handle_command(&start) {
        Ok(Dispatch::Start(plan)) => {
            assert_eq!(plan.placement.explicit_host, Some(HOST_ID.to_string()));
            assert_eq!(plan.opts.timeout_ms, Some(15000));
        }
        other => panic!("unexpected dispatch {:?}", other),
    }
}

#[test]
fn repeated_labels_keep_the_last_value() {
    let l = |k: &str, v: &str| Label { key: k.to_string(), value: v.to_string() };
    assert_eq!(
        merge_labels(vec![l("a", "1"), l("b", "2"), l("a", "3"), l("c", "4"), l("b", "5")]),
        vec![l("a", "3"), l("b", "5"), l("c", "4")]
    );
    assert_eq!(merge_labels(vec![]), vec![]);
    let mut labels = vec![l("a", "1")];
    put_label(&mut labels, l("b", "2"));
    put_label(&mut labels, l("a", "9"));
    assert_eq!(labels, vec![l("a", "9"), l("b", "2")]);
    assert_eq!(
        parse_mapping(&vec!["arch=arm".to_string(), "os=linux".to_string(), "arch=x86_64".to_string()]),
        Ok(vec![l("arch", "x86_64"), l("os", "linux")])
    );
    assert_eq!(
        parse_mapping(&vec!["arch=arm".to_string(), "os".to_string()]),
        Err(LabelError::Malformed { index: 1, argument: "os".to_string() })
    );
    let plan = start_actor(&start_actor_cmd(None, Some(vec!["a=1", "a=2"]))).unwrap();
    assert_eq!(plan.placement.constraints, vec![l("a", "2")]);
}

#[test]
fn identifiers_have_the_shape_of_keys() {
    assert_eq!(parse_id(IdKind::Host, "host-id", HOST_ID), Ok(HOST_ID.to_string()));
    assert_eq!(parse_id(IdKind::Actor, "actor-id", ACTOR_ID), Ok(ACTOR_ID.to_string()));
    assert_eq!(parse_id(IdKind::Provider, "provider-id", PROVIDER_ID), Ok(PROVIDER_ID.to_string()));
    assert_eq!(
        parse_id(IdKind::Host, "host-id", ACTOR_ID),
        Err(IdError::WrongPrefix { field: "host-id".to_string(), kind: IdKind::Host })
    );
    assert_eq!(
        parse_id(IdKind::Host, "host-id", ACTOR_ID).unwrap_err().message(),
        "host-id: the key of a host starts with N"
    );
    assert_eq!(
        parse_id(IdKind::Actor, "actor-id", "M").unwrap_err().message(),
        "actor-id: a key has 56 characters"
    );
    assert_eq!(
        parse_id(IdKind::Actor, "actor-id", "MABC"),
        Err(IdError::WrongLength { field: "actor-id".to_string(), found: 4 })
    );
    assert_eq!(
        parse_id(IdKind::Provider, "provider-id", ""),
        Err(IdError::WrongLength { field: "provider-id".to_string(), found: 0 })
    );
    assert_eq!(prefix(IdKind::Host), 'N');
    assert_eq!(prefix(IdKind::Actor), 'M');
    assert_eq!(prefix(IdKind::Provider), 'V');
}

#[test]
fn single_operations_show_what_the_host_said() {
    let stop = CtlCliCommand::Stop(StopCommand::Host(StopHostCommand {
        opts: unset(),
        output: json(),
        host_id: "NH".to_string(),
        host_shutdown_timeout: None,
    }));
    let yes = Reply::Answered(Acknowledgement { accepted: true, error: None });
    let no = Reply::Answered(Acknowledgement { accepted: false, error: Some("busy".to_string()) });
    let lost = Reply::Failed("timed out".to_string());
    assert_eq!(
        finish_operation(&stop, &yes),
        Ok(Shown::Accepted(Some("Host NH acknowledged stop request".to_string())))
    );
    assert_eq!(finish_operation(&stop, &no), Ok(Shown::Failed("busy".to_string())));
    assert_eq!(finish_operation(&stop, &lost), Err("timed out".to_string()));
    let del = CtlCliCommand::Link(LinkCommand::Del(LinkDelCommand {
        opts: unset(),
        output: json(),
        actor_id: "MA".to_string(),
        contract_id: "wasmcloud:provider".to_string(),
        link_name: None,
    }));
    assert_eq!(finish_operation(&del, &yes), Ok(Shown::Accepted(None)));
    assert_eq!(finish_operation(&del, &lost), Ok(Shown::Failed("timed out".to_string())));
    assert_eq!(
        command_failure(&del, "no credentials".to_string()),
        Ok(Shown::Failed("no credentials".to_string()))
    );
    assert_eq!(
        command_failure(&stop, "no credentials".to_string()),
        Err("no credentials".to_string())
    );
}

#[test]
fn texts_split_at_the_first_mark() {
    assert_eq!(split_at_first("a:b:c", ':'), Some(("a".to_string(), "b:c".to_string())));
    assert_eq!(split_at_first("abc", ':'), None);
    assert_eq!(split_at_first(":", ':'), Some((String::new(), String::new())));
    assert_eq!(
        split_contract("wasmcloud:httpserver"),
        ("wasmcloud".to_string(), "httpserver".to_string())
    );
    assert_eq!(split_contract("plain"), ("plain".to_string(), String::new()));
}
