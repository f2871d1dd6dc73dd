use wash_ctl::manifest::{
    plan, Capability, HostManifest, Label, LinkEntry, Operation, OperationKind,
};
use wash_ctl::orchestrator::{apply_with_replies, report_with_replies, run, Orchestrator};
use wash_ctl::outcome::{Acknowledgement, OperationOutcome, Reply};

const HOST: &str = "NCE7YHGI42RWEKBRDJZWXBEJJCFNE5YIWYMSTLGHQBEGFY55BKJ3EG3G";

fn accepted() -> Reply {
    Reply::Answered(Acknowledgement { accepted: true, error: None })
}

fn declined(why: &str) -> Reply {
    Reply::Answered(Acknowledgement { accepted: false, error: Some(why.to_string()) })
}

fn link(actor: &str, provider: &str, name: Option<&str>) -> LinkEntry {
    LinkEntry {
        actor: actor.to_string(),
        provider_id: provider.to_string(),
        contract_id: "wasmcloud:provider".to_string(),
        link_name: name.map(|n| n.to_string()),
        values: None,
    }
}

fn sample() -> HostManifest {
    HostManifest {
        actors: vec!["actor-1".to_string(), "actor-2".to_string()],
        capabilities: vec![
            Capability { image_ref: "cap-1".to_string(), link_name: None },
            Capability { image_ref: "cap-2".to_string(), link_name: Some("backend".to_string()) },
        ],
        links: vec![
            link("MA", "VP", None),
            LinkEntry {
                actor: "MB".to_string(),
                provider_id: "VQ".to_string(),
                contract_id: "wasmcloud:httpserver".to_string(),
                link_name: Some("front".to_string()),
                values: Some(vec![Label { key: "PORT".to_string(), value: "8080".to_string() }]),
            },
        ],
    }
}

#[test]
fn plan_issues_actors_then_capabilities_then_links() {
    let ops = plan(HOST, &sample());
    assert_eq!(
        ops,
        vec![
            Operation::StartActor { host_id: HOST.to_string(), actor_ref: "actor-1".to_string() },
            Operation::StartActor { host_id: HOST.to_string(), actor_ref: "actor-2".to_string() },
            Operation::StartProvider {
                host_id: HOST.to_string(),
                image_ref: "cap-1".to_string(),
                link_name: None,
            },
            Operation::StartProvider {
                host_id: HOST.to_string(),
                image_ref: "cap-2".to_string(),
                link_name: Some("backend".to_string()),
            },
            Operation::PutLink {
                actor: "MA".to_string(),
                provider_id: "VP".to_string(),
                contract_id: "wasmcloud:provider".to_string(),
                link_name: "default".to_string(),
                values: vec![],
            },
            Operation::PutLink {
                actor: "MB".to_string(),
                provider_id: "VQ".to_string(),
                contract_id: "wasmcloud:httpserver".to_string(),
                link_name: "front".to_string(),
                values: vec![Label { key: "PORT".to_string(), value: "8080".to_string() }],
            },
        ]
    );
}

#[test]
fn empty_manifest_has_empty_plan() {
    let m = HostManifest { actors: vec![], capabilities: vec![], links: vec![] };
    assert!(plan(HOST, &m).is_empty());
    assert!(apply_with_replies(HOST, &m, &vec![accepted()]).is_empty());
    let mut o = Orchestrator::new(HOST, &m);
    assert!(o.is_done());
    assert!(o.pending().is_none());
    assert!(!o.record(&accepted()));
}

#[test]
fn unnamed_link_is_put_as_default() {
    let m = HostManifest { actors: vec![], capabilities: vec![], links: vec![link("A", "P", None)] };
    match &plan(HOST, &m)[0] {
        Operation::PutLink { link_name, values, .. } => {
            assert_eq!(link_name, "default");
            assert!(values.is_empty());
        }
        other => panic!("unexpected operation {:?}", other),
    }
}

#[test]
fn scenario_actor_and_link_both_accepted() {
    let m = HostManifest {
        actors: vec!["ref-A".to_string()],
        capabilities: vec![],
        links: vec![link("ref-A", "ref-P", None)],
    };
    let outcomes = apply_with_replies(HOST, &m, &vec![accepted(), accepted()]);
    assert_eq!(
        outcomes,
        vec![
            OperationOutcome {
                kind: OperationKind::StartActor,
                description: "ref-A".to_string(),
                accepted: true,
                error: None,
            },
            OperationOutcome {
                kind: OperationKind::PutLink,
                description: "ref-A -> ref-P".to_string(),
                accepted: true,
                error: None,
            },
        ]
    );
    let ops = plan(HOST, &m);
    assert_eq!(
        ops[1],
        Operation::PutLink {
            actor: "ref-A".to_string(),
            provider_id: "ref-P".to_string(),
            contract_id: "wasmcloud:provider".to_string(),
            link_name: "default".to_string(),
            values: vec![],
        }
    );
}

#[test]
fn failing_actor_does_not_stop_the_link() {
    let m = HostManifest {
        actors: vec!["ref-A".to_string()],
        capabilities: vec![],
        links: vec![link("ref-A", "ref-P", None)],
    };
    let replies = vec![Reply::Failed("timed out".to_string()), accepted()];
    let outcomes = apply_with_replies(HOST, &m, &replies);
    assert_eq!(outcomes.len(), 2);
    assert_eq!(outcomes[0].kind, OperationKind::StartActor);
    assert!(!outcomes[0].accepted);
    assert_eq!(outcomes[0].error, Some("timed out".to_string()));
    assert_eq!(outcomes[1].kind, OperationKind::PutLink);
    assert!(outcomes[1].accepted);
    assert_eq!(outcomes[1].error, None);
    let lines = report_with_replies(HOST, &m, &replies);
    assert_eq!(
        lines,
        vec![
            "Failed to send start actor: timed out".to_string(),
            "Link def submission from ref-A to ref-P acknowledged.".to_string(),
        ]
    );
}

#[test]
fn declined_items_are_recorded_and_the_batch_goes_on() {
    let m = sample();
    let replies = vec![
        accepted(),
        declined("no such image"),
        Reply::Failed("no responders".to_string()),
        declined("already running"),
        Reply::Failed("bus closed".to_string()),
        Reply::Answered(Acknowledgement { accepted: false, error: None }),
    ];
    let outcomes = apply_with_replies(HOST, &m, &replies);
    let described: Vec<&str> = outcomes.iter().map(|o| o.description.as_str()).collect();
    assert_eq!(described, vec!["actor-1", "actor-2", "cap-1", "cap-2", "MA -> VP", "MB -> VQ"]);
    let accepted_flags: Vec<bool> = outcomes.iter().map(|o| o.accepted).collect();
    assert_eq!(accepted_flags, vec![true, false, false, false, false, false]);
    assert_eq!(outcomes[1].error, Some("no such image".to_string()));
    assert_eq!(outcomes[5].error, Some(String::new()));
    let lines = report_with_replies(HOST, &m, &replies);
    assert_eq!(
        lines,
        vec![
            "Instruction to start actor actor-1 acknowledged.".to_string(),
            "Instruction to start actor actor-2 not acked: no such image".to_string(),
            "Failed to send start capability message: no responders".to_string(),
            "Instruction to start provider cap-2 not acked: already running".to_string(),
            "Failed to send link def: bus closed".to_string(),
            "Link def submission from MB to VQ not acked: ".to_string(),
        ]
    );
}

#[test]
fn order_is_the_same_whatever_the_replies() {
    let m = sample();
    let all_ok: Vec<Reply> = (0..6).map(|_| accepted()).collect();
    let all_bad: Vec<Reply> = (0..6).map(|_| Reply::Failed("down".to_string())).collect();
    let a = apply_with_replies(HOST, &m, &all_ok);
    let b = apply_with_replies(HOST, &m, &all_bad);
    assert_eq!(a.len(), 6);
    assert_eq!(b.len(), 6);
    for i in 0..6 {
        assert_eq!(a[i].kind, b[i].kind);
        assert_eq!(a[i].description, b[i].description);
    }
}

#[test]
fn walk_hands_out_one_operation_at_a_time() {
    let m = sample();
    let ops = plan(HOST, &m);
    let mut o = Orchestrator::new(HOST, &m);
    let mut issued = Vec::new();
    let mut turn = 0;
    while let Some(op) = o.pending() {
        issued.push(op.clone());
        let reply = if turn % 2 == 0 { Reply::Failed("down".to_string()) } else { accepted() };
        assert!(o.record(&reply));
        turn += 1;
    }
    assert_eq!(issued, ops);
    assert!(o.is_done());
    assert!(!o.record(&accepted()));
    assert_eq!(o.outcomes().len(), 6);
    let (outcomes, lines) = o.finish();
    assert_eq!(outcomes.len(), 6);
    assert_eq!(lines.len(), 6);
    assert_eq!(lines[0], "Failed to send start actor: down");
    assert_eq!(lines[1], "Instruction to start actor actor-2 acknowledged.");
}

#[test]
fn fewer_replies_than_items_stop_the_walk_early() {
    let m = sample();
    let o = run(HOST, &m, &vec![accepted(), accepted()]);
    assert!(!o.is_done());
    assert_eq!(o.outcomes().len(), 2);
    match o.pending() {
        Some(Operation::StartProvider { image_ref, .. }) => assert_eq!(image_ref, "cap-1"),
        other => panic!("unexpected pending operation {:?}", other),
    }
}

#[test]
fn outcome_and_report_of_single_operations() {
    let op = Operation::StartProvider {
        host_id: HOST.to_string(),
        image_ref: "img".to_string(),
        link_name: None,
    };
    assert_eq!(op.kind(), OperationKind::StartProvider);
    assert_eq!(op.description(), "img");
    assert_eq!(op.report(&accepted()), "Instruction to start provider img acknowledged.");
    let o = op.outcome(&declined("full"));
    assert!(!o.accepted);
    assert_eq!(o.error, Some("full".to_string()));
    assert_eq!(accepted().failure(), None);
    assert!(accepted().accepted());
    assert_eq!(declined("x").failure(), Some("x".to_string()));
    assert_eq!(Reply::Failed("t".to_string()).failure(), Some("t".to_string()));
    assert!(!Reply::Failed("t".to_string()).accepted());
}
