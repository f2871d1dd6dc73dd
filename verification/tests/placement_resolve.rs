use std::cell::Cell;
use wash_ctl::id::{IdError, IdKind};
use wash_ctl::manifest::{Label, Operation};
use wash_ctl::placement::{
    after_auction, auction_window_ms, begin_start, choose_host, conclude, first_step,
    resolve_host, start_operation, start_timeout_ms, AuctionRequest,
    AuctionResponse, PlacementError, PlacementRequest, PlacementStep, StartStep, WorkloadKind,
};

fn arch() -> Vec<Label> {
    vec![Label { key: "arch".to_string(), value: "x86_64".to_string() }]
}

fn request(kind: WorkloadKind, host: Option<&str>, window: Option<u64>) -> PlacementRequest {
    PlacementRequest {
        kind,
        explicit_host: host.map(|h| h.to_string()),
        workload_ref: "wasmcloud.azurecr.io/actor:v1".to_string(),
        link_name: None,
        constraints: arch(),
        auction_window_ms: window,
    }
}

const H1: &str = "NAAAAAAAAAAAAAAAAAAAAAAAAAAAAAAAAAAAAAAAAAAAAAAAAAAAAAA1";
const H2: &str = "NAAAAAAAAAAAAAAAAAAAAAAAAAAAAAAAAAAAAAAAAAAAAAAAAAAAAAA2";
const H3: &str = "NAAAAAAAAAAAAAAAAAAAAAAAAAAAAAAAAAAAAAAAAAAAAAAAAAAAAAA3";
const ACTOR_KEY: &str = "MDPDJEYIAK6MACO67PRFGOSSLODBISK4SCEYDY3HEOY4P5CVJN6UCWUK";

fn answer(host: &str) -> AuctionResponse {
    AuctionResponse { host_id: host.to_string(), metadata: vec![] }
}

#[test]
fn explicit_host_is_returned_and_no_auction_is_held() {
    let calls = Cell::new(0);
    let r = resolve_host(&request(WorkloadKind::Actor, Some("H0"), None), |_a| {
        calls.set(calls.get() + 1);
        Ok(vec![answer(H1)])
    });
    assert_eq!(r, Ok("H0".to_string()));
    assert_eq!(calls.get(), 0);
    assert_eq!(
        first_step(&request(WorkloadKind::Provider, Some("H0"), Some(7))),
        PlacementStep::Resolved("H0".to_string())
    );
}

#[test]
fn scenario_first_of_two_answers_wins() {
    let seen: Cell<Option<AuctionRequest>> = Cell::new(None);
    let r = resolve_host(&request(WorkloadKind::Actor, None, Some(50)), |a| {
        seen.set(Some(a));
        Ok(vec![answer(H1), answer(H2)])
    });
    assert_eq!(r, Ok(H1.to_string()));
    let a = seen.take().expect("the auction was held");
    assert_eq!(a.kind, WorkloadKind::Actor);
    assert_eq!(a.workload_ref, "wasmcloud.azurecr.io/actor:v1");
    assert_eq!(a.constraints, arch());
    assert_eq!(a.window_ms, 50);
}

#[test]
fn scenario_no_answer_is_no_suitable_host() {
    let r = resolve_host(&request(WorkloadKind::Actor, None, Some(10)), |_a| Ok(vec![]));
    assert_eq!(
        r,
        Err(PlacementError::NoSuitableHost {
            kind: WorkloadKind::Actor,
            workload_ref: "wasmcloud.azurecr.io/actor:v1".to_string(),
        })
    );
    assert_eq!(
        r.unwrap_err().message(),
        "No suitable hosts found for actor wasmcloud.azurecr.io/actor:v1"
    );
    let step = after_auction(&request(WorkloadKind::Actor, None, Some(10)), &Ok(vec![]));
    assert!(matches!(step, StartStep::Failed(PlacementError::NoSuitableHost { .. })));
}

#[test]
fn choose_host_takes_the_first_answer() {
    assert_eq!(
        choose_host(WorkloadKind::Provider, "p", &vec![answer(H2), answer(H1), answer(H3)]),
        Ok(H2.to_string())
    );
    assert_eq!(choose_host(WorkloadKind::Provider, "p", &vec![answer(H3)]), Ok(H3.to_string()));
    let none = choose_host(WorkloadKind::Provider, "p", &vec![]);
    assert_eq!(
        none,
        Err(PlacementError::NoSuitableHost {
            kind: WorkloadKind::Provider,
            workload_ref: "p".to_string()
        })
    );
    assert_eq!(none.unwrap_err().message(), "No suitable hosts found for provider p");
}

#[test]
fn failed_auction_is_a_transport_error() {
    let r = conclude(WorkloadKind::Actor, "a", &Err("timed out".to_string()));
    assert_eq!(r, Err(PlacementError::Transport("timed out".to_string())));
    assert_eq!(r.unwrap_err().message(), "timed out");
    assert_eq!(conclude(WorkloadKind::Actor, "a", &Ok(vec![answer(H1)])), Ok(H1.to_string()));
}

#[test]
fn windows_and_timeouts_default_by_kind() {
    assert_eq!(auction_window_ms(WorkloadKind::Actor, None), 2000);
    assert_eq!(auction_window_ms(WorkloadKind::Provider, None), 5000);
    assert_eq!(auction_window_ms(WorkloadKind::Actor, Some(50)), 50);
    assert_eq!(auction_window_ms(WorkloadKind::Provider, Some(0)), 0);
    assert_eq!(start_timeout_ms(WorkloadKind::Actor, None), 15000);
    assert_eq!(start_timeout_ms(WorkloadKind::Provider, None), 60000);
    assert_eq!(start_timeout_ms(WorkloadKind::Provider, Some(1)), 1);
}

#[test]
fn auction_carries_reference_constraints_and_window() {
    let mut req = request(WorkloadKind::Provider, None, None);
    req.link_name = Some("default".to_string());
    match first_step(&req) {
        PlacementStep::Auction(a) => {
            assert_eq!(a.kind, WorkloadKind::Provider);
            assert_eq!(a.workload_ref, req.workload_ref);
            assert_eq!(a.link_name, Some("default".to_string()));
            assert_eq!(a.constraints, arch());
            assert_eq!(a.window_ms, 5000);
        }
        other => panic!("unexpected step {:?}", other),
    }
}

#[test]
fn start_follows_the_kind() {
    let mut req = request(WorkloadKind::Actor, None, None);
    assert_eq!(
        start_operation(&req, "H1"),
        Operation::StartActor { host_id: "H1".to_string(), actor_ref: req.workload_ref.clone() }
    );
    req.kind = WorkloadKind::Provider;
    req.link_name = Some("default".to_string());
    assert_eq!(
        start_operation(&req, "H1"),
        Operation::StartProvider {
            host_id: "H1".to_string(),
            image_ref: req.workload_ref.clone(),
            link_name: Some("default".to_string()),
        }
    );
}

#[test]
fn start_goes_through_the_auction_only_without_a_host() {
    let named = request(WorkloadKind::Actor, Some("H0"), Some(50));
    assert_eq!(
        begin_start(&named),
        StartStep::Send(Operation::StartActor {
            host_id: "H0".to_string(),
            actor_ref: named.workload_ref.clone(),
        })
    );
    let open = request(WorkloadKind::Actor, None, Some(50));
    match begin_start(&open) {
        StartStep::Auction(a) => {
            assert_eq!(a.window_ms, 50);
            assert_eq!(a.constraints, arch());
        }
        other => panic!("unexpected step {:?}", other),
    }
    assert_eq!(
        after_auction(&open, &Ok(vec![answer(H1), answer(H2)])),
        StartStep::Send(Operation::StartActor {
            host_id: H1.to_string(),
            actor_ref: open.workload_ref.clone(),
        })
    );
    assert_eq!(
        after_auction(&open, &Ok(vec![])),
        StartStep::Failed(PlacementError::NoSuitableHost {
            kind: WorkloadKind::Actor,
            workload_ref: open.workload_ref.clone(),
        })
    );
    assert_eq!(
        after_auction(&open, &Err("bus closed".to_string())),
        StartStep::Failed(PlacementError::Transport("bus closed".to_string()))
    );
}

#[test]
fn malformed_first_answer_fails_the_placement() {
    let short = choose_host(WorkloadKind::Actor, "a", &vec![answer("H1"), answer(H2)]);
    assert_eq!(
        short,
        Err(PlacementError::MalformedHost {
            host_id: "H1".to_string(),
            reason: IdError::WrongLength { field: "host_id".to_string(), found: 2 },
        })
    );
    assert_eq!(
        short.unwrap_err().message(),
        "Malformed host id H1 in the auction's answer: host_id: a key has 56 characters"
    );
    let wrong = conclude(WorkloadKind::Provider, "p", &Ok(vec![answer(ACTOR_KEY), answer(H1)]));
    assert_eq!(
        wrong,
        Err(PlacementError::MalformedHost {
            host_id: ACTOR_KEY.to_string(),
            reason: IdError::WrongPrefix { field: "host_id".to_string(), kind: IdKind::Host },
        })
    );
    let open = request(WorkloadKind::Provider, None, None);
    let step = after_auction(&open, &Ok(vec![answer("not a key"), answer(H1)]));
    assert!(matches!(step, StartStep::Failed(PlacementError::MalformedHost { .. })));
    let r = resolve_host(&open, |_a| Ok(vec![answer(""), answer(H1)]));
    assert!(matches!(r, Err(PlacementError::MalformedHost { .. })));
    assert_eq!(choose_host(WorkloadKind::Actor, "a", &vec![answer(H2), answer("x")]), Ok(H2.to_string()));
}
