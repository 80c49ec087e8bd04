use axon_drug_injector::registry::{DialRole, PeerAddress, Registry};
use axon_drug_injector::result::Error;
use axon_drug_injector::scheduler::{
    dial_round, free_slots, next_action, sample_bootstraps, unconnected_bootstraps, DialLimits,
    IdentifyPlan, LoopAction, LoopEvent, Scheduler, FEELER_COUNT,
};

fn addr(a: &str, id: &str) -> PeerAddress {
    PeerAddress::new(a.to_string(), Some(id.to_string()))
}

fn bare(a: &str) -> PeerAddress {
    PeerAddress::new(a.to_string(), None)
}

#[test]
fn free_slots_subtracts_limit_and_inbound() {
    assert_eq!(free_slots(40, 20, 5), 15);
    assert_eq!(free_slots(40, 20, 20), 0);
    assert_eq!(free_slots(40, 20, 25), 0);
    assert_eq!(free_slots(10, 30, 0), 0);
}

#[test]
fn identify_dial_of_connected_peer_is_refused() {
    let mut reg = Registry::new();
    assert!(reg.add_peer("QmA".to_string(), false));
    let r = reg.dial(&addr("/ip4/1.1.1.1/tcp/1/p2p/QmA", "QmA"), DialRole::Identify);
    assert_eq!(r, Ok(false));
    assert!(!reg.is_dialing(&"/ip4/1.1.1.1/tcp/1/p2p/QmA".to_string()));
    let f = reg.dial(&addr("/ip4/1.1.1.1/tcp/1/p2p/QmA", "QmA"), DialRole::Feeler);
    assert_eq!(f, Ok(false));
    assert!(!reg.is_feeler(&"/ip4/1.1.1.1/tcp/1/p2p/QmA".to_string()));
}

#[test]
fn second_reservation_of_an_address_fails() {
    let a = addr("/ip4/2.2.2.2/tcp/1/p2p/QmB", "QmB");
    let mut reg = Registry::new();
    assert_eq!(reg.dial(&a, DialRole::Identify), Ok(true));
    assert_eq!(reg.dial(&a, DialRole::Identify), Ok(false));
    assert_eq!(reg.dial(&a, DialRole::Feeler), Ok(false));
    assert!(reg.is_dialing(&a.addr));
    assert!(!reg.is_feeler(&a.addr));

    let mut reg2 = Registry::new();
    assert_eq!(reg2.dial(&a, DialRole::Feeler), Ok(true));
    assert_eq!(reg2.dial(&a, DialRole::Identify), Ok(false));
    assert_eq!(reg2.dial(&a, DialRole::Feeler), Ok(false));
    assert!(reg2.is_feeler(&a.addr));
    assert!(!reg2.is_dialing(&a.addr));
}

#[test]
fn address_without_identity_is_an_error() {
    let mut reg = Registry::new();
    let r = reg.dial(&bare("/ip4/3.3.3.3/tcp/1"), DialRole::Identify);
    assert_eq!(r, Err(Error::Network("/ip4/3.3.3.3/tcp/1".to_string())));
    assert!(!reg.is_dialing(&"/ip4/3.3.3.3/tcp/1".to_string()));
}

#[test]
fn connection_status_counts_directions() {
    let mut reg = Registry::new();
    assert!(reg.add_peer("a".to_string(), true));
    assert!(reg.add_peer("b".to_string(), false));
    assert!(reg.add_peer("c".to_string(), true));
    assert!(!reg.add_peer("a".to_string(), false));
    let s = reg.connection_status();
    assert_eq!(s.inbound, 2);
    assert_eq!(s.outbound, 1);
}

#[test]
fn no_free_slot_resets_counter_and_dials_nothing() {
    let mut reg = Registry::new();
    assert!(reg.add_peer("in1".to_string(), true));
    assert!(reg.add_peer("in2".to_string(), true));
    let limits = DialLimits { max_connections: 4, inbound_conn_limit: 2 };
    let boots = vec![addr("/b/1/p2p/B1", "B1")];
    let mut s = Scheduler::new();
    let open = DialLimits { max_connections: 10, inbound_conn_limit: 2 };
    let _ = s.plan_identify_round(&reg, &open, &boots);
    assert_eq!(s.rounds(), 1);
    let plan = s.plan_identify_round(&reg, &limits, &boots);
    assert!(matches!(plan, IdentifyPlan::Idle));
    assert_eq!(s.rounds(), 0);
    assert_eq!(plan.store_count(), 0);
    let targets = plan.targets(vec![addr("/s/1/p2p/S1", "S1")]);
    assert!(targets.is_empty());
    let dialed = dial_round(&mut reg, &targets, DialRole::Identify);
    assert!(dialed.is_empty());
}

#[test]
fn fourth_round_prefers_bootstraps() {
    let reg = Registry::new();
    let limits = DialLimits { max_connections: 10, inbound_conn_limit: 2 };
    let boots = vec![addr("/b/1/p2p/B1", "B1"), addr("/b/2/p2p/B2", "B2")];
    let mut s = Scheduler::new();
    for round in 1..4u8 {
        let plan = s.plan_identify_round(&reg, &limits, &boots);
        assert!(matches!(plan, IdentifyPlan::FromStore { count: 8 }));
        assert_eq!(s.rounds(), round);
    }
    let plan = s.plan_identify_round(&reg, &limits, &boots);
    assert_eq!(s.rounds(), 0);
    match &plan {
        IdentifyPlan::StoreThenBootstraps { store_count, bootstraps } => {
            assert_eq!(*store_count, 6);
            assert_eq!(bootstraps.len(), 2);
        }
        _ => panic!("the fourth round must prefer the bootstraps"),
    }
    assert_eq!(plan.store_count(), 6);
    let targets = plan.targets(vec![addr("/s/1/p2p/S1", "S1")]);
    let got: Vec<&str> = targets.iter().map(|t| t.addr.as_str()).collect();
    assert_eq!(got, vec!["/s/1/p2p/S1", "/b/1/p2p/B1", "/b/2/p2p/B2"]);
}

#[test]
fn enough_bootstraps_are_sampled_to_slot_count() {
    let mut reg = Registry::new();
    assert!(reg.add_peer("B0".to_string(), false));
    let limits = DialLimits { max_connections: 5, inbound_conn_limit: 2 };
    let boots: Vec<PeerAddress> = (0..8)
        .map(|i| addr(&format!("/b/{i}/p2p/B{i}"), &format!("B{i}")))
        .collect();
    let mut s = Scheduler::new();
    for _ in 0..3 {
        let _ = s.plan_identify_round(&reg, &limits, &boots);
    }
    let plan = s.plan_identify_round(&reg, &limits, &boots);
    assert_eq!(s.rounds(), 0);
    let targets = plan.targets(Vec::new());
    assert_eq!(targets.len(), 3);
    let mut seen: Vec<String> = targets.iter().map(|t| t.addr.clone()).collect();
    seen.sort();
    seen.dedup();
    assert_eq!(seen.len(), 3);
    assert!(targets.iter().all(|t| t.addr != "/b/0/p2p/B0"));
    assert!(targets.iter().all(|t| boots.iter().any(|b| b.addr == t.addr)));
}

#[test]
fn sample_draws_distinct_entries() {
    let boots: Vec<PeerAddress> = (0..5)
        .map(|i| addr(&format!("/x/{i}"), &format!("X{i}")))
        .collect();
    let picked = sample_bootstraps(&boots, 5);
    let mut names: Vec<String> = picked.iter().map(|p| p.addr.clone()).collect();
    names.sort();
    assert_eq!(names, vec!["/x/0", "/x/1", "/x/2", "/x/3", "/x/4"]);
    assert!(sample_bootstraps(&boots, 0).is_empty());
}

#[test]
fn unconnected_bootstraps_skip_connected_and_unnamed() {
    let mut reg = Registry::new();
    assert!(reg.add_peer("B2".to_string(), true));
    let boots = vec![addr("/b/1", "B1"), addr("/b/2", "B2"), bare("/b/3"), addr("/b/4", "B4")];
    let left = unconnected_bootstraps(&reg, &boots);
    let got: Vec<&str> = left.iter().map(|t| t.addr.as_str()).collect();
    assert_eq!(got, vec!["/b/1", "/b/4"]);
}

#[test]
fn dial_round_reserves_each_address_once() {
    let mut reg = Registry::new();
    assert!(reg.add_peer("C".to_string(), false));
    let targets = vec![
        addr("/a", "A"),
        bare("/nobody"),
        addr("/a", "A"),
        addr("/c", "C"),
        addr("/d", "D"),
    ];
    let dialed = dial_round(&mut reg, &targets, DialRole::Identify);
    let got: Vec<&str> = dialed.iter().map(|t| t.addr.as_str()).collect();
    assert_eq!(got, vec!["/a", "/d"]);
    let feelers = dial_round(&mut reg, &vec![addr("/a", "A"), addr("/e", "E")], DialRole::Feeler);
    let got: Vec<&str> = feelers.iter().map(|t| t.addr.as_str()).collect();
    assert_eq!(got, vec!["/e"]);
    assert!(reg.is_feeler(&"/e".to_string()));
    assert_eq!(FEELER_COUNT, 10);
}

#[test]
fn failed_dump_keeps_the_loop_running() {
    let warn = next_action(LoopEvent::DumpDone(Err("permission denied".to_string())));
    assert_eq!(warn, LoopAction::Warn("permission denied".to_string()));
    assert_eq!(next_action(LoopEvent::DialTick), LoopAction::RunRounds);
    assert_eq!(next_action(LoopEvent::DumpTick), LoopAction::Dump);
    assert_eq!(next_action(LoopEvent::DumpDone(Ok(()))), LoopAction::Wait);
    assert_eq!(next_action(LoopEvent::Closed), LoopAction::Shutdown);
}

#[test]
fn recorded_addresses_block_reservation() {
    let mut reg = Registry::new();
    assert!(reg.record(&"/r".to_string(), DialRole::Identify));
    assert!(!reg.record(&"/r".to_string(), DialRole::Feeler));
    assert_eq!(reg.dial(&addr("/r", "R"), DialRole::Feeler), Ok(false));
    assert!(reg.record(&"/f".to_string(), DialRole::Feeler));
    assert_eq!(reg.dial(&addr("/f", "F"), DialRole::Identify), Ok(false));
}
