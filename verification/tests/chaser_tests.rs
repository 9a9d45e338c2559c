use license_chaser::aggregate::SelectionCriterion;
use license_chaser::chaser::{Chaser, ChaserEvent, ChaserState, should_launch};
use license_chaser::response::{License, Product, ResponseEnvelope};
use license_chaser::version::HoudiniVersion;

fn criterion() -> SelectionCriterion {
    SelectionCriterion { product: Product::HoudiniCore, required_major: 20 }
}

fn envelope_with_count(available: i32) -> ResponseEnvelope {
    ResponseEnvelope {
        licenses: vec![License {
            id: String::from("1"),
            platform: String::from("linux"),
            product: String::from("houdini"),
            product_id: Product::HoudiniCore,
            version: HoudiniVersion { major: 20, minor: 5 },
            available,
            total_tokens: 10,
            expires: String::from("2030-01-01"),
            ip_mask: String::from("*.*.*.*"),
            ipmatch: false,
            servers: String::from("localhost"),
            signature: String::from("sig"),
            license_access_mode: String::from("open"),
        }],
    }
}

#[test]
fn launch_rule_truth_table() {
    assert!(should_launch(false, true, 1));
    assert!(should_launch(false, true, 100));
    assert!(!should_launch(false, true, 0));
    assert!(!should_launch(false, true, -1));
    assert!(!should_launch(false, false, 5));
    assert!(!should_launch(true, true, 5));
}

#[test]
fn started_emitted_once_before_any_request() {
    let mut chaser = Chaser::new();
    assert_eq!(chaser.state, ChaserState::Starting);
    let events = chaser.begin();
    assert_eq!(events.len(), 1);
    assert!(matches!(events[0], ChaserEvent::Started));
    assert_eq!(chaser.state, ChaserState::Polling);
    // Beginning again emits nothing: Started is once per subscription.
    let again = chaser.begin();
    assert!(again.is_empty());
    assert_eq!(chaser.state, ChaserState::Polling);
}

#[test]
fn three_cycles_emit_started_responded_errored_responded() {
    // Outcomes success, failure, success; launching disabled so polling
    // continues.  Sleep waits emit nothing of their own.
    let mut chaser = Chaser::new();
    let mut all: Vec<ChaserEvent> = Vec::new();
    all.extend(chaser.begin());
    all.extend(chaser.interpret(Ok(envelope_with_count(3)), &criterion(), false));
    all.extend(chaser.wake());
    all.extend(chaser.interpret(Err(String::from("connection refused")), &criterion(), false));
    all.extend(chaser.wake());
    all.extend(chaser.interpret(Ok(envelope_with_count(4)), &criterion(), false));
    assert_eq!(all.len(), 4);
    assert!(matches!(all[0], ChaserEvent::Started));
    assert!(matches!(all[1], ChaserEvent::Responded(3, _)));
    assert!(matches!(all[2], ChaserEvent::Errored(ref cause) if cause == "connection refused"));
    assert!(matches!(all[3], ChaserEvent::Responded(4, _)));
    assert_eq!(chaser.state, ChaserState::Sleeping);
}

#[test]
fn failure_sleeps_instead_of_shortcutting() {
    let mut chaser = Chaser::new();
    chaser.begin();
    let events = chaser.interpret(Err(String::from("timeout")), &criterion(), true);
    assert_eq!(events.len(), 1);
    assert!(matches!(events[0], ChaserEvent::Errored(_)));
    assert_eq!(chaser.state, ChaserState::Sleeping);
}

#[test]
fn no_events_after_stop_even_for_in_flight_response() {
    let mut chaser = Chaser::new();
    chaser.begin();
    chaser.stop();
    assert_eq!(chaser.state, ChaserState::Suspended);
    // The response for the request that was in flight arrives now.
    let events = chaser.interpret(Ok(envelope_with_count(50)), &criterion(), true);
    assert!(events.is_empty());
    assert_eq!(chaser.state, ChaserState::Suspended);
    assert!(chaser.wake().is_empty());
    assert!(chaser.begin().is_empty());
    assert_eq!(chaser.state, ChaserState::Suspended);
}

#[test]
fn launch_fires_exactly_once_then_suspends() {
    // Aggregated counts 0, 0, 5, 5 across four cycles with launching
    // enabled: the third fires the launch, the fourth never runs.
    let mut chaser = Chaser::new();
    chaser.begin();
    let e1 = chaser.interpret(Ok(envelope_with_count(0)), &criterion(), true);
    assert_eq!(e1.len(), 1);
    assert!(matches!(e1[0], ChaserEvent::Responded(0, _)));
    chaser.wake();
    let e2 = chaser.interpret(Ok(envelope_with_count(0)), &criterion(), true);
    assert_eq!(e2.len(), 1);
    chaser.wake();
    let e3 = chaser.interpret(Ok(envelope_with_count(5)), &criterion(), true);
    assert_eq!(e3.len(), 2);
    assert!(matches!(e3[0], ChaserEvent::Responded(5, _)));
    assert!(matches!(e3[1], ChaserEvent::LaunchRequested(Product::HoudiniCore)));
    assert_eq!(chaser.state, ChaserState::Suspended);
    assert!(chaser.launched);
    // The fourth cycle's count of 5 is never observed.
    assert!(chaser.wake().is_empty());
    let e4 = chaser.interpret(Ok(envelope_with_count(5)), &criterion(), true);
    assert!(e4.is_empty());
    assert_eq!(chaser.state, ChaserState::Suspended);
}

#[test]
fn no_launch_when_disabled_whatever_the_count() {
    let mut chaser = Chaser::new();
    chaser.begin();
    for count in [0, 1, 5, 1000] {
        let events = chaser.interpret(Ok(envelope_with_count(count)), &criterion(), false);
        assert!(events.iter().all(|e| !matches!(e, ChaserEvent::LaunchRequested(_))));
        chaser.wake();
    }
    assert_eq!(chaser.state, ChaserState::Polling);
}

#[test]
fn launch_names_the_criterion_product() {
    let mut chaser = Chaser::new();
    chaser.begin();
    let crit = SelectionCriterion { product: Product::HoudiniFx, required_major: 19 };
    let env = ResponseEnvelope {
        licenses: vec![License {
            id: String::from("1"),
            platform: String::from("windows"),
            product: String::from("houdini"),
            product_id: Product::HoudiniFx,
            version: HoudiniVersion { major: 19, minor: 5 },
            available: 2,
            total_tokens: 2,
            expires: String::from("2030-01-01"),
            ip_mask: String::from("*.*.*.*"),
            ipmatch: true,
            servers: String::from("srv"),
            signature: String::from("sig"),
            license_access_mode: String::from("open"),
        }],
    };
    let events = chaser.interpret(Ok(env), &crit, true);
    assert!(matches!(events[1], ChaserEvent::LaunchRequested(Product::HoudiniFx)));
}

#[test]
fn restart_rearms_the_one_shot_launch() {
    let mut chaser = Chaser::new();
    chaser.begin();
    chaser.interpret(Ok(envelope_with_count(5)), &criterion(), true);
    assert_eq!(chaser.state, ChaserState::Suspended);
    assert!(chaser.launched);
    chaser.restart();
    assert_eq!(chaser.state, ChaserState::Starting);
    assert!(!chaser.launched);
    let events = chaser.begin();
    assert!(matches!(events[0], ChaserEvent::Started));
}

#[test]
fn interpret_response_parses_a_real_body() {
    let mut chaser = Chaser::new();
    chaser.begin();
    let body = String::from(
        "{\"licenses\":[{\"id\":\"7\",\"platform\":\"linux\",\"product\":\"Houdini\",\
         \"product_id\":\"Houdini-Escape\",\"version\":\"20.5\",\"available\":6,\
         \"total_tokens\":10,\"expires\":\"2030-01-01\",\"ip_mask\":\"*.*.*.*\",\
         \"ipmatch\":false,\"servers\":\"localhost\",\"signature\":\"sig\",\
         \"license_access_mode\":\"open\"}]}",
    );
    let events = chaser.interpret_response(Ok(body), &criterion(), false);
    assert_eq!(events.len(), 1);
    match &events[0] {
        ChaserEvent::Responded(count, env) => {
            assert_eq!(*count, 6);
            assert_eq!(env.licenses.len(), 1);
        }
        other => panic!("expected Responded, got {:?}", other),
    }
    assert_eq!(chaser.state, ChaserState::Sleeping);
}

#[test]
fn interpret_response_can_fire_the_launch() {
    let mut chaser = Chaser::new();
    chaser.begin();
    let body = String::from(
        "{\"licenses\":[{\"id\":\"7\",\"platform\":\"linux\",\"product\":\"Houdini\",\
         \"product_id\":\"Houdini-Escape\",\"version\":\"20.5\",\"available\":2,\
         \"total_tokens\":10,\"expires\":\"2030-01-01\",\"ip_mask\":\"*.*.*.*\",\
         \"ipmatch\":false,\"servers\":\"localhost\",\"signature\":\"sig\",\
         \"license_access_mode\":\"open\"}]}",
    );
    let events = chaser.interpret_response(Ok(body), &criterion(), true);
    assert_eq!(events.len(), 2);
    assert!(matches!(events[0], ChaserEvent::Responded(2, _)));
    assert!(matches!(events[1], ChaserEvent::LaunchRequested(Product::HoudiniCore)));
    assert_eq!(chaser.state, ChaserState::Suspended);
}

#[test]
fn interpret_response_reports_transport_and_parse_failures() {
    let mut chaser = Chaser::new();
    chaser.begin();
    let events = chaser.interpret_response(Err(String::from("no route to host")), &criterion(), true);
    assert!(matches!(events[0], ChaserEvent::Errored(ref cause) if cause == "no route to host"));
    chaser.wake();
    let events = chaser.interpret_response(Ok(String::from("not json at all")), &criterion(), true);
    assert!(matches!(events[0], ChaserEvent::Errored(ref cause) if cause == "response is not valid JSON"));
    assert_eq!(chaser.state, ChaserState::Sleeping);
}
