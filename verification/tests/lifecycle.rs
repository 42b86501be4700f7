//! End-to-end scenarios of the whitelist request lifecycle.

use breeze::config::{Config, Server, WhitelistConfig};
use breeze::coordinator::{
    after_dispatch, after_probe, Coordinator, Decision, DecisionEvent, Outcome, ProbeResult,
    ProbeStep, Step,
};
use breeze::store::{RequestStore, WhitelistRequest};

fn server(id: &str, name: &str, container_id: &str) -> Server {
    Server {
        name: name.to_string(),
        id: id.to_string(),
        container_id: container_id.to_string(),
        address: "localhost".to_string(),
        query_port: 25565,
        rcon_port: 25575,
        rcon_password: "secret".to_string(),
    }
}

fn config() -> Config {
    Config {
        whitelist: WhitelistConfig {
            allow_admin: true,
            allowed_roles: vec![100, 200],
            ping_roles: vec![300],
            request_channel: 1,
            send_approval_dm: true,
            send_denial_dm: false,
        },
        servers: vec![server("s1", "Main", "c1"), server("s2", "Creative", "c2")],
    }
}

fn request(id: &str, server_id: &str, discord_id: &str, player: &str) -> WhitelistRequest {
    WhitelistRequest {
        id: id.to_string(),
        server_id: server_id.to_string(),
        discord_id: discord_id.to_string(),
        minecraft_username: player.to_string(),
        created_at: None,
    }
}

fn event(request_id: &str, decision: Decision, roles: Vec<u64>, is_admin: bool) -> DecisionEvent {
    DecisionEvent {
        request_id: request_id.to_string(),
        decision,
        acting_identity: "approver".to_string(),
        acting_roles: roles,
        is_admin,
    }
}

#[test]
fn approve_running_server_dispatches_and_clears() {
    let mut store = RequestStore::new();
    assert!(store.create(request("r1", "s1", "42", "Notch")).is_ok());
    let mut coordinator = Coordinator::new(config(), store);

    let step = coordinator.handle_decision(&event("r1", Decision::Approve, vec![100], false));
    let (claimed, target) = match step {
        Step::NeedProbe { request, server } => (request, server),
        Step::Done { .. } => panic!("expected a probe step"),
    };
    assert_eq!(claimed.minecraft_username, "Notch");
    assert_eq!(target.id, "s1");

    let probe_step = after_probe(&claimed, &target, ProbeResult::Running);
    match probe_step {
        ProbeStep::Dispatch { address, port, password, command } => {
            assert_eq!(address, "localhost");
            assert_eq!(port, 25575);
            assert_eq!(password, "secret");
            assert_eq!(command, "whitelist add Notch");
        }
        ProbeStep::Abort { .. } => panic!("expected a dispatch"),
    }
    assert_eq!(after_dispatch(true), Outcome::Approved);
    assert!(coordinator.store.fetch("r1").is_none());
}

#[test]
fn approve_stopped_server_aborts_without_dispatch() {
    let mut store = RequestStore::new();
    assert!(store.create(request("r2", "s2", "43", "Herobrine")).is_ok());
    let mut coordinator = Coordinator::new(config(), store);

    let step = coordinator.handle_decision(&event("r2", Decision::Approve, vec![200], false));
    let (claimed, target) = match step {
        Step::NeedProbe { request, server } => (request, server),
        Step::Done { .. } => panic!("expected a probe step"),
    };
    match after_probe(&claimed, &target, ProbeResult::NotRunning) {
        ProbeStep::Abort { outcome } => assert_eq!(outcome, Outcome::TargetNotRunning),
        ProbeStep::Dispatch { .. } => panic!("the dispatcher must not be invoked"),
    }
    assert!(coordinator.store.fetch("r2").is_none());
}

#[test]
fn probe_error_aborts_without_dispatch() {
    let claimed = request("r9", "s1", "44", "Steve");
    let target = server("s1", "Main", "c1");
    match after_probe(&claimed, &target, ProbeResult::ProbeError) {
        ProbeStep::Abort { outcome } => assert_eq!(outcome, Outcome::ActionFailed),
        ProbeStep::Dispatch { .. } => panic!("the dispatcher must not be invoked"),
    }
}

#[test]
fn unauthorized_actor_leaves_request_pending() {
    let mut store = RequestStore::new();
    assert!(store.create(request("r3", "s1", "44", "Steve")).is_ok());
    let mut coordinator = Coordinator::new(config(), store);

    let step = coordinator.handle_decision(&event("r3", Decision::Approve, vec![999], false));
    match step {
        Step::Done { outcome, request } => {
            assert_eq!(outcome, Outcome::Unauthorized);
            assert!(request.is_none());
        }
        Step::NeedProbe { .. } => panic!("an unauthorized actor must not claim"),
    }
    let still_there = coordinator.store.fetch("r3").expect("the record must survive");
    assert_eq!(still_there.minecraft_username, "Steve");
    assert_eq!(still_there.server_id, "s1");

    // A later authorized decision still succeeds.
    let step = coordinator.handle_decision(&event("r3", Decision::Deny, vec![100], false));
    match step {
        Step::Done { outcome, request } => {
            assert_eq!(outcome, Outcome::Denied);
            assert_eq!(request.expect("the claimed record rides along").id, "r3");
        }
        Step::NeedProbe { .. } => panic!("a denial needs no probe"),
    }
    assert!(coordinator.store.fetch("r3").is_none());
}

#[test]
fn admin_bypass_respects_policy_flag() {
    let mut store = RequestStore::new();
    assert!(store.create(request("r4", "s1", "45", "Alex")).is_ok());
    let mut cfg = config();
    cfg.whitelist.allow_admin = false;
    let mut coordinator = Coordinator::new(cfg, store);

    // An administrator without an allowed role is refused when the bypass is off.
    let step = coordinator.handle_decision(&event("r4", Decision::Deny, vec![], true));
    assert!(matches!(step, Step::Done { outcome: Outcome::Unauthorized, .. }));

    // With the bypass on, the same actor may decide.
    coordinator.config.whitelist.allow_admin = true;
    let step = coordinator.handle_decision(&event("r4", Decision::Deny, vec![], true));
    assert!(matches!(step, Step::Done { outcome: Outcome::Denied, .. }));
}

#[test]
fn deny_race_resolves_exactly_once() {
    let mut store = RequestStore::new();
    assert!(store.create(request("r5", "s1", "46", "Notch")).is_ok());
    let mut coordinator = Coordinator::new(config(), store);

    let first = coordinator.handle_decision(&event("r5", Decision::Deny, vec![100], false));
    let second = coordinator.handle_decision(&event("r5", Decision::Deny, vec![200], false));
    assert!(matches!(first, Step::Done { outcome: Outcome::Denied, .. }));
    assert!(matches!(
        second,
        Step::Done { outcome: Outcome::AlreadyResolvedOrMissing, request: None }
    ));
    assert!(coordinator.store.fetch("r5").is_none());
}

#[test]
fn racing_approvals_reach_dispatch_at_most_once() {
    let mut store = RequestStore::new();
    assert!(store.create(request("r6", "s1", "47", "Notch")).is_ok());
    let mut coordinator = Coordinator::new(config(), store);

    let first = coordinator.handle_decision(&event("r6", Decision::Approve, vec![100], false));
    let second = coordinator.handle_decision(&event("r6", Decision::Approve, vec![200], false));
    assert!(matches!(first, Step::NeedProbe { .. }));
    assert!(matches!(
        second,
        Step::Done { outcome: Outcome::AlreadyResolvedOrMissing, request: None }
    ));
}

#[test]
fn approve_unknown_server_loses_the_claim() {
    let mut store = RequestStore::new();
    assert!(store.create(request("r7", "ghost", "48", "Notch")).is_ok());
    let mut coordinator = Coordinator::new(config(), store);

    let step = coordinator.handle_decision(&event("r7", Decision::Approve, vec![100], false));
    match step {
        Step::Done { outcome, request } => {
            assert_eq!(outcome, Outcome::ServerUnavailable);
            assert_eq!(request.expect("the claimed record rides along").server_id, "ghost");
        }
        Step::NeedProbe { .. } => panic!("an unknown server cannot be probed"),
    }
    assert!(coordinator.store.fetch("r7").is_none());
}

#[test]
fn approve_command_disabled_server_loses_the_claim() {
    let mut store = RequestStore::new();
    assert!(store.create(request("r8", "s3", "49", "Notch")).is_ok());
    let mut cfg = config();
    cfg.servers.push(server("s3", "Vanilla", ""));
    let mut coordinator = Coordinator::new(cfg, store);

    let step = coordinator.handle_decision(&event("r8", Decision::Approve, vec![100], false));
    assert!(matches!(step, Step::Done { outcome: Outcome::ServerUnavailable, .. }));
    assert!(coordinator.store.fetch("r8").is_none());
}

#[test]
fn missing_request_is_terminal_without_action() {
    let store = RequestStore::new();
    let mut coordinator = Coordinator::new(config(), store);
    let step = coordinator.handle_decision(&event("nope", Decision::Approve, vec![100], false));
    assert!(matches!(
        step,
        Step::Done { outcome: Outcome::AlreadyResolvedOrMissing, request: None }
    ));
}

#[test]
fn failed_dispatch_classifies_as_action_failed() {
    assert_eq!(after_dispatch(false), Outcome::ActionFailed);
}
