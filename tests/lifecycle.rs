use easytier_ohrs::bridge::{
    collect_running_network, confirm_protection, finish_network_instance, init_protect_fn,
    is_running_network, new_bridge, protect_callback, protect_socket, run_network_instance,
    set_global_tun, stop_network_instance, stop_targets, NetworkBridge, ProtectStep, StartError,
    StartPlan, StopError,
};
use easytier_ohrs::ledger::ProtectedSockets;
use easytier_ohrs::status::{collect_network_infos, KeyValuePair};

const X: u128 = 0x550e8400_e29b_41d4_a716_446655440000;
const X_TEXT: &str = "550e8400-e29b-41d4-a716-446655440000";
const Y: u128 = 0x67e55044_10b1_426f_9247_bb680e5fe0c8;
const Y_TEXT: &str = "67e55044-10b1-426f-9247-bb680e5fe0c8";

fn start(b: &mut NetworkBridge<u32>, cfg_id: Option<u128>) -> Result<StartPlan, StartError> {
    let id = run_network_instance(b, cfg_id)?;
    finish_network_instance(b, id, true)
}

fn stop(b: &mut NetworkBridge<u32>, names: &[&str]) -> Result<(), StopError> {
    let names: Vec<String> = names.iter().map(|s| s.to_string()).collect();
    let ids = stop_targets(&names);
    stop_network_instance(b, &ids, true)
}

fn request(b: &mut NetworkBridge<u32>, fd: i32, invocations: &mut u32) -> bool {
    match protect_socket(b, fd) {
        ProtectStep::AlreadyProtected => true,
        ProtectStep::Unavailable => false,
        ProtectStep::Invoke => {
            *invocations += 1;
            confirm_protection(b, fd, true)
        }
    }
}

#[test]
fn start_while_running_is_refused() {
    let mut b: NetworkBridge<u32> = new_bridge();
    assert_eq!(run_network_instance(&b, Some(X)), Ok(X));
    assert!(start(&mut b, Some(X)).is_ok());
    assert_eq!(run_network_instance(&b, Some(Y)), Err(StartError::AlreadyRunning));
    assert_eq!(run_network_instance(&b, Some(X)), Err(StartError::AlreadyRunning));
    assert_eq!(finish_network_instance(&mut b, Y, true), Err(StartError::AlreadyRunning));
    assert_eq!(collect_running_network(&b), vec![X_TEXT.to_string()]);
}

#[test]
fn invalid_config_is_refused() {
    let b: NetworkBridge<u32> = new_bridge();
    assert_eq!(run_network_instance(&b, None), Err(StartError::InvalidConfig));
    assert!(collect_running_network(&b).is_empty());
}

#[test]
fn engine_failure_on_start_changes_nothing() {
    let mut b: NetworkBridge<u32> = new_bridge();
    assert_eq!(finish_network_instance(&mut b, X, false), Err(StartError::EngineFailure));
    assert!(collect_running_network(&b).is_empty());
    assert!(start(&mut b, Some(X)).is_ok());
}

#[test]
fn engine_failure_on_stop_changes_nothing() {
    let mut b: NetworkBridge<u32> = new_bridge();
    start(&mut b, Some(X)).unwrap();
    assert_eq!(stop_network_instance(&mut b, &vec![X], false), Err(StopError::EngineFailure));
    assert!(is_running_network(&b, X_TEXT));
}

#[test]
fn second_request_needs_no_callback() {
    let mut b: NetworkBridge<u32> = new_bridge();
    init_protect_fn(&mut b, 7);
    let mut calls: u32 = 0;
    assert!(request(&mut b, 12, &mut calls));
    assert!(request(&mut b, 12, &mut calls));
    assert_eq!(calls, 1);
    assert!(request(&mut b, 13, &mut calls));
    assert_eq!(calls, 2);
}

#[test]
fn unacknowledged_request_stays_unprotected() {
    let mut b: NetworkBridge<u32> = new_bridge();
    init_protect_fn(&mut b, 7);
    assert_eq!(protect_socket(&b, 12), ProtectStep::Invoke);
    assert!(!confirm_protection(&mut b, 12, false));
    assert_eq!(protect_socket(&b, 12), ProtectStep::Invoke);
}

#[test]
fn full_stop_resets_ledger() {
    let mut b: NetworkBridge<u32> = new_bridge();
    init_protect_fn(&mut b, 7);
    start(&mut b, Some(X)).unwrap();
    let mut calls: u32 = 0;
    assert!(request(&mut b, 30, &mut calls));
    assert_eq!(protect_socket(&b, 30), ProtectStep::AlreadyProtected);
    stop(&mut b, &[X_TEXT]).unwrap();
    assert_eq!(protect_socket(&b, 30), ProtectStep::Invoke);
    assert!(request(&mut b, 30, &mut calls));
    assert_eq!(calls, 2);
}

#[test]
fn stop_of_other_instance_keeps_ledger() {
    let mut b: NetworkBridge<u32> = new_bridge();
    init_protect_fn(&mut b, 7);
    start(&mut b, Some(X)).unwrap();
    let mut calls: u32 = 0;
    assert!(request(&mut b, 30, &mut calls));
    stop(&mut b, &[Y_TEXT]).unwrap();
    assert!(is_running_network(&b, X_TEXT));
    assert_eq!(protect_socket(&b, 30), ProtectStep::AlreadyProtected);
}

#[test]
fn no_callback_means_unavailable() {
    let mut b: NetworkBridge<u32> = new_bridge();
    let mut calls: u32 = 0;
    assert!(!request(&mut b, 5, &mut calls));
    assert_eq!(calls, 0);
    assert!(protect_callback(&b).is_none());
    assert!(!confirm_protection(&mut b, 5, true));
    assert_eq!(protect_socket(&b, 5), ProtectStep::Unavailable);
}

#[test]
fn callback_is_replaced() {
    let mut b: NetworkBridge<u32> = new_bridge();
    init_protect_fn(&mut b, 1);
    init_protect_fn(&mut b, 2);
    assert_eq!(protect_callback(&b), Some(&2));
}

#[test]
fn stop_skips_unparsable_names() {
    let mut b: NetworkBridge<u32> = new_bridge();
    start(&mut b, Some(X)).unwrap();
    let names = vec!["not-a-uuid".to_string(), X_TEXT.to_string()];
    assert_eq!(stop_targets(&names), vec![X]);
    assert_eq!(stop(&mut b, &["not-a-uuid", X_TEXT]), Ok(()));
    assert!(collect_running_network(&b).is_empty());
    assert!(!is_running_network(&b, "garbage"));
}

#[test]
fn stop_targets_accepts_every_uuid_form() {
    let names: Vec<String> = vec![
        "".to_string(),
        "550e8400e29b41d4a716446655440000".to_string(),
        "{67E55044-10B1-426F-9247-BB680E5FE0C8}".to_string(),
        "urn:uuid:550e8400-e29b-41d4-a716-446655440000".to_string(),
        "550e8400-e29b-41d4-a716-44665544000".to_string(),
    ];
    assert_eq!(stop_targets(&names), vec![X, Y, X]);
}

#[test]
fn is_running_parses_its_argument() {
    let mut b: NetworkBridge<u32> = new_bridge();
    assert!(!is_running_network(&b, X_TEXT));
    start(&mut b, Some(X)).unwrap();
    assert!(is_running_network(&b, X_TEXT));
    assert!(is_running_network(&b, "550E8400E29B41D4A716446655440000"));
    assert!(!is_running_network(&b, Y_TEXT));
    assert!(!is_running_network(&b, "garbage"));
    assert!(!is_running_network(&b, ""));
}

#[test]
fn unset_tunnel_still_starts() {
    let mut b: NetworkBridge<u32> = new_bridge();
    let plan = start(&mut b, Some(X)).unwrap();
    assert_eq!(plan, StartPlan { id: X, tunnel: None });
    assert_eq!(collect_running_network(&b), vec![X_TEXT.to_string()]);

    let mut b: NetworkBridge<u32> = new_bridge();
    set_global_tun(&mut b, 0);
    assert_eq!(start(&mut b, Some(X)).unwrap().tunnel, None);
    assert!(is_running_network(&b, X_TEXT));
}

#[test]
fn positive_tunnel_is_handed_over() {
    let mut b: NetworkBridge<u32> = new_bridge();
    set_global_tun(&mut b, 42);
    assert_eq!(start(&mut b, Some(Y)).unwrap(), StartPlan { id: Y, tunnel: Some(42) });
    stop(&mut b, &[Y_TEXT]).unwrap();
    assert_eq!(start(&mut b, Some(X)).unwrap().tunnel, Some(42));
}

#[test]
fn end_to_end_scenario() {
    let mut b: NetworkBridge<u32> = new_bridge();
    init_protect_fn(&mut b, 9);
    assert!(start(&mut b, Some(X)).is_ok());
    assert_eq!(collect_running_network(&b), vec![X_TEXT.to_string()]);
    let mut calls: u32 = 0;
    assert!(request(&mut b, 4, &mut calls));
    assert_eq!(start(&mut b, Some(Y)), Err(StartError::AlreadyRunning));
    assert_eq!(collect_running_network(&b), vec![X_TEXT.to_string()]);
    assert_eq!(stop(&mut b, &[X_TEXT]), Ok(()));
    assert!(collect_running_network(&b).is_empty());
    assert_eq!(protect_socket(&b, 4), ProtectStep::Invoke);
}

#[test]
fn status_records_skip_failed_entries() {
    let entries: Vec<(u128, Option<String>)> = vec![
        (X, Some("{\"running\":true}".to_string())),
        (Y, None),
        (0, Some("{}".to_string())),
    ];
    let pairs = collect_network_infos(&entries);
    assert_eq!(
        pairs,
        vec![
            KeyValuePair { key: X_TEXT.to_string(), value: "{\"running\":true}".to_string() },
            KeyValuePair {
                key: "00000000-0000-0000-0000-000000000000".to_string(),
                value: "{}".to_string()
            },
        ]
    );
    assert!(collect_network_infos(&Vec::new()).is_empty());
}

#[test]
fn ledger_marks_and_clears() {
    let mut l = ProtectedSockets::new();
    assert!(!l.is_protected(3));
    l.mark_protected(3);
    l.mark_protected(3);
    l.mark_protected(-1);
    assert!(l.is_protected(3));
    assert!(l.is_protected(-1));
    assert_eq!(l.len(), 2);
    l.clear();
    assert!(!l.is_protected(3));
    assert_eq!(l.len(), 0);
}
