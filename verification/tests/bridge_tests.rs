use khaos_web_ui::bridge::bridge_step;
use khaos_web_ui::bridge::mark_stop;
use khaos_web_ui::bridge::reconnect_delay_ms;
use khaos_web_ui::bridge::subscribe_request_line;
use khaos_web_ui::bridge::BridgeAction;
use khaos_web_ui::bridge::BridgeEvent;
use khaos_web_ui::bridge::BridgeRegistry;
use khaos_web_ui::bridge::BridgeState;
use khaos_web_ui::bridge::StartAction;
use khaos_web_ui::json::parse_json;
use khaos_web_ui::json::Json;

#[test]
fn test_second_start_for_same_project_is_noop() {
    let mut reg = BridgeRegistry::new_empty();
    let first = reg.ensure_bridge("/p.kspd".to_string(), false, 1);
    assert!(matches!(first, StartAction::Start));
    let second = reg.ensure_bridge("/p.kspd".to_string(), false, 2);
    assert!(matches!(second, StartAction::AlreadyRunning));
    let handle = reg.active.as_ref().unwrap();
    assert_eq!(handle.task, 1);
    assert_eq!(handle.project_path, "/p.kspd");
}

#[test]
fn test_start_for_other_project_cancels_prior_task() {
    let mut reg = BridgeRegistry::new_empty();
    let _ = reg.ensure_bridge("/a.kspd".to_string(), false, 1);
    let action = reg.ensure_bridge("/b.kspd".to_string(), false, 2);
    match action {
        StartAction::Replace { stop, cancel_task } => {
            assert!(stop);
            assert_eq!(cancel_task, 1);
        }
        _ => panic!("replacing a bridge must stop and cancel the prior task"),
    }
    let handle = reg.active.as_ref().unwrap();
    assert_eq!(handle.project_path, "/b.kspd");
    assert_eq!(handle.task, 2);
}

#[test]
fn test_finished_task_is_replaced_even_for_same_project() {
    let mut reg = BridgeRegistry::new_empty();
    let _ = reg.ensure_bridge("/a.kspd".to_string(), false, 1);
    let action = reg.ensure_bridge("/a.kspd".to_string(), true, 2);
    assert!(matches!(action, StartAction::Replace { .. }));
    assert_eq!(reg.active.as_ref().unwrap().task, 2);
}

#[test]
fn test_stop_signal_is_single_shot() {
    let mut reg = BridgeRegistry::new_empty();
    let _ = reg.ensure_bridge("/a.kspd".to_string(), false, 1);
    let handle = reg.active.as_mut().unwrap();
    assert!(mark_stop(handle));
    assert!(!mark_stop(handle));
    assert!(!mark_stop(handle));
}

#[test]
fn test_replace_after_stop_does_not_stop_twice() {
    let mut reg = BridgeRegistry::new_empty();
    let _ = reg.ensure_bridge("/a.kspd".to_string(), false, 1);
    assert!(mark_stop(reg.active.as_mut().unwrap()));
    let action = reg.ensure_bridge("/b.kspd".to_string(), true, 2);
    match action {
        StartAction::Replace { stop, cancel_task } => {
            assert!(!stop);
            assert_eq!(cancel_task, 1);
        }
        _ => panic!("expected a replace"),
    }
}

#[test]
fn test_bridge_session_walk() {
    let (s, a) = bridge_step(BridgeState::Connecting, BridgeEvent::ConnectFailed);
    assert!(matches!(s, BridgeState::Connecting));
    assert!(matches!(a, BridgeAction::RetryAfterDelay));
    let (s, a) = bridge_step(BridgeState::Connecting, BridgeEvent::Connected);
    assert!(matches!(s, BridgeState::Subscribed));
    assert!(matches!(a, BridgeAction::WriteSubscribe));
    let (s, a) = bridge_step(BridgeState::Subscribed, BridgeEvent::SubscribeWritten);
    assert!(matches!(s, BridgeState::Reading));
    assert!(matches!(a, BridgeAction::ReadLine));
    let (s, a) = bridge_step(BridgeState::Reading, BridgeEvent::Line("{}".to_string()));
    assert!(matches!(s, BridgeState::Reading));
    assert!(matches!(a, BridgeAction::HandleLine(_)));
    let (s, a) = bridge_step(BridgeState::Reading, BridgeEvent::Eof);
    assert!(matches!(s, BridgeState::Connecting));
    assert!(matches!(a, BridgeAction::RetryAfterDelay));
}

#[test]
fn test_stop_wins_at_every_suspension_point() {
    let (s, a) = bridge_step(BridgeState::Connecting, BridgeEvent::StopRequested);
    assert!(matches!(s, BridgeState::Stopped));
    assert!(matches!(a, BridgeAction::Halt));
    let (s, _) = bridge_step(BridgeState::Reading, BridgeEvent::StopRequested);
    assert!(matches!(s, BridgeState::Stopped));
}

#[test]
fn test_reconnect_delay_is_fixed() {
    assert_eq!(reconnect_delay_ms(), 800);
}

#[test]
fn test_subscribe_request_names_the_topics() {
    let line = subscribe_request_line();
    assert!(line.ends_with('\n'));
    assert_eq!(line.matches('\n').count(), 1);
    let v = parse_json(line.trim_end()).unwrap();
    assert_eq!(v.get_str("method").as_deref(), Some("wfl.subscribe"));
    assert_eq!(v.get_str("type").as_deref(), Some("req"));
    assert_eq!(v.get_str("id").as_deref(), Some("webui-wfl-subscribe"));
    assert_eq!(v.get_i64("v"), Some(1));
    let params = v.get("params").unwrap();
    match params.get("topics").unwrap() {
        Json::Arr(topics) => {
            let names: Vec<&str> = topics
                .iter()
                .map(|t| t.as_str().unwrap().as_str())
                .collect();
            assert_eq!(
                names,
                vec![
                    "wfl.analysis.started",
                    "wfl.analysis.queued",
                    "wfl.analysis.progress",
                    "wfl.analysis.active",
                    "wfl.analysis.completed",
                ]
            );
        }
        _ => panic!("topics must be an array"),
    }
}
