use voxscribe::router::{DEEP_LINK_EVENT, MAIN_WINDOW};
use voxscribe::{plan_second_instance, ArbiterEvent, ArbiterState, RouterAction};

fn args(items: &[&str]) -> Vec<String> {
    items.iter().map(|s| s.to_string()).collect()
}

fn emit(url: &str) -> RouterAction {
    RouterAction::EmitDeepLink { event: "deep-link://new-url".to_string(), url: url.to_string() }
}

fn focus_main() -> RouterAction {
    RouterAction::FocusWindow { label: "main".to_string() }
}

#[test]
fn event_and_window_names() {
    assert_eq!(DEEP_LINK_EVENT, "deep-link://new-url");
    assert_eq!(MAIN_WINDOW, "main");
}

#[test]
fn second_launch_with_url_emits_and_focuses() {
    let plan = plan_second_instance(&args(&["app", "voxscribe://open?id=42"]), "/home/user", true);
    assert_eq!(plan, vec![emit("voxscribe://open?id=42"), focus_main()]);
}

#[test]
fn second_launch_without_url_only_focuses() {
    let plan = plan_second_instance(&args(&["app"]), "/home/user", true);
    assert_eq!(plan, vec![focus_main()]);
}

#[test]
fn empty_arguments_emit_nothing() {
    assert_eq!(plan_second_instance(&args(&[]), "", true), vec![focus_main()]);
    assert_eq!(plan_second_instance(&args(&[]), "", false), vec![]);
}

#[test]
fn only_index_one_is_relayed() {
    let plan = plan_second_instance(&args(&["app", "voxscribe://a", "voxscribe://b"]), "/", true);
    assert_eq!(plan, vec![emit("voxscribe://a"), focus_main()]);
}

#[test]
fn empty_url_argument_is_still_relayed() {
    let plan = plan_second_instance(&args(&["app", ""]), "/", false);
    assert_eq!(plan, vec![emit("")]);
}

#[test]
fn missing_main_window_skips_focus() {
    let plan = plan_second_instance(&args(&["app", "voxscribe://open?id=42"]), "/", false);
    assert_eq!(plan, vec![emit("voxscribe://open?id=42")]);
    let plan = plan_second_instance(&args(&["app"]), "/", false);
    assert!(plan.is_empty());
}

#[test]
fn focus_requested_with_or_without_event() {
    for a in [args(&["app"]), args(&["app", "voxscribe://x"])] {
        let plan = plan_second_instance(&a, "/", true);
        assert_eq!(plan.last(), Some(&focus_main()));
        let focuses = plan.iter().filter(|x| matches!(x, RouterAction::FocusWindow { .. })).count();
        assert_eq!(focuses, 1);
    }
}

#[test]
fn exactly_one_event_per_launch_with_url() {
    let plan = plan_second_instance(&args(&["app", "voxscribe://open?id=7", "--flag"]), "/", true);
    let emits: Vec<&RouterAction> =
        plan.iter().filter(|x| matches!(x, RouterAction::EmitDeepLink { .. })).collect();
    assert_eq!(emits, vec![&emit("voxscribe://open?id=7")]);
}

#[test]
fn arbiter_blocks_then_returns_to_single_running() {
    let s = ArbiterState::SingleRunning.step(ArbiterEvent::SecondLaunch);
    assert_eq!(s, ArbiterState::Blocked);
    assert_eq!(s.step(ArbiterEvent::Relayed), ArbiterState::SingleRunning);
}

#[test]
fn arbiter_ignores_events_out_of_turn() {
    assert_eq!(ArbiterState::SingleRunning.step(ArbiterEvent::Relayed), ArbiterState::SingleRunning);
    assert_eq!(ArbiterState::Blocked.step(ArbiterEvent::SecondLaunch), ArbiterState::Blocked);
}
