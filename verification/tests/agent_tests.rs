use mia_agent::agent::{
    choose_rate_limit_wait, iteration_notice_text, rate_limit_wait_cap, AgentTurn, CompletionOutcome,
    TurnAction, TurnEvent, TurnPhase,
};

fn label(a: &TurnAction) -> String {
    match a {
        TurnAction::Status(s) => format!("status:{s}"),
        TurnAction::Harness(s) => format!("harness:{s}"),
        TurnAction::RequestCompletion => "request".to_string(),
        TurnAction::Sleep(n) => format!("sleep:{n}"),
        TurnAction::ForwardAssistant => "forward".to_string(),
        TurnAction::CallTool => "call".to_string(),
        TurnAction::RecordCancelledTool => "record-cancelled".to_string(),
        TurnAction::UpdateHistory => "update-history".to_string(),
    }
}

fn labels(v: &[TurnAction]) -> Vec<String> {
    v.iter().map(label).collect()
}

#[test]
fn rate_limit_caps() {
    assert_eq!(rate_limit_wait_cap(0), 5);
    assert_eq!(rate_limit_wait_cap(1), 10);
    assert_eq!(rate_limit_wait_cap(3), 40);
    assert_eq!(rate_limit_wait_cap(4), 60);
    assert_eq!(rate_limit_wait_cap(10), 60);
    for t in 1..=10 {
        let w = choose_rate_limit_wait(t);
        assert!(w >= 1 && w <= rate_limit_wait_cap(t));
    }
}

#[test]
fn iteration_notices() {
    assert_eq!(iteration_notice_text(2, 20), None);
    assert_eq!(iteration_notice_text(3, 20).unwrap(), "🔁 Iteration 3/20");
    assert_eq!(iteration_notice_text(10, 20).unwrap(), "🔁 Iteration 10/20");
    assert_eq!(iteration_notice_text(11, 20), None);
    assert_eq!(iteration_notice_text(17, 17).unwrap(), "🔁 Iteration 17/17");
}

#[test]
fn a_turn_without_tools() {
    let (t, acts) = AgentTurn::start(20);
    assert!(acts.is_empty());
    assert_eq!(t.phase, TurnPhase::StartIteration);
    let (t, acts) = t.step(&TurnEvent::IterationStart { cancelled: false });
    assert!(labels(&acts).contains(&"request".to_string()));
    let (t, acts) = t.step(&TurnEvent::Completion(CompletionOutcome::Completed { tool_calls: None }));
    let l = labels(&acts);
    assert_eq!(l.first().map(|s| s.as_str()), Some("forward"));
    assert_eq!(t.phase, TurnPhase::Finished);
    assert!(l.ends_with(&["update-history".to_string(), "status:".to_string()]));
}

#[test]
fn a_turn_with_two_tools_then_an_answer() {
    let (t, _) = AgentTurn::start(5);
    let (t, _) = t.step(&TurnEvent::IterationStart { cancelled: false });
    let (t, acts) = t.step(&TurnEvent::Completion(CompletionOutcome::Completed { tool_calls: Some(2) }));
    let l = labels(&acts);
    assert!(l.contains(&"forward".to_string()));
    assert!(l.contains(&"status:Calling Tools".to_string()));
    assert_eq!(l.last().map(|s| s.as_str()), Some("call"));
    let (t, acts) = t.step(&TurnEvent::ToolFinished);
    assert_eq!(labels(&acts), vec!["call".to_string()]);
    let (t, acts) = t.step(&TurnEvent::ToolFinished);
    assert!(acts.is_empty());
    assert_eq!(t.iteration, 2);
    assert_eq!(t.phase, TurnPhase::StartIteration);
}

#[test]
fn cancelled_and_failed_turns_end() {
    let (t, _) = AgentTurn::start(5);
    let (done, acts) = t.step(&TurnEvent::IterationStart { cancelled: true });
    assert_eq!(done.phase, TurnPhase::Finished);
    assert_eq!(labels(&acts), vec!["update-history".to_string(), "status:".to_string()]);
    let (t, _) = t.step(&TurnEvent::IterationStart { cancelled: false });
    let (t2, acts) = t.step(&TurnEvent::Completion(CompletionOutcome::Failed("boom".to_string())));
    assert_eq!(t2.phase, TurnPhase::Finished);
    assert!(labels(&acts)[0].starts_with("harness:Assistant returned error:"));
    let (t3, acts) = t.step(&TurnEvent::Completion(CompletionOutcome::Cancelled));
    assert_eq!(t3.phase, TurnPhase::Finished);
    assert_eq!(labels(&acts)[0], "harness:Assistant turn cancelled.");
}

#[test]
fn rate_limits_sleep_then_retry() {
    let (t, _) = AgentTurn::start(5);
    let (t, _) = t.step(&TurnEvent::IterationStart { cancelled: false });
    let (t, acts) = t.step(&TurnEvent::Completion(CompletionOutcome::RateLimited { wait: 7 }));
    let l = labels(&acts);
    assert!(l.contains(&"harness:Rate limited, retrying in 7s (1/10)".to_string()));
    assert!(l.contains(&"sleep:7".to_string()));
    assert_eq!(t.phase, TurnPhase::AwaitingCompletion { tries: 2 });
}

#[test]
fn no_iterations_means_an_empty_turn() {
    let (t, acts) = AgentTurn::start(0);
    assert_eq!(t.phase, TurnPhase::Finished);
    assert_eq!(labels(&acts), vec!["update-history".to_string(), "status:".to_string()]);
}
