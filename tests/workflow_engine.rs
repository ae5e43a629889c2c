use xiaohongshu_helper::workflow::{
    fatal_step, skipping_step, tolerated_step, Command, Event, Phase, StepFailure, Workflow,
};

fn pause(millis: u64) -> Command {
    Command::Pause { millis }
}

#[test]
fn empty_workflow_is_finished() {
    let w = Workflow::new(Vec::new());
    assert_eq!(w.current(), None);
    assert_eq!(w.outcome(), Some(&Ok(())));
}

#[test]
fn steps_run_in_order_until_done() {
    let mut w = Workflow::new(vec![tolerated_step(pause(1)), tolerated_step(pause(2))]);
    assert_eq!(w.current(), Some(&pause(1)));
    w.advance(Event::Done);
    assert_eq!(w.current(), Some(&pause(2)));
    assert_eq!(w.outcome(), None);
    w.advance(Event::Done);
    assert_eq!(w.current(), None);
    assert_eq!(w.outcome(), Some(&Ok(())));
}

#[test]
fn skip_policy_leaves_out_following_steps() {
    let mut w = Workflow::new(vec![
        skipping_step(pause(1), 2),
        tolerated_step(pause(2)),
        tolerated_step(pause(3)),
        tolerated_step(pause(4)),
    ]);
    w.advance(Event::Failed("x".to_string()));
    assert_eq!(w.current(), Some(&pause(4)));
    // on success nothing is skipped
    let mut w = Workflow::new(vec![skipping_step(pause(1), 2), tolerated_step(pause(2))]);
    w.advance(Event::Done);
    assert_eq!(w.current(), Some(&pause(2)));
}

#[test]
fn skipping_past_the_end_finishes_with_success() {
    let mut w = Workflow::new(vec![skipping_step(pause(1), 5), tolerated_step(pause(2))]);
    w.advance(Event::Failed("x".to_string()));
    assert_eq!(w.outcome(), Some(&Ok(())));
}

#[test]
fn abort_with_capture_takes_screenshot_then_fails() {
    let mut w = Workflow::new(vec![
        fatal_step(pause(1), "first", Some("error_first"), "First failed"),
        tolerated_step(pause(2)),
    ]);
    w.advance(Event::Failed("boom".to_string()));
    assert_eq!(w.current(), Some(&Command::Capture { name: "error_first".to_string() }));
    assert_eq!(w.outcome(), None);
    // the screenshot's own outcome does not matter
    w.advance(Event::Failed("disk full".to_string()));
    let expected = StepFailure {
        step: "first".to_string(),
        context: "First failed".to_string(),
        detail: "boom".to_string(),
        capture: Some("error_first".to_string()),
    };
    assert_eq!(w.outcome(), Some(&Err(expected)));
    assert_eq!(w.current(), None);
}

#[test]
fn abort_without_capture_fails_at_once() {
    let mut w = Workflow::new(vec![
        tolerated_step(pause(1)),
        fatal_step(Command::Click, "click", None, "Click failed"),
        tolerated_step(pause(2)),
    ]);
    w.advance(Event::Done);
    w.advance(Event::Failed("detached".to_string()));
    match &w.phase {
        Phase::Finished { result: Err(f) } => {
            assert_eq!(f.step, "click");
            assert_eq!(f.capture, None);
            assert_eq!(f.message(), "Click failed: detached");
        }
        other => panic!("unexpected phase {:?}", other),
    }
}

#[test]
fn tolerated_failure_moves_on() {
    let mut w = Workflow::new(vec![tolerated_step(pause(1)), tolerated_step(pause(2))]);
    w.advance(Event::Failed("x".to_string()));
    assert_eq!(w.current(), Some(&pause(2)));
}
