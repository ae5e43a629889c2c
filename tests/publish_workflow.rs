use xiaohongshu_helper::publish::{
    remaining_images, resolve_cover, start_publish, PublishError, PublishJob, PUBLISH_XPATH,
};
use xiaohongshu_helper::registry::SessionRegistry;
use xiaohongshu_helper::workflow::{Command, Event, StepFailure, Workflow};

fn strings(items: &[&str]) -> Vec<String> {
    items.iter().map(|s| s.to_string()).collect()
}

fn job(images: &[&str], cover: Option<&str>) -> PublishJob {
    PublishJob {
        account_id: "17520061863".to_string(),
        title: "A title".to_string(),
        body: "Some body text".to_string(),
        images: strings(images),
        cover_image: cover.map(|c| c.to_string()),
    }
}

/// Drives a workflow to its end, answering each command with `answer`, and
/// returns the commands performed and the outcome.
fn drive(
    mut w: Workflow,
    mut answer: impl FnMut(&Command) -> Event,
) -> (Vec<Command>, Result<(), StepFailure>) {
    let mut seen = Vec::new();
    for _ in 0..200 {
        let command = match w.current() {
            Some(c) => c.clone(),
            None => break,
        };
        let event = answer(&command);
        seen.push(command);
        w.advance(event);
    }
    let outcome = match w.outcome() {
        Some(Ok(())) => Ok(()),
        Some(Err(f)) => Err(f.clone()),
        None => panic!("the workflow did not finish"),
    };
    (seen, outcome)
}

#[test]
fn default_cover_is_first_image() {
    let j = job(&["a.jpg", "b.jpg", "c.jpg"], None);
    let cover = resolve_cover(&j);
    assert_eq!(cover, "a.jpg");
    assert_eq!(remaining_images(&j.images, &cover), strings(&["b.jpg", "c.jpg"]));
}

#[test]
fn given_cover_is_removed_once_by_value() {
    let j = job(&["a.jpg", "b.jpg", "c.jpg", "b.jpg"], Some("b.jpg"));
    let cover = resolve_cover(&j);
    assert_eq!(cover, "b.jpg");
    assert_eq!(remaining_images(&j.images, &cover), strings(&["a.jpg", "c.jpg", "b.jpg"]));
}

#[test]
fn cover_outside_the_images_leaves_them_all() {
    let images = strings(&["a.jpg", "b.jpg"]);
    assert_eq!(remaining_images(&images, &"z.jpg".to_string()), images);
}

#[test]
fn empty_image_list_is_refused_before_any_launch() {
    let sessions: SessionRegistry<u32> = SessionRegistry::new();
    let r = start_publish(&job(&[], None), &sessions, "/home/u/data", true);
    assert!(matches!(r, Err(PublishError::NoImages)));
    let r = start_publish(&job(&[], Some("a.jpg")), &sessions, "/home/u/data", true);
    assert!(matches!(r, Err(PublishError::NoImages)));
}

#[test]
fn new_browser_cleans_locks_right_before_launch() {
    let sessions: SessionRegistry<u32> = SessionRegistry::new();
    let w = start_publish(&job(&["a.jpg"], None), &sessions, "/home/u/data", false).unwrap();
    let (seen, outcome) = drive(w, |_| Event::Done);
    assert_eq!(outcome, Ok(()));
    let profile = "/home/u/data/profiles/17520061863".to_string();
    assert_eq!(seen[0], Command::CleanLocks { profile_dir: profile.clone() });
    assert_eq!(seen[1], Command::Launch { profile_dir: profile, headless: false });
    let launches = seen.iter().filter(|c| matches!(c, Command::Launch { .. })).count();
    assert_eq!(launches, 1);
}

#[test]
fn registered_session_is_reused_without_launch() {
    let mut sessions: SessionRegistry<u32> = SessionRegistry::new();
    sessions.insert("17520061863".to_string(), 7);
    let w = start_publish(&job(&["a.jpg"], None), &sessions, "/home/u/data", true).unwrap();
    let (seen, outcome) = drive(w, |_| Event::Done);
    assert_eq!(outcome, Ok(()));
    assert_eq!(seen[0], Command::ReuseSession { account: "17520061863".to_string() });
    assert!(!seen.iter().any(|c| matches!(c, Command::Launch { .. } | Command::CleanLocks { .. })));
}

#[test]
fn publish_steps_run_in_order() {
    let sessions: SessionRegistry<u32> = SessionRegistry::new();
    let w = start_publish(&job(&["a.jpg", "b.jpg"], None), &sessions, "/d", true).unwrap();
    let (seen, _) = drive(w, |_| Event::Done);
    let pos = |c: &Command| seen.iter().position(|s| s == c).unwrap();
    let cover = pos(&Command::SetFiles { files: strings(&["a.jpg"]) });
    let title = pos(&Command::TypeText { text: "A title".to_string() });
    let body = pos(&Command::TypeText { text: "Some body text".to_string() });
    let extra = pos(&Command::SetFiles { files: strings(&["b.jpg"]) });
    let find = pos(&Command::WaitForXPath { xpath: PUBLISH_XPATH.to_string() });
    assert!(cover < title && title < body && body < extra && extra < find);
    assert_eq!(seen[find + 1], Command::PickFirst);
    assert_eq!(seen[find + 2], Command::Click);
    assert_eq!(seen.last(), Some(&Command::Capture { name: "6_publish_clicked".to_string() }));
}

#[test]
fn single_image_has_no_extra_upload() {
    let sessions: SessionRegistry<u32> = SessionRegistry::new();
    let w = start_publish(&job(&["a.jpg"], None), &sessions, "/d", true).unwrap();
    let (seen, _) = drive(w, |_| Event::Done);
    let uploads = seen.iter().filter(|c| matches!(c, Command::SetFiles { .. })).count();
    assert_eq!(uploads, 1);
    assert!(!seen.contains(&Command::WaitFor { selector: "input[type='file']".to_string() }));
}

#[test]
fn title_wait_timeout_names_the_title_step() {
    let sessions: SessionRegistry<u32> = SessionRegistry::new();
    let w = start_publish(&job(&["a.jpg", "b.jpg"], None), &sessions, "/d", true).unwrap();
    let title_selector = Command::WaitFor { selector: ".d-input-wrapper .d-text".to_string() };
    let (seen, outcome) = drive(w, |c| {
        if *c == title_selector {
            Event::Failed("timed out".to_string())
        } else {
            Event::Done
        }
    });
    let failure = outcome.unwrap_err();
    assert_eq!(failure.step, "fill_title");
    assert_eq!(failure.detail, "timed out");
    assert_eq!(failure.capture, Some("error_wait_title".to_string()));
    // the screenshot is taken right after the failure, and nothing runs after it
    assert_eq!(seen.last(), Some(&Command::Capture { name: "error_wait_title".to_string() }));
    assert!(!seen.iter().any(|c| matches!(c, Command::TypeText { .. })));
    assert!(failure.message().ends_with(". See error_wait_title.png"));
}

#[test]
fn editor_wait_failure_names_its_selector() {
    let sessions: SessionRegistry<u32> = SessionRegistry::new();
    let w = start_publish(&job(&["a.jpg"], None), &sessions, "/d", true).unwrap();
    let (_, outcome) = drive(w, |c| match c {
        Command::WaitFor { selector } if selector == ".edit-container" => {
            Event::Failed("timeout".to_string())
        },
        _ => Event::Done,
    });
    let failure = outcome.unwrap_err();
    assert_eq!(failure.step, "wait_editor");
    assert!(failure.message().contains(".edit-container"));
    assert_eq!(failure.capture, Some("error_wait_edit_container".to_string()));
}

#[test]
fn remaining_upload_failure_still_publishes() {
    let sessions: SessionRegistry<u32> = SessionRegistry::new();
    let w = start_publish(&job(&["a.jpg", "b.jpg", "c.jpg"], None), &sessions, "/d", true).unwrap();
    let file_input = Command::WaitFor { selector: "input[type='file']".to_string() };
    let (seen, outcome) = drive(w, |c| {
        if *c == file_input {
            Event::Failed("no file input".to_string())
        } else {
            Event::Done
        }
    });
    assert_eq!(outcome, Ok(()));
    assert!(!seen.contains(&Command::SetFiles { files: strings(&["b.jpg", "c.jpg"]) }));
    let find = seen
        .iter()
        .position(|c| *c == Command::WaitForXPath { xpath: PUBLISH_XPATH.to_string() })
        .unwrap();
    assert_eq!(seen[find + 2], Command::Click);
}

#[test]
fn failed_remaining_upload_skips_only_its_delay() {
    let sessions: SessionRegistry<u32> = SessionRegistry::new();
    let w = start_publish(&job(&["a.jpg", "b.jpg"], None), &sessions, "/d", true).unwrap();
    let upload = Command::SetFiles { files: strings(&["b.jpg"]) };
    let (seen, outcome) = drive(w, |c| {
        if *c == upload {
            Event::Failed("upload refused".to_string())
        } else {
            Event::Done
        }
    });
    assert_eq!(outcome, Ok(()));
    let at = seen.iter().position(|c| *c == upload).unwrap();
    assert_eq!(seen[at + 1], Command::Capture { name: "5_ready_to_publish".to_string() });
}

#[test]
fn missing_publish_button_fails_with_its_screenshot() {
    let sessions: SessionRegistry<u32> = SessionRegistry::new();
    let w = start_publish(&job(&["a.jpg"], None), &sessions, "/d", true).unwrap();
    let (seen, outcome) = drive(w, |c| match c {
        Command::PickFirst => Event::Failed("No match found".to_string()),
        _ => Event::Done,
    });
    let failure = outcome.unwrap_err();
    assert_eq!(failure.step, "publish");
    assert_eq!(failure.capture, Some("error_no_publish_btn".to_string()));
    assert_eq!(seen.last(), Some(&Command::Capture { name: "error_no_publish_btn".to_string() }));
    assert_eq!(seen.iter().filter(|c| **c == Command::Click).count(), 2);
}

#[test]
fn launch_failure_aborts_without_screenshot() {
    let sessions: SessionRegistry<u32> = SessionRegistry::new();
    let w = start_publish(&job(&["a.jpg"], None), &sessions, "/d", true).unwrap();
    let (seen, outcome) = drive(w, |c| match c {
        Command::Launch { .. } => Event::Failed("no executable".to_string()),
        _ => Event::Done,
    });
    assert_eq!(seen.len(), 2);
    let failure = outcome.unwrap_err();
    assert_eq!(failure.step, "launch");
    assert_eq!(failure.capture, None);
    assert_eq!(failure.message(), "Browser launch failed: no executable");
}

#[test]
fn lock_cleanup_failure_is_not_fatal() {
    let sessions: SessionRegistry<u32> = SessionRegistry::new();
    let w = start_publish(&job(&["a.jpg"], None), &sessions, "/d", true).unwrap();
    let (seen, outcome) = drive(w, |c| match c {
        Command::CleanLocks { .. } => Event::Failed("permission denied".to_string()),
        _ => Event::Done,
    });
    assert_eq!(outcome, Ok(()));
    assert!(matches!(seen[1], Command::Launch { .. }));
}
