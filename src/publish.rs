//! The content-publish workflow: a job's images, title and body become an
//! ordered list of browser steps.

use vstd::prelude::*;
use vstd::string::*;

use crate::registry::SessionRegistry;
use crate::storage::{get_browser_data_dir, profile_dir};
use crate::workflow::{
    fatal, fatal_step, from_step, launches_guarded, leads_to, skipping_step, steps_view, tolerated,
    tolerated_step, Command, CommandView, OnFailureView, Step, StepView, Workflow,
};

verus! {

/// The page on which an image post is created.
pub const PUBLISH_URL: &'static str =
    "https://creator.xiaohongshu.com/publish/publish?from=homepage&target=image";

/// Scrolls the page to its end, where the publish control sits.
pub const SCROLL_SCRIPT: &'static str = "window.scrollTo(0, document.body.scrollHeight)";

/// A button-like element whose text holds the publish keyword but not the
/// note keyword (which marks an unrelated sidebar control).
pub const PUBLISH_XPATH: &'static str =
    "//*[(name()='button' or @role='button') and contains(., '发布') and not(contains(., '笔记'))]";

/// A post to publish for one account.
#[derive(Debug, Clone, PartialEq, Eq)]
pub struct PublishJob {
    pub account_id: String,
    pub title: String,
    pub body: String,
    /// Local paths of the images, in order; at least one is needed.
    pub images: Vec<String>,
    /// The cover image; the first image when absent.
    pub cover_image: Option<String>,
}

/// Why a job was refused before any browser work.
#[derive(Debug, Clone, Copy, PartialEq, Eq)]
pub enum PublishError {
    /// The job has no image: a post needs at least one, as its cover.
    NoImages,
}

/// The cover of a job: the given one, else the first image.
pub open spec fn cover_of(images: Seq<Seq<char>>, cover: Option<Seq<char>>) -> Seq<char> {
    match cover {
        Some(c) => c,
        None => images[0],
    }
}

/// `images` with the first entry equal to `x` left out (and unchanged when
/// there is none).
pub open spec fn remove_once(images: Seq<Seq<char>>, x: Seq<char>) -> Seq<Seq<char>>
    decreases images.len(),
{
    if images.len() == 0 {
        images
    } else if images[0] == x {
        images.drop_first()
    } else {
        seq![images[0]] + remove_once(images.drop_first(), x)
    }
}

pub open spec fn cover_view(job: &PublishJob) -> Option<Seq<char>> {
    match job.cover_image {
        Some(c) => Some(c@),
        None => None,
    }
}

/// The cover image of a job.
pub fn resolve_cover(job: &PublishJob) -> (r: String)
    requires
        job.images.len() > 0,
    ensures
        r@ == cover_of(job.images.deep_view(), cover_view(job)),
{
    match &job.cover_image {
        Some(c) => c.clone(),
        None => job.images[0].clone(),
    }
}

/// The images to add after the cover: `images` with the cover taken out once,
/// by value, the others in their order.
pub fn remaining_images(images: &Vec<String>, cover: &String) -> (r: Vec<String>)
    ensures
        r.deep_view() == remove_once(images.deep_view(), cover@),
{
    let ghost all = images.deep_view();
    let mut r: Vec<String> = Vec::new();
    let mut removed = false;
    let mut i: usize = 0;
    assert(all.subrange(0, all.len() as int) =~= all);
    assert(r.deep_view() =~= Seq::<Seq<char>>::empty());
    assert(Seq::<Seq<char>>::empty() + remove_once(all, cover@) =~= remove_once(all, cover@));
    while i < images.len()
        invariant
            i <= images.len(),
            all == images.deep_view(),
            remove_once(all, cover@) == r.deep_view() + (if removed {
                all.subrange(i as int, all.len() as int)
            } else {
                remove_once(all.subrange(i as int, all.len() as int), cover@)
            }),
        decreases images.len() - i,
    {
        let ghost rest = all.subrange(i as int, all.len() as int);
        assert(rest.drop_first() =~= all.subrange(i + 1, all.len() as int));
        assert(rest[0] == images[i as int]@);
        if !removed && images[i] == *cover {
            removed = true;
        } else {
            let ghost before = r.deep_view();
            r.push(images[i].clone());
            assert(r.deep_view() =~= before.push(images[i as int]@));
            assert(seq![rest[0]] + rest.drop_first() =~= rest);
        }
        i = i + 1;
    }
    assert(all.subrange(all.len() as int, all.len() as int) =~= Seq::<Seq<char>>::empty());
    assert(r.deep_view() + Seq::<Seq<char>>::empty() =~= r.deep_view());
    r
}

/// With no cover given, the cover is the first image and the images that
/// remain are all the others, in their order.
pub proof fn lemma_default_cover(images: Seq<Seq<char>>)
    requires
        images.len() > 0,
    ensures
        cover_of(images, None) == images[0],
        remove_once(images, cover_of(images, None)) == images.subrange(1, images.len() as int),
{
    assert(images.drop_first() =~= images.subrange(1, images.len() as int));
}

/// Getting a browser for the account: the registered one, or a new one
/// launched on the account's profile directory once its locks are cleaned.
pub open spec fn acquire_plan(
    account: Seq<char>,
    profile: Seq<char>,
    reuse: bool,
    headless: bool,
) -> Seq<StepView> {
    if reuse {
        seq![
            fatal(
                CommandView::ReuseSession { account },
                "acquire_session"@,
                None,
                "No usable session for the account"@,
            ),
        ]
    } else {
        seq![
            tolerated(CommandView::CleanLocks { profile_dir: profile }),
            fatal(
                CommandView::Launch { profile_dir: profile, headless },
                "launch"@,
                None,
                "Browser launch failed"@,
            ),
        ]
    }
}

/// Opening the publish page, uploading the cover, and filling in title and body.
pub open spec fn compose_plan(cover: Seq<char>, title: Seq<char>, body: Seq<char>) -> Seq<StepView> {
    seq![
        fatal(CommandView::OpenTab, "open_tab"@, None, "New tab failed"@),
        fatal(CommandView::Navigate { url: PUBLISH_URL@ }, "navigate"@, None, "Navigation failed"@),
        tolerated(CommandView::Capture { name: "1_navigated"@ }),
        fatal(
            CommandView::WaitFor { selector: ".upload-input"@ },
            "upload_cover"@,
            Some("error_wait_upload_input"@),
            "Error waiting for .upload-input"@,
        ),
        fatal(
            CommandView::SetFiles { files: seq![cover] },
            "upload_cover"@,
            None,
            "Failed to set cover image"@,
        ),
        tolerated(CommandView::Pause { millis: 2000 }),
        tolerated(CommandView::Capture { name: "2_cover_uploaded"@ }),
        fatal(
            CommandView::WaitFor { selector: ".edit-container"@ },
            "wait_editor"@,
            Some("error_wait_edit_container"@),
            "Error waiting for .edit-container; check that the cover upload worked"@,
        ),
        tolerated(CommandView::Capture { name: "3_editor_loaded"@ }),
        fatal(
            CommandView::WaitFor { selector: ".d-input-wrapper .d-text"@ },
            "fill_title"@,
            Some("error_wait_title"@),
            "Error waiting for title input .d-input-wrapper .d-text"@,
        ),
        fatal(CommandView::Click, "fill_title"@, None, "Click title failed"@),
        fatal(CommandView::TypeText { text: title }, "fill_title"@, None, "Type title failed"@),
        fatal(
            CommandView::WaitFor { selector: ".tiptap.ProseMirror"@ },
            "fill_body"@,
            Some("error_wait_content"@),
            "Error waiting for content editor .tiptap.ProseMirror"@,
        ),
        fatal(CommandView::Click, "fill_body"@, None, "Click content failed"@),
        fatal(CommandView::TypeText { text: body }, "fill_body"@, None, "Type content failed"@),
        tolerated(CommandView::Capture { name: "4_content_filled"@ }),
    ]
}

/// Best-effort upload of the images after the cover: a missing file input
/// skips the upload and its settle delay, a failed upload skips the delay.
pub open spec fn extra_plan(remaining: Seq<Seq<char>>) -> Seq<StepView> {
    if remaining.len() == 0 {
        Seq::empty()
    } else {
        seq![
            StepView {
                command: CommandView::WaitFor { selector: "input[type='file']"@ },
                on_failure: OnFailureView::Skip { count: 2 },
            },
            StepView {
                command: CommandView::SetFiles { files: remaining },
                on_failure: OnFailureView::Skip { count: 1 },
            },
            tolerated(CommandView::Pause { millis: 2000 }),
        ]
    }
}

/// Scrolling down, finding and clicking the publish control, and a final screenshot.
pub open spec fn submit_plan() -> Seq<StepView> {
    seq![
        tolerated(CommandView::Capture { name: "5_ready_to_publish"@ }),
        tolerated(CommandView::Pause { millis: 2000 }),
        tolerated(CommandView::RunScript { script: SCROLL_SCRIPT@ }),
        tolerated(CommandView::Pause { millis: 500 }),
        fatal(
            CommandView::WaitForXPath { xpath: PUBLISH_XPATH@ },
            "publish"@,
            Some("error_find_publish_btn"@),
            "Wait for publish button failed"@,
        ),
        fatal(
            CommandView::PickFirst,
            "publish"@,
            Some("error_no_publish_btn"@),
            "Cannot find publish element"@,
        ),
        fatal(CommandView::Click, "publish"@, None, "Click publish failed"@),
        tolerated(CommandView::Pause { millis: 3000 }),
        tolerated(CommandView::Capture { name: "6_publish_clicked"@ }),
    ]
}

/// The whole publish workflow, in order.
pub open spec fn publish_plan(
    account: Seq<char>,
    profile: Seq<char>,
    reuse: bool,
    headless: bool,
    cover: Seq<char>,
    remaining: Seq<Seq<char>>,
    title: Seq<char>,
    body: Seq<char>,
) -> Seq<StepView> {
    acquire_plan(account, profile, reuse, headless) + compose_plan(cover, title, body) + extra_plan(
        remaining,
    ) + submit_plan()
}

fn acquire_steps(account: &str, profile: &str, reuse: bool, headless: bool) -> (r: Vec<Step>)
    ensures
        steps_view(r@) == acquire_plan(account@, profile@, reuse, headless),
{
    let mut r: Vec<Step> = Vec::new();
    if reuse {
        r.push(
            fatal_step(
                Command::ReuseSession { account: account.to_string() },
                "acquire_session",
                None,
                "No usable session for the account",
            ),
        );
    } else {
        r.push(tolerated_step(Command::CleanLocks { profile_dir: profile.to_string() }));
        r.push(
            fatal_step(
                Command::Launch { profile_dir: profile.to_string(), headless },
                "launch",
                None,
                "Browser launch failed",
            ),
        );
    }
    assert(steps_view(r@) =~= acquire_plan(account@, profile@, reuse, headless));
    r
}

fn compose_steps(cover: &String, title: &String, body: &String) -> (r: Vec<Step>)
    ensures
        steps_view(r@) == compose_plan(cover@, title@, body@),
{
    let mut r: Vec<Step> = Vec::new();
    r.push(fatal_step(Command::OpenTab, "open_tab", None, "New tab failed"));
    r.push(
        fatal_step(
            Command::Navigate { url: PUBLISH_URL.to_string() },
            "navigate",
            None,
            "Navigation failed",
        ),
    );
    r.push(tolerated_step(Command::Capture { name: "1_navigated".to_string() }));
    r.push(
        fatal_step(
            Command::WaitFor { selector: ".upload-input".to_string() },
            "upload_cover",
            Some("error_wait_upload_input"),
            "Error waiting for .upload-input",
        ),
    );
    let mut files: Vec<String> = Vec::new();
    files.push(cover.clone());
    assert(files.deep_view() =~= seq![cover@]);
    r.push(
        fatal_step(Command::SetFiles { files }, "upload_cover", None, "Failed to set cover image"),
    );
    r.push(tolerated_step(Command::Pause { millis: 2000 }));
    r.push(tolerated_step(Command::Capture { name: "2_cover_uploaded".to_string() }));
    r.push(
        fatal_step(
            Command::WaitFor { selector: ".edit-container".to_string() },
            "wait_editor",
            Some("error_wait_edit_container"),
            "Error waiting for .edit-container; check that the cover upload worked",
        ),
    );
    r.push(tolerated_step(Command::Capture { name: "3_editor_loaded".to_string() }));
    r.push(
        fatal_step(
            Command::WaitFor { selector: ".d-input-wrapper .d-text".to_string() },
            "fill_title",
            Some("error_wait_title"),
            "Error waiting for title input .d-input-wrapper .d-text",
        ),
    );
    r.push(fatal_step(Command::Click, "fill_title", None, "Click title failed"));
    r.push(
        fatal_step(Command::TypeText { text: title.clone() }, "fill_title", None, "Type title failed"),
    );
    r.push(
        fatal_step(
            Command::WaitFor { selector: ".tiptap.ProseMirror".to_string() },
            "fill_body",
            Some("error_wait_content"),
            "Error waiting for content editor .tiptap.ProseMirror",
        ),
    );
    r.push(fatal_step(Command::Click, "fill_body", None, "Click content failed"));
    r.push(
        fatal_step(Command::TypeText { text: body.clone() }, "fill_body", None, "Type content failed"),
    );
    r.push(tolerated_step(Command::Capture { name: "4_content_filled".to_string() }));
    assert(steps_view(r@) =~= compose_plan(cover@, title@, body@));
    r
}

fn extra_steps(remaining: Vec<String>) -> (r: Vec<Step>)
    ensures
        steps_view(r@) == extra_plan(remaining.deep_view()),
{
    let mut r: Vec<Step> = Vec::new();
    if remaining.len() > 0 {
        let ghost files = remaining.deep_view();
        r.push(
            skipping_step(Command::WaitFor { selector: "input[type='file']".to_string() }, 2),
        );
        r.push(skipping_step(Command::SetFiles { files: remaining }, 1));
        r.push(tolerated_step(Command::Pause { millis: 2000 }));
        assert(steps_view(r@) =~= extra_plan(files));
    } else {
        assert(steps_view(r@) =~= extra_plan(remaining.deep_view()));
    }
    r
}

fn submit_steps() -> (r: Vec<Step>)
    ensures
        steps_view(r@) == submit_plan(),
{
    let mut r: Vec<Step> = Vec::new();
    r.push(tolerated_step(Command::Capture { name: "5_ready_to_publish".to_string() }));
    r.push(tolerated_step(Command::Pause { millis: 2000 }));
    r.push(tolerated_step(Command::RunScript { script: SCROLL_SCRIPT.to_string() }));
    r.push(tolerated_step(Command::Pause { millis: 500 }));
    r.push(
        fatal_step(
            Command::WaitForXPath { xpath: PUBLISH_XPATH.to_string() },
            "publish",
            Some("error_find_publish_btn"),
            "Wait for publish button failed",
        ),
    );
    r.push(
        fatal_step(
            Command::PickFirst,
            "publish",
            Some("error_no_publish_btn"),
            "Cannot find publish element",
        ),
    );
    r.push(fatal_step(Command::Click, "publish", None, "Click publish failed"));
    r.push(tolerated_step(Command::Pause { millis: 3000 }));
    r.push(tolerated_step(Command::Capture { name: "6_publish_clicked".to_string() }));
    assert(steps_view(r@) =~= submit_plan());
    r
}

proof fn lemma_steps_view_append(a: Seq<Step>, b: Seq<Step>)
    ensures
        steps_view(a + b) == steps_view(a) + steps_view(b),
{
    assert(steps_view(a + b) =~= steps_view(a) + steps_view(b));
}

/// No step of the list launches a browser.
pub open spec fn launch_free(steps: Seq<StepView>) -> bool {
    forall|i: int| 0 <= i < steps.len() ==> !((#[trigger] steps[i]).command is Launch)
}

proof fn lemma_publish_plan_guarded(
    account: Seq<char>,
    profile: Seq<char>,
    reuse: bool,
    headless: bool,
    cover: Seq<char>,
    remaining: Seq<Seq<char>>,
    title: Seq<char>,
    body: Seq<char>,
)
    ensures
        launches_guarded(
            publish_plan(account, profile, reuse, headless, cover, remaining, title, body),
        ),
{
    let head = acquire_plan(account, profile, reuse, headless);
    let tail = compose_plan(cover, title, body) + extra_plan(remaining) + submit_plan();
    let compose = compose_plan(cover, title, body);
    let extra = extra_plan(remaining);
    let submit = submit_plan();
    assert(launch_free(compose));
    assert(launch_free(extra));
    assert(launch_free(submit));
    assert(launch_free(tail)) by {
        assert forall|i: int| 0 <= i < tail.len() implies !((#[trigger] tail[i]).command is Launch) by {
            if i < compose.len() {
                assert(tail[i] == compose[i]);
            } else if i < compose.len() + extra.len() {
                assert(tail[i] == extra[i - compose.len()]);
            } else {
                assert(tail[i] == submit[i - compose.len() - extra.len()]);
            }
        }
    }
    let plan = publish_plan(account, profile, reuse, headless, cover, remaining, title, body);
    assert(plan =~= head + tail);
    assert forall|i: int|
        0 <= i < plan.len() && (#[trigger] plan[i]).command is Launch implies {
            &&& i > 0
            &&& plan[i - 1].command == (CommandView::CleanLocks {
                profile_dir: crate::workflow::launch_dir(plan[i].command),
            })
            &&& forall|j: int| 0 <= j < plan.len() && leads_to(plan, j, i) ==> j == i - 1
        } by {
        if i >= head.len() {
            assert(plan[i] == tail[i - head.len()]);
        }
        assert(!reuse && i == 1);
    }
}

/// Prepares the publish workflow of `job`, refusing a job without images
/// before any browser work.
///
/// The workflow reuses the account's registered session if there is one, and
/// otherwise cleans the locks of the account's profile directory under
/// `app_dir` and launches a browser on it.
pub fn start_publish<S>(
    job: &PublishJob,
    sessions: &SessionRegistry<S>,
    app_dir: &str,
    headless: bool,
) -> (r: Result<Workflow, PublishError>)
    requires
        sessions.wf(),
    ensures
        r is Err <==> job.images.len() == 0,
        match r {
            Ok(w) => {
                let images = job.images.deep_view();
                let cover = cover_of(images, cover_view(job));
                &&& w.wf()
                &&& w.performed@.len() == 0
                &&& w.phase@ == from_step(w.steps_spec(), 0)
                &&& w.steps_spec() == publish_plan(
                    job.account_id@,
                    profile_dir(app_dir@, job.account_id@),
                    sessions.view().contains_key(job.account_id@),
                    headless,
                    cover,
                    remove_once(images, cover),
                    job.title@,
                    job.body@,
                )
                &&& launches_guarded(w.steps_spec())
            },
            Err(e) => e == PublishError::NoImages,
        },
{
    if job.images.len() == 0 {
        return Err(PublishError::NoImages);
    }
    let cover = resolve_cover(job);
    let remaining = remaining_images(&job.images, &cover);
    let ghost rest = remaining.deep_view();
    let reuse = sessions.contains(job.account_id.as_str());
    let profile = get_browser_data_dir(app_dir, job.account_id.as_str());
    let mut steps = acquire_steps(job.account_id.as_str(), profile.as_str(), reuse, headless);
    let ghost a = steps@;
    let mut compose = compose_steps(&cover, &job.title, &job.body);
    let ghost b = compose@;
    steps.append(&mut compose);
    let mut extra = extra_steps(remaining);
    let ghost c = extra@;
    steps.append(&mut extra);
    let mut submit = submit_steps();
    let ghost d = submit@;
    steps.append(&mut submit);
    proof {
        lemma_steps_view_append(a, b);
        lemma_steps_view_append(a + b, c);
        lemma_steps_view_append(a + b + c, d);
        lemma_publish_plan_guarded(
            job.account_id@,
            profile@,
            reuse,
            headless,
            cover@,
            rest,
            job.title@,
            job.body@,
        );
    }
    Ok(Workflow::new(steps))
}

} // verus!
