//! A fail-fast interpreter for ordered browser steps.
//!
//! A workflow is a list of steps. The embedding program asks for the current
//! command, performs it against the browser, and reports the outcome; the
//! workflow decides what comes next. A step that fails either aborts the whole
//! workflow (after an optional diagnostic capture) or is skipped over, as the
//! step's own failure policy says. Nothing is ever retried.

use vstd::prelude::*;
use vstd::string::*;

verus! {

/// One unit of browser work, performed by the embedding program.
///
/// Commands that act on "the current element" use the element found by the most
/// recent `WaitFor` or `PickFirst`.
#[derive(Debug, Clone, PartialEq, Eq)]
pub enum Command {
    /// Take over the browser of the session registered for this account.
    ReuseSession { account: String },
    /// Remove stale lock artifacts from a profile directory.
    CleanLocks { profile_dir: String },
    /// Start a browser bound to a profile directory.
    Launch { profile_dir: String, headless: bool },
    /// Open a new tab and make it the interaction surface.
    OpenTab,
    /// Navigate the tab to a page.
    Navigate { url: String },
    /// Wait a fixed time for the page to settle.
    Pause { millis: u64 },
    /// Save a screenshot of the tab as `<name>.png` in the debug directory.
    Capture { name: String },
    /// Wait (bounded) for an element matching a CSS selector.
    WaitFor { selector: String },
    /// Wait (bounded) for elements matching an XPath expression.
    WaitForXPath { xpath: String },
    /// Take the first element found by the preceding `WaitForXPath`.
    PickFirst,
    /// Click the current element.
    Click,
    /// Type text into the current element.
    TypeText { text: String },
    /// Hand files to the current file input element.
    SetFiles { files: Vec<String> },
    /// Evaluate a script in the page.
    RunScript { script: String },
    /// Wait until the tab has finished navigating.
    WaitNavigated,
    /// Read the cookies of the tab.
    ReadCookies,
    /// Record the browser and tab in the session registry under this account.
    RegisterSession { account: String },
}

/// What a failure of a step does to the workflow.
#[derive(Debug, Clone, PartialEq, Eq)]
pub enum OnFailure {
    /// Stop the workflow: first capture a screenshot named `capture`, if any,
    /// then finish with a failure that names `step`.
    Abort { step: String, capture: Option<String>, context: String },
    /// Carry on, leaving out the `count` steps that follow.
    Skip { count: usize },
}

/// A command together with its failure policy.
#[derive(Debug, Clone, PartialEq, Eq)]
pub struct Step {
    pub command: Command,
    pub on_failure: OnFailure,
}

/// The outcome of a command, as reported by the embedding program.
#[derive(Debug, Clone, PartialEq, Eq)]
pub enum Event {
    Done,
    Failed(String),
}

/// Why a workflow stopped: the failing step, what it was doing, the driver's
/// own message, and the screenshot taken for it.
#[derive(Debug, Clone, PartialEq, Eq)]
pub struct StepFailure {
    pub step: String,
    pub context: String,
    pub detail: String,
    pub capture: Option<String>,
}

/// Where a workflow stands.
#[derive(Debug, PartialEq, Eq)]
pub enum Phase {
    /// The step at `index` is to be performed next.
    Running { index: usize },
    /// A step failed fatally; `command` captures the diagnostic screenshot.
    Capturing { command: Command, failure: StepFailure },
    /// The workflow is over.
    Finished { result: Result<(), StepFailure> },
}

pub ghost enum CommandView {
    ReuseSession { account: Seq<char> },
    CleanLocks { profile_dir: Seq<char> },
    Launch { profile_dir: Seq<char>, headless: bool },
    OpenTab,
    Navigate { url: Seq<char> },
    Pause { millis: u64 },
    Capture { name: Seq<char> },
    WaitFor { selector: Seq<char> },
    WaitForXPath { xpath: Seq<char> },
    PickFirst,
    Click,
    TypeText { text: Seq<char> },
    SetFiles { files: Seq<Seq<char>> },
    RunScript { script: Seq<char> },
    WaitNavigated,
    ReadCookies,
    RegisterSession { account: Seq<char> },
}

pub ghost enum OnFailureView {
    Abort { step: Seq<char>, capture: Option<Seq<char>>, context: Seq<char> },
    Skip { count: nat },
}

pub ghost struct StepView {
    pub command: CommandView,
    pub on_failure: OnFailureView,
}

pub ghost enum EventView {
    Done,
    Failed(Seq<char>),
}

pub ghost struct FailureView {
    pub step: Seq<char>,
    pub context: Seq<char>,
    pub detail: Seq<char>,
    pub capture: Option<Seq<char>>,
}

pub ghost enum PhaseView {
    Running { index: int },
    Capturing { name: Seq<char>, failure: FailureView },
    Finished { result: Result<(), FailureView> },
}

pub open spec fn opt_view(o: Option<String>) -> Option<Seq<char>> {
    match o {
        Some(s) => Some(s@),
        None => None,
    }
}

impl View for Command {
    type V = CommandView;

    open spec fn view(&self) -> CommandView {
        match self {
            Command::ReuseSession { account } => CommandView::ReuseSession { account: account@ },
            Command::CleanLocks { profile_dir } => CommandView::CleanLocks { profile_dir: profile_dir@ },
            Command::Launch { profile_dir, headless } => CommandView::Launch {
                profile_dir: profile_dir@,
                headless: *headless,
            },
            Command::OpenTab => CommandView::OpenTab,
            Command::Navigate { url } => CommandView::Navigate { url: url@ },
            Command::Pause { millis } => CommandView::Pause { millis: *millis },
            Command::Capture { name } => CommandView::Capture { name: name@ },
            Command::WaitFor { selector } => CommandView::WaitFor { selector: selector@ },
            Command::WaitForXPath { xpath } => CommandView::WaitForXPath { xpath: xpath@ },
            Command::PickFirst => CommandView::PickFirst,
            Command::Click => CommandView::Click,
            Command::TypeText { text } => CommandView::TypeText { text: text@ },
            Command::SetFiles { files } => CommandView::SetFiles { files: files.deep_view() },
            Command::RunScript { script } => CommandView::RunScript { script: script@ },
            Command::WaitNavigated => CommandView::WaitNavigated,
            Command::ReadCookies => CommandView::ReadCookies,
            Command::RegisterSession { account } => CommandView::RegisterSession { account: account@ },
        }
    }
}

impl View for OnFailure {
    type V = OnFailureView;

    open spec fn view(&self) -> OnFailureView {
        match self {
            OnFailure::Abort { step, capture, context } => OnFailureView::Abort {
                step: step@,
                capture: opt_view(*capture),
                context: context@,
            },
            OnFailure::Skip { count } => OnFailureView::Skip { count: *count as nat },
        }
    }
}

impl View for Step {
    type V = StepView;

    open spec fn view(&self) -> StepView {
        StepView { command: self.command@, on_failure: self.on_failure@ }
    }
}

impl View for Event {
    type V = EventView;

    open spec fn view(&self) -> EventView {
        match self {
            Event::Done => EventView::Done,
            Event::Failed(d) => EventView::Failed(d@),
        }
    }
}

impl View for StepFailure {
    type V = FailureView;

    open spec fn view(&self) -> FailureView {
        FailureView {
            step: self.step@,
            context: self.context@,
            detail: self.detail@,
            capture: opt_view(self.capture),
        }
    }
}

impl View for Phase {
    type V = PhaseView;

    open spec fn view(&self) -> PhaseView {
        match self {
            Phase::Running { index } => PhaseView::Running { index: *index as int },
            Phase::Capturing { command, failure } => PhaseView::Capturing {
                name: match command@ {
                    CommandView::Capture { name } => name,
                    _ => Seq::empty(),
                },
                failure: failure@,
            },
            Phase::Finished { result } => PhaseView::Finished {
                result: match result {
                    Ok(()) => Ok(()),
                    Err(f) => Err(f@),
                },
            },
        }
    }
}

/// The views of a list of steps.
pub open spec fn steps_view(steps: Seq<Step>) -> Seq<StepView> {
    steps.map_values(|s: Step| s@)
}

/// A command that cannot fail the workflow: its failure skips nothing.
pub open spec fn tolerated(command: CommandView) -> StepView {
    StepView { command, on_failure: OnFailureView::Skip { count: 0 } }
}

/// A command whose failure aborts the workflow.
pub open spec fn fatal(
    command: CommandView,
    step: Seq<char>,
    capture: Option<Seq<char>>,
    context: Seq<char>,
) -> StepView {
    StepView { command, on_failure: OnFailureView::Abort { step, capture, context } }
}

/// The phase that starts at step `k`: running it, or finished with success
/// when no step is left.
pub open spec fn from_step(steps: Seq<StepView>, k: int) -> PhaseView {
    if k < steps.len() {
        PhaseView::Running { index: k }
    } else {
        PhaseView::Finished { result: Ok(()) }
    }
}

/// The phase that follows `phase` once the current command had the outcome `event`.
pub open spec fn next_phase(steps: Seq<StepView>, phase: PhaseView, event: EventView) -> PhaseView {
    match phase {
        PhaseView::Running { index } => match event {
            EventView::Done => from_step(steps, index + 1),
            EventView::Failed(detail) => match steps[index].on_failure {
                OnFailureView::Skip { count } => from_step(steps, index + 1 + count),
                OnFailureView::Abort { step, capture, context } => {
                    let failure = FailureView { step, context, detail, capture };
                    match capture {
                        Some(name) => PhaseView::Capturing { name, failure },
                        None => PhaseView::Finished { result: Err(failure) },
                    }
                },
            },
        },
        PhaseView::Capturing { name, failure } => PhaseView::Finished { result: Err(failure) },
        PhaseView::Finished { result } => phase,
    }
}

/// Step `i` may run right after step `j`: it follows it, or step `j` failed
/// and its policy skipped exactly the steps in between.
pub open spec fn leads_to(steps: Seq<StepView>, j: int, i: int) -> bool {
    i == j + 1 || match steps[j].on_failure {
        OnFailureView::Skip { count } => i == j + 1 + count,
        OnFailureView::Abort { .. } => false,
    }
}

/// A step whose failure is tolerated and skips nothing.
pub fn tolerated_step(command: Command) -> (r: Step)
    ensures
        r@ == tolerated(command@),
{
    Step { command, on_failure: OnFailure::Skip { count: 0 } }
}

/// A step whose failure skips the `count` steps after it.
pub fn skipping_step(command: Command, count: usize) -> (r: Step)
    ensures
        r@ == (StepView { command: command@, on_failure: OnFailureView::Skip { count: count as nat } }),
{
    Step { command, on_failure: OnFailure::Skip { count } }
}

/// A step whose failure aborts the workflow under the identifier `step`,
/// after capturing a screenshot named `capture`, if given.
pub fn fatal_step(command: Command, step: &str, capture: Option<&str>, context: &str) -> (r: Step)
    ensures
        r@ == fatal(
            command@,
            step@,
            match capture {
                Some(c) => Some(c@),
                None => None,
            },
            context@,
        ),
{
    let capture = match capture {
        Some(c) => Some(c.to_string()),
        None => None,
    };
    Step {
        command,
        on_failure: OnFailure::Abort { step: step.to_string(), capture, context: context.to_string() },
    }
}

/// The profile directory of a launch command.
pub open spec fn launch_dir(c: CommandView) -> Seq<char> {
    match c {
        CommandView::Launch { profile_dir, .. } => profile_dir,
        _ => Seq::empty(),
    }
}

/// Every launch in the list comes right after a lock cleanup of the same
/// profile directory, and no other step can lead to it.
pub open spec fn launches_guarded(steps: Seq<StepView>) -> bool {
    forall|i: int|
        0 <= i < steps.len() && (#[trigger] steps[i]).command is Launch ==> {
            &&& i > 0
            &&& steps[i - 1].command == (CommandView::CleanLocks {
                profile_dir: launch_dir(steps[i].command),
            })
            &&& forall|j: int| 0 <= j < steps.len() && leads_to(steps, j, i) ==> j == i - 1
        }
}

/// In a workflow whose launches are guarded, a browser is only ever launched
/// right after the lock artifacts of its profile directory were cleaned: both
/// for every launch performed so far and for a launch about to be performed.
pub proof fn lemma_clean_before_launch(w: &Workflow)
    requires
        w.wf(),
        launches_guarded(w.steps_spec()),
    ensures
        forall|k: int|
            0 <= k < w.performed@.len() && (#[trigger] w.steps_spec()[w.performed@[k]]).command is Launch
                ==> k > 0 && w.steps_spec()[w.performed@[k - 1]].command == (CommandView::CleanLocks {
                profile_dir: launch_dir(w.steps_spec()[w.performed@[k]].command),
            }),
        match w.phase@ {
            PhaseView::Running { index } => w.steps_spec()[index].command is Launch ==> {
                &&& w.performed@.len() > 0
                &&& w.steps_spec()[w.performed@.last()].command == (CommandView::CleanLocks {
                    profile_dir: launch_dir(w.steps_spec()[index].command),
                })
            },
            _ => true,
        },
{
    let steps = w.steps_spec();
    let done = w.performed@;
    assert forall|k: int|
        0 <= k < done.len() && (#[trigger] steps[done[k]]).command is Launch implies k > 0
            && steps[done[k - 1]].command == (CommandView::CleanLocks {
            profile_dir: launch_dir(steps[done[k]].command),
        }) by {
        let i = done[k];
        assert(0 <= i < steps.len());
        if k > 0 {
            assert(leads_to(steps, done[k - 1], done[k]));
        }
    }
    match w.phase@ {
        PhaseView::Running { index } => {
            if steps[index].command is Launch {
                if done.len() > 0 {
                    assert(0 <= done.last() < steps.len());
                }
            }
        },
        _ => {},
    }
}

impl StepFailure {
    /// A message for people: what the step was doing, the driver's words, and
    /// where to find the screenshot.
    pub fn message(&self) -> (r: String)
        ensures
            r@ == self.context@ + ": "@ + self.detail@ + match self.capture {
                Some(c) => ". See "@ + c@ + ".png"@,
                None => Seq::empty(),
            },
    {
        let mut r = self.context.clone();
        r.append(": ");
        r.append(self.detail.as_str());
        match &self.capture {
            Some(c) => {
                r.append(". See ");
                r.append(c.as_str());
                r.append(".png");
            },
            None => {},
        }
        r
    }
}

/// A browser work list driven one command at a time.
pub struct Workflow {
    pub steps: Vec<Step>,
    pub phase: Phase,
    /// The indices of the steps performed so far, in order.
    pub performed: Ghost<Seq<int>>,
}

impl Workflow {
    pub open spec fn steps_spec(&self) -> Seq<StepView> {
        steps_view(self.steps@)
    }

    /// The phase agrees with the steps, and the steps performed form a chain
    /// from the first step, each allowed to follow the one before.
    pub open spec fn wf(&self) -> bool {
        let steps = self.steps_spec();
        let done = self.performed@;
        &&& match self.phase {
            Phase::Running { index } => index < steps.len(),
            Phase::Capturing { command, failure } => command@ == (CommandView::Capture {
                name: self.phase@->Capturing_name,
            }) && failure.capture is Some && opt_view(failure.capture) == Some(
                self.phase@->Capturing_name,
            ),
            Phase::Finished { .. } => true,
        }
        &&& done.len() == 0 ==> self.phase@ == from_step(steps, 0)
        &&& done.len() > 0 ==> done[0] == 0
        &&& forall|k: int| 0 <= k < done.len() ==> 0 <= #[trigger] done[k] < steps.len()
        &&& forall|k: int|
            0 < k < done.len() ==> leads_to(steps, #[trigger] done[k - 1], done[k])
        &&& done.len() > 0 ==> match self.phase@ {
            PhaseView::Running { index } => leads_to(steps, done.last(), index),
            _ => true,
        }
    }

    /// Starts a workflow at its first step.
    pub fn new(steps: Vec<Step>) -> (r: Workflow)
        ensures
            r.wf(),
            r.steps@ == steps@,
            r.phase@ == from_step(steps_view(steps@), 0),
            r.performed@.len() == 0,
    {
        let phase = if steps.len() > 0 {
            Phase::Running { index: 0 }
        } else {
            Phase::Finished { result: Ok(()) }
        };
        Workflow { steps, phase, performed: Ghost(Seq::empty()) }
    }

    /// The command to perform now, or `None` once the workflow is over.
    pub fn current(&self) -> (r: Option<&Command>)
        requires
            self.wf(),
        ensures
            match self.phase@ {
                PhaseView::Running { index } => r == Some(&self.steps@[index].command),
                PhaseView::Capturing { name, .. } => r is Some && r->0@ == (CommandView::Capture { name }),
                PhaseView::Finished { .. } => r is None,
            },
    {
        match &self.phase {
            Phase::Running { index } => Some(&self.steps[*index].command),
            Phase::Capturing { command, .. } => Some(command),
            Phase::Finished { .. } => None,
        }
    }

    /// The outcome, once the workflow is over.
    pub fn outcome(&self) -> (r: Option<&Result<(), StepFailure>>)
        ensures
            match self.phase {
                Phase::Finished { result } => r == Some(&result),
                _ => r is None,
            },
    {
        match &self.phase {
            Phase::Finished { result } => Some(result),
            _ => None,
        }
    }

    /// Reports the outcome of the current command and moves on.
    pub fn advance(&mut self, event: Event)
        requires
            old(self).wf(),
            !(old(self).phase is Finished),
        ensures
            final(self).wf(),
            final(self).steps@ == old(self).steps@,
            final(self).phase@ == next_phase(old(self).steps_spec(), old(self).phase@, event@),
            match old(self).phase@ {
                PhaseView::Running { index } => final(self).performed@ == old(self).performed@.push(index),
                _ => final(self).performed@ == old(self).performed@,
            },
    {
        let ghost steps = self.steps_spec();
        let mut phase = Phase::Finished { result: Ok(()) };
        std::mem::swap(&mut phase, &mut self.phase);
        match phase {
            Phase::Running { index } => {
                let ghost old_done = self.performed@;
                self.performed = Ghost(old_done.push(index as int));
                let len = self.steps.len();
                let next = match event {
                    Event::Done => {
                        if index + 1 < len {
                            Phase::Running { index: index + 1 }
                        } else {
                            Phase::Finished { result: Ok(()) }
                        }
                    },
                    Event::Failed(detail) => match &self.steps[index].on_failure {
                        OnFailure::Skip { count } => {
                            if *count < len - index - 1 {
                                Phase::Running { index: index + 1 + *count }
                            } else {
                                Phase::Finished { result: Ok(()) }
                            }
                        },
                        OnFailure::Abort { step, capture, context } => {
                            let failure = StepFailure {
                                step: step.clone(),
                                context: context.clone(),
                                detail,
                                capture: match capture {
                                    Some(c) => Some(c.clone()),
                                    None => None,
                                },
                            };
                            match capture {
                                Some(c) => Phase::Capturing {
                                    command: Command::Capture { name: c.clone() },
                                    failure,
                                },
                                None => Phase::Finished { result: Err(failure) },
                            }
                        },
                    },
                };
                self.phase = next;
                proof {
                    let done = self.performed@;
                    assert(steps[index as int] == self.steps@[index as int]@);
                    assert forall|k: int| 0 < k < done.len() implies leads_to(
                        steps,
                        #[trigger] done[k - 1],
                        done[k],
                    ) by {
                        if k < done.len() - 1 {
                            assert(done[k - 1] == old_done[k - 1]);
                            assert(done[k] == old_done[k]);
                        }
                    }
                }
            },
            Phase::Capturing { command, failure } => {
                self.phase = Phase::Finished { result: Err(failure) };
            },
            Phase::Finished { result } => {
                self.phase = Phase::Finished { result };
            },
        }
    }
}

} // verus!
