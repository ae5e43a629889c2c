//! Signing accounts in: checking an existing sign-in, requesting an SMS code,
//! submitting it, and deriving the account's identity.

use vstd::prelude::*;
use vstd::string::*;

use crate::model::{Identity, User, XhsUserInfo};
use crate::registry::SessionRegistry;
use crate::storage::{get_browser_data_dir, profile_dir};
use crate::workflow::{
    fatal, fatal_step, from_step, launches_guarded, leads_to, steps_view, tolerated,
    tolerated_step, Command, CommandView, Step, StepView, Workflow,
};

verus! {

/// The sign-in page.
pub const LOGIN_URL: &'static str = "https://creator.xiaohongshu.com/login";

/// A page that only a signed-in account can see.
pub const VALIDATE_URL: &'static str = "https://creator.xiaohongshu.com/publish/publish";

/// The element that shows the signed-in user.
pub const USER_INFO_SELECTOR: &'static str = ".user-info";

/// The element that holds the signed-in user's display name.
pub const NAME_SELECTOR: &'static str = ".name-box";

/// The image element of the signed-in user's avatar.
pub const AVATAR_SELECTOR: &'static str = ".user_avatar";

/// The phone-number field of the sign-in form.
pub const PHONE_INPUT_SELECTOR: &'static str = "input[placeholder='手机号']";

/// The "send code" control, matched by its visible text.
pub const SEND_CODE_XPATH: &'static str = "//div[text()='发送验证码']";

/// The verification-code field of the sign-in form.
pub const CODE_INPUT_SELECTOR: &'static str = "input[placeholder='验证码']";

/// The submit control of the sign-in form, matched by its visible text.
pub const SUBMIT_XPATH: &'static str = "//button[contains(., '登 录')]";

/// The local-storage key of the site's identity record.
pub const USER_INFO_STORAGE_KEY: &'static str = "USER_INFO_FOR_BIZ";

/// The display name used when the name probe finds nothing.
pub const UNKNOWN_NICKNAME: &'static str = "未知用户";

/// The display name used when the site keeps no identity record.
pub const DEFAULT_NICKNAME: &'static str = "小红书用户";

/// The step identifier of a failed sign-in check.
pub const NOT_SIGNED_IN_STEP: &'static str = "validate";

/// The reply of a sign-in request once the code was sent.
pub const CODE_SENT_REPLY: &'static str = "Verification code sent";

/// The prefix of the reply of a sign-in request for an account already signed in.
pub const ALREADY_SIGNED_IN_PREFIX: &'static str = "already_logged_in:";

/// Why a sign-in step could not start.
#[derive(Debug, Clone, Copy, PartialEq, Eq)]
pub enum LoginError {
    /// No session awaits a verification code for the account.
    SessionNotFound,
}

/// How a sign-in request goes on.
pub enum LoginStart {
    /// The account is already signed in: no code is requested.
    AlreadyAuthenticated(User),
    /// The code must be requested by running this workflow.
    RequestCode(Workflow),
}

/// Launching a browser on the account's profile and checking for the
/// signed-in indicator.
pub open spec fn validate_plan(profile: Seq<char>, headless: bool) -> Seq<StepView> {
    seq![
        tolerated(CommandView::CleanLocks { profile_dir: profile }),
        fatal(
            CommandView::Launch { profile_dir: profile, headless },
            "launch"@,
            None,
            "Browser launch failed"@,
        ),
        fatal(CommandView::OpenTab, "open_tab"@, None, "New tab failed"@),
        fatal(CommandView::Navigate { url: VALIDATE_URL@ }, "navigate"@, None, "Navigation failed"@),
        tolerated(CommandView::Pause { millis: 2000 }),
        fatal(
            CommandView::WaitFor { selector: USER_INFO_SELECTOR@ },
            NOT_SIGNED_IN_STEP@,
            Some("validate_login_failed"@),
            "Not signed in, or the sign-in has expired"@,
        ),
        tolerated(CommandView::Capture { name: "validate_login_success"@ }),
    ]
}

/// Launching a browser on the sign-in page, typing the account's phone number,
/// requesting the code, and registering the session.
pub open spec fn code_request_plan(account: Seq<char>, profile: Seq<char>, headless: bool) -> Seq<
    StepView,
> {
    seq![
        tolerated(CommandView::CleanLocks { profile_dir: profile }),
        fatal(
            CommandView::Launch { profile_dir: profile, headless },
            "launch"@,
            None,
            "Browser launch failed"@,
        ),
        fatal(CommandView::OpenTab, "open_tab"@, None, "New tab failed"@),
        fatal(CommandView::Navigate { url: LOGIN_URL@ }, "navigate"@, None, "Navigation failed"@),
        tolerated(CommandView::Capture { name: "login_page_opened"@ }),
        tolerated(CommandView::Pause { millis: 3000 }),
        tolerated(CommandView::Capture { name: "login_page_settled"@ }),
        fatal(
            CommandView::WaitFor { selector: PHONE_INPUT_SELECTOR@ },
            "enter_phone"@,
            None,
            "Phone number field not found"@,
        ),
        fatal(CommandView::TypeText { text: account }, "enter_phone"@, None, "Typing the phone number failed"@),
        fatal(
            CommandView::WaitForXPath { xpath: SEND_CODE_XPATH@ },
            "send_code"@,
            None,
            "Send-code control not found"@,
        ),
        fatal(CommandView::PickFirst, "send_code"@, None, "Send-code control not found"@),
        fatal(CommandView::Click, "send_code"@, None, "Clicking send-code failed"@),
        fatal(
            CommandView::RegisterSession { account },
            "register_session"@,
            None,
            "Registering the session failed"@,
        ),
    ]
}

/// Typing the code into the waiting session, submitting it, and waiting for
/// the signed-in page.
pub open spec fn code_submit_plan(code: Seq<char>) -> Seq<StepView> {
    seq![
        fatal(
            CommandView::WaitFor { selector: CODE_INPUT_SELECTOR@ },
            "enter_code"@,
            None,
            "Code field not found"@,
        ),
        fatal(CommandView::TypeText { text: code }, "enter_code"@, None, "Typing the code failed"@),
        fatal(
            CommandView::WaitForXPath { xpath: SUBMIT_XPATH@ },
            "submit_code"@,
            None,
            "Sign-in control not found"@,
        ),
        fatal(CommandView::PickFirst, "submit_code"@, None, "Sign-in control not found"@),
        fatal(CommandView::Click, "submit_code"@, None, "Clicking sign-in failed"@),
        fatal(CommandView::WaitNavigated, "submit_code"@, None, "Waiting for the signed-in page failed"@),
        fatal(CommandView::ReadCookies, "read_identity"@, None, "Reading cookies failed"@),
    ]
}

fn launch_steps(profile: &str, headless: bool) -> (r: Vec<Step>)
    ensures
        r@.len() == 3,
        r@[0]@ == tolerated(CommandView::CleanLocks { profile_dir: profile@ }),
        r@[1]@ == fatal(
            CommandView::Launch { profile_dir: profile@, headless },
            "launch"@,
            None,
            "Browser launch failed"@,
        ),
        r@[2]@ == fatal(CommandView::OpenTab, "open_tab"@, None, "New tab failed"@),
{
    let mut r: Vec<Step> = Vec::new();
    r.push(tolerated_step(Command::CleanLocks { profile_dir: profile.to_string() }));
    r.push(
        fatal_step(
            Command::Launch { profile_dir: profile.to_string(), headless },
            "launch",
            None,
            "Browser launch failed",
        ),
    );
    r.push(fatal_step(Command::OpenTab, "open_tab", None, "New tab failed"));
    r
}

/// Only the second step launches, right after the cleanup of its profile.
proof fn lemma_single_launch_guarded(steps: Seq<StepView>, profile: Seq<char>, headless: bool)
    requires
        steps.len() >= 2,
        steps[0] == tolerated(CommandView::CleanLocks { profile_dir: profile }),
        steps[1].command == (CommandView::Launch { profile_dir: profile, headless }),
        forall|i: int| 2 <= i < steps.len() ==> !((#[trigger] steps[i]).command is Launch),
    ensures
        launches_guarded(steps),
{
    assert forall|i: int|
        0 <= i < steps.len() && (#[trigger] steps[i]).command is Launch implies {
            &&& i > 0
            &&& steps[i - 1].command == (CommandView::CleanLocks {
                profile_dir: crate::workflow::launch_dir(steps[i].command),
            })
            &&& forall|j: int| 0 <= j < steps.len() && leads_to(steps, j, i) ==> j == i - 1
        } by {
        assert(i == 1);
    }
}

/// The sign-in check for `account`: a fresh browser on the account's profile
/// directory under `app_dir`, looking for the signed-in indicator.
pub fn validate_workflow(app_dir: &str, account: &str, headless: bool) -> (r: Workflow)
    ensures
        r.wf(),
        r.performed@.len() == 0,
        r.phase@ == from_step(r.steps_spec(), 0),
        r.steps_spec() == validate_plan(profile_dir(app_dir@, account@), headless),
        launches_guarded(r.steps_spec()),
{
    let profile = get_browser_data_dir(app_dir, account);
    let mut r = launch_steps(profile.as_str(), headless);
    r.push(
        fatal_step(
            Command::Navigate { url: VALIDATE_URL.to_string() },
            "navigate",
            None,
            "Navigation failed",
        ),
    );
    r.push(tolerated_step(Command::Pause { millis: 2000 }));
    r.push(
        fatal_step(
            Command::WaitFor { selector: USER_INFO_SELECTOR.to_string() },
            NOT_SIGNED_IN_STEP,
            Some("validate_login_failed"),
            "Not signed in, or the sign-in has expired",
        ),
    );
    r.push(tolerated_step(Command::Capture { name: "validate_login_success".to_string() }));
    let ghost plan = validate_plan(profile@, headless);
    assert(steps_view(r@) =~= plan);
    proof {
        assert forall|i: int| 2 <= i < plan.len() implies !((#[trigger] plan[i]).command is Launch) by {
        }
        lemma_single_launch_guarded(plan, profile@, headless);
    }
    Workflow::new(r)
}

/// How a sign-in request for `account` goes on, given the outcome of the
/// sign-in check: an account already signed in gets its identity back and no
/// code is requested; any other gets the code-request workflow.
pub fn start_login(validated: Result<User, String>, app_dir: &str, account: &str, headless: bool) -> (r:
    LoginStart)
    ensures
        match validated {
            Ok(user) => r == LoginStart::AlreadyAuthenticated(user),
            Err(_) => match r {
                LoginStart::RequestCode(w) => {
                    &&& w.wf()
                    &&& w.performed@.len() == 0
                    &&& w.phase@ == from_step(w.steps_spec(), 0)
                    &&& w.steps_spec() == code_request_plan(
                        account@,
                        profile_dir(app_dir@, account@),
                        headless,
                    )
                    &&& launches_guarded(w.steps_spec())
                },
                LoginStart::AlreadyAuthenticated(_) => false,
            },
        },
{
    match validated {
        Ok(user) => LoginStart::AlreadyAuthenticated(user),
        Err(_) => {
            let profile = get_browser_data_dir(app_dir, account);
            let mut r = launch_steps(profile.as_str(), headless);
            r.push(
                fatal_step(
                    Command::Navigate { url: LOGIN_URL.to_string() },
                    "navigate",
                    None,
                    "Navigation failed",
                ),
            );
            r.push(tolerated_step(Command::Capture { name: "login_page_opened".to_string() }));
            r.push(tolerated_step(Command::Pause { millis: 3000 }));
            r.push(tolerated_step(Command::Capture { name: "login_page_settled".to_string() }));
            r.push(
                fatal_step(
                    Command::WaitFor { selector: PHONE_INPUT_SELECTOR.to_string() },
                    "enter_phone",
                    None,
                    "Phone number field not found",
                ),
            );
            r.push(
                fatal_step(
                    Command::TypeText { text: account.to_string() },
                    "enter_phone",
                    None,
                    "Typing the phone number failed",
                ),
            );
            r.push(
                fatal_step(
                    Command::WaitForXPath { xpath: SEND_CODE_XPATH.to_string() },
                    "send_code",
                    None,
                    "Send-code control not found",
                ),
            );
            r.push(fatal_step(Command::PickFirst, "send_code", None, "Send-code control not found"));
            r.push(fatal_step(Command::Click, "send_code", None, "Clicking send-code failed"));
            r.push(
                fatal_step(
                    Command::RegisterSession { account: account.to_string() },
                    "register_session",
                    None,
                    "Registering the session failed",
                ),
            );
            let ghost plan = code_request_plan(account@, profile@, headless);
            assert(steps_view(r@) =~= plan);
            proof {
                assert forall|i: int| 2 <= i < plan.len() implies !((#[trigger] plan[i]).command is Launch) by {
                }
                lemma_single_launch_guarded(plan, profile@, headless);
            }
            LoginStart::RequestCode(Workflow::new(r))
        },
    }
}

/// The code-submission workflow for `account`, which needs the session that
/// the code request registered.
pub fn submit_code<S>(sessions: &SessionRegistry<S>, account: &str, code: &str) -> (r: Result<
    Workflow,
    LoginError,
>)
    requires
        sessions.wf(),
    ensures
        r is Err <==> !sessions.view().contains_key(account@),
        match r {
            Ok(w) => {
                &&& w.wf()
                &&& w.performed@.len() == 0
                &&& w.phase@ == from_step(w.steps_spec(), 0)
                &&& w.steps_spec() == code_submit_plan(code@)
            },
            Err(e) => e == LoginError::SessionNotFound,
        },
{
    if !sessions.contains(account) {
        return Err(LoginError::SessionNotFound);
    }
    let mut r: Vec<Step> = Vec::new();
    r.push(
        fatal_step(
            Command::WaitFor { selector: CODE_INPUT_SELECTOR.to_string() },
            "enter_code",
            None,
            "Code field not found",
        ),
    );
    r.push(
        fatal_step(
            Command::TypeText { text: code.to_string() },
            "enter_code",
            None,
            "Typing the code failed",
        ),
    );
    r.push(
        fatal_step(
            Command::WaitForXPath { xpath: SUBMIT_XPATH.to_string() },
            "submit_code",
            None,
            "Sign-in control not found",
        ),
    );
    r.push(fatal_step(Command::PickFirst, "submit_code", None, "Sign-in control not found"));
    r.push(fatal_step(Command::Click, "submit_code", None, "Clicking sign-in failed"));
    r.push(
        fatal_step(
            Command::WaitNavigated,
            "submit_code",
            None,
            "Waiting for the signed-in page failed",
        ),
    );
    r.push(fatal_step(Command::ReadCookies, "read_identity", None, "Reading cookies failed"));
    assert(steps_view(r@) =~= code_submit_plan(code@));
    Ok(Workflow::new(r))
}

/// The value that follows the first attribute name equal to `name` in a flat
/// name/value list, looking at the names from position `k` on (names sit at
/// every other position).
pub open spec fn attribute_from(attrs: Seq<Seq<char>>, name: Seq<char>, k: nat) -> Option<Seq<char>>
    decreases attrs.len() + 1 - k,
{
    if k >= attrs.len() {
        None
    } else if attrs[k as int] == name {
        if k + 1 < attrs.len() {
            Some(attrs[k + 1 as int])
        } else {
            None
        }
    } else {
        attribute_from(attrs, name, k + 2)
    }
}

/// The value of the attribute `name` in a flat name/value attribute list, as
/// the browser reports an element's attributes.
pub fn attribute_value(attrs: &Vec<String>, name: &str) -> (r: Option<String>)
    ensures
        crate::workflow::opt_view(r) == attribute_from(attrs.deep_view(), name@, 0),
{
    let ghost all = attrs.deep_view();
    let key = String::from_str(name);
    let mut i: usize = 0;
    while i < attrs.len()
        invariant
            i <= attrs.len(),
            all == attrs.deep_view(),
            key@ == name@,
            attribute_from(all, name@, 0) == attribute_from(all, name@, i as nat),
        decreases attrs.len() - i,
    {
        assert(all[i as int] == attrs[i as int]@);
        assert(attribute_from(all, name@, i as nat) == if all[i as int] == name@ {
            if i + 1 < all.len() {
                Some(all[i + 1])
            } else {
                None
            }
        } else {
            attribute_from(all, name@, (i + 2) as nat)
        });
        if attrs[i] == key {
            if i + 1 < attrs.len() {
                assert(all[i + 1] == attrs[i + 1]@);
                return Some(attrs[i + 1].clone());
            } else {
                return None;
            }
        }
        if attrs.len() - i <= 2 {
            assert(attribute_from(all, name@, (i + 2) as nat) == None::<Seq<char>>);
            return None;
        }
        i = i + 2;
    }
    None
}

/// The display name shown by the name probe, or the placeholder when the
/// probe found nothing.
pub open spec fn probed_nickname(name: Option<Seq<char>>) -> Seq<char> {
    match name {
        Some(n) => if n.len() > 0 {
            n
        } else {
            UNKNOWN_NICKNAME@
        },
        None => UNKNOWN_NICKNAME@,
    }
}

/// The identity of a signed-in `account` from the two element probes of the
/// sign-in check: the text of the name element and the attributes of the
/// avatar element (`None` where a probe failed). The avatar is the image's
/// `src`.
pub fn identity_from_probes(account: &str, name: Option<String>, avatar_attrs: Option<Vec<String>>) -> (r:
    Identity)
    ensures
        r.account_id@ == account@,
        r.external_user_id is None,
        r.nickname@ == probed_nickname(crate::workflow::opt_view(name)),
        r.nickname@.len() > 0,
        crate::workflow::opt_view(r.avatar) == match avatar_attrs {
            Some(a) => attribute_from(a.deep_view(), "src"@, 0),
            None => None,
        },
{
    proof {
        reveal_strlit("未知用户");
    }
    let nickname = match name {
        Some(n) => if n.as_str().unicode_len() > 0 {
            n
        } else {
            UNKNOWN_NICKNAME.to_string()
        },
        None => UNKNOWN_NICKNAME.to_string(),
    };
    let avatar = match &avatar_attrs {
        Some(a) => attribute_value(a, "src"),
        None => None,
    };
    Identity { account_id: account.to_string(), external_user_id: None, nickname, avatar }
}

/// The identity of a signed-in `account` from the site's identity record,
/// or a placeholder identity when the site keeps none.
pub fn identity_from_user_info(account: &str, info: Option<XhsUserInfo>) -> (r: Identity)
    ensures
        r.account_id@ == account@,
        match info {
            Some(i) => {
                &&& r.external_user_id == Some(i.user_id)
                &&& r.nickname@ == i.user_name@
                &&& r.avatar == Some(i.user_avatar)
            },
            None => r.external_user_id is None && r.nickname@ == DEFAULT_NICKNAME@ && r.avatar is None,
        },
{
    match info {
        Some(i) => Identity {
            account_id: account.to_string(),
            external_user_id: Some(i.user_id),
            nickname: i.user_name,
            avatar: Some(i.user_avatar),
        },
        None => Identity {
            account_id: account.to_string(),
            external_user_id: None,
            nickname: DEFAULT_NICKNAME.to_string(),
            avatar: None,
        },
    }
}

/// The reply to a sign-in request for an account already signed in:
/// the prefix followed by the serialized user.
pub fn already_signed_in_reply(user_json: &str) -> (r: String)
    ensures
        r@ == ALREADY_SIGNED_IN_PREFIX@ + user_json@,
{
    let mut r = ALREADY_SIGNED_IN_PREFIX.to_string();
    r.append(user_json);
    r
}

} // verus!
