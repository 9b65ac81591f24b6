//! The task engine's decisions: which remote invocation a parsed command
//! turns into, which verdict an execution outcome maps to, and which
//! chat-side actions report that verdict back. Every decision is a pure,
//! verified function; the surrounding loop — receiving tasks, spawning
//! `ssh`, calling the chat API — performs exactly what these functions
//! return.

use crate::bot_cmd::{
    outcome_view,
    parse_outcome_model,
    LookupOutcomeView,
    SlackMessageContext,
    GsctlCommand,
    GsctlCommandView,
    GsctlError,
    GsctlErrorView,
    SubCommand,
    SubCommandView,
};
use crate::excutor::{RawCommand, RawCommandView, SshExcutor, SshExcutorView};
use crate::text::{all_digits, dec_body, dec_val, parse_u16, tokens};
use crate::wakeup_word;
use crate::wakeup_word_for_user;
use crate::wakeup_word_for_user_str;
use vstd::prelude::*;
use vstd::string::*;

verus! {

/// The secure-shell port used when configuration names none.
pub const DEFAULT_PORT: u16 = 22;

/// The startup configuration the engine's decisions read: the two target
/// ports and the storage API's address and secret.
#[derive(Debug, Clone)]
pub struct ExecConfig {
    pub ansible_port: u16,
    pub storage_port: u16,
    pub storage_url: String,
    pub secret_token: String,
}

/// Mathematical image of [`ExecConfig`].
pub struct ExecConfigView {
    pub ansible_port: u16,
    pub storage_port: u16,
    pub storage_url: Seq<char>,
    pub secret_token: Seq<char>,
}

impl View for ExecConfig {
    type V = ExecConfigView;

    open spec fn view(&self) -> ExecConfigView {
        ExecConfigView {
            ansible_port: self.ansible_port,
            storage_port: self.storage_port,
            storage_url: self.storage_url@,
            secret_token: self.secret_token@,
        }
    }
}

/// The port a configuration value denotes: its decimal reading where it
/// is present and parses as a `u16` (an optional leading `+`, then
/// digits, in range), and the default port otherwise.
pub open spec fn port_or_default_model(v: Option<Seq<char>>) -> u16 {
    match v {
        Some(s) => if dec_body(s).len() > 0 && all_digits(dec_body(s)) && dec_val(dec_body(s))
            <= u16::MAX as int {
            dec_val(dec_body(s)) as u16
        } else {
            DEFAULT_PORT
        },
        None => DEFAULT_PORT,
    }
}

/// Reads a configured port, falling back to the default where the value
/// is absent or unparseable.
pub fn port_or_default(v: Option<&str>) -> (r: u16)
    ensures
        r == port_or_default_model(
            match v {
                Some(s) => Some(s@),
                None => None,
            },
        ),
{
    match v {
        Some(s) => match parse_u16(s) {
            Some(p) => p,
            None => DEFAULT_PORT,
        },
        None => DEFAULT_PORT,
    }
}

/// How one finished task stands: silently ignored, usage wanted, done, or
/// failed — the latter two with an optional reply for the thread.
#[derive(Debug, PartialEq, Eq)]
pub enum Verdict {
    Ignored,
    HelpWanted,
    Succeeded(Option<String>),
    Failed(Option<String>),
}

/// Mathematical image of [`Verdict`].
pub enum VerdictView {
    Ignored,
    HelpWanted,
    Succeeded(Option<Seq<char>>),
    Failed(Option<Seq<char>>),
}

impl View for Verdict {
    type V = VerdictView;

    open spec fn view(&self) -> VerdictView {
        match self {
            Verdict::Ignored => VerdictView::Ignored,
            Verdict::HelpWanted => VerdictView::HelpWanted,
            Verdict::Succeeded(m) => VerdictView::Succeeded(
                match m {
                    Some(t) => Some(t@),
                    None => None,
                },
            ),
            Verdict::Failed(m) => VerdictView::Failed(
                match m {
                    Some(t) => Some(t@),
                    None => None,
                },
            ),
        }
    }
}

/// The verdict of a reboot run: silent success, or the fixed failure
/// reply.
pub open spec fn reboot_verdict_model(exit_success: bool) -> VerdictView {
    if exit_success {
        VerdictView::Succeeded(None)
    } else {
        VerdictView::Failed(Some("Reboot failed."@))
    }
}

pub fn reboot_verdict(exit_success: bool) -> (v: Verdict)
    ensures
        v@ == reboot_verdict_model(exit_success),
{
    if exit_success {
        Verdict::Succeeded(None)
    } else {
        Verdict::Failed(Some(String::from_str("Reboot failed.")))
    }
}

/// The verdict of the delete-then-create home reset: only the delete
/// call's status gates the outcome. The create call's status is logged
/// by the caller but deliberately not gating — an open question for the
/// operators, since a failed create after a successful delete still
/// reads as success.
pub open spec fn home_reset_verdict_model(delete_success: bool) -> VerdictView {
    if delete_success {
        VerdictView::Succeeded(None)
    } else {
        VerdictView::Failed(Some("Home reset failed. please contact staff"@))
    }
}

pub fn home_reset_verdict(delete_success: bool) -> (v: Verdict)
    ensures
        v@ == home_reset_verdict_model(delete_success),
{
    if delete_success {
        Verdict::Succeeded(None)
    } else {
        Verdict::Failed(Some(String::from_str("Home reset failed. please contact staff")))
    }
}

/// The verdict of a home close run.
pub open spec fn home_close_verdict_model(exit_success: bool) -> VerdictView {
    if exit_success {
        VerdictView::Succeeded(None)
    } else {
        VerdictView::Failed(Some("Home close failed."@))
    }
}

pub fn home_close_verdict(exit_success: bool) -> (v: Verdict)
    ensures
        v@ == home_close_verdict_model(exit_success),
{
    if exit_success {
        Verdict::Succeeded(None)
    } else {
        Verdict::Failed(Some(String::from_str("Home close failed.")))
    }
}

/// The verdict of a roster refresh: silent success where the member list
/// was fetched, the fixed failure reply where it was not.
pub open spec fn update_verdict_model(fetch_ok: bool) -> VerdictView {
    if fetch_ok {
        VerdictView::Succeeded(None)
    } else {
        VerdictView::Failed(Some("get member list failed."@))
    }
}

pub fn update_verdict(fetch_ok: bool) -> (v: Verdict)
    ensures
        v@ == update_verdict_model(fetch_ok),
{
    if fetch_ok {
        Verdict::Succeeded(None)
    } else {
        Verdict::Failed(Some(String::from_str("get member list failed.")))
    }
}

/// The localized usage text, with the bot's user-facing name spliced in
/// at each of its three occurrences.
pub open spec fn help_text_model() -> Seq<char> {
    "```\u{c0ac}\u{c6a9}\u{bc95}: "@ + wakeup_word_for_user() + " [\u{d575}\u{c2ec} \u{ba85}\u{b839}\u{c5b4}] [\u{d558}\u{c704} \u{ba85}\u{b839}\u{c5b4}]\n\n\u{d575}\u{c2ec} \u{ba85}\u{b839}\u{c5b4}:\n  reboot       \u{c2dc}\u{c2a4}\u{d15c}\u{c744} \u{c7ac}\u{bd80}\u{d305}\u{d569}\u{b2c8}\u{b2e4}.\n\n  home         'home' \u{b514}\u{b809}\u{d1a0}\u{b9ac}\u{c640} \u{ad00}\u{b828}\u{b41c} \u{c791}\u{c5c5}\u{c744} \u{ad00}\u{b9ac}\u{d569}\u{b2c8}\u{b2e4}.\n    \u{d558}\u{c704} \u{ba85}\u{b839}\u{c5b4}:\n      reset    home\u{c744} \u{ae30}\u{bcf8} \u{c0c1}\u{d0dc}\u{b85c} \u{c7ac}\u{c124}\u{c815}\u{d569}\u{b2c8}\u{b2e4}.\n      close    remote home\u{acfc} pc\u{c758} \u{c5f0}\u{acb0}\u{c744} \u{b04a}\u{c2b5}\u{b2c8}\u{b2e4}.\n\n\u{c77c}\u{bc18} \u{c635}\u{c158}:\n  -h, --help   \u{c774} \u{b3c4}\u{c6c0}\u{b9d0} \u{ba54}\u{c2dc}\u{c9c0}\u{b97c} \u{bcf4}\u{c5ec}\u{c8fc}\u{ace0} \u{c885}\u{b8cc}\u{d569}\u{b2c8}\u{b2e4}.\n\n\u{c608}\u{c81c}:\n   "@ + wakeup_word_for_user() + " reboot\n   "@
        + wakeup_word_for_user() + " home reset\n\n\u{c778}\u{c2dd}\u{d560} \u{c218} \u{c5c6}\u{b294} \u{ba85}\u{b839}\u{c5b4}\u{b098} \u{d558}\u{c704} \u{ba85}\u{b839}\u{c5b4}\u{ac00} \u{c81c}\u{acf5}\u{b420} \u{acbd}\u{c6b0} \u{c774} \u{b3c4}\u{c6c0}\u{b9d0}\u{c774} \u{d45c}\u{c2dc}\u{b429}\u{b2c8}\u{b2e4}.```"@
}

/// Builds the usage text.
pub fn help_text() -> (r: String)
    ensures
        r@ == help_text_model(),
{
    let mut r = String::from_str("```\u{c0ac}\u{c6a9}\u{bc95}: ");
    r.append(wakeup_word_for_user_str());
    r.append(" [\u{d575}\u{c2ec} \u{ba85}\u{b839}\u{c5b4}] [\u{d558}\u{c704} \u{ba85}\u{b839}\u{c5b4}]\n\n\u{d575}\u{c2ec} \u{ba85}\u{b839}\u{c5b4}:\n  reboot       \u{c2dc}\u{c2a4}\u{d15c}\u{c744} \u{c7ac}\u{bd80}\u{d305}\u{d569}\u{b2c8}\u{b2e4}.\n\n  home         'home' \u{b514}\u{b809}\u{d1a0}\u{b9ac}\u{c640} \u{ad00}\u{b828}\u{b41c} \u{c791}\u{c5c5}\u{c744} \u{ad00}\u{b9ac}\u{d569}\u{b2c8}\u{b2e4}.\n    \u{d558}\u{c704} \u{ba85}\u{b839}\u{c5b4}:\n      reset    home\u{c744} \u{ae30}\u{bcf8} \u{c0c1}\u{d0dc}\u{b85c} \u{c7ac}\u{c124}\u{c815}\u{d569}\u{b2c8}\u{b2e4}.\n      close    remote home\u{acfc} pc\u{c758} \u{c5f0}\u{acb0}\u{c744} \u{b04a}\u{c2b5}\u{b2c8}\u{b2e4}.\n\n\u{c77c}\u{bc18} \u{c635}\u{c158}:\n  -h, --help   \u{c774} \u{b3c4}\u{c6c0}\u{b9d0} \u{ba54}\u{c2dc}\u{c9c0}\u{b97c} \u{bcf4}\u{c5ec}\u{c8fc}\u{ace0} \u{c885}\u{b8cc}\u{d569}\u{b2c8}\u{b2e4}.\n\n\u{c608}\u{c81c}:\n   ");
    r.append(wakeup_word_for_user_str());
    r.append(" reboot\n   ");
    r.append(wakeup_word_for_user_str());
    r.append(" home reset\n\n\u{c778}\u{c2dd}\u{d560} \u{c218} \u{c5c6}\u{b294} \u{ba85}\u{b839}\u{c5b4}\u{b098} \u{d558}\u{c704} \u{ba85}\u{b839}\u{c5b4}\u{ac00} \u{c81c}\u{acf5}\u{b420} \u{acbd}\u{c6b0} \u{c774} \u{b3c4}\u{c6c0}\u{b9d0}\u{c774} \u{d45c}\u{c2dc}\u{b429}\u{b2c8}\u{b2e4}.```");
    r
}


/// The reboot invocation: the automation-cluster target on its configured
/// port, running the reboot playbook for `host`.
pub open spec fn reboot_invocation(host: Seq<char>, cfg: ExecConfigView) -> SshExcutorView {
    SshExcutorView {
        ssh_pub_key: None,
        address: "ansible@ansiblecluster"@,
        port: Some(cfg.ansible_port),
        remote_cmd: Some(
            RawCommandView { cmd: "ansible-playbook"@, args: seq!["-l"@, host, "reboot.yml"@] },
        ),
    }
}

/// A home-management invocation: the storage target running the control
/// program on `tail_args` appended to the authenticated preamble.
pub open spec fn storage_invocation(
    port: Option<u16>,
    login: Seq<char>,
    tail_args: Seq<Seq<char>>,
    cfg: ExecConfigView,
) -> SshExcutorView {
    SshExcutorView {
        ssh_pub_key: None,
        address: "root@student-storage"@,
        port,
        remote_cmd: Some(
            RawCommandView {
                cmd: "homemakerctl"@,
                args: seq!["--url"@, cfg.storage_url, "-t"@, cfg.secret_token, "homes"@, "-i"@, login]
                    + tail_args,
            },
        ),
    }
}

/// What a parse outcome commits the engine to. Parse outcomes that carry
/// no action reply directly; commands become the exact invocations the
/// caller must run, each home command on the storage target's configured
/// port.
pub open spec fn plan_model(
    outcome: Result<GsctlCommandView, GsctlErrorView>,
    cfg: ExecConfigView,
) -> TaskPlanView {
    match outcome {
        Err(GsctlErrorView::NotACommand) => TaskPlanView::Ignore,
        Err(GsctlErrorView::Help) => TaskPlanView::RespondHelp,
        Err(GsctlErrorView::Error(msg)) => TaskPlanView::RespondError(
            "Command cannot be executed for the following reasons: "@ + msg,
        ),
        Ok(GsctlCommandView::Reboot(host)) => TaskPlanView::RunReboot(reboot_invocation(host, cfg)),
        Ok(GsctlCommandView::Home(sub)) => match sub {
            Some(SubCommandView::Reset(login)) => TaskPlanView::RunHomeReset {
                delete: storage_invocation(
                    Some(cfg.storage_port),
                    login,
                    seq!["delete"@],
                    cfg,
                ),
                create: storage_invocation(
                    Some(cfg.storage_port),
                    login,
                    seq!["create"@],
                    cfg,
                ),
            },
            Some(SubCommandView::Close(login, location)) => TaskPlanView::RunHomeClose(
                storage_invocation(
                    Some(cfg.storage_port),
                    login,
                    seq!["-q"@, location, "-f"@, "close"@],
                    cfg,
                ),
            ),
            _ => TaskPlanView::RespondHelp,
        },
        Ok(GsctlCommandView::Goinfre(sub)) => match sub {
            Some(SubCommandView::Reset(login)) => TaskPlanView::NotImplemented(
                "goinfre reset is not yet supported."@,
            ),
            _ => TaskPlanView::RespondHelp,
        },
        Ok(GsctlCommandView::Update) => TaskPlanView::RunUpdate,
    }
}

/// What one task does after parsing: nothing, a direct reply, one or two
/// secure-shell runs, or the roster refresh.
#[derive(Debug, PartialEq, Eq)]
pub enum TaskPlan {
    /// Not addressed to the bot: no chat-side effect at all.
    Ignore,
    /// Post the usage text in the thread; no reactions.
    RespondHelp,
    /// Post this parse-error reply in the thread.
    RespondError(String),
    /// Run the reboot invocation; verdict by [`reboot_verdict`].
    RunReboot(SshExcutor),
    /// Run delete, then create; verdict by [`home_reset_verdict`].
    RunHomeReset { delete: SshExcutor, create: SshExcutor },
    /// Run the close invocation; verdict by [`home_close_verdict`].
    RunHomeClose(SshExcutor),
    /// Fetch the member roster; verdict by [`update_verdict`].
    RunUpdate,
    /// A deferred branch: fail explicitly with this reply.
    NotImplemented(String),
}

/// Mathematical image of [`TaskPlan`].
pub enum TaskPlanView {
    Ignore,
    RespondHelp,
    RespondError(Seq<char>),
    RunReboot(SshExcutorView),
    RunHomeReset { delete: SshExcutorView, create: SshExcutorView },
    RunHomeClose(SshExcutorView),
    RunUpdate,
    NotImplemented(Seq<char>),
}

impl View for TaskPlan {
    type V = TaskPlanView;

    open spec fn view(&self) -> TaskPlanView {
        match self {
            TaskPlan::Ignore => TaskPlanView::Ignore,
            TaskPlan::RespondHelp => TaskPlanView::RespondHelp,
            TaskPlan::RespondError(msg) => TaskPlanView::RespondError(msg@),
            TaskPlan::RunReboot(e) => TaskPlanView::RunReboot(e@),
            TaskPlan::RunHomeReset { delete, create } => TaskPlanView::RunHomeReset {
                delete: delete@,
                create: create@,
            },
            TaskPlan::RunHomeClose(e) => TaskPlanView::RunHomeClose(e@),
            TaskPlan::RunUpdate => TaskPlanView::RunUpdate,
            TaskPlan::NotImplemented(msg) => TaskPlanView::NotImplemented(msg@),
        }
    }
}

/// Whether this plan marks the message with the pending reaction before
/// it acts. The pending marker means outward work in flight, so only
/// plans that reach out — a secure-shell run or the roster fetch — enter
/// the pending state. Direct replies never do, by decision: help never
/// enters the pending state, and a reply whose verdict is settled before
/// anything runs (a parse error, a deferred branch) is posted without
/// reaction changes, since a failure marker accompanies only a pending
/// marker that was set.
pub open spec fn plan_sets_pending_model(p: TaskPlanView) -> bool {
    match p {
        TaskPlanView::RunReboot(_) => true,
        TaskPlanView::RunHomeReset { .. } => true,
        TaskPlanView::RunHomeClose(_) => true,
        TaskPlanView::RunUpdate => true,
        _ => false,
    }
}

pub fn plan_sets_pending(p: &TaskPlan) -> (r: bool)
    ensures
        r == plan_sets_pending_model(p@),
{
    match p {
        TaskPlan::RunReboot(_) => true,
        TaskPlan::RunHomeReset { .. } => true,
        TaskPlan::RunHomeClose(_) => true,
        TaskPlan::RunUpdate => true,
        _ => false,
    }
}

/// Turns one parse outcome into its plan, building the exact invocations
/// from the configuration.
pub fn plan_for(outcome: Result<GsctlCommand, GsctlError>, cfg: &ExecConfig) -> (p: TaskPlan)
    ensures
        p@ == plan_model(outcome_view(&outcome), cfg@),
{
    match outcome {
        Err(GsctlError::NotACommand) => TaskPlan::Ignore,
        Err(GsctlError::Help) => TaskPlan::RespondHelp,
        Err(GsctlError::Error(msg)) => {
            let mut m = String::from_str("Command cannot be executed for the following reasons: ");
            m.append(msg.as_str());
            TaskPlan::RespondError(m)
        },
        Ok(GsctlCommand::Reboot(host)) => {
            let playbook = RawCommand::build_pc_reboot(host.as_str());
            let ex = SshExcutor::new_ansible_cluster().with_port(cfg.ansible_port).with_remote_cmd(
                playbook,
            );
            TaskPlan::RunReboot(ex)
        },
        Ok(GsctlCommand::Home(Some(SubCommand::Reset(login)))) => {
            let delete = SshExcutor::new_student_storage().with_port(
                cfg.storage_port,
            ).with_remote_cmd(
                RawCommand::build_home_delete(
                    login.as_str(),
                    cfg.storage_url.as_str(),
                    cfg.secret_token.as_str(),
                ),
            );
            let create = SshExcutor::new_student_storage().with_port(
                cfg.storage_port,
            ).with_remote_cmd(
                RawCommand::build_home_create(
                    login.as_str(),
                    cfg.storage_url.as_str(),
                    cfg.secret_token.as_str(),
                ),
            );
            proof {
                assert(delete@.remote_cmd->Some_0.args =~= storage_invocation(
                    Some(cfg@.storage_port),
                    login@,
                    seq!["delete"@],
                    cfg@,
                ).remote_cmd->Some_0.args);
                assert(create@.remote_cmd->Some_0.args =~= storage_invocation(
                    Some(cfg@.storage_port),
                    login@,
                    seq!["create"@],
                    cfg@,
                ).remote_cmd->Some_0.args);
            }
            TaskPlan::RunHomeReset { delete, create }
        },
        Ok(GsctlCommand::Home(Some(SubCommand::Close(login, location)))) => {
            let ex = SshExcutor::new_student_storage().with_port(
                cfg.storage_port,
            ).with_remote_cmd(
                RawCommand::build_home_close(
                    login.as_str(),
                    location.as_str(),
                    cfg.storage_url.as_str(),
                    cfg.secret_token.as_str(),
                ),
            );
            proof {
                assert(ex@.remote_cmd->Some_0.args =~= storage_invocation(
                    Some(cfg@.storage_port),
                    login@,
                    seq!["-q"@, location@, "-f"@, "close"@],
                    cfg@,
                ).remote_cmd->Some_0.args);
            }
            TaskPlan::RunHomeClose(ex)
        },
        Ok(GsctlCommand::Home(_)) => TaskPlan::RespondHelp,
        Ok(GsctlCommand::Goinfre(Some(SubCommand::Reset(_login)))) => TaskPlan::NotImplemented(
            String::from_str("goinfre reset is not yet supported."),
        ),
        Ok(GsctlCommand::Goinfre(_)) => TaskPlan::RespondHelp,
        Ok(GsctlCommand::Update) => TaskPlan::RunUpdate,
    }
}


/// The reaction marking a task as in flight.
pub open spec fn pending_reaction() -> Seq<char> {
    "gsroot-loading"@
}

/// The terminal reaction of a succeeded task.
pub open spec fn success_reaction() -> Seq<char> {
    "white_check_mark"@
}

/// The terminal reaction of a failed task.
pub open spec fn failure_reaction() -> Seq<char> {
    "x"@
}

/// One chat-side call the reporter asks for, always aimed at a single
/// message: a reaction added or removed on it, or a reply in its thread.
#[derive(Debug, PartialEq, Eq)]
pub enum ChatAction {
    AddReaction { channel: String, ts: String, name: String },
    RemoveReaction { channel: String, ts: String, name: String },
    PostInThread { channel: String, ts: String, text: String },
}

/// Mathematical image of [`ChatAction`].
pub enum ChatActionView {
    AddReaction { channel: Seq<char>, ts: Seq<char>, name: Seq<char> },
    RemoveReaction { channel: Seq<char>, ts: Seq<char>, name: Seq<char> },
    PostInThread { channel: Seq<char>, ts: Seq<char>, text: Seq<char> },
}

impl View for ChatAction {
    type V = ChatActionView;

    open spec fn view(&self) -> ChatActionView {
        match self {
            ChatAction::AddReaction { channel, ts, name } => ChatActionView::AddReaction {
                channel: channel@,
                ts: ts@,
                name: name@,
            },
            ChatAction::RemoveReaction { channel, ts, name } => ChatActionView::RemoveReaction {
                channel: channel@,
                ts: ts@,
                name: name@,
            },
            ChatAction::PostInThread { channel, ts, text } => ChatActionView::PostInThread {
                channel: channel@,
                ts: ts@,
                text: text@,
            },
        }
    }
}

impl DeepView for ChatAction {
    type V = ChatActionView;

    open spec fn deep_view(&self) -> ChatActionView {
        self.view()
    }
}

/// The channel an action touches.
pub open spec fn action_channel(a: ChatActionView) -> Seq<char> {
    match a {
        ChatActionView::AddReaction { channel, .. } => channel,
        ChatActionView::RemoveReaction { channel, .. } => channel,
        ChatActionView::PostInThread { channel, .. } => channel,
    }
}

/// The message timestamp an action touches.
pub open spec fn action_ts(a: ChatActionView) -> Seq<char> {
    match a {
        ChatActionView::AddReaction { ts, .. } => ts,
        ChatActionView::RemoveReaction { ts, .. } => ts,
        ChatActionView::PostInThread { ts, .. } => ts,
    }
}

/// The pending-to-terminal reaction pair — removal strictly before the
/// terminal marker — where pending had been set; nothing otherwise.
pub open spec fn reaction_transition(
    pending_set: bool,
    terminal: Seq<char>,
    channel: Seq<char>,
    ts: Seq<char>,
) -> Seq<ChatActionView> {
    if pending_set {
        seq![
            ChatActionView::RemoveReaction { channel, ts, name: pending_reaction() },
            ChatActionView::AddReaction { channel, ts, name: terminal },
        ]
    } else {
        Seq::empty()
    }
}

/// The threaded reply, where there is one.
pub open spec fn reply_opt(m: Option<Seq<char>>, channel: Seq<char>, ts: Seq<char>) -> Seq<
    ChatActionView,
> {
    match m {
        Some(text) => seq![ChatActionView::PostInThread { channel, ts, text }],
        None => Seq::empty(),
    }
}

/// Everything the reporter does for one verdict, in order: an ignored
/// task touches the chat in no way; a help verdict posts the usage text
/// and never changes reactions; success and failure turn the pending
/// marker (where it was set) into their terminal marker and post their
/// reply where one exists.
pub open spec fn report_model(
    v: VerdictView,
    pending_set: bool,
    channel: Seq<char>,
    ts: Seq<char>,
) -> Seq<ChatActionView> {
    match v {
        VerdictView::Ignored => Seq::empty(),
        VerdictView::HelpWanted => seq![
            ChatActionView::PostInThread { channel, ts, text: help_text_model() },
        ],
        VerdictView::Succeeded(m) => reaction_transition(pending_set, success_reaction(), channel, ts)
            + reply_opt(m, channel, ts),
        VerdictView::Failed(m) => reaction_transition(pending_set, failure_reaction(), channel, ts)
            + reply_opt(m, channel, ts),
    }
}

/// Renders one verdict as the ordered chat calls to make, all aimed at
/// the message `context` carries.
pub fn report_actions(v: Verdict, pending_set: bool, context: &SlackMessageContext) -> (r: Vec<
    ChatAction,
>)
    ensures
        r.deep_view() == report_model(v@, pending_set, context.channel@, context.ts@),
{
    let ghost vv = v@;
    let mut r: Vec<ChatAction> = Vec::new();
    match v {
        Verdict::Ignored => {},
        Verdict::HelpWanted => {
            r.push(
                ChatAction::PostInThread {
                    channel: context.channel.clone(),
                    ts: context.ts.clone(),
                    text: help_text(),
                },
            );
        },
        Verdict::Succeeded(m) => {
            if pending_set {
                r.push(
                    ChatAction::RemoveReaction {
                        channel: context.channel.clone(),
                        ts: context.ts.clone(),
                        name: String::from_str("gsroot-loading"),
                    },
                );
                r.push(
                    ChatAction::AddReaction {
                        channel: context.channel.clone(),
                        ts: context.ts.clone(),
                        name: String::from_str("white_check_mark"),
                    },
                );
            }
            match m {
                Some(text) => {
                    r.push(
                        ChatAction::PostInThread {
                            channel: context.channel.clone(),
                            ts: context.ts.clone(),
                            text,
                        },
                    );
                },
                None => {},
            }
        },
        Verdict::Failed(m) => {
            if pending_set {
                r.push(
                    ChatAction::RemoveReaction {
                        channel: context.channel.clone(),
                        ts: context.ts.clone(),
                        name: String::from_str("gsroot-loading"),
                    },
                );
                r.push(
                    ChatAction::AddReaction {
                        channel: context.channel.clone(),
                        ts: context.ts.clone(),
                        name: String::from_str("x"),
                    },
                );
            }
            match m {
                Some(text) => {
                    r.push(
                        ChatAction::PostInThread {
                            channel: context.channel.clone(),
                            ts: context.ts.clone(),
                            text,
                        },
                    );
                },
                None => {},
            }
        },
    }
    proof {
        assert(r.deep_view() =~~= report_model(vv, pending_set, context.channel@, context.ts@));
    }
    r
}



/// The verdict a plan that performs no outward work settles at once:
/// ignored messages stay silent, help posts usage, a parse error and a
/// deferred branch fail with their reply. Plans that reach out have no
/// immediate verdict; theirs comes from what the run returns.
pub open spec fn direct_verdict_model(p: TaskPlanView) -> Option<VerdictView> {
    match p {
        TaskPlanView::Ignore => Some(VerdictView::Ignored),
        TaskPlanView::RespondHelp => Some(VerdictView::HelpWanted),
        TaskPlanView::RespondError(msg) => Some(VerdictView::Failed(Some(msg))),
        TaskPlanView::NotImplemented(msg) => Some(VerdictView::Failed(Some(msg))),
        TaskPlanView::RunReboot(_) => None,
        TaskPlanView::RunHomeReset { .. } => None,
        TaskPlanView::RunHomeClose(_) => None,
        TaskPlanView::RunUpdate => None,
    }
}

/// Settles the plans that need no outward work; hands the others back
/// unchanged for the caller to run.
pub fn direct_verdict(p: TaskPlan) -> (r: Result<Verdict, TaskPlan>)
    ensures
        match r {
            Ok(v) => direct_verdict_model(p@) == Some(v@),
            Err(q) => q@ == p@ && direct_verdict_model(p@) is None,
        },
{
    match p {
        TaskPlan::Ignore => Ok(Verdict::Ignored),
        TaskPlan::RespondHelp => Ok(Verdict::HelpWanted),
        TaskPlan::RespondError(msg) => Ok(Verdict::Failed(Some(msg))),
        TaskPlan::NotImplemented(msg) => Ok(Verdict::Failed(Some(msg))),
        other => Err(other),
    }
}

/// A plan settles its verdict directly exactly when it never enters the
/// pending state: pending is for outward work alone.
pub proof fn lemma_direct_verdicts_never_pending(p: TaskPlanView)
    ensures
        (direct_verdict_model(p) is Some) <==> !plan_sets_pending_model(p),
{
}


/// No parse error ever reaches the remote executor: every error outcome
/// settles its verdict directly, with no outward plan.
pub proof fn lemma_error_outcome_runs_nothing(e: GsctlErrorView, cfg: ExecConfigView)
    ensures
        direct_verdict_model(plan_model(Err(e), cfg)) is Some,
{
}

/// A message that does not address the bot runs the whole pipeline —
/// parse, plan, verdict, report — to no chat-side effect at all,
/// whatever the requester's identity, privileges, configuration, or any
/// lookup outcome.
pub proof fn lemma_unaddressed_fully_silent(
    text: Seq<char>,
    real_name: Seq<char>,
    is_admin: bool,
    lookup: LookupOutcomeView,
    cfg: ExecConfigView,
    channel: Seq<char>,
    ts: Seq<char>,
)
    requires
        tokens(text).len() == 0 || tokens(text)[0] != wakeup_word(),
    ensures
        plan_model(parse_outcome_model(text, real_name, is_admin, lookup), cfg)
            == TaskPlanView::Ignore,
        direct_verdict_model(TaskPlanView::Ignore) == Some(VerdictView::Ignored),
        report_model(VerdictView::Ignored, false, channel, ts) == Seq::<ChatActionView>::empty(),
{
    crate::bot_cmd::lemma_not_addressed(text, real_name, is_admin);
}

/// The pending marker the worker sets on its own message before an
/// outward plan runs.
pub fn pending_mark(context: &SlackMessageContext) -> (a: ChatAction)
    ensures
        a@ == (ChatActionView::AddReaction {
            channel: context.channel@,
            ts: context.ts@,
            name: pending_reaction(),
        }),
{
    ChatAction::AddReaction {
        channel: context.channel.clone(),
        ts: context.ts.clone(),
        name: String::from_str("gsroot-loading"),
    }
}

/// An ignored task makes no chat-side call whatsoever.
pub proof fn lemma_ignored_silent(pending_set: bool, channel: Seq<char>, ts: Seq<char>)
    ensures
        report_model(VerdictView::Ignored, pending_set, channel, ts) == Seq::<
            ChatActionView,
        >::empty(),
{
}

/// Every chat call the reporter asks for targets the task's own message:
/// its own channel and its own timestamp, never another's.
pub proof fn lemma_actions_target_own_message(
    v: VerdictView,
    pending_set: bool,
    channel: Seq<char>,
    ts: Seq<char>,
)
    ensures
        forall|i: int|
            0 <= i < report_model(v, pending_set, channel, ts).len() ==> action_channel(
                #[trigger] report_model(v, pending_set, channel, ts)[i],
            ) == channel && action_ts(report_model(v, pending_set, channel, ts)[i]) == ts,
{
}


/// Where pending was never set, the reporter changes no reactions at
/// all: whatever the verdict, every call it asks for is a threaded
/// reply. Help and parse errors reach the chat only as text.
pub proof fn lemma_no_pending_means_no_reaction_changes(
    v: VerdictView,
    channel: Seq<char>,
    ts: Seq<char>,
)
    ensures
        forall|i: int|
            0 <= i < report_model(v, false, channel, ts).len() ==> (#[trigger] report_model(
                v,
                false,
                channel,
                ts,
            )[i]) is PostInThread,
{
}

/// Two tasks on different messages never touch a common message: since
/// each task's calls carry only its own timestamp, their reaction
/// mutations cannot interleave on either message, however the two
/// workers' calls are scheduled against each other.
pub proof fn lemma_concurrent_tasks_isolated(
    v1: VerdictView,
    pending1: bool,
    channel1: Seq<char>,
    ts1: Seq<char>,
    v2: VerdictView,
    pending2: bool,
    channel2: Seq<char>,
    ts2: Seq<char>,
)
    requires
        ts1 != ts2,
    ensures
        forall|i: int, j: int|
            0 <= i < report_model(v1, pending1, channel1, ts1).len() && 0 <= j < report_model(
                v2,
                pending2,
                channel2,
                ts2,
            ).len() ==> action_ts(#[trigger] report_model(v1, pending1, channel1, ts1)[i])
                != action_ts(#[trigger] report_model(v2, pending2, channel2, ts2)[j]),
{
    lemma_actions_target_own_message(v1, pending1, channel1, ts1);
    lemma_actions_target_own_message(v2, pending2, channel2, ts2);
}

/// The engine's image of one message's status markers.
#[derive(Clone, Copy, PartialEq, Eq, Structural, Debug)]
pub struct ReactionState {
    pub pending: bool,
    pub success: bool,
    pub failure: bool,
}

/// A message never shows the pending marker together with a terminal one.
pub open spec fn no_mixed_markers(s: ReactionState) -> bool {
    !(s.pending && (s.success || s.failure))
}

/// How one chat call moves a message's markers; replies leave them alone.
pub open spec fn apply_action(s: ReactionState, a: ChatActionView) -> ReactionState {
    match a {
        ChatActionView::AddReaction { name, .. } => if name == pending_reaction() {
            ReactionState { pending: true, ..s }
        } else if name == success_reaction() {
            ReactionState { success: true, ..s }
        } else if name == failure_reaction() {
            ReactionState { failure: true, ..s }
        } else {
            s
        },
        ChatActionView::RemoveReaction { name, .. } => if name == pending_reaction() {
            ReactionState { pending: false, ..s }
        } else if name == success_reaction() {
            ReactionState { success: false, ..s }
        } else if name == failure_reaction() {
            ReactionState { failure: false, ..s }
        } else {
            s
        },
        ChatActionView::PostInThread { .. } => s,
    }
}

/// The marker state after a list of chat calls, first call first.
pub open spec fn apply_all(s: ReactionState, acts: Seq<ChatActionView>) -> ReactionState
    decreases acts.len(),
{
    if acts.len() == 0 {
        s
    } else {
        apply_all(apply_action(s, acts[0]), acts.drop_first())
    }
}

/// The three marker names differ pairwise.
proof fn lemma_reactions_distinct()
    ensures
        pending_reaction() != success_reaction(),
        pending_reaction() != failure_reaction(),
        success_reaction() != failure_reaction(),
{
    reveal_strlit("gsroot-loading");
    reveal_strlit("white_check_mark");
    reveal_strlit("x");
    assert(pending_reaction().len() != success_reaction().len());
    assert(pending_reaction().len() != failure_reaction().len());
    assert(success_reaction().len() != failure_reaction().len());
}

/// Unrollings of [`apply_all`] for the short lists the reporter emits.
proof fn lemma_apply_one(s: ReactionState, a0: ChatActionView)
    ensures
        apply_all(s, seq![a0]) == apply_action(s, a0),
{
    assert(seq![a0].drop_first() =~= Seq::<ChatActionView>::empty());
    assert(seq![a0][0] == a0);
    assert(apply_all(apply_action(s, a0), Seq::<ChatActionView>::empty()) == apply_action(s, a0));
}

proof fn lemma_apply_two(s: ReactionState, a0: ChatActionView, a1: ChatActionView)
    ensures
        apply_all(s, seq![a0, a1]) == apply_action(apply_action(s, a0), a1),
{
    assert(seq![a0, a1].drop_first() =~= seq![a1]);
    assert(seq![a0, a1][0] == a0);
    lemma_apply_one(apply_action(s, a0), a1);
}

proof fn lemma_apply_three(
    s: ReactionState,
    a0: ChatActionView,
    a1: ChatActionView,
    a2: ChatActionView,
)
    ensures
        apply_all(s, seq![a0, a1, a2]) == apply_action(
            apply_action(apply_action(s, a0), a1),
            a2,
        ),
{
    assert(seq![a0, a1, a2].drop_first() =~= seq![a1, a2]);
    assert(seq![a0, a1, a2][0] == a0);
    lemma_apply_two(apply_action(s, a0), a1, a2);
}

/// Whether every stage of applying `acts` to `s0`, first call first,
/// keeps the pending marker apart from the terminal ones.
pub open spec fn markers_clean_throughout(s0: ReactionState, acts: Seq<ChatActionView>) -> bool {
    forall|k: int| 0 <= k <= acts.len() ==> no_mixed_markers(apply_all(s0, #[trigger] acts.take(k)))
}

/// A succeeded task that was pending ends with exactly the success
/// marker; a failed one with exactly the failure marker. The pending
/// marker is removed before the terminal marker is added, so no point of
/// the lifecycle shows both, and the transition happens once: nothing
/// after it touches the markers again.
pub proof fn lemma_reaction_lifecycle(
    m: Option<Seq<char>>,
    succeeded: bool,
    channel: Seq<char>,
    ts: Seq<char>,
)
    ensures
        apply_all(
            ReactionState { pending: true, success: false, failure: false },
            report_model(
                if succeeded {
                    VerdictView::Succeeded(m)
                } else {
                    VerdictView::Failed(m)
                },
                true,
                channel,
                ts,
            ),
        ) == (ReactionState { pending: false, success: succeeded, failure: !succeeded }),
        markers_clean_throughout(
            ReactionState { pending: true, success: false, failure: false },
            report_model(
                if succeeded {
                    VerdictView::Succeeded(m)
                } else {
                    VerdictView::Failed(m)
                },
                true,
                channel,
                ts,
            ),
        ),
{
    lemma_reactions_distinct();
    let s0 = ReactionState { pending: true, success: false, failure: false };
    let terminal = if succeeded {
        success_reaction()
    } else {
        failure_reaction()
    };
    let v = if succeeded {
        VerdictView::Succeeded(m)
    } else {
        VerdictView::Failed(m)
    };
    let acts = report_model(v, true, channel, ts);
    let a0 = ChatActionView::RemoveReaction { channel, ts, name: pending_reaction() };
    let a1 = ChatActionView::AddReaction { channel, ts, name: terminal };
    let s1 = apply_action(s0, a0);
    let s2 = apply_action(s1, a1);
    assert(s1 == ReactionState { pending: false, success: false, failure: false });
    assert(s2 == ReactionState { pending: false, success: succeeded, failure: !succeeded });
    match m {
        Some(text) => {
            let a2 = ChatActionView::PostInThread { channel, ts, text };
            assert(acts =~= seq![a0, a1, a2]);
            lemma_apply_three(s0, a0, a1, a2);
            assert(apply_all(s0, acts) == s2);
            assert forall|k: int| 0 <= k <= acts.len() implies no_mixed_markers(
                apply_all(s0, acts.take(k)),
            ) by {
                if k == 0 {
                    assert(acts.take(0) =~= Seq::<ChatActionView>::empty());
                } else if k == 1 {
                    assert(acts.take(1) =~= seq![a0]);
                    lemma_apply_one(s0, a0);
                } else if k == 2 {
                    assert(acts.take(2) =~= seq![a0, a1]);
                    lemma_apply_two(s0, a0, a1);
                } else {
                    assert(acts.take(3) =~= acts);
                }
            }
        },
        None => {
            assert(acts =~= seq![a0, a1]);
            lemma_apply_two(s0, a0, a1);
            assert(apply_all(s0, acts) == s2);
            assert forall|k: int| 0 <= k <= acts.len() implies no_mixed_markers(
                apply_all(s0, acts.take(k)),
            ) by {
                if k == 0 {
                    assert(acts.take(0) =~= Seq::<ChatActionView>::empty());
                } else if k == 1 {
                    assert(acts.take(1) =~= seq![a0]);
                    lemma_apply_one(s0, a0);
                } else {
                    assert(acts.take(2) =~= acts);
                }
            }
        },
    }
}

/// A successful reboot task goes pending to success and posts nothing; a
/// failed one goes pending to failure and posts the fixed failure reply.
pub proof fn lemma_reboot_reaction_lifecycle(channel: Seq<char>, ts: Seq<char>)
    ensures
        apply_all(
            ReactionState { pending: true, success: false, failure: false },
            report_model(reboot_verdict_model(true), true, channel, ts),
        ) == (ReactionState { pending: false, success: true, failure: false }),
        forall|i: int|
            0 <= i < report_model(reboot_verdict_model(true), true, channel, ts).len() ==> !(
            #[trigger] report_model(reboot_verdict_model(true), true, channel, ts)[i]
                is PostInThread),
        apply_all(
            ReactionState { pending: true, success: false, failure: false },
            report_model(reboot_verdict_model(false), true, channel, ts),
        ) == (ReactionState { pending: false, success: false, failure: true }),
        report_model(reboot_verdict_model(false), true, channel, ts).last()
            == (ChatActionView::PostInThread { channel, ts, text: "Reboot failed."@ }),
{
    lemma_reaction_lifecycle(None, true, channel, ts);
    lemma_reaction_lifecycle(Some("Reboot failed."@), false, channel, ts);
}


/// Where one task stands: queued, running, or one of the three terminal
/// states. A terminal state is never stepped again; the two transition
/// functions below admit only the forward moves.
#[derive(Clone, Copy, PartialEq, Eq, Structural, Debug)]
pub enum TaskState {
    Queued,
    Running,
    Succeeded,
    Failed,
    Ignored,
}

pub open spec fn is_terminal(s: TaskState) -> bool {
    match s {
        TaskState::Queued => false,
        TaskState::Running => false,
        TaskState::Succeeded => true,
        TaskState::Failed => true,
        TaskState::Ignored => true,
    }
}

/// The terminal state a verdict lands the task in; a help reply completes
/// the task, so it counts as succeeded.
pub open spec fn verdict_state(v: VerdictView) -> TaskState {
    match v {
        VerdictView::Ignored => TaskState::Ignored,
        VerdictView::HelpWanted => TaskState::Succeeded,
        VerdictView::Succeeded(_) => TaskState::Succeeded,
        VerdictView::Failed(_) => TaskState::Failed,
    }
}

/// Dequeuing starts the task: the one move out of `Queued`.
pub fn start_task(s: TaskState) -> (r: TaskState)
    requires
        s == TaskState::Queued,
    ensures
        r == TaskState::Running,
{
    TaskState::Running
}

/// The verdict ends the task: the one move out of `Running`, always into
/// a terminal state.
pub fn finish_task(s: TaskState, v: &Verdict) -> (r: TaskState)
    requires
        s == TaskState::Running,
    ensures
        r == verdict_state(v@),
        is_terminal(r),
{
    match v {
        Verdict::Ignored => TaskState::Ignored,
        Verdict::HelpWanted => TaskState::Succeeded,
        Verdict::Succeeded(_) => TaskState::Succeeded,
        Verdict::Failed(_) => TaskState::Failed,
    }
}

} // verus!
