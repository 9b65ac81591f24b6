//! The command grammar: turning the raw chat text plus the requester's
//! identity and admin flag into a typed command, a help request, a silent
//! "not addressed to the bot", or an error.
//!
//! Two branches of the grammar (`reboot` with no explicit target, and
//! `home close`) need the requester's current infra location before the
//! command is complete. That lookup is an outside, fallible query, so
//! parsing is split in two verified steps: [`GsctlCommand::parse_step`]
//! decides everything that the text alone decides and says whether a
//! lookup is needed, and [`GsctlCommand::resolve_location`] finishes the
//! command from whatever the lookup returned. The caller performs the
//! lookup between the two calls; each outcome it can hand back is covered.

use crate::text::{check_hostname, contains_hostname, tokens};
use crate::wakeup_word;
use crate::wakeup_word_str;
use vstd::prelude::*;
use vstd::string::*;

verus! {

/// One unit of work: exactly one inbound chat message. Owned by the
/// queue until dequeued, then by its worker alone until it finishes.
#[derive(Debug)]
pub struct BotTask {
    pub message_context: SlackMessageContext,
}

/// Mathematical image of [`BotTask`].
pub struct BotTaskView {
    pub message_context: MessageContextView,
}

impl View for BotTask {
    type V = BotTaskView;

    open spec fn view(&self) -> BotTaskView {
        BotTaskView { message_context: self.message_context@ }
    }
}

/// A command-level error wrapping a description of what was invalid.
#[derive(Debug)]
pub enum Error {
    InvalidCommand(String),
}

impl From<String> for Error {
    fn from(src: String) -> (r: Error) {
        Error::InvalidCommand(src)
    }
}

impl vstd::std_specs::convert::FromSpecImpl<String> for Error {
    open spec fn obeys_from_spec() -> bool {
        true
    }

    open spec fn from_spec(src: String) -> Error {
        Error::InvalidCommand(src)
    }
}

/// Everything the engine needs from one inbound message: where it was
/// posted, when, by whom, with which privileges, and its raw text.
#[derive(Debug, Clone)]
pub struct SlackMessageContext {
    pub channel: String,
    pub ts: String,
    pub thread_ts: Option<String>,
    pub real_name: String,
    pub is_admin: bool,
    pub text: String,
}

/// Mathematical image of [`SlackMessageContext`].
pub struct MessageContextView {
    pub channel: Seq<char>,
    pub ts: Seq<char>,
    pub thread_ts: Option<Seq<char>>,
    pub real_name: Seq<char>,
    pub is_admin: bool,
    pub text: Seq<char>,
}

impl View for SlackMessageContext {
    type V = MessageContextView;

    open spec fn view(&self) -> MessageContextView {
        MessageContextView {
            channel: self.channel@,
            ts: self.ts@,
            thread_ts: match self.thread_ts {
                Some(ref t) => Some(t@),
                None => None,
            },
            real_name: self.real_name@,
            is_admin: self.is_admin,
            text: self.text@,
        }
    }
}

/// A secondary action nested under `home` or `goinfre`.
#[derive(Debug, PartialEq, Eq)]
pub enum SubCommand {
    /// Reset the requester's own directory; carries their login.
    Reset(String),
    /// Close the link between the requester's directory and a resolved
    /// host; only constructible after a successful location lookup.
    Close(String, String),
    Help,
}

/// Mathematical image of [`SubCommand`].
pub enum SubCommandView {
    Reset(Seq<char>),
    Close(Seq<char>, Seq<char>),
    Help,
}

impl View for SubCommand {
    type V = SubCommandView;

    open spec fn view(&self) -> SubCommandView {
        match self {
            SubCommand::Reset(login) => SubCommandView::Reset(login@),
            SubCommand::Close(login, host) => SubCommandView::Close(login@, host@),
            SubCommand::Help => SubCommandView::Help,
        }
    }
}

/// A fully parsed administrative command.
#[derive(Debug, PartialEq, Eq)]
pub enum GsctlCommand {
    /// Reboot the workstation named by the payload.
    Reboot(String),
    Home(Option<SubCommand>),
    Goinfre(Option<SubCommand>),
    /// Refresh the conversation's member roster.
    Update,
}

/// Mathematical image of [`GsctlCommand`].
pub enum GsctlCommandView {
    Reboot(Seq<char>),
    Home(Option<SubCommandView>),
    Goinfre(Option<SubCommandView>),
    Update,
}

impl View for GsctlCommand {
    type V = GsctlCommandView;

    open spec fn view(&self) -> GsctlCommandView {
        match self {
            GsctlCommand::Reboot(host) => GsctlCommandView::Reboot(host@),
            GsctlCommand::Home(sub) => GsctlCommandView::Home(
                match sub {
                    Some(s) => Some(s@),
                    None => None,
                },
            ),
            GsctlCommand::Goinfre(sub) => GsctlCommandView::Goinfre(
                match sub {
                    Some(s) => Some(s@),
                    None => None,
                },
            ),
            GsctlCommand::Update => GsctlCommandView::Update,
        }
    }
}

/// The non-command outcomes of parsing: usage wanted, not addressed to the
/// bot at all, or a surfaced error message.
#[derive(Debug, PartialEq, Eq)]
pub enum GsctlError {
    Help,
    NotACommand,
    Error(String),
}

/// Mathematical image of [`GsctlError`].
pub enum GsctlErrorView {
    Help,
    NotACommand,
    Error(Seq<char>),
}

impl View for GsctlError {
    type V = GsctlErrorView;

    open spec fn view(&self) -> GsctlErrorView {
        match self {
            GsctlError::Help => GsctlErrorView::Help,
            GsctlError::NotACommand => GsctlErrorView::NotACommand,
            GsctlError::Error(msg) => GsctlErrorView::Error(msg@),
        }
    }
}

/// Which grammar branch asked for the location lookup.
#[derive(Clone, Copy, PartialEq, Eq, Structural, Debug)]
pub enum LookupPurpose {
    /// `reboot` with no explicit target: the resolved host is the target.
    RebootTarget,
    /// `home close`: the resolved host names the directory to unlink.
    HomeClose,
}

/// What the location lookup collaborator handed back: a host, a definite
/// miss, or a transport/service failure with its detail.
#[derive(Debug, PartialEq, Eq)]
pub enum LookupOutcome {
    Found(String),
    NotFound,
    Failed(String),
}

/// Mathematical image of [`LookupOutcome`].
pub enum LookupOutcomeView {
    Found(Seq<char>),
    NotFound,
    Failed(Seq<char>),
}

impl View for LookupOutcome {
    type V = LookupOutcomeView;

    open spec fn view(&self) -> LookupOutcomeView {
        match self {
            LookupOutcome::Found(host) => LookupOutcomeView::Found(host@),
            LookupOutcome::NotFound => LookupOutcomeView::NotFound,
            LookupOutcome::Failed(detail) => LookupOutcomeView::Failed(detail@),
        }
    }
}

/// What the text alone decides: either a finished outcome, or the branch
/// that still needs the requester's location.
#[derive(Debug, PartialEq, Eq)]
pub enum ParseStep {
    Done(Result<GsctlCommand, GsctlError>),
    NeedsLocation(LookupPurpose),
}

/// Mathematical image of [`ParseStep`].
pub enum ParseStepView {
    Done(Result<GsctlCommandView, GsctlErrorView>),
    NeedsLocation(LookupPurpose),
}

impl View for ParseStep {
    type V = ParseStepView;

    open spec fn view(&self) -> ParseStepView {
        match self {
            ParseStep::Done(r) => ParseStepView::Done(outcome_view(r)),
            ParseStep::NeedsLocation(p) => ParseStepView::NeedsLocation(*p),
        }
    }
}

/// The view of a parse outcome, variant by variant.
pub open spec fn outcome_view(r: &Result<GsctlCommand, GsctlError>) -> Result<
    GsctlCommandView,
    GsctlErrorView,
> {
    match r {
        Ok(c) => Ok(c@),
        Err(e) => Err(e@),
    }
}

/// What the parser decides from the text alone, as a function of the
/// tokenized text, the requester's name and their admin flag. This is the
/// grammar itself: first token must be the invocation keyword (anything
/// else is silently not for the bot), the second names the command, and
/// trailing tokens beyond what a branch reads are deliberately ignored.
pub open spec fn parse_step_model(text: Seq<char>, real_name: Seq<char>, is_admin: bool) -> ParseStepView {
    let toks = tokens(text);
    if toks.len() == 0 || toks[0] != wakeup_word() {
        ParseStepView::Done(Err(GsctlErrorView::NotACommand))
    } else if toks.len() == 1 {
        ParseStepView::Done(Err(GsctlErrorView::Help))
    } else if toks[1] == "reboot"@ {
        if toks.len() >= 3 {
            if contains_hostname(toks[2]) && is_admin {
                ParseStepView::Done(Ok(GsctlCommandView::Reboot(toks[2])))
            } else {
                ParseStepView::Done(
                    Err(GsctlErrorView::Error("invalid target or insufficient privilege"@)),
                )
            }
        } else {
            ParseStepView::NeedsLocation(LookupPurpose::RebootTarget)
        }
    } else if toks[1] == "home"@ {
        if toks.len() >= 3 && toks[2] == "reset"@ {
            ParseStepView::Done(
                Ok(GsctlCommandView::Home(Some(SubCommandView::Reset(real_name)))),
            )
        } else if toks.len() >= 3 && toks[2] == "close"@ {
            ParseStepView::NeedsLocation(LookupPurpose::HomeClose)
        } else {
            ParseStepView::Done(Ok(GsctlCommandView::Home(Some(SubCommandView::Help))))
        }
    } else if toks[1] == "goinfre"@ {
        if toks.len() >= 3 && toks[2] == "reset"@ {
            ParseStepView::Done(
                Ok(GsctlCommandView::Goinfre(Some(SubCommandView::Reset(real_name)))),
            )
        } else {
            ParseStepView::Done(Ok(GsctlCommandView::Goinfre(Some(SubCommandView::Help))))
        }
    } else if toks[1] == "update"@ {
        ParseStepView::Done(Ok(GsctlCommandView::Update))
    } else {
        ParseStepView::Done(Err(GsctlErrorView::Help))
    }
}

/// How a pending lookup's outcome finishes the command: a found host
/// completes the branch that asked, a miss and a service failure surface
/// as errors, the service failure with its own detail.
pub open spec fn resolve_model(
    purpose: LookupPurpose,
    real_name: Seq<char>,
    outcome: LookupOutcomeView,
) -> Result<GsctlCommandView, GsctlErrorView> {
    match outcome {
        LookupOutcomeView::Found(host) => match purpose {
            LookupPurpose::RebootTarget => Ok(GsctlCommandView::Reboot(host)),
            LookupPurpose::HomeClose => Ok(
                GsctlCommandView::Home(
                    Some(SubCommandView::Close(real_name, "iqn.fr.42:"@ + host)),
                ),
            ),
        },
        LookupOutcomeView::NotFound => Err(GsctlErrorView::Error("location not found"@)),
        LookupOutcomeView::Failed(detail) => Err(GsctlErrorView::Error(detail)),
    }
}

/// The parse pipeline as one function: the outcome of the text-only step,
/// with the lookup outcome substituted in where a branch asked for one.
pub open spec fn parse_outcome_model(
    text: Seq<char>,
    real_name: Seq<char>,
    is_admin: bool,
    lookup: LookupOutcomeView,
) -> Result<GsctlCommandView, GsctlErrorView> {
    match parse_step_model(text, real_name, is_admin) {
        ParseStepView::Done(r) => r,
        ParseStepView::NeedsLocation(p) => resolve_model(p, real_name, lookup),
    }
}

/// A text that does not begin with the invocation keyword is never a
/// command: it parses to the silent "not addressed to the bot" outcome,
/// whoever sent it. (That this outcome has no chat-side effect is stated
/// with the reporter, `engine::report_model`.)
pub proof fn lemma_not_addressed(text: Seq<char>, real_name: Seq<char>, is_admin: bool)
    requires
        tokens(text).len() == 0 || tokens(text)[0] != wakeup_word(),
    ensures
        parse_step_model(text, real_name, is_admin) == ParseStepView::Done(
            Err::<GsctlCommandView, _>(GsctlErrorView::NotACommand),
        ),
{
}

/// The invocation keyword with no further tokens asks for help.
pub proof fn lemma_keyword_alone(text: Seq<char>, real_name: Seq<char>, is_admin: bool)
    requires
        tokens(text) == seq![wakeup_word()],
    ensures
        parse_step_model(text, real_name, is_admin) == ParseStepView::Done(
            Err::<GsctlCommandView, _>(GsctlErrorView::Help),
        ),
{
}

/// `reboot` with an explicit target never consults the lookup: an admin
/// whose target matches the hostname pattern gets exactly that target,
/// anyone else gets the privilege/target error.
pub proof fn lemma_reboot_explicit_target(text: Seq<char>, real_name: Seq<char>, is_admin: bool)
    requires
        tokens(text).len() >= 3,
        tokens(text)[0] == wakeup_word(),
        tokens(text)[1] == "reboot"@,
    ensures
        contains_hostname(tokens(text)[2]) && is_admin ==> parse_step_model(
            text,
            real_name,
            is_admin,
        ) == ParseStepView::Done(
            Ok::<_, GsctlErrorView>(GsctlCommandView::Reboot(tokens(text)[2])),
        ),
        !(contains_hostname(tokens(text)[2]) && is_admin) ==> parse_step_model(
            text,
            real_name,
            is_admin,
        ) == ParseStepView::Done(
            Err::<GsctlCommandView, _>(
                GsctlErrorView::Error("invalid target or insufficient privilege"@),
            ),
        ),
{
}

/// `reboot` with no target asks for exactly one lookup; a found host
/// becomes the reboot target, a miss is the location-not-found error, and
/// a lookup failure surfaces its own detail.
pub proof fn lemma_reboot_needs_lookup(text: Seq<char>, real_name: Seq<char>, is_admin: bool)
    requires
        tokens(text).len() == 2,
        tokens(text)[0] == wakeup_word(),
        tokens(text)[1] == "reboot"@,
    ensures
        parse_step_model(text, real_name, is_admin) == ParseStepView::NeedsLocation(
            LookupPurpose::RebootTarget,
        ),
        forall|host: Seq<char>|
            resolve_model(LookupPurpose::RebootTarget, real_name, LookupOutcomeView::Found(host))
                == Ok::<_, GsctlErrorView>(GsctlCommandView::Reboot(host)),
        resolve_model(LookupPurpose::RebootTarget, real_name, LookupOutcomeView::NotFound) == Err::<
            GsctlCommandView,
            _,
        >(GsctlErrorView::Error("location not found"@)),
        forall|detail: Seq<char>|
            resolve_model(LookupPurpose::RebootTarget, real_name, LookupOutcomeView::Failed(detail))
                == Err::<GsctlCommandView, _>(GsctlErrorView::Error(detail)),
{
}

/// `home reset` is complete from the text alone: it resets the
/// requester's own login and consults no lookup.
pub proof fn lemma_home_reset(text: Seq<char>, real_name: Seq<char>, is_admin: bool)
    requires
        tokens(text).len() >= 3,
        tokens(text)[0] == wakeup_word(),
        tokens(text)[1] == "home"@,
        tokens(text)[2] == "reset"@,
    ensures
        parse_step_model(text, real_name, is_admin) == ParseStepView::Done(
            Ok::<_, GsctlErrorView>(
                GsctlCommandView::Home(Some(SubCommandView::Reset(real_name))),
            ),
        ),
{
    reveal_strlit("reboot");
    reveal_strlit("home");
    assert("home"@.len() != "reboot"@.len());
}


/// `home close` asks for exactly one lookup; a found host closes the
/// requester's directory against that host, qualified for the storage
/// fabric.
pub proof fn lemma_home_close(text: Seq<char>, real_name: Seq<char>, is_admin: bool)
    requires
        tokens(text).len() >= 3,
        tokens(text)[0] == wakeup_word(),
        tokens(text)[1] == "home"@,
        tokens(text)[2] == "close"@,
    ensures
        parse_step_model(text, real_name, is_admin) == ParseStepView::NeedsLocation(
            LookupPurpose::HomeClose,
        ),
        forall|host: Seq<char>|
            resolve_model(LookupPurpose::HomeClose, real_name, LookupOutcomeView::Found(host))
                == Ok::<_, GsctlErrorView>(
                GsctlCommandView::Home(
                    Some(SubCommandView::Close(real_name, "iqn.fr.42:"@ + host)),
                ),
            ),
{
    reveal_strlit("reboot");
    reveal_strlit("home");
    reveal_strlit("reset");
    reveal_strlit("close");
    assert("home"@.len() != "reboot"@.len());
    assert("close"@[0] != "reset"@[0]);
}


/// Under `home`, any subcommand other than `reset` and `close` — absence
/// included — falls through to the help subcommand.
pub proof fn lemma_home_other(text: Seq<char>, real_name: Seq<char>, is_admin: bool)
    requires
        tokens(text).len() >= 2,
        tokens(text)[0] == wakeup_word(),
        tokens(text)[1] == "home"@,
        tokens(text).len() == 2 || (tokens(text)[2] != "reset"@ && tokens(text)[2] != "close"@),
    ensures
        parse_step_model(text, real_name, is_admin) == ParseStepView::Done(
            Ok::<_, GsctlErrorView>(GsctlCommandView::Home(Some(SubCommandView::Help))),
        ),
{
    reveal_strlit("reboot");
    reveal_strlit("home");
    assert("home"@.len() != "reboot"@.len());
}


/// Parsing is deterministic: the same text, identity, admin flag and
/// lookup outcome give the same command outcome, however often parsed.
pub proof fn lemma_parse_deterministic(
    text1: Seq<char>,
    real_name1: Seq<char>,
    is_admin1: bool,
    lookup1: LookupOutcomeView,
    text2: Seq<char>,
    real_name2: Seq<char>,
    is_admin2: bool,
    lookup2: LookupOutcomeView,
)
    requires
        text1 == text2,
        real_name1 == real_name2,
        is_admin1 == is_admin2,
        lookup1 == lookup2,
    ensures
        parse_outcome_model(text1, real_name1, is_admin1, lookup1) == parse_outcome_model(
            text2,
            real_name2,
            is_admin2,
            lookup2,
        ),
{
}

impl GsctlCommand {
    /// Parses everything the text alone decides; where the grammar needs
    /// the requester's location, says so instead of guessing.
    pub fn parse_step(context: &SlackMessageContext) -> (r: ParseStep)
        ensures
            r@ == parse_step_model(context.text@, context.real_name@, context.is_admin),
    {
        let toks = crate::text::tokenize(context.text.as_str());
        if toks.len() == 0 {
            return ParseStep::Done(Err(GsctlError::NotACommand));
        }
        if !crate::text::str_eq(toks[0].as_str(), wakeup_word_str()) {
            return ParseStep::Done(Err(GsctlError::NotACommand));
        }
        if toks.len() == 1 {
            return ParseStep::Done(Err(GsctlError::Help));
        }
        if crate::text::str_eq(toks[1].as_str(), "reboot") {
            if toks.len() >= 3 {
                if check_hostname(toks[2].as_str()) && context.is_admin {
                    ParseStep::Done(Ok(GsctlCommand::Reboot(toks[2].clone())))
                } else {
                    ParseStep::Done(
                        Err(
                            GsctlError::Error(
                                String::from_str("invalid target or insufficient privilege"),
                            ),
                        ),
                    )
                }
            } else {
                ParseStep::NeedsLocation(LookupPurpose::RebootTarget)
            }
        } else if crate::text::str_eq(toks[1].as_str(), "home") {
            if toks.len() >= 3 && crate::text::str_eq(toks[2].as_str(), "reset") {
                ParseStep::Done(
                    Ok(GsctlCommand::Home(Some(SubCommand::Reset(context.real_name.clone())))),
                )
            } else if toks.len() >= 3 && crate::text::str_eq(toks[2].as_str(), "close") {
                ParseStep::NeedsLocation(LookupPurpose::HomeClose)
            } else {
                ParseStep::Done(Ok(GsctlCommand::Home(Some(SubCommand::Help))))
            }
        } else if crate::text::str_eq(toks[1].as_str(), "goinfre") {
            if toks.len() >= 3 && crate::text::str_eq(toks[2].as_str(), "reset") {
                ParseStep::Done(
                    Ok(GsctlCommand::Goinfre(Some(SubCommand::Reset(context.real_name.clone())))),
                )
            } else {
                ParseStep::Done(Ok(GsctlCommand::Goinfre(Some(SubCommand::Help))))
            }
        } else if crate::text::str_eq(toks[1].as_str(), "update") {
            ParseStep::Done(Ok(GsctlCommand::Update))
        } else {
            ParseStep::Done(Err(GsctlError::Help))
        }
    }

    /// Finishes a command whose branch asked for the location lookup,
    /// from whatever the lookup collaborator handed back.
    pub fn resolve_location(
        purpose: LookupPurpose,
        context: &SlackMessageContext,
        outcome: LookupOutcome,
    ) -> (r: Result<GsctlCommand, GsctlError>)
        ensures
            outcome_view(&r) == resolve_model(purpose, context.real_name@, outcome@),
    {
        match outcome {
            LookupOutcome::Found(host) => match purpose {
                LookupPurpose::RebootTarget => Ok(GsctlCommand::Reboot(host)),
                LookupPurpose::HomeClose => {
                    let qualified = String::from_str("iqn.fr.42:").concat(host.as_str());
                    Ok(
                        GsctlCommand::Home(
                            Some(SubCommand::Close(context.real_name.clone(), qualified)),
                        ),
                    )
                },
            },
            LookupOutcome::NotFound => Err(
                GsctlError::Error(String::from_str("location not found")),
            ),
            LookupOutcome::Failed(detail) => Err(GsctlError::Error(detail)),
        }
    }
}

} // verus!
