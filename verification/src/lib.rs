//! Chat-driven operations bot: command grammar, remote command construction,
//! and the task engine that turns parsed commands into chat-side effects.
//!
//! The library is the verified core: tokenizing and parsing the chat text,
//! building the remote command lines, deciding what each task does, and
//! mapping outcomes to the reaction/reply actions posted back to the chat.
//! Network transport, the secure-shell spawn and the chat API calls live
//! outside the library and only hand plain values in and out.

pub mod bot_cmd;
pub mod cmd;
pub mod engine;
pub mod excutor;
pub mod queue;
pub mod text;

use vstd::prelude::*;

verus! {

/// The token a message must start with to address the bot at all.
pub open spec fn wakeup_word() -> Seq<char> {
    "YourSlackBotInternalIdHere"@
}

/// The user-facing form of the bot's name, shown in the usage text.
pub open spec fn wakeup_word_for_user() -> Seq<char> {
    "@YourSlackBotNameHere"@
}

/// Exec access to [`wakeup_word`].
pub fn wakeup_word_str() -> (r: &'static str)
    ensures
        r@ == wakeup_word(),
{
    "YourSlackBotInternalIdHere"
}

/// Exec access to [`wakeup_word_for_user`].
pub fn wakeup_word_for_user_str() -> (r: &'static str)
    ensures
        r@ == wakeup_word_for_user(),
{
    "@YourSlackBotNameHere"
}

} // verus!
