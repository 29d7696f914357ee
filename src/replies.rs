//! The inline replies to failures that the user can correct.

use vstd::prelude::*;
use vstd::string::StringExecFns;
use crate::text::{decimal, decimal_string, digit_char, join_with, joined, replace_all, replaced};

verus! {

/// Why a command's argument could not be parsed.
#[derive(Clone, Copy, Debug, PartialEq, Eq, Structural)]
pub enum ParseFailureKind {
    MemberNotFound,
    GuildNotFound,
    ChannelNotFound,
    /// The argument is not an integer.
    Integer,
    /// The argument is not a boolean.
    Boolean,
    /// Any other parse failure.
    Other,
}

/// The message explaining a parse failure of the argument `input`, with `{}`
/// standing for it.
pub open spec fn parse_reason(kind: ParseFailureKind) -> Seq<char> {
    match kind {
        ParseFailureKind::MemberNotFound => "I cannot find the member: `{}`"@,
        ParseFailureKind::GuildNotFound => "I cannot find the server: `{}`"@,
        ParseFailureKind::ChannelNotFound => "I cannot find the channel: `{}`"@,
        ParseFailureKind::Integer => "I cannot convert `{}` to a number"@,
        ParseFailureKind::Boolean => "I cannot convert `{}` to True/False"@,
        ParseFailureKind::Other => "I cannot understand your message"@,
    }
}

pub open spec fn missing_argument() -> Seq<char> {
    "You missed an argument to the command"@
}

/// The pointer to help that ends every parse failure reply, with `{command}`
/// standing for the command's full name.
pub open spec fn help_pointer() -> Seq<char> {
    "please check out `/help {command}`"@
}

/// Writes the reason template for a parse failure.
pub fn parse_reason_template(kind: ParseFailureKind) -> (r: &'static str)
    ensures
        r@ == parse_reason(kind),
{
    proof {
        reveal_strlit("I cannot find the member: `{}`");
        reveal_strlit("I cannot find the server: `{}`");
        reveal_strlit("I cannot find the channel: `{}`");
        reveal_strlit("I cannot convert `{}` to a number");
        reveal_strlit("I cannot convert `{}` to True/False");
        reveal_strlit("I cannot understand your message");
    }
    match kind {
        ParseFailureKind::MemberNotFound => "I cannot find the member: `{}`",
        ParseFailureKind::GuildNotFound => "I cannot find the server: `{}`",
        ParseFailureKind::ChannelNotFound => "I cannot find the channel: `{}`",
        ParseFailureKind::Integer => "I cannot convert `{}` to a number",
        ParseFailureKind::Boolean => "I cannot convert `{}` to True/False",
        ParseFailureKind::Other => "I cannot understand your message",
    }
}

/// The reply to a parse failure, from its (translated) reason template and
/// help pointer template: the reason, with the argument in place of `{}` when
/// there was one, then the pointer to the command's help.
pub open spec fn parse_failure_text(
    reason: Seq<char>,
    pointer: Seq<char>,
    input: Option<Seq<char>>,
    command: Seq<char>,
) -> Seq<char> {
    let head = match input {
        Some(i) => replaced(reason, "{}"@, i),
        None => reason,
    };
    head + ", "@ + replaced(pointer, "{command}"@, command)
}

/// Writes the reply to a parse failure from its templates.
pub fn parse_failure_reply(reason: &str, pointer: &str, input: &Option<String>, command: &str) -> (r: String)
    ensures
        r@ == parse_failure_text(
            reason@,
            pointer@,
            match input {
                Some(i) => Some(i@),
                None => None,
            },
            command@,
        ),
{
    proof {
        reveal_strlit("{}");
        reveal_strlit("{command}");
        reveal_strlit(", ");
    }
    let head = match input {
        Some(i) => replace_all(reason, "{}", i.as_str()),
        None => String::from_str(reason),
    };
    let fix = replace_all(pointer, "{command}", command);
    head.concat(", ").concat(fix.as_str())
}

/// The cooldown warning, with `{command_name}` and `{}` standing for the
/// command and the seconds left.
pub open spec fn cooldown_message() -> Seq<char> {
    "`/{command_name}` is on cooldown, please try again in {} seconds!"@
}

/// A duration in milliseconds as seconds with one decimal, rounded half up.
pub open spec fn seconds_text(ms: u64) -> Seq<char> {
    let tenths = (ms / 100 + if ms % 100 >= 50 { 1int } else { 0int }) as nat;
    decimal(tenths / 10) + seq!['.', digit_char(tenths % 10)]
}

/// Writes a duration in milliseconds as seconds with one decimal.
pub fn seconds_string(ms: u64) -> (r: String)
    ensures
        r@ == seconds_text(ms),
{
    proof {
        reveal_strlit(".");
    }
    let tenths: u64 = ms / 100 + if ms % 100 >= 50 { 1 } else { 0 };
    let whole = decimal_string(tenths / 10);
    let frac = decimal_string(tenths % 10);
    assert(frac@ == seq![digit_char((tenths % 10) as nat)]);
    let r = whole.concat(".").concat(frac.as_str());
    assert(r@ =~= seconds_text(ms));
    r
}

/// The reply to a command on cooldown.
pub open spec fn cooldown_text(template: Seq<char>, command: Seq<char>, remaining_ms: u64) -> Seq<char> {
    replaced(replaced(template, "{command_name}"@, command), "{}"@, seconds_text(remaining_ms))
}

/// Writes the reply to a command on cooldown from its template.
pub fn cooldown_reply(template: &str, command: &str, remaining_ms: u64) -> (r: String)
    ensures
        r@ == cooldown_text(template@, command@, remaining_ms),
{
    proof {
        reveal_strlit("{command_name}");
        reveal_strlit("{}");
    }
    let named = replace_all(template, "{command_name}", command);
    let secs = seconds_string(remaining_ms);
    replace_all(named.as_str(), "{}", secs.as_str())
}

pub open spec fn bot_permissions_message() -> Seq<char> {
    "I cannot run this command as I am missing permissions, please ask an administrator of the server to give me: {}"@
}

pub open spec fn user_permissions_message() -> Seq<char> {
    "You cannot run this command as you are missing permissions, please ask an administrator of the server to give you: {}"@
}

pub open spec fn user_permissions_unknown_message() -> Seq<char> {
    "You cannot run this command as you are missing permissions."@
}

/// The names of the missing permissions, comma separated.
pub open spec fn permission_list(names: Seq<String>) -> Seq<char> {
    joined(names.map_values(|n: String| n@), ", "@)
}

/// The reply naming missing permissions, from its template.
pub open spec fn permissions_text(template: Seq<char>, names: Seq<String>) -> Seq<char> {
    replaced(template, "{}"@, permission_list(names))
}

/// Writes the reply naming missing permissions.
pub fn permissions_reply(template: &str, names: &Vec<String>) -> (r: String)
    ensures
        r@ == permissions_text(template@, names@),
{
    proof {
        reveal_strlit("{}");
        reveal_strlit(", ");
    }
    let list = join_with(names, ", ");
    replace_all(template, "{}", list.as_str())
}

pub open spec fn guild_only_message() -> Seq<char> {
    "`/{command_name}` cannot be used in private messages, please run this command in a server channel."@
}

/// The reply to a guild-only command used in private messages.
pub open spec fn guild_only_text(template: Seq<char>, bot_name: Seq<char>, command: Seq<char>) -> Seq<char> {
    replaced(replaced(template, "{bot_name}"@, bot_name), "{command_name}"@, command)
}

/// Writes the reply to a guild-only command used in private messages.
pub fn guild_only_reply(template: &str, bot_name: &str, command: &str) -> (r: String)
    ensures
        r@ == guild_only_text(template@, bot_name@, command@),
{
    proof {
        reveal_strlit("{bot_name}");
        reveal_strlit("{command_name}");
    }
    let named = replace_all(template, "{bot_name}", bot_name);
    replace_all(named.as_str(), "{command_name}", command)
}

pub open spec fn command_failed_message() -> Seq<char> {
    "An unknown error occurred, please report this on the support server!"@
}

pub open spec fn check_failed_message() -> Seq<char> {
    "An unknown error occurred during the premium check, please report this on the support server!"@
}

} // verus!
