//! Routing of failures: an inline reply for what the user can correct, an
//! envelope for the operators for internal faults.

use vstd::prelude::*;
use vstd::string::StringExecFns;
use crate::envelope::{
    blank_field, copy_opt, field, fields_view, opt_view, zero_width_space, FailureEnvelope, Field,
};
use crate::locale::localize;
use crate::replies::{
    bot_permissions_message, check_failed_message, command_failed_message, cooldown_message,
    cooldown_reply, cooldown_text, guild_only_message, guild_only_reply, guild_only_text,
    help_pointer, missing_argument, parse_failure_reply, parse_failure_text, parse_reason,
    parse_reason_template, permissions_reply, permissions_text, user_permissions_message,
    user_permissions_unknown_message, ParseFailureKind,
};
use crate::text::{decimal, decimal_string};

verus! {

/// The kind of channel a failure happened in.
#[derive(Clone, Copy, Debug, PartialEq, Eq, Structural)]
pub enum ChannelKind {
    Text,
    News,
    Voice,
    NewsThread,
    PublicThread,
    PrivateThread,
    /// Any other kind of guild channel.
    OtherGuild,
    Private,
    /// Any other channel.
    Other,
}

/// How a channel kind is named in a notification.
pub open spec fn channel_type_name(kind: ChannelKind) -> Seq<char> {
    match kind {
        ChannelKind::Text | ChannelKind::News => "Text Channel"@,
        ChannelKind::Voice => "Voice Channel"@,
        ChannelKind::NewsThread => "News Thread Channel"@,
        ChannelKind::PublicThread => "Public Thread Channel"@,
        ChannelKind::PrivateThread => "Private Thread Channel"@,
        ChannelKind::Private => "Private Channel"@,
        ChannelKind::OtherGuild | ChannelKind::Other => "Unknown Channel Type"@,
    }
}

/// Names a channel kind.
pub fn channel_type(kind: ChannelKind) -> (r: &'static str)
    ensures
        r@ == channel_type_name(kind),
{
    proof {
        reveal_strlit("Text Channel");
        reveal_strlit("Voice Channel");
        reveal_strlit("News Thread Channel");
        reveal_strlit("Public Thread Channel");
        reveal_strlit("Private Thread Channel");
        reveal_strlit("Private Channel");
        reveal_strlit("Unknown Channel Type");
    }
    match kind {
        ChannelKind::Text | ChannelKind::News => "Text Channel",
        ChannelKind::Voice => "Voice Channel",
        ChannelKind::NewsThread => "News Thread Channel",
        ChannelKind::PublicThread => "Public Thread Channel",
        ChannelKind::PrivateThread => "Private Thread Channel",
        ChannelKind::Private => "Private Channel",
        ChannelKind::OtherGuild | ChannelKind::Other => "Unknown Channel Type",
    }
}

/// The error behind an internal failure: its one-line description and its
/// full diagnostic text.
#[derive(Clone, Debug)]
pub struct Fault {
    pub summary: String,
    pub diagnostic: String,
}

/// A guild a command ran in.
#[derive(Clone, Debug)]
pub struct GuildRef {
    pub name: String,
    pub id: u64,
}

/// The event handler that failed.
#[derive(Clone, Debug)]
pub enum EventFailure {
    /// A new message; the guild's name is only there if it was cached.
    Message {
        guild_id: Option<u64>,
        guild_name: Option<String>,
        channel: ChannelKind,
        author_name: String,
        author_face: String,
    },
    MemberAddition { guild_id: u64, user_id: u64 },
    GuildCreate { guild_name: String, icon_url: Option<String> },
    /// A guild was left; it is only known if it was cached.
    GuildDelete { guild_name: Option<String>, icon_url: Option<String> },
    VoiceStateUpdate,
    InteractionCreate,
    Ready,
    /// Any other event, named.
    Other { name: String },
}

/// Every shape in which a failure reaches the reporter.
#[derive(Clone, Debug)]
pub enum Failure {
    /// Working out a message's command prefix failed.
    DynamicPrefix,
    /// A command failed while running.
    Command {
        command: String,
        /// Invoked as a slash command rather than by a message.
        slash: bool,
        channel: ChannelKind,
        guild: Option<GuildRef>,
        author_name: String,
        author_face: String,
        fault: Fault,
    },
    /// A command's argument could not be parsed; `input` is the argument, if
    /// one was given, and `command` the command's full name.
    ArgumentParse { kind: ParseFailureKind, input: Option<String>, command: String },
    /// A command was invoked again too soon.
    CooldownHit {
        command: String,
        remaining_ms: u64,
        /// Invoked by a message rather than interactively.
        conversational: bool,
    },
    MissingBotPermissions { permissions: Vec<String> },
    /// The user lacks permissions, named if known.
    MissingUserPermissions { permissions: Option<Vec<String>> },
    /// The bot could not be set up.
    Setup,
    /// A command check did not pass; `errored` if it failed with an error.
    CommandCheckFailed { errored: bool },
    /// An event handler failed.
    Event { event: EventFailure, fault: Fault },
    /// A background track failed; the fields and the author were bound when
    /// the track was registered.
    Track { fields: Vec<Field>, author_name: String, icon_url: String, fault: Fault },
    /// A guild-only command was used in private messages.
    GuildOnly { command: String, bot_name: String },
    /// A command panicked.
    CommandPanic,
    /// A failure that needs no answer: a structure mismatch, a command that is
    /// restricted to owners, private messages or NSFW channels, an unknown
    /// command or interaction, or a missing subcommand.
    Unanswered,
}

/// Where a failure goes.
#[derive(Debug)]
pub enum Route {
    /// Only written to the local log.
    Log,
    /// Answered inline, nothing else.
    Reply(String),
    /// Answered inline; after `delay_ms` the reply is deleted, and so is the
    /// triggering message where the bot may manage messages.
    ReplyThenClean { reply: String, delay_ms: u64 },
    /// Reported to the operators; `reply` also goes to the user.
    Escalate { envelope: FailureEnvelope, reply: Option<String> },
    /// The process cannot go on.
    Fatal,
}

pub type FieldView = (Seq<char>, Seq<char>, bool);

/// What an envelope holds: event, summary, fields, author name, icon and
/// diagnostic text.
pub type EnvelopeView = (Seq<char>, Seq<char>, Seq<FieldView>, Option<Seq<char>>, Option<Seq<char>>, Seq<char>);

pub open spec fn envelope_view(e: FailureEnvelope) -> EnvelopeView {
    (e.event@, e.summary@, fields_view(e.fields@), opt_view(e.author_name), opt_view(e.icon_url), e.diagnostic@)
}

pub open spec fn bool_text(b: bool) -> Seq<char> {
    if b {
        "true"@
    } else {
        "false"@
    }
}

/// The context fields of a failed command.
pub open spec fn command_fields(
    command: Seq<char>,
    slash: bool,
    channel: ChannelKind,
    guild: Option<GuildRef>,
) -> Seq<FieldView> {
    let base = seq![
        ("Command"@, command, true),
        ("Slash Command"@, bool_text(slash), true),
        ("Channel Type"@, channel_type_name(channel), true),
    ];
    match guild {
        Some(g) => base + seq![
            ("Guild"@, g.name@, true),
            ("Guild ID"@, decimal(g.id as nat), true),
            (zero_width_space(), zero_width_space(), true),
        ],
        None => base,
    }
}

/// The context fields of a failed message handler.
pub open spec fn message_fields(guild_id: Option<u64>, guild_name: Option<Seq<char>>, channel: ChannelKind) -> Seq<
    FieldView,
> {
    let guild = match guild_id {
        Some(id) => match guild_name {
            Some(n) => seq![("Guild"@, n, true), ("Guild ID"@, decimal(id as nat), true)],
            None => seq![("Guild ID"@, decimal(id as nat), true)],
        },
        None => Seq::empty(),
    };
    guild + seq![("Channel Type"@, channel_type_name(channel), true)]
}

/// The envelope of a failed event handler, or `None` for an event that is
/// only logged.
pub open spec fn event_envelope(event: EventFailure, summary: Seq<char>, diagnostic: Seq<char>) -> Option<EnvelopeView> {
    match event {
        EventFailure::Message { guild_id, guild_name, channel, author_name, author_face } => Some(
            (
                "MessageCreate"@,
                summary,
                message_fields(guild_id, opt_view(guild_name), channel),
                Some(author_name@),
                Some(author_face@),
                diagnostic,
            ),
        ),
        EventFailure::MemberAddition { guild_id, user_id } => Some(
            (
                "GuildMemberAdd"@,
                summary,
                seq![
                    ("Guild"@, decimal(guild_id as nat), true),
                    ("Guild ID"@, decimal(guild_id as nat), true),
                    ("User ID"@, decimal(user_id as nat), true),
                ],
                None,
                None,
                diagnostic,
            ),
        ),
        EventFailure::GuildCreate { guild_name, icon_url } => Some(
            ("GuildCreate"@, summary, Seq::empty(), Some(guild_name@), opt_view(icon_url), diagnostic),
        ),
        EventFailure::GuildDelete { guild_name, icon_url } => Some(
            ("GuildDelete"@, summary, Seq::empty(), opt_view(guild_name), opt_view(icon_url), diagnostic),
        ),
        EventFailure::VoiceStateUpdate => Some(
            ("VoiceStateUpdate"@, summary, Seq::empty(), None, None, diagnostic),
        ),
        EventFailure::InteractionCreate => Some(
            ("InteractionCreate"@, summary, Seq::empty(), None, None, diagnostic),
        ),
        EventFailure::Ready => Some(("Ready"@, summary, Seq::empty(), None, None, diagnostic)),
        EventFailure::Other { name: _ } => None,
    }
}

/// The envelope that a failure is escalated with, or `None` for a failure
/// that is not escalated.
pub open spec fn escalation(f: Failure) -> Option<EnvelopeView> {
    match f {
        Failure::Command { command, slash, channel, guild, author_name, author_face, fault } => Some(
            (
                "command"@,
                fault.summary@,
                command_fields(command@, slash, channel, guild),
                Some(author_name@),
                Some(author_face@),
                fault.diagnostic@,
            ),
        ),
        Failure::Event { event, fault } => event_envelope(event, fault.summary@, fault.diagnostic@),
        Failure::Track { fields, author_name, icon_url, fault } => Some(
            (
                "TrackError"@,
                fault.summary@,
                fields_view(fields@),
                Some(author_name@),
                Some(icon_url@),
                fault.diagnostic@,
            ),
        ),
        _ => None,
    }
}

/// The reply to a failure, in the untranslated messages, or `None` where the
/// user gets no reply.
pub open spec fn reply_text(f: Failure) -> Option<Seq<char>> {
    match f {
        Failure::Command { .. } => Some(command_failed_message()),
        Failure::ArgumentParse { kind, input, command } => Some(
            parse_failure_text(
                match input {
                    Some(_) => parse_reason(kind),
                    None => missing_argument(),
                },
                help_pointer(),
                opt_view(input),
                command@,
            ),
        ),
        Failure::CooldownHit { command, remaining_ms, conversational: _ } => Some(
            cooldown_text(cooldown_message(), command@, remaining_ms),
        ),
        Failure::MissingBotPermissions { permissions } => Some(
            permissions_text(bot_permissions_message(), permissions@),
        ),
        Failure::MissingUserPermissions { permissions } => Some(
            match permissions {
                Some(p) => permissions_text(user_permissions_message(), p@),
                None => user_permissions_unknown_message(),
            },
        ),
        Failure::CommandCheckFailed { errored } => if errored {
            Some(check_failed_message())
        } else {
            None
        },
        Failure::GuildOnly { command, bot_name } => Some(
            guild_only_text(guild_only_message(), bot_name@, command@),
        ),
        _ => None,
    }
}

/// The reply a route gives, if any.
pub open spec fn route_reply(r: Route) -> Option<Seq<char>> {
    match r {
        Route::Reply(s) => Some(s@),
        Route::ReplyThenClean { reply, delay_ms: _ } => Some(reply@),
        Route::Escalate { envelope: _, reply } => opt_view(reply),
        _ => None,
    }
}

} // verus!

verus! {

fn copy_fields(v: &Vec<Field>) -> (r: Vec<Field>)
    ensures
        fields_view(r@) == fields_view(v@),
{
    let mut out: Vec<Field> = Vec::new();
    let mut i: usize = 0;
    while i < v.len()
        invariant
            i <= v@.len(),
            fields_view(out@) == fields_view(v@.subrange(0, i as int)),
        decreases v@.len() - i,
    {
        out.push(v[i].clone_field());
        assert(fields_view(v@.subrange(0, i + 1)) =~= fields_view(v@.subrange(0, i as int)).push(v@[i as int]@));
        assert(fields_view(out@) =~= fields_view(v@.subrange(0, i as int)).push(v@[i as int]@));
        i = i + 1;
    }
    assert(v@.subrange(0, v@.len() as int) =~= v@);
    out
}

fn make_envelope(
    event: &str,
    fault: &Fault,
    fields: Vec<Field>,
    author_name: Option<String>,
    icon_url: Option<String>,
) -> (r: FailureEnvelope)
    ensures
        envelope_view(r) == (
            event@,
            fault.summary@,
            fields_view(fields@),
            opt_view(author_name),
            opt_view(icon_url),
            fault.diagnostic@,
        ),
{
    FailureEnvelope {
        event: String::from_str(event),
        summary: fault.summary.clone(),
        fields,
        author_name,
        icon_url,
        diagnostic: fault.diagnostic.clone(),
    }
}

/// The context fields of a failed command.
pub fn command_context(command: &str, slash: bool, channel: ChannelKind, guild: &Option<GuildRef>) -> (r: Vec<Field>)
    ensures
        fields_view(r@) == command_fields(command@, slash, channel, *guild),
{
    proof {
        reveal_strlit("Command");
        reveal_strlit("Slash Command");
        reveal_strlit("Channel Type");
        reveal_strlit("true");
        reveal_strlit("false");
        reveal_strlit("Guild");
        reveal_strlit("Guild ID");
    }
    let mut v: Vec<Field> = Vec::new();
    v.push(field("Command", command, true));
    v.push(field("Slash Command", if slash { "true" } else { "false" }, true));
    v.push(field("Channel Type", channel_type(channel), true));
    let ghost base = fields_view(v@);
    assert(base =~= seq![
        ("Command"@, command@, true),
        ("Slash Command"@, bool_text(slash), true),
        ("Channel Type"@, channel_type_name(channel), true),
    ]);
    match guild {
        Some(g) => {
            let id = decimal_string(g.id);
            v.push(field("Guild", g.name.as_str(), true));
            v.push(field("Guild ID", id.as_str(), true));
            v.push(blank_field());
            assert(fields_view(v@) =~= base + seq![
                ("Guild"@, g.name@, true),
                ("Guild ID"@, decimal(g.id as nat), true),
                (zero_width_space(), zero_width_space(), true),
            ]);
        },
        None => {},
    }
    v
}

/// The context fields of a failed message handler.
pub fn message_context(guild_id: Option<u64>, guild_name: &Option<String>, channel: ChannelKind) -> (r: Vec<Field>)
    ensures
        fields_view(r@) == message_fields(guild_id, opt_view(*guild_name), channel),
{
    proof {
        reveal_strlit("Guild");
        reveal_strlit("Guild ID");
        reveal_strlit("Channel Type");
    }
    let mut v: Vec<Field> = Vec::new();
    match guild_id {
        Some(id) => {
            match guild_name {
                Some(n) => v.push(field("Guild", n.as_str(), true)),
                None => {},
            }
            let s = decimal_string(id);
            v.push(field("Guild ID", s.as_str(), true));
        },
        None => {},
    }
    let ghost before = fields_view(v@);
    v.push(field("Channel Type", channel_type(channel), true));
    assert(fields_view(v@) =~= before.push(("Channel Type"@, channel_type_name(channel), true)));
    assert(fields_view(v@) =~= message_fields(guild_id, opt_view(*guild_name), channel));
    v
}

fn event_escalation(event: &EventFailure, fault: &Fault) -> (r: Option<FailureEnvelope>)
    ensures
        match r {
            Some(e) => event_envelope(*event, fault.summary@, fault.diagnostic@) == Some(envelope_view(e)),
            None => event_envelope(*event, fault.summary@, fault.diagnostic@) is None,
        },
{
    proof {
        reveal_strlit("MessageCreate");
        reveal_strlit("GuildMemberAdd");
        reveal_strlit("GuildCreate");
        reveal_strlit("GuildDelete");
        reveal_strlit("VoiceStateUpdate");
        reveal_strlit("InteractionCreate");
        reveal_strlit("Ready");
        reveal_strlit("Guild");
        reveal_strlit("Guild ID");
        reveal_strlit("User ID");
    }
    match event {
        EventFailure::Message { guild_id, guild_name, channel, author_name, author_face } => {
            let fields = message_context(*guild_id, guild_name, *channel);
            Some(make_envelope("MessageCreate", fault, fields, Some(author_name.clone()), Some(author_face.clone())))
        },
        EventFailure::MemberAddition { guild_id, user_id } => {
            let g = decimal_string(*guild_id);
            let u = decimal_string(*user_id);
            let mut fields: Vec<Field> = Vec::new();
            fields.push(field("Guild", g.as_str(), true));
            fields.push(field("Guild ID", g.as_str(), true));
            fields.push(field("User ID", u.as_str(), true));
            let e = make_envelope("GuildMemberAdd", fault, fields, None, None);
            assert(envelope_view(e).2 =~= seq![
                ("Guild"@, decimal(*guild_id as nat), true),
                ("Guild ID"@, decimal(*guild_id as nat), true),
                ("User ID"@, decimal(*user_id as nat), true),
            ]);
            Some(e)
        },
        EventFailure::GuildCreate { guild_name, icon_url } => {
            let e = make_envelope("GuildCreate", fault, Vec::new(), Some(guild_name.clone()), copy_opt(icon_url));
            assert(envelope_view(e).2 =~= Seq::<FieldView>::empty());
            Some(e)
        },
        EventFailure::GuildDelete { guild_name, icon_url } => {
            let e = make_envelope(
                "GuildDelete",
                fault,
                Vec::new(),
                copy_opt(guild_name),
                copy_opt(icon_url),
            );
            assert(envelope_view(e).2 =~= Seq::<FieldView>::empty());
            Some(e)
        },
        EventFailure::VoiceStateUpdate => {
            let e = make_envelope("VoiceStateUpdate", fault, Vec::new(), None, None);
            assert(envelope_view(e).2 =~= Seq::<FieldView>::empty());
            Some(e)
        },
        EventFailure::InteractionCreate => {
            let e = make_envelope("InteractionCreate", fault, Vec::new(), None, None);
            assert(envelope_view(e).2 =~= Seq::<FieldView>::empty());
            Some(e)
        },
        EventFailure::Ready => {
            let e = make_envelope("Ready", fault, Vec::new(), None, None);
            assert(envelope_view(e).2 =~= Seq::<FieldView>::empty());
            Some(e)
        },
        EventFailure::Other { name: _ } => None,
    }
}

/// Decides where a failure goes. Internal faults of commands, event handlers
/// and tracks are escalated with their envelope; what the user can correct
/// is answered inline, in the language of `catalog`; setup failures and
/// panics are fatal; the rest is only logged.
pub fn classify(failure: &Failure, catalog: Option<&gettext::Catalog>) -> (r: Route)
    ensures
        (r is Escalate) == (escalation(*failure) is Some),
        r matches Route::Escalate { envelope, reply: _ } ==> escalation(*failure) == Some(
            envelope_view(envelope),
        ),
        (r is Fatal) == (failure is Setup || failure is CommandPanic),
        (r is ReplyThenClean) == (failure matches Failure::CooldownHit { conversational: true, .. }),
        r matches Route::ReplyThenClean { delay_ms, .. } ==> failure matches Failure::CooldownHit {
            remaining_ms,
            ..
        } && delay_ms == remaining_ms,
        (route_reply(r) is Some) == (reply_text(*failure) is Some),
        catalog is None ==> route_reply(r) == reply_text(*failure),
{
    proof {
        reveal_strlit("command");
        reveal_strlit("TrackError");
        reveal_strlit("You missed an argument to the command");
        reveal_strlit("please check out `/help {command}`");
        reveal_strlit("`/{command_name}` is on cooldown, please try again in {} seconds!");
        reveal_strlit(
            "I cannot run this command as I am missing permissions, please ask an administrator of the server to give me: {}",
        );
        reveal_strlit(
            "You cannot run this command as you are missing permissions, please ask an administrator of the server to give you: {}",
        );
        reveal_strlit("You cannot run this command as you are missing permissions.");
        reveal_strlit("An unknown error occurred, please report this on the support server!");
        reveal_strlit(
            "An unknown error occurred during the premium check, please report this on the support server!",
        );
        reveal_strlit(
            "`/{command_name}` cannot be used in private messages, please run this command in a server channel.",
        );
    }
    match failure {
        Failure::DynamicPrefix => Route::Log,
        Failure::Command { command, slash, channel, guild, author_name, author_face, fault } => {
            let fields = command_context(command.as_str(), *slash, *channel, guild);
            let envelope = make_envelope(
                "command",
                fault,
                fields,
                Some(author_name.clone()),
                Some(author_face.clone()),
            );
            let reply = localize(catalog, "An unknown error occurred, please report this on the support server!");
            Route::Escalate { envelope, reply: Some(reply) }
        },
        Failure::ArgumentParse { kind, input, command } => {
            let reason = match input {
                Some(_) => localize(catalog, parse_reason_template(*kind)),
                None => localize(catalog, "You missed an argument to the command"),
            };
            let pointer = localize(catalog, "please check out `/help {command}`");
            Route::Reply(parse_failure_reply(reason.as_str(), pointer.as_str(), input, command.as_str()))
        },
        Failure::CooldownHit { command, remaining_ms, conversational } => {
            let template = localize(catalog, "`/{command_name}` is on cooldown, please try again in {} seconds!");
            let reply = cooldown_reply(template.as_str(), command.as_str(), *remaining_ms);
            if *conversational {
                Route::ReplyThenClean { reply, delay_ms: *remaining_ms }
            } else {
                Route::Reply(reply)
            }
        },
        Failure::MissingBotPermissions { permissions } => {
            let template = localize(
                catalog,
                "I cannot run this command as I am missing permissions, please ask an administrator of the server to give me: {}",
            );
            Route::Reply(permissions_reply(template.as_str(), permissions))
        },
        Failure::MissingUserPermissions { permissions } => {
            match permissions {
                Some(p) => {
                    let template = localize(
                        catalog,
                        "You cannot run this command as you are missing permissions, please ask an administrator of the server to give you: {}",
                    );
                    Route::Reply(permissions_reply(template.as_str(), p))
                },
                None => Route::Reply(localize(catalog, "You cannot run this command as you are missing permissions.")),
            }
        },
        Failure::Setup => Route::Fatal,
        Failure::CommandCheckFailed { errored } => {
            if *errored {
                Route::Reply(
                    localize(
                        catalog,
                        "An unknown error occurred during the premium check, please report this on the support server!",
                    ),
                )
            } else {
                Route::Log
            }
        },
        Failure::Event { event, fault } => {
            match event_escalation(event, fault) {
                Some(envelope) => Route::Escalate { envelope, reply: None },
                None => Route::Log,
            }
        },
        Failure::Track { fields, author_name, icon_url, fault } => {
            let envelope = make_envelope(
                "TrackError",
                fault,
                copy_fields(fields),
                Some(author_name.clone()),
                Some(icon_url.clone()),
            );
            Route::Escalate { envelope, reply: None }
        },
        Failure::GuildOnly { command, bot_name } => {
            let template = localize(
                catalog,
                "`/{command_name}` cannot be used in private messages, please run this command in a server channel.",
            );
            Route::Reply(guild_only_reply(template.as_str(), bot_name.as_str(), command.as_str()))
        },
        Failure::CommandPanic => Route::Fatal,
        Failure::Unanswered => Route::Log,
    }
}

} // verus!

verus! {

/// Failures the user can correct (bad arguments, cooldowns, missing
/// permissions) are answered inline and never escalated, so they never reach
/// the fingerprint or the deduplication store.
pub proof fn lemma_user_correctable_not_escalated(f: Failure)
    requires
        f is ArgumentParse || f is CooldownHit || f is MissingBotPermissions || f is MissingUserPermissions,
    ensures
        escalation(f) is None,
        reply_text(f) is Some,
{
}

/// Reports the failures of one background track. What the reports show
/// besides the fault (fields, author and icon) is bound once, when the track
/// is registered, and reused for every failure of the track.
#[derive(Clone, Debug)]
pub struct TrackErrorHandler {
    pub extra_fields: Vec<Field>,
    pub author_name: String,
    pub icon_url: String,
}

impl TrackErrorHandler {
    /// A handler with the context of a track.
    pub fn new(extra_fields: Vec<Field>, author_name: String, icon_url: String) -> (r: TrackErrorHandler)
        ensures
            r.extra_fields == extra_fields,
            r.author_name == author_name,
            r.icon_url == icon_url,
    {
        TrackErrorHandler { extra_fields, author_name, icon_url }
    }

    /// The failure to report when the track fails with `fault`.
    pub fn act(&self, fault: Fault) -> (r: Failure)
        ensures
            r matches Failure::Track { fields, author_name, icon_url, fault: f } && fields_view(fields@)
                == fields_view(self.extra_fields@) && author_name@ == self.author_name@ && icon_url@
                == self.icon_url@ && f == fault,
    {
        Failure::Track {
            fields: copy_fields(&self.extra_fields),
            author_name: self.author_name.clone(),
            icon_url: self.icon_url.clone(),
            fault,
        }
    }
}

/// An argument that is not a number is answered, in the untranslated
/// messages, with "I cannot convert `<argument>` to a number" and the pointer
/// to the command's help; nothing is escalated.
pub proof fn lemma_integer_parse_reply(input: String, command: String)
    ensures
        ({
            let f = Failure::ArgumentParse { kind: ParseFailureKind::Integer, input: Some(input), command };
            &&& escalation(f) is None
            &&& reply_text(f) == Some(
                "I cannot convert `"@ + input@ + "` to a number"@ + ", "@ + "please check out `/help "@ + command@
                    + "`"@,
            )
        }),
{
    reveal_strlit("I cannot convert `{}` to a number");
    reveal_strlit("I cannot convert `");
    reveal_strlit("{}");
    reveal_strlit("` to a number");
    reveal_strlit("please check out `/help {command}`");
    reveal_strlit("please check out `/help ");
    reveal_strlit("{command}");
    reveal_strlit("`");
    assert(parse_reason(ParseFailureKind::Integer) =~= "I cannot convert `"@ + "{}"@ + "` to a number"@);
    assert(help_pointer() =~= "please check out `/help "@ + "{command}"@ + "`"@);
    crate::text::lemma_fill_once("I cannot convert `"@, "` to a number"@, "{}"@, input@);
    crate::text::lemma_fill_once("please check out `/help "@, "`"@, "{command}"@, command@);
    assert(("I cannot convert `"@ + input@ + "` to a number"@) + ", "@ + ("please check out `/help "@ + command@
        + "`"@) =~= "I cannot convert `"@ + input@ + "` to a number"@ + ", "@ + "please check out `/help "@
        + command@ + "`"@);
}

} // verus!
