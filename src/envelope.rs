//! The normalised form of an escalated failure and the notification built
//! from it.

use vstd::prelude::*;
use vstd::string::StringExecFns;
use crate::text::{decimal, decimal_string, join2, truncate_title};

verus! {

/// The zero-width space that fills a blank notification field.
pub open spec fn zero_width_space() -> Seq<char> {
    seq!['\u{200B}']
}

/// One labelled value of a notification.
#[derive(Clone, Debug)]
pub struct Field {
    pub label: String,
    pub value: String,
    pub inline: bool,
}

impl View for Field {
    type V = (Seq<char>, Seq<char>, bool);

    open spec fn view(&self) -> Self::V {
        (self.label@, self.value@, self.inline)
    }
}

impl Field {
    /// A copy of this field.
    pub fn clone_field(&self) -> (r: Field)
        ensures
            r@ == self@,
    {
        Field { label: self.label.clone(), value: self.value.clone(), inline: self.inline }
    }
}

/// The views of a sequence of fields.
pub open spec fn fields_view(fields: Seq<Field>) -> Seq<(Seq<char>, Seq<char>, bool)> {
    fields.map_values(|f: Field| f@)
}

/// A field holding nothing visible, used to pad a row of inline fields.
pub fn blank_field() -> (r: Field)
    ensures
        r@ == (zero_width_space(), zero_width_space(), true),
{
    proof {
        reveal_strlit("\u{200B}");
    }
    Field { label: String::from_str("\u{200B}"), value: String::from_str("\u{200B}"), inline: true }
}

/// A field with the given label, value and inline flag.
pub fn field(label: &str, value: &str, inline: bool) -> (r: Field)
    ensures
        r@ == (label@, value@, inline),
{
    Field { label: String::from_str(label), value: String::from_str(value), inline }
}

/// An internal failure on its way to the operators.
#[derive(Clone, Debug)]
pub struct FailureEnvelope {
    /// The event or command during which the failure happened.
    pub event: String,
    /// The one-line description of the failure.
    pub summary: String,
    /// Context of the failure, in display order.
    pub fields: Vec<Field>,
    /// The user or guild that triggered the failure, if known.
    pub author_name: Option<String>,
    pub icon_url: Option<String>,
    /// The full diagnostic text; its fingerprint identifies the failure.
    pub diagnostic: String,
}

/// Host readings shown with a new notification; a reading that could not be
/// taken is `None` and its field is left out.
#[derive(Clone, Debug)]
pub struct Telemetry {
    /// The five-minute load average, already written out.
    pub load_average: Option<String>,
    /// Memory in use, in bytes; shown in KiB.
    pub memory_used_bytes: Option<u64>,
}

/// The custom identifier of the control that asks for a stored traceback.
pub const VIEW_TRACEBACK_CUSTOM_ID: &'static str = "error::traceback::view";

/// What a new notification shows.
#[derive(Clone, Debug)]
pub struct Notification {
    pub title: String,
    pub fields: Vec<Field>,
    pub footer: String,
    pub author_name: Option<String>,
    /// Only present together with an author name.
    pub icon_url: Option<String>,
    /// Custom identifier of the attached traceback control.
    pub control_id: String,
    pub control_label: String,
}

pub open spec fn footer_prefix() -> Seq<char> {
    "This error has occurred "@
}

/// The footer of a notification whose failure occurred `count` times.
pub open spec fn footer_text(count: nat) -> Seq<char> {
    if count == 1 {
        footer_prefix() + "1 time!"@
    } else {
        footer_prefix() + decimal(count) + " times!"@
    }
}

/// Writes the occurrence footer.
pub fn occurrence_footer(count: u64) -> (r: String)
    ensures
        r@ == footer_text(count as nat),
{
    proof {
        reveal_strlit("This error has occurred ");
        reveal_strlit("1 time!");
        reveal_strlit(" times!");
    }
    if count == 1 {
        join2("This error has occurred ", "1 time!")
    } else {
        let n = decimal_string(count);
        let head = join2("This error has occurred ", n.as_str());
        head.concat(" times!")
    }
}

/// How a field value is displayed: as code, unless it is blank.
pub open spec fn shown_value(v: Seq<char>) -> Seq<char> {
    if v == zero_width_space() {
        v
    } else {
        seq!['`'] + v + seq!['`']
    }
}

pub open spec fn shown_field(f: (Seq<char>, Seq<char>, bool)) -> (Seq<char>, Seq<char>, bool) {
    (f.0, shown_value(f.1), f.2)
}

fn is_blank(v: &str) -> (r: bool)
    ensures
        r == (v@ == zero_width_space()),
{
    if v.unicode_len() != 1 {
        false
    } else {
        let c = v.get_char(0);
        assert(c == '\u{200B}' ==> v@ =~= zero_width_space());
        c == '\u{200B}'
    }
}

/// A field as the notification displays it.
pub fn show_field(f: &Field) -> (r: Field)
    ensures
        r@ == shown_field(f@),
{
    proof {
        reveal_strlit("`");
    }
    if is_blank(f.value.as_str()) {
        Field { label: f.label.clone(), value: f.value.clone(), inline: f.inline }
    } else {
        let quoted = join2("`", f.value.as_str()).concat("`");
        Field { label: f.label.clone(), value: quoted, inline: f.inline }
    }
}

} // verus!

verus! {

/// The fields shown before the envelope's own.
pub open spec fn leading_fields(event: Seq<char>, bot_user: Seq<char>) -> Seq<(Seq<char>, Seq<char>, bool)> {
    seq![("Event"@, event, true), ("Bot User"@, bot_user, true), (zero_width_space(), zero_width_space(), true)]
}

/// The host fields shown after the envelope's own; missing readings are left out.
pub open spec fn trailing_fields(
    load_average: Option<Seq<char>>,
    memory_used_bytes: Option<u64>,
    shard_count: u64,
) -> Seq<(Seq<char>, Seq<char>, bool)> {
    let load = match load_average {
        Some(l) => seq![("CPU Usage (5 minutes)"@, l, true)],
        None => Seq::empty(),
    };
    let memory = match memory_used_bytes {
        Some(m) => seq![("System Memory Usage"@, decimal((m / 1024) as nat), true)],
        None => Seq::empty(),
    };
    load + memory + seq![("Shard Count"@, decimal(shard_count as nat), true)]
}

pub open spec fn opt_view(o: Option<String>) -> Option<Seq<char>> {
    match o {
        Some(s) => Some(s@),
        None => None,
    }
}

/// Every field of a new notification, as displayed.
pub open spec fn notification_fields(
    env: FailureEnvelope,
    bot_user: Seq<char>,
    telemetry: Telemetry,
    shard_count: u64,
) -> Seq<(Seq<char>, Seq<char>, bool)> {
    (leading_fields(env.event@, bot_user) + fields_view(env.fields@) + trailing_fields(
        opt_view(telemetry.load_average),
        telemetry.memory_used_bytes,
        shard_count,
    )).map_values(|f: (Seq<char>, Seq<char>, bool)| shown_field(f))
}

fn push_shown(out: &mut Vec<Field>, f: &Field)
    ensures
        fields_view(final(out)@) == fields_view(old(out)@).push(shown_field(f@)),
{
    let shown = show_field(f);
    out.push(shown);
    assert(fields_view(final(out)@) =~= fields_view(old(out)@).push(shown_field(f@)));
}

pub(crate) fn copy_opt(o: &Option<String>) -> (r: Option<String>)
    ensures
        opt_view(r) == opt_view(*o),
{
    match o {
        Some(s) => Some(s.clone()),
        None => None,
    }
}

/// Builds the notification for the first occurrence of a failure.
pub fn build_notification(
    env: &FailureEnvelope,
    bot_user: &str,
    telemetry: &Telemetry,
    shard_count: u64,
) -> (r: Notification)
    ensures
        crate::text::is_title_of(r.title@, env.diagnostic@),
        fields_view(r.fields@) == notification_fields(*env, bot_user@, *telemetry, shard_count),
        r.footer@ == footer_text(1),
        opt_view(r.author_name) == opt_view(env.author_name),
        opt_view(r.icon_url) == (if env.author_name is Some {
            opt_view(env.icon_url)
        } else {
            None
        }),
        r.control_id@ == VIEW_TRACEBACK_CUSTOM_ID@,
        r.control_label@ == "View Traceback"@,
{
    proof {
        reveal_strlit("Event");
        reveal_strlit("Bot User");
        reveal_strlit("CPU Usage (5 minutes)");
        reveal_strlit("System Memory Usage");
        reveal_strlit("Shard Count");
        reveal_strlit("error::traceback::view");
        reveal_strlit("View Traceback");
    }
    let mut raw: Vec<Field> = Vec::new();
    raw.push(field("Event", env.event.as_str(), true));
    raw.push(field("Bot User", bot_user, true));
    raw.push(blank_field());
    let mut i: usize = 0;
    while i < env.fields.len()
        invariant
            i <= env.fields@.len(),
            fields_view(raw@) == leading_fields(env.event@, bot_user@) + fields_view(
                env.fields@.subrange(0, i as int),
            ),
        decreases env.fields@.len() - i,
    {
        let ghost before = raw@;
        raw.push(env.fields[i].clone_field());
        assert(fields_view(env.fields@.subrange(0, i + 1)) =~= fields_view(
            env.fields@.subrange(0, i as int),
        ).push(env.fields@[i as int]@));
        assert(fields_view(raw@) =~= fields_view(before).push(env.fields@[i as int]@));
        i = i + 1;
    }
    assert(env.fields@.subrange(0, env.fields@.len() as int) =~= env.fields@);
    let ghost with_env = fields_view(raw@);
    match &telemetry.load_average {
        Some(l) => raw.push(field("CPU Usage (5 minutes)", l.as_str(), true)),
        None => {},
    }
    match telemetry.memory_used_bytes {
        Some(m) => {
            let v = decimal_string(m / 1024);
            raw.push(field("System Memory Usage", v.as_str(), true));
        },
        None => {},
    }
    let shards = decimal_string(shard_count);
    raw.push(field("Shard Count", shards.as_str(), true));
    assert(fields_view(raw@) =~= with_env + trailing_fields(
        opt_view(telemetry.load_average),
        telemetry.memory_used_bytes,
        shard_count,
    ));
    let mut fields: Vec<Field> = Vec::new();
    let mut j: usize = 0;
    while j < raw.len()
        invariant
            j <= raw@.len(),
            fields_view(fields@) == fields_view(raw@).subrange(0, j as int).map_values(
                |f: (Seq<char>, Seq<char>, bool)| shown_field(f),
            ),
        decreases raw@.len() - j,
    {
        push_shown(&mut fields, &raw[j]);
        assert(fields_view(raw@).subrange(0, j + 1).map_values(
            |f: (Seq<char>, Seq<char>, bool)| shown_field(f),
        ) =~= fields_view(raw@).subrange(0, j as int).map_values(
            |f: (Seq<char>, Seq<char>, bool)| shown_field(f),
        ).push(shown_field(raw@[j as int]@)));
        j = j + 1;
    }
    assert(fields_view(raw@).subrange(0, raw@.len() as int) =~= fields_view(raw@));
    let icon_url = if env.author_name.is_some() {
        copy_opt(&env.icon_url)
    } else {
        None
    };
    Notification {
        title: truncate_title(env.diagnostic.as_str()),
        fields,
        footer: occurrence_footer(1),
        author_name: copy_opt(&env.author_name),
        icon_url,
        control_id: String::from_str(VIEW_TRACEBACK_CUSTOM_ID),
        control_label: String::from_str("View Traceback"),
    }
}

} // verus!
