//! The overview of a guild's and a user's settings.

use vstd::prelude::*;
use vstd::string::StringExecFns;
use crate::locale::localize;
use crate::settings::{mode_name, mode_str};
use crate::text::{decimal, decimal_string, replace_all, replaced};
use crate::voices::{check_valid_voice, format_voice, valid_voice, voice_display, TTSMode, VoiceData};

verus! {

/// A guild's stored settings.
#[derive(Clone, Debug)]
pub struct GuildSettings {
    /// The setup channel, 0 if none.
    pub channel: u64,
    pub prefix: String,
    pub auto_join: bool,
    pub xsaid: bool,
    pub bot_ignore: bool,
    pub audience_ignore: bool,
    pub require_voice: bool,
    pub voice_mode: TTSMode,
    /// The guild's voice for its mode, if it set one.
    pub voice: Option<String>,
    pub msg_length: u16,
    pub repeated_chars: u16,
    pub to_translate: bool,
    pub target_lang: Option<String>,
}

/// A user's stored settings, as far as the overview shows them.
#[derive(Clone, Debug)]
pub struct UserSettings {
    pub voice_mode: Option<TTSMode>,
    pub premium_voice_mode: Option<TTSMode>,
    /// The user's voice in the mode they use, if set.
    pub voice: Option<String>,
    pub nickname: Option<String>,
}

/// What the overview needs besides the stored settings.
#[derive(Clone, Debug)]
pub struct OverviewContext {
    /// The cached name of the setup channel, if known.
    pub channel_name: Option<String>,
    /// The default voice of the guild's mode.
    pub mode_default_voice: String,
    /// The user's speaking rate and its unit, written out.
    pub speaking_rate: String,
    pub speaking_rate_kind: String,
    /// The four list separators, one per section.
    pub separators: [String; 4],
}

/// One section of the overview.
#[derive(Debug)]
pub struct Section {
    pub title: String,
    pub body: String,
}

/// The overview: a title, four sections and a footer.
#[derive(Debug)]
pub struct Overview {
    pub title: String,
    pub sections: Vec<Section>,
    pub footer: String,
}

/// `template` with each key of `pairs`, in order, replaced by its value.
pub open spec fn filled(template: Seq<char>, pairs: Seq<(Seq<char>, Seq<char>)>) -> Seq<char>
    decreases pairs.len(),
{
    if pairs.len() == 0 {
        template
    } else {
        replaced(filled(template, pairs.drop_last()), pairs.last().0, pairs.last().1)
    }
}

/// Replaces each key of `pairs`, in order, by its value.
pub fn fill(template: &str, pairs: &Vec<(&str, String)>) -> (r: String)
    requires
        forall|i: int| 0 <= i < pairs@.len() ==> (#[trigger] pairs@[i]).0@.len() > 0,
    ensures
        r@ == filled(template@, pairs@.map_values(|p: (&str, String)| (p.0@, p.1@))),
{
    let ghost views = pairs@.map_values(|p: (&str, String)| (p.0@, p.1@));
    let mut out = String::from_str(template);
    let mut i: usize = 0;
    while i < pairs.len()
        invariant
            i <= pairs@.len(),
            views == pairs@.map_values(|p: (&str, String)| (p.0@, p.1@)),
            forall|k: int| 0 <= k < pairs@.len() ==> (#[trigger] pairs@[k]).0@.len() > 0,
            out@ == filled(template@, views.subrange(0, i as int)),
        decreases pairs@.len() - i,
    {
        let (key, value) = &pairs[i];
        assert(pairs@[i as int].0@.len() > 0);
        out = replace_all(out.as_str(), key, value.as_str());
        assert(views.subrange(0, i + 1).drop_last() =~= views.subrange(0, i as int));
        i = i + 1;
    }
    assert(views.subrange(0, pairs@.len() as int) =~= views);
    out
}

pub open spec fn bool_name(b: bool) -> Seq<char> {
    if b {
        "true"@
    } else {
        "false"@
    }
}

fn bool_string(b: bool) -> (r: String)
    ensures
        r@ == bool_name(b),
{
    proof {
        reveal_strlit("true");
        reveal_strlit("false");
    }
    if b {
        String::from_str("true")
    } else {
        String::from_str("false")
    }
}

/// The mode whose voice settings a user sees: the premium one in a guild with
/// a premium mode.
pub open spec fn user_mode(guild: GuildSettings, user: UserSettings) -> Option<TTSMode> {
    if guild.voice_mode is Polly || guild.voice_mode is gCloud {
        user.premium_voice_mode
    } else {
        user.voice_mode
    }
}

/// How a stored voice is shown; a premium voice the engine does not offer is
/// shown as stored.
pub open spec fn shown_voice(data: VoiceData, voice: Seq<char>, mode: TTSMode) -> Seq<char> {
    if (mode is gCloud || mode is Polly) && !valid_voice(data, voice, mode) {
        voice
    } else {
        voice_display(data, voice, mode)
    }
}

fn show_voice(data: &VoiceData, voice: &String, mode: TTSMode) -> (r: String)
    ensures
        r@ == shown_voice(*data, voice@, mode),
{
    if (mode.is_premium()) && !check_valid_voice(data, voice, mode) {
        voice.clone()
    } else {
        format_voice(data, voice.as_str(), mode)
    }
}

pub open spec fn opt_or(o: Option<String>, fallback: Seq<char>) -> Seq<char> {
    match o {
        Some(s) => s@,
        None => fallback,
    }
}

fn string_or(o: &Option<String>, fallback: &String) -> (r: String)
    ensures
        r@ == opt_or(*o, fallback@),
{
    match o {
        Some(s) => s.clone(),
        None => fallback.clone(),
    }
}

pub open spec fn general_template() -> Seq<char> {
    "\n{sep1} Setup Channel: `#{channel_name}`\n{sep1} Command Prefix: `{prefix}`\n{sep1} Auto Join: `{autojoin}`\n        "@
}

pub open spec fn tts_template() -> Seq<char> {
    "\n{sep2} <User> said: message: `{xsaid}`\n{sep2} Ignore bot's messages: `{bot_ignore}`\n{sep2} Ignore audience messages: `{audience_ignore}`\n{sep2} Require users in voice channel: `{require_voice}`\n\n**{sep2} Default Server Voice Mode: `{guild_mode}`**\n**{sep2} Default Server Voice: `{default_voice}`**\n\n{sep2} Max Time to Read: `{msg_length} seconds`\n{sep2} Max Repeated Characters: `{repeated_chars}`\n        "@
}

pub open spec fn translation_template() -> Seq<char> {
    "\n{sep4} Translation: `{to_translate}`\n{sep4} Translation Language: `{target_lang}`\n        "@
}

pub open spec fn user_template() -> Seq<char> {
    "\n{sep3} Voice: `{user_voice}`\n{sep3} Voice Mode: `{voice_mode}`\n{sep3} Nickname: `{nickname}`\n{sep3} Speaking Rate: `{speaking_rate}{speaking_rate_kind}`\n        "@
}

pub open spec fn not_set_up() -> Seq<char> {
    "has not been set up yet"@
}

/// The setup channel as shown; the cached name is only used while the stored
/// channel is 0.
pub open spec fn channel_shown(guild: GuildSettings, ctx: OverviewContext) -> Seq<char> {
    if guild.channel == 0 {
        opt_or(ctx.channel_name, not_set_up())
    } else {
        not_set_up()
    }
}

/// The values of the general section, by placeholder.
pub open spec fn general_pairs(guild: GuildSettings, ctx: OverviewContext) -> Seq<(Seq<char>, Seq<char>)> {
    seq![
        ("{sep1}"@, ctx.separators[0]@),
        ("{prefix}"@, guild.prefix@),
        ("{autojoin}"@, bool_name(guild.auto_join)),
        ("{channel_name}"@, channel_shown(guild, ctx)),
    ]
}

/// The values of the TTS section, by placeholder.
pub open spec fn tts_pairs(data: VoiceData, guild: GuildSettings, ctx: OverviewContext) -> Seq<(Seq<char>, Seq<char>)> {
    seq![
        ("{sep2}"@, ctx.separators[1]@),
        ("{xsaid}"@, bool_name(guild.xsaid)),
        ("{bot_ignore}"@, bool_name(guild.bot_ignore)),
        ("{audience_ignore}"@, bool_name(guild.audience_ignore)),
        ("{require_voice}"@, bool_name(guild.require_voice)),
        ("{guild_mode}"@, mode_name(guild.voice_mode)),
        ("{default_voice}"@, match guild.voice {
            Some(v) => shown_voice(data, v@, guild.voice_mode),
            None => ctx.mode_default_voice@,
        }),
        ("{msg_length}"@, decimal(guild.msg_length as nat)),
        ("{repeated_chars}"@, decimal(guild.repeated_chars as nat)),
    ]
}

/// The values of the translation section, by placeholder.
pub open spec fn translation_pairs(guild: GuildSettings, ctx: OverviewContext, none: Seq<char>) -> Seq<(Seq<char>, Seq<char>)> {
    seq![
        ("{sep4}"@, ctx.separators[3]@),
        ("{to_translate}"@, bool_name(guild.to_translate)),
        ("{target_lang}"@, opt_or(guild.target_lang, none)),
    ]
}

/// The values of the user section, by placeholder.
pub open spec fn user_pairs(
    data: VoiceData,
    guild: GuildSettings,
    user: UserSettings,
    ctx: OverviewContext,
    none: Seq<char>,
) -> Seq<(Seq<char>, Seq<char>)> {
    let mode = user_mode(guild, user);
    let current = match mode {
        Some(m) => m,
        None => guild.voice_mode,
    };
    seq![
        ("{sep3}"@, ctx.separators[2]@),
        ("{user_voice}"@, match user.voice {
            Some(v) => shown_voice(data, v@, current),
            None => none,
        }),
        ("{voice_mode}"@, match mode {
            Some(m) => mode_name(m),
            None => none,
        }),
        ("{nickname}"@, opt_or(user.nickname, none)),
        ("{speaking_rate}"@, ctx.speaking_rate@),
        ("{speaking_rate_kind}"@, ctx.speaking_rate_kind@),
    ]
}

fn pair(key: &'static str, value: String) -> (r: (&'static str, String))
    ensures
        r.0 == key,
        r.1 == value,
{
    (key, value)
}

pub open spec fn section_view(s: Section) -> (Seq<char>, Seq<char>) {
    (s.title@, s.body@)
}

pub open spec fn overview_footer() -> Seq<char> {
    "Change these settings with `/set {property} {value}`!\nNone = setting has not been set yet!"@
}

pub open spec fn pairs_view(pairs: Seq<(&'static str, String)>) -> Seq<(Seq<char>, Seq<char>)> {
    pairs.map_values(|p: (&'static str, String)| (p.0@, p.1@))
}

/// The overview of the settings of `guild` and `user`, in the language of
/// `catalog`.
pub fn settings(
    catalog: Option<&gettext::Catalog>,
    data: &VoiceData,
    guild: &GuildSettings,
    user: &UserSettings,
    ctx: &OverviewContext,
) -> (r: Overview)
    ensures
        r.title@ == "Current Settings"@,
        r.sections@.len() == 4,
        r.sections@[1].title@ == "**TTS Settings**"@,
        r.sections@[3].title@ == "**User Specific**"@,
        catalog is None ==> r.footer@ == overview_footer(),
        catalog is None ==> r.sections@.map_values(|s: Section| section_view(s)) == seq![
            ("**General Server Settings**"@, filled(general_template(), general_pairs(*guild, *ctx))),
            ("**TTS Settings**"@, filled(tts_template(), tts_pairs(*data, *guild, *ctx))),
            (
                "**Translation Settings (Premium Only)**"@,
                filled(translation_template(), translation_pairs(*guild, *ctx, "none"@)),
            ),
            ("**User Specific**"@, filled(user_template(), user_pairs(*data, *guild, *user, *ctx, "none"@))),
        ],
{
    proof {
        reveal_strlit("Current Settings");
        reveal_strlit("**General Server Settings**");
        reveal_strlit("**TTS Settings**");
        reveal_strlit("**Translation Settings (Premium Only)**");
        reveal_strlit("**User Specific**");
        reveal_strlit("Change these settings with `/set {property} {value}`!\nNone = setting has not been set yet!");
        reveal_strlit("none");
        reveal_strlit("has not been set up yet");
        reveal_strlit("{sep1}");
        reveal_strlit("{prefix}");
        reveal_strlit("{autojoin}");
        reveal_strlit("{channel_name}");
        reveal_strlit("{sep2}");
        reveal_strlit("{xsaid}");
        reveal_strlit("{bot_ignore}");
        reveal_strlit("{audience_ignore}");
        reveal_strlit("{require_voice}");
        reveal_strlit("{guild_mode}");
        reveal_strlit("{default_voice}");
        reveal_strlit("{msg_length}");
        reveal_strlit("{repeated_chars}");
        reveal_strlit("{sep4}");
        reveal_strlit("{to_translate}");
        reveal_strlit("{target_lang}");
        reveal_strlit("{sep3}");
        reveal_strlit("{user_voice}");
        reveal_strlit("{voice_mode}");
        reveal_strlit("{nickname}");
        reveal_strlit("{speaking_rate}");
        reveal_strlit("{speaking_rate_kind}");
    }
    let none = localize(catalog, "none");
    let unset = String::from_str("has not been set up yet");
    let channel_name = if guild.channel == 0 {
        string_or(&ctx.channel_name, &unset)
    } else {
        unset
    };

    let general_values: Vec<(&str, String)> = vec![
        pair("{sep1}", ctx.separators[0].clone()),
        pair("{prefix}", guild.prefix.clone()),
        pair("{autojoin}", bool_string(guild.auto_join)),
        pair("{channel_name}", channel_name),
    ];
    assert(pairs_view(general_values@) =~= general_pairs(*guild, *ctx));

    let default_voice = match &guild.voice {
        Some(v) => show_voice(data, v, guild.voice_mode),
        None => ctx.mode_default_voice.clone(),
    };
    let tts_values: Vec<(&str, String)> = vec![
        pair("{sep2}", ctx.separators[1].clone()),
        pair("{xsaid}", bool_string(guild.xsaid)),
        pair("{bot_ignore}", bool_string(guild.bot_ignore)),
        pair("{audience_ignore}", bool_string(guild.audience_ignore)),
        pair("{require_voice}", bool_string(guild.require_voice)),
        pair("{guild_mode}", String::from_str(mode_str(guild.voice_mode))),
        pair("{default_voice}", default_voice),
        pair("{msg_length}", decimal_string(guild.msg_length as u64)),
        pair("{repeated_chars}", decimal_string(guild.repeated_chars as u64)),
    ];
    assert(pairs_view(tts_values@) =~= tts_pairs(*data, *guild, *ctx));

    let translation_values: Vec<(&str, String)> = vec![
        pair("{sep4}", ctx.separators[3].clone()),
        pair("{to_translate}", bool_string(guild.to_translate)),
        pair("{target_lang}", string_or(&guild.target_lang, &none)),
    ];
    assert(catalog is None ==> pairs_view(translation_values@) =~= translation_pairs(*guild, *ctx, "none"@));

    let mode = if guild.voice_mode.is_premium() {
        user.premium_voice_mode
    } else {
        user.voice_mode
    };
    let current = match mode {
        Some(m) => m,
        None => guild.voice_mode,
    };
    let user_voice = match &user.voice {
        Some(v) => show_voice(data, v, current),
        None => none.clone(),
    };
    let mode_text = match mode {
        Some(m) => String::from_str(mode_str(m)),
        None => none.clone(),
    };
    let user_values: Vec<(&str, String)> = vec![
        pair("{sep3}", ctx.separators[2].clone()),
        pair("{user_voice}", user_voice),
        pair("{voice_mode}", mode_text),
        pair("{nickname}", string_or(&user.nickname, &none)),
        pair("{speaking_rate}", ctx.speaking_rate.clone()),
        pair("{speaking_rate_kind}", ctx.speaking_rate_kind.clone()),
    ];
    assert(catalog is None ==> pairs_view(user_values@) =~= user_pairs(*data, *guild, *user, *ctx, "none"@));

    let general_t = localize(
        catalog,
        "\n{sep1} Setup Channel: `#{channel_name}`\n{sep1} Command Prefix: `{prefix}`\n{sep1} Auto Join: `{autojoin}`\n        ",
    );
    let tts_t = localize(
        catalog,
        "\n{sep2} <User> said: message: `{xsaid}`\n{sep2} Ignore bot's messages: `{bot_ignore}`\n{sep2} Ignore audience messages: `{audience_ignore}`\n{sep2} Require users in voice channel: `{require_voice}`\n\n**{sep2} Default Server Voice Mode: `{guild_mode}`**\n**{sep2} Default Server Voice: `{default_voice}`**\n\n{sep2} Max Time to Read: `{msg_length} seconds`\n{sep2} Max Repeated Characters: `{repeated_chars}`\n        ",
    );
    let translation_t = localize(
        catalog,
        "\n{sep4} Translation: `{to_translate}`\n{sep4} Translation Language: `{target_lang}`\n        ",
    );
    let user_t = localize(
        catalog,
        "\n{sep3} Voice: `{user_voice}`\n{sep3} Voice Mode: `{voice_mode}`\n{sep3} Nickname: `{nickname}`\n{sep3} Speaking Rate: `{speaking_rate}{speaking_rate_kind}`\n        ",
    );
    proof {
        reveal_strlit(
            "\n{sep1} Setup Channel: `#{channel_name}`\n{sep1} Command Prefix: `{prefix}`\n{sep1} Auto Join: `{autojoin}`\n        ",
        );
        reveal_strlit(
            "\n{sep2} <User> said: message: `{xsaid}`\n{sep2} Ignore bot's messages: `{bot_ignore}`\n{sep2} Ignore audience messages: `{audience_ignore}`\n{sep2} Require users in voice channel: `{require_voice}`\n\n**{sep2} Default Server Voice Mode: `{guild_mode}`**\n**{sep2} Default Server Voice: `{default_voice}`**\n\n{sep2} Max Time to Read: `{msg_length} seconds`\n{sep2} Max Repeated Characters: `{repeated_chars}`\n        ",
        );
        reveal_strlit(
            "\n{sep4} Translation: `{to_translate}`\n{sep4} Translation Language: `{target_lang}`\n        ",
        );
        reveal_strlit(
            "\n{sep3} Voice: `{user_voice}`\n{sep3} Voice Mode: `{voice_mode}`\n{sep3} Nickname: `{nickname}`\n{sep3} Speaking Rate: `{speaking_rate}{speaking_rate_kind}`\n        ",
        );
    }
    let sections = vec![
        Section {
            title: localize(catalog, "**General Server Settings**"),
            body: fill(general_t.as_str(), &general_values),
        },
        Section { title: String::from_str("**TTS Settings**"), body: fill(tts_t.as_str(), &tts_values) },
        Section {
            title: localize(catalog, "**Translation Settings (Premium Only)**"),
            body: fill(translation_t.as_str(), &translation_values),
        },
        Section { title: String::from_str("**User Specific**"), body: fill(user_t.as_str(), &user_values) },
    ];
    let r = Overview {
        title: String::from_str("Current Settings"),
        sections,
        footer: localize(
            catalog,
            "Change these settings with `/set {property} {value}`!\nNone = setting has not been set yet!",
        ),
    };
    assert(catalog is None ==> r.sections@.map_values(|s: Section| section_view(s)) =~= seq![
        ("**General Server Settings**"@, filled(general_template(), general_pairs(*guild, *ctx))),
        ("**TTS Settings**"@, filled(tts_template(), tts_pairs(*data, *guild, *ctx))),
        (
            "**Translation Settings (Premium Only)**"@,
            filled(translation_template(), translation_pairs(*guild, *ctx, "none"@)),
        ),
        ("**User Specific**"@, filled(user_template(), user_pairs(*data, *guild, *user, *ctx, "none"@))),
    ]);
    r
}

} // verus!
