//! The decisions behind the settings commands: which values are accepted,
//! what is stored, and what the user is told.

use vstd::prelude::*;
use vstd::string::StrSliceExecFns;
use crate::locale::localize;
use crate::text::{decimal, decimal_string, replace_all, replaced};
use crate::voices::{check_valid_voice, valid_voice, TTSMode, VoiceData};

verus! {

/// The reply to a settings command, and whether the new value is stored.
#[derive(Debug)]
pub struct SettingReply {
    pub store: bool,
    pub reply: String,
}

/// Writes an on/off value for users.
pub fn to_enabled(catalog: Option<&gettext::Catalog>, value: bool) -> (r: String)
    ensures
        catalog is None ==> r@ == (if value {
            "Enabled"@
        } else {
            "Disabled"@
        }),
{
    proof {
        reveal_strlit("Enabled");
        reveal_strlit("Disabled");
    }
    if value {
        localize(catalog, "Enabled")
    } else {
        localize(catalog, "Disabled")
    }
}

/// The reply to switching an on/off setting: `template` (translated) with the
/// new state in place of `{}`.
pub fn toggle_reply(catalog: Option<&gettext::Catalog>, template: &str, value: bool) -> (r: String)
    ensures
        catalog is None ==> r@ == replaced(
            template@,
            "{}"@,
            if value {
                "Enabled"@
            } else {
                "Disabled"@
            },
        ),
{
    proof {
        reveal_strlit("{}");
    }
    let t = localize(catalog, template);
    let state = to_enabled(catalog, value);
    replace_all(t.as_str(), "{}", state.as_str())
}

/// Whether `chars` is an accepted limit on repeated characters: zero (no
/// limit) or from 5 to 100.
pub open spec fn repeated_characters_ok(chars: u8) -> bool {
    chars == 0 || (5 <= chars && chars <= 100)
}

/// Checks a new limit on repeated characters.
pub fn repeated_characters(catalog: Option<&gettext::Catalog>, chars: u8) -> (r: SettingReply)
    ensures
        r.store == repeated_characters_ok(chars),
        catalog is None ==> r.reply@ == (if chars > 100 {
            "**Error**: Cannot set the max repeated characters above 100"@
        } else if chars < 5 && chars != 0 {
            "**Error**: Cannot set the max repeated characters below 5"@
        } else {
            replaced("Max repeated characters is now: {}"@, "{}"@, decimal(chars as nat))
        }),
{
    proof {
        reveal_strlit("**Error**: Cannot set the max repeated characters above 100");
        reveal_strlit("**Error**: Cannot set the max repeated characters below 5");
        reveal_strlit("Max repeated characters is now: {}");
        reveal_strlit("{}");
    }
    if chars > 100 {
        SettingReply {
            store: false,
            reply: localize(catalog, "**Error**: Cannot set the max repeated characters above 100"),
        }
    } else if chars < 5 && chars != 0 {
        SettingReply {
            store: false,
            reply: localize(catalog, "**Error**: Cannot set the max repeated characters below 5"),
        }
    } else {
        let t = localize(catalog, "Max repeated characters is now: {}");
        let n = decimal_string(chars as u64);
        SettingReply { store: true, reply: replace_all(t.as_str(), "{}", n.as_str()) }
    }
}

/// Checks a new longest reading time of a message, in seconds: from 10 to 60.
pub fn msg_length(catalog: Option<&gettext::Catalog>, seconds: u8) -> (r: SettingReply)
    ensures
        r.store == (10 <= seconds && seconds <= 60),
        catalog is None ==> r.reply@ == (if seconds > 60 {
            "**Error**: Cannot set the max length of messages above 60 seconds"@
        } else if seconds < 10 {
            "**Error**: Cannot set the max length of messages below 10 seconds"@
        } else {
            replaced("Max message length is now: {} seconds"@, "{}"@, decimal(seconds as nat))
        }),
{
    proof {
        reveal_strlit("**Error**: Cannot set the max length of messages above 60 seconds");
        reveal_strlit("**Error**: Cannot set the max length of messages below 10 seconds");
        reveal_strlit("Max message length is now: {} seconds");
        reveal_strlit("{}");
    }
    if seconds > 60 {
        SettingReply {
            store: false,
            reply: localize(catalog, "**Error**: Cannot set the max length of messages above 60 seconds"),
        }
    } else if seconds < 10 {
        SettingReply {
            store: false,
            reply: localize(catalog, "**Error**: Cannot set the max length of messages below 10 seconds"),
        }
    } else {
        let t = localize(catalog, "Max message length is now: {} seconds");
        let n = decimal_string(seconds as u64);
        SettingReply { store: true, reply: replace_all(t.as_str(), "{}", n.as_str()) }
    }
}

/// The number of times `c` occurs in `s`.
pub open spec fn count_char(s: Seq<char>, c: char) -> nat
    decreases s.len(),
{
    if s.len() == 0 {
        0
    } else {
        count_char(s.drop_last(), c) + if s.last() == c {
            1nat
        } else {
            0nat
        }
    }
}

fn count_of(s: &str, c: char) -> (r: usize)
    ensures
        r == count_char(s@, c),
{
    let n = s.unicode_len();
    let mut count: usize = 0;
    let mut i: usize = 0;
    while i < n
        invariant
            n == s@.len(),
            i <= n,
            count == count_char(s@.subrange(0, i as int), c),
            count <= i,
        decreases n - i,
    {
        assert(s@.subrange(0, i + 1).drop_last() =~= s@.subrange(0, i as int));
        if s.get_char(i) == c {
            count = count + 1;
        }
        i = i + 1;
    }
    assert(s@.subrange(0, n as int) =~= s@);
    count
}

/// Whether `prefix` is an accepted command prefix: at most 5 bytes, with at
/// most one space.
pub open spec fn prefix_ok(prefix: Seq<char>) -> bool {
    crate::text::byte_len(prefix) <= 5 && count_char(prefix, ' ') <= 1
}

/// Checks a new command prefix.
pub fn prefix(catalog: Option<&gettext::Catalog>, value: &str) -> (r: SettingReply)
    ensures
        r.store == prefix_ok(value@),
        catalog is None ==> r.reply@ == (if prefix_ok(value@) {
            replaced("Command prefix for this server is now: {prefix}"@, "{prefix}"@, value@)
        } else {
            "**Error**: Invalid Prefix, please use 5 or less characters with maximum 1 space"@
        }),
{
    proof {
        reveal_strlit("Command prefix for this server is now: {prefix}");
        reveal_strlit("{prefix}");
        reveal_strlit("**Error**: Invalid Prefix, please use 5 or less characters with maximum 1 space");
    }
    if value.as_bytes().len() <= 5 && count_of(value, ' ') <= 1 {
        let t = localize(catalog, "Command prefix for this server is now: {prefix}");
        SettingReply { store: true, reply: replace_all(t.as_str(), "{prefix}", value) }
    } else {
        SettingReply {
            store: false,
            reply: localize(catalog, "**Error**: Invalid Prefix, please use 5 or less characters with maximum 1 space"),
        }
    }
}

/// Whether a nickname is accepted: it may not look like a mention or emote,
/// that is hold both `<` and `>`.
pub open spec fn nickname_ok(nick: Seq<char>) -> bool {
    !(nick.contains('<') && nick.contains('>'))
}

/// Checks a new nickname for `user`.
pub fn nick(catalog: Option<&gettext::Catalog>, user: &str, new_nick: &str) -> (r: SettingReply)
    ensures
        r.store == nickname_ok(new_nick@),
        catalog is None ==> r.reply@ == (if nickname_ok(new_nick@) {
            replaced(replaced("Changed {user}'s nickname to {new_nick}"@, "{user}"@, user@), "{new_nick}"@, new_nick@)
        } else {
            "**Error**: You can't have mentions/emotes in your nickname!"@
        }),
{
    proof {
        reveal_strlit("Changed {user}'s nickname to {new_nick}");
        reveal_strlit("{user}");
        reveal_strlit("{new_nick}");
        reveal_strlit("**Error**: You can't have mentions/emotes in your nickname!");
    }
    let opens = count_of(new_nick, '<');
    let closes = count_of(new_nick, '>');
    proof {
        lemma_count_contains(new_nick@, '<');
        lemma_count_contains(new_nick@, '>');
    }
    if opens > 0 && closes > 0 {
        SettingReply {
            store: false,
            reply: localize(catalog, "**Error**: You can't have mentions/emotes in your nickname!"),
        }
    } else {
        let t = localize(catalog, "Changed {user}'s nickname to {new_nick}");
        let named = replace_all(t.as_str(), "{user}", user);
        SettingReply { store: true, reply: replace_all(named.as_str(), "{new_nick}", new_nick) }
    }
}

proof fn lemma_count_contains(s: Seq<char>, c: char)
    ensures
        (count_char(s, c) > 0) == s.contains(c),
    decreases s.len(),
{
    if s.len() > 0 {
        lemma_count_contains(s.drop_last(), c);
        if s.drop_last().contains(c) {
            let i = choose|i: int| 0 <= i < s.drop_last().len() && s.drop_last()[i] == c;
            assert(s[i] == c);
        }
        if s.contains(c) && s.last() != c {
            let i = choose|i: int| 0 <= i < s.len() && s[i] == c;
            assert(s.drop_last()[i] == c);
        }
    }
}

/// The permission to see a channel.
pub const VIEW_CHANNEL: u64 = 0x400;

/// The permission to send messages in a channel.
pub const SEND_MESSAGES: u64 = 0x800;

/// Whether permissions (as bits; `None` where they could not be worked out)
/// allow reading and sending messages.
pub fn can_send(permissions: Option<u64>) -> (r: bool)
    ensures
        r == (permissions matches Some(p) && p & (VIEW_CHANNEL | SEND_MESSAGES) == (VIEW_CHANNEL
            | SEND_MESSAGES)),
{
    match permissions {
        Some(p) => p & (VIEW_CHANNEL | SEND_MESSAGES) == (VIEW_CHANNEL | SEND_MESSAGES),
        None => false,
    }
}

/// What a mode or voice change applies to.
#[derive(Clone, Copy, Debug, PartialEq, Eq, Structural)]
pub enum Target {
    Guild,
    /// A user, with the mode they currently use.
    User(TTSMode),
}

pub open spec fn mode_column_for(mode: TTSMode) -> Seq<char> {
    if mode is Polly || mode is gCloud {
        "premium_voice_mode"@
    } else {
        "voice_mode"@
    }
}

/// The column a mode change is stored in: premium modes have their own. A
/// user's reset goes by the mode they use; a server's to the plain column.
pub fn mode_column(mode: Option<TTSMode>, target: Target) -> (r: &'static str)
    ensures
        r@ == match (mode, target) {
            (Some(m), _) => mode_column_for(m),
            (None, Target::User(current)) => mode_column_for(current),
            (None, Target::Guild) => "voice_mode"@,
        },
{
    proof {
        reveal_strlit("premium_voice_mode");
        reveal_strlit("voice_mode");
    }
    let m = match (mode, target) {
        (Some(m), _) => m,
        (None, Target::User(current)) => current,
        (None, Target::Guild) => TTSMode::gTTS,
    };
    if m.is_premium() {
        "premium_voice_mode"
    } else {
        "voice_mode"
    }
}

pub open spec fn mode_name(mode: TTSMode) -> Seq<char> {
    match mode {
        TTSMode::gTTS => "gTTS"@,
        TTSMode::Polly => "Polly"@,
        TTSMode::eSpeak => "eSpeak"@,
        TTSMode::gCloud => "gCloud"@,
    }
}

/// The name of a mode.
pub fn mode_str(mode: TTSMode) -> (r: &'static str)
    ensures
        r@ == mode_name(mode),
{
    proof {
        reveal_strlit("gTTS");
        reveal_strlit("Polly");
        reveal_strlit("eSpeak");
        reveal_strlit("gCloud");
    }
    match mode {
        TTSMode::gTTS => "gTTS",
        TTSMode::Polly => "Polly",
        TTSMode::eSpeak => "eSpeak",
        TTSMode::gCloud => "gCloud",
    }
}

/// The reply to a mode change.
pub fn mode_change_reply(catalog: Option<&gettext::Catalog>, mode: Option<TTSMode>, target: Target) -> (r: String)
    ensures
        catalog is None ==> r@ == match (mode, target) {
            (Some(m), Target::Guild) => replaced("Changed the server TTS Mode to: {mode}"@, "{mode}"@, mode_name(m)),
            (Some(m), Target::User(_)) => replaced("Changed your TTS Mode to: {mode}"@, "{mode}"@, mode_name(m)),
            (None, Target::Guild) => "Reset the server mode"@,
            (None, Target::User(_)) => "Reset your mode"@,
        },
{
    proof {
        reveal_strlit("Changed the server TTS Mode to: {mode}");
        reveal_strlit("Changed your TTS Mode to: {mode}");
        reveal_strlit("{mode}");
        reveal_strlit("Reset the server mode");
        reveal_strlit("Reset your mode");
    }
    match mode {
        Some(m) => {
            let t = match target {
                Target::Guild => localize(catalog, "Changed the server TTS Mode to: {mode}"),
                Target::User(_) => localize(catalog, "Changed your TTS Mode to: {mode}"),
            };
            replace_all(t.as_str(), "{mode}", mode_str(m))
        },
        None => match target {
            Target::Guild => localize(catalog, "Reset the server mode"),
            Target::User(_) => localize(catalog, "Reset your mode"),
        },
    }
}

/// What a voice change does.
#[derive(Clone, Copy, Debug, PartialEq, Eq, Structural)]
pub enum VoiceChange {
    /// Store the voice.
    Store,
    /// The voice is not one of the mode's; nothing changes.
    Invalid,
    /// Delete the stored voice.
    Reset,
}

/// Decides a voice change to `voice` (`None` to reset) in the mode `mode`,
/// and the reply.
pub fn voice_change(
    catalog: Option<&gettext::Catalog>,
    data: &VoiceData,
    voice: &Option<String>,
    mode: TTSMode,
    target: Target,
) -> (r: (VoiceChange, String))
    ensures
        r.0 == match voice {
            Some(v) => if valid_voice(*data, v@, mode) {
                VoiceChange::Store
            } else {
                VoiceChange::Invalid
            },
            None => VoiceChange::Reset,
        },
        catalog is None ==> r.1@ == match (voice, target) {
            (Some(v), Target::Guild) => if valid_voice(*data, v@, mode) {
                replaced("Changed the server voice to: {voice}"@, "{voice}"@, v@)
            } else {
                "Invalid voice, do `/voices`"@
            },
            (Some(v), Target::User(_)) => if valid_voice(*data, v@, mode) {
                replaced("Changed your voice to {voice}"@, "{voice}"@, v@)
            } else {
                "Invalid voice, do `/voices`"@
            },
            (None, Target::Guild) => "Reset the server voice"@,
            (None, Target::User(_)) => "Reset your voice"@,
        },
{
    proof {
        reveal_strlit("Changed the server voice to: {voice}");
        reveal_strlit("Changed your voice to {voice}");
        reveal_strlit("{voice}");
        reveal_strlit("Invalid voice, do `/voices`");
        reveal_strlit("Reset the server voice");
        reveal_strlit("Reset your voice");
    }
    match voice {
        Some(v) => {
            if check_valid_voice(data, v, mode) {
                let t = match target {
                    Target::Guild => localize(catalog, "Changed the server voice to: {voice}"),
                    Target::User(_) => localize(catalog, "Changed your voice to {voice}"),
                };
                (VoiceChange::Store, replace_all(t.as_str(), "{voice}", v.as_str()))
            } else {
                (VoiceChange::Invalid, localize(catalog, "Invalid voice, do `/voices`"))
            }
        },
        None => match target {
            Target::Guild => (VoiceChange::Reset, localize(catalog, "Reset the server voice")),
            Target::User(_) => (VoiceChange::Reset, localize(catalog, "Reset your voice")),
        },
    }
}

pub open spec fn enabled_name(value: bool) -> Seq<char> {
    if value {
        "Enabled"@
    } else {
        "Disabled"@
    }
}

/// The reply to a change of the setting: whether "<user> said" is read before each message.
pub fn xsaid(catalog: Option<&gettext::Catalog>, value: bool) -> (r: String)
    ensures
        catalog is None ==> r@ == replaced("xsaid is now: {}"@, "{}"@, enabled_name(value)),
{
    proof {
        reveal_strlit("xsaid is now: {}");
    }
    toggle_reply(catalog, "xsaid is now: {}", value)
}

/// The reply to a change of the setting: whether the bot joins the voice channel when a message is sent in the setup channel.
pub fn autojoin(catalog: Option<&gettext::Catalog>, value: bool) -> (r: String)
    ensures
        catalog is None ==> r@ == replaced("Auto Join is now: {}"@, "{}"@, enabled_name(value)),
{
    proof {
        reveal_strlit("Auto Join is now: {}");
    }
    toggle_reply(catalog, "Auto Join is now: {}", value)
}

/// The reply to a change of the setting: whether messages of bots and webhooks are ignored.
pub fn botignore(catalog: Option<&gettext::Catalog>, value: bool) -> (r: String)
    ensures
        catalog is None ==> r@ == replaced("Ignoring bots is now: {}"@, "{}"@, enabled_name(value)),
{
    proof {
        reveal_strlit("Ignoring bots is now: {}");
    }
    toggle_reply(catalog, "Ignoring bots is now: {}", value)
}

/// The reply to a change of the setting: whether only users in the voice channel are read.
pub fn require_voice(catalog: Option<&gettext::Catalog>, value: bool) -> (r: String)
    ensures
        catalog is None ==> r@ == replaced("Requiring users to be in voice channel for TTS is now: {}"@, "{}"@, enabled_name(value)),
{
    proof {
        reveal_strlit("Requiring users to be in voice channel for TTS is now: {}");
    }
    toggle_reply(catalog, "Requiring users to be in voice channel for TTS is now: {}", value)
}

/// The reply to a change of the setting: whether messages are translated to the target language.
pub fn translation(catalog: Option<&gettext::Catalog>, value: bool) -> (r: String)
    ensures
        catalog is None ==> r@ == replaced("Translation is now: {}"@, "{}"@, enabled_name(value)),
{
    proof {
        reveal_strlit("Translation is now: {}");
    }
    toggle_reply(catalog, "Translation is now: {}", value)
}

/// The reply to a change of the setting: whether messages of the audience of stage channels are ignored.
pub fn audienceignore(catalog: Option<&gettext::Catalog>, value: bool) -> (r: String)
    ensures
        catalog is None ==> r@ == replaced("Ignoring audience is now: {}"@, "{}"@, enabled_name(value)),
{
    proof {
        reveal_strlit("Ignoring audience is now: {}");
    }
    toggle_reply(catalog, "Ignoring audience is now: {}", value)
}

/// The column and the reply for a change of the server's mode.
pub fn server_mode(catalog: Option<&gettext::Catalog>, new_mode: TTSMode) -> (r: (&'static str, String))
    ensures
        r.0@ == mode_column_for(new_mode),
        catalog is None ==> r.1@ == replaced("Changed the server TTS Mode to: {mode}"@, "{mode}"@, mode_name(new_mode)),
{
    (mode_column(Some(new_mode), Target::Guild), mode_change_reply(catalog, Some(new_mode), Target::Guild))
}

/// The column and the reply for a change of a user's mode (`None` resets it);
/// `current` is the mode the user has now.
pub fn mode(catalog: Option<&gettext::Catalog>, new_mode: Option<TTSMode>, current: TTSMode) -> (r: (&'static str, String))
    ensures
        r.0@ == match new_mode {
            Some(m) => mode_column_for(m),
            None => mode_column_for(current),
        },
        catalog is None ==> r.1@ == match new_mode {
            Some(m) => replaced("Changed your TTS Mode to: {mode}"@, "{mode}"@, mode_name(m)),
            None => "Reset your mode"@,
        },
{
    (mode_column(new_mode, Target::User(current)), mode_change_reply(catalog, new_mode, Target::User(current)))
}

/// A change of the server's voice in the mode `current`.
pub fn server_voice(catalog: Option<&gettext::Catalog>, data: &VoiceData, new_voice: String, current: TTSMode) -> (r: (
    VoiceChange,
    String,
))
    ensures
        r.0 == (if valid_voice(*data, new_voice@, current) {
            VoiceChange::Store
        } else {
            VoiceChange::Invalid
        }),
        catalog is None ==> r.1@ == (if valid_voice(*data, new_voice@, current) {
            replaced("Changed the server voice to: {voice}"@, "{voice}"@, new_voice@)
        } else {
            "Invalid voice, do `/voices`"@
        }),
{
    voice_change(catalog, data, &Some(new_voice), current, Target::Guild)
}

/// A change of a user's voice in the mode `current` (`None` resets it).
pub fn voice(catalog: Option<&gettext::Catalog>, data: &VoiceData, new_voice: Option<String>, current: TTSMode) -> (r: (
    VoiceChange,
    String,
))
    ensures
        r.0 == match new_voice {
            Some(v) => if valid_voice(*data, v@, current) {
                VoiceChange::Store
            } else {
                VoiceChange::Invalid
            },
            None => VoiceChange::Reset,
        },
        catalog is None ==> r.1@ == match new_voice {
            Some(v) => if valid_voice(*data, v@, current) {
                replaced("Changed your voice to {voice}"@, "{voice}"@, v@)
            } else {
                "Invalid voice, do `/voices`"@
            },
            None => "Reset your voice"@,
        },
{
    voice_change(catalog, data, &new_voice, current, Target::User(current))
}

} // verus!
