use tts_bot::listing::{polly_voice_line, premium_voice_line};
use tts_bot::overview::{fill, settings, GuildSettings, OverviewContext, UserSettings};
use tts_bot::status::{start_updaters, startup_title};
use tts_bot::voices::{PollyVoice, PremiumLanguage, TTSMode, VoiceData, VoiceVariant};

fn data() -> VoiceData {
    VoiceData {
        gtts_voices: vec![],
        espeak_voices: vec![],
        polly_voices: vec![PollyVoice {
            id: "Brian".to_string(),
            name: "Brian".to_string(),
            language_name: "British English".to_string(),
            gender: "Male".to_string(),
        }],
        premium_voices: vec![PremiumLanguage {
            language: "en-US".to_string(),
            variants: vec![VoiceVariant { variant: "A".to_string(), gender: "MALE".to_string() }],
        }],
    }
}

fn guild() -> GuildSettings {
    GuildSettings {
        channel: 0,
        prefix: "-".to_string(),
        auto_join: true,
        xsaid: false,
        bot_ignore: true,
        audience_ignore: false,
        require_voice: true,
        voice_mode: TTSMode::gCloud,
        voice: Some("en-US A".to_string()),
        msg_length: 30,
        repeated_chars: 0,
        to_translate: false,
        target_lang: None,
    }
}

fn context() -> OverviewContext {
    OverviewContext {
        channel_name: Some("tts".to_string()),
        mode_default_voice: "en-US A".to_string(),
        speaking_rate: "1.5".to_string(),
        speaking_rate_kind: "x".to_string(),
        separators: ["a".to_string(), "b".to_string(), "c".to_string(), "d".to_string()],
    }
}

#[test]
fn settings_overview_sections() {
    let user = UserSettings {
        voice_mode: Some(TTSMode::gTTS),
        premium_voice_mode: Some(TTSMode::Polly),
        voice: Some("Brian".to_string()),
        nickname: None,
    };
    let o = settings(None, &data(), &guild(), &user, &context());
    assert_eq!(o.title, "Current Settings");
    assert_eq!(o.footer, "Change these settings with `/set {property} {value}`!\nNone = setting has not been set yet!");
    assert_eq!(o.sections.len(), 4);
    assert_eq!(o.sections[0].title, "**General Server Settings**");
    assert_eq!(
        o.sections[0].body,
        "\na Setup Channel: `#tts`\na Command Prefix: `-`\na Auto Join: `true`\n        "
    );
    assert!(o.sections[1].body.contains("b Default Server Voice Mode: `gCloud`"));
    assert!(o.sections[1].body.contains("b Default Server Voice: `en-US - A (MALE)`"));
    assert!(o.sections[1].body.contains("b Max Time to Read: `30 seconds`"));
    assert!(o.sections[1].body.contains("b <User> said: message: `false`"));
    assert_eq!(
        o.sections[2].body,
        "\nd Translation: `false`\nd Translation Language: `none`\n        "
    );
    assert_eq!(
        o.sections[3].body,
        "\nc Voice: `Brian - British English (Male)`\nc Voice Mode: `Polly`\nc Nickname: `none`\nc Speaking Rate: `1.5x`\n        "
    );
}

#[test]
fn settings_overview_fallbacks() {
    let mut g = guild();
    g.channel = 42;
    g.voice_mode = TTSMode::gTTS;
    g.voice = None;
    g.target_lang = Some("de".to_string());
    let user = UserSettings { voice_mode: None, premium_voice_mode: Some(TTSMode::Polly), voice: None, nickname: Some("Bo".to_string()) };
    let o = settings(None, &data(), &g, &user, &context());
    assert!(o.sections[0].body.contains("`#has not been set up yet`"));
    assert!(o.sections[1].body.contains("Default Server Voice: `en-US A`"));
    assert!(o.sections[2].body.contains("`de`"));
    assert!(o.sections[3].body.contains("Voice Mode: `none`"));
    assert!(o.sections[3].body.contains("Voice: `none`"));
    assert!(o.sections[3].body.contains("Nickname: `Bo`"));
}

#[test]
fn fill_replaces_in_order() {
    let pairs = vec![("{a}", "{b}".to_string()), ("{b}", "x".to_string())];
    assert_eq!(fill("{a}{b}", &pairs), "xx");
}

#[test]
fn startup_titles() {
    assert_eq!(startup_title("TTS Bot", 3, 4, 12), ("TTS Bot started in 12 seconds".to_string(), true));
    assert_eq!(startup_title("TTS Bot", 1, 4, 12), ("TTS Bot is starting up 4 shards!".to_string(), false));
    assert!(start_updaters(true, false));
    assert!(!start_updaters(true, true));
    assert!(!start_updaters(false, false));
}

#[test]
fn current_voice_lines() {
    let d = data();
    assert_eq!(polly_voice_line(&d, &"Brian".to_string()), Some("Brian - British English (Male)".to_string()));
    assert_eq!(polly_voice_line(&d, &"Amy".to_string()), None);
    assert_eq!(premium_voice_line(&d, &"en-US A".to_string()), Some("en-US A (MALE)".to_string()));
    assert_eq!(premium_voice_line(&d, &"en-US B".to_string()), None);
}
