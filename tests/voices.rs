use tts_bot::autocomplete::{rank_choices, voice_autocomplete, voice_choices, VoiceChoice};
use tts_bot::settings::{
    can_send, mode_change_reply, mode_column, msg_length, nick, prefix, repeated_characters,
    to_enabled, toggle_reply, voice_change, Target, VoiceChange, SEND_MESSAGES, VIEW_CHANNEL,
};
use tts_bot::voices::{
    check_valid_voice, format_voice, split_once_space, GttsVoice, MenuPaginator, PageAction,
    PageButton, PollyVoice, PremiumLanguage, TTSMode, VoiceData, VoiceVariant,
};

fn data() -> VoiceData {
    VoiceData {
        gtts_voices: vec![
            GttsVoice { code: "en".to_string(), name: "English".to_string() },
            GttsVoice { code: "fr".to_string(), name: "French".to_string() },
        ],
        espeak_voices: vec!["en".to_string(), "de".to_string()],
        polly_voices: vec![
            PollyVoice {
                id: "Brian".to_string(),
                name: "Brian".to_string(),
                language_name: "British English".to_string(),
                gender: "Male".to_string(),
            },
            PollyVoice {
                id: "Joanna".to_string(),
                name: "Joanna".to_string(),
                language_name: "US English".to_string(),
                gender: "Female".to_string(),
            },
        ],
        premium_voices: vec![
            PremiumLanguage {
                language: "en-US".to_string(),
                variants: vec![
                    VoiceVariant { variant: "A".to_string(), gender: "MALE".to_string() },
                    VoiceVariant { variant: "C".to_string(), gender: "FEMALE".to_string() },
                ],
            },
            PremiumLanguage {
                language: "de-DE".to_string(),
                variants: vec![VoiceVariant { variant: "B".to_string(), gender: "MALE".to_string() }],
            },
        ],
    }
}

#[test]
fn voice_validity_per_mode() {
    let d = data();
    assert!(check_valid_voice(&d, &"en".to_string(), TTSMode::gTTS));
    assert!(!check_valid_voice(&d, &"English".to_string(), TTSMode::gTTS));
    assert!(check_valid_voice(&d, &"de".to_string(), TTSMode::eSpeak));
    assert!(!check_valid_voice(&d, &"fr".to_string(), TTSMode::eSpeak));
    assert!(check_valid_voice(&d, &"Joanna".to_string(), TTSMode::Polly));
    assert!(!check_valid_voice(&d, &"Amy".to_string(), TTSMode::Polly));
    assert!(check_valid_voice(&d, &"en-US C".to_string(), TTSMode::gCloud));
    assert!(!check_valid_voice(&d, &"en-US B".to_string(), TTSMode::gCloud));
    assert!(!check_valid_voice(&d, &"en-US".to_string(), TTSMode::gCloud));
    assert!(!check_valid_voice(&d, &"fr-FR A".to_string(), TTSMode::gCloud));
}

#[test]
fn voice_display_per_mode() {
    let d = data();
    assert_eq!(format_voice(&d, "en-US A", TTSMode::gCloud), "en-US - A (MALE)");
    assert_eq!(format_voice(&d, "Brian", TTSMode::Polly), "Brian - British English (Male)");
    assert_eq!(format_voice(&d, "en", TTSMode::gTTS), "en");
    assert_eq!(format_voice(&d, "de", TTSMode::eSpeak), "de");
}

#[test]
fn split_at_first_space() {
    assert_eq!(split_once_space("a b c"), Some(("a".to_string(), "b c".to_string())));
    assert_eq!(split_once_space(" x"), Some((String::new(), "x".to_string())));
    assert_eq!(split_once_space("none"), None);
}

#[test]
fn premium_modes() {
    assert!(TTSMode::Polly.is_premium());
    assert!(TTSMode::gCloud.is_premium());
    assert!(!TTSMode::gTTS.is_premium());
    assert!(!TTSMode::eSpeak.is_premium());
}

#[test]
fn paginator_navigation() {
    let pages = vec!["one".to_string(), "two".to_string(), "three".to_string()];
    let mut p = MenuPaginator::new(pages, "Brian".to_string(), TTSMode::Polly, "footer".to_string());
    assert_eq!(p.index(), 0);
    assert_eq!(p.page().map(String::as_str), Some("one"));
    assert!(p.button_disabled(PageButton::First, false));
    assert!(p.button_disabled(PageButton::Previous, false));
    assert!(!p.button_disabled(PageButton::Next, false));
    assert!(!p.button_disabled(PageButton::Stop, false));
    assert!(p.button_disabled(PageButton::Stop, true));
    assert_eq!(p.press(PageButton::Next), PageAction::Show);
    assert_eq!(p.index(), 1);
    assert_eq!(p.press(PageButton::Last), PageAction::Show);
    assert_eq!(p.index(), 2);
    assert!(p.button_disabled(PageButton::Next, false));
    assert!(p.button_disabled(PageButton::Last, false));
    assert_eq!(p.press(PageButton::Next), PageAction::Show);
    assert_eq!(p.index(), 2);
    assert_eq!(p.press(PageButton::Previous), PageAction::Show);
    assert_eq!(p.index(), 1);
    assert_eq!(p.press(PageButton::First), PageAction::Show);
    assert_eq!(p.index(), 0);
    assert_eq!(p.press(PageButton::Previous), PageAction::Show);
    assert_eq!(p.index(), 0);
    assert_eq!(p.press(PageButton::Stop), PageAction::Close);
    assert_eq!(p.mode(), TTSMode::Polly);
    assert_eq!(p.footer(), "footer");
    assert_eq!(p.current_voice(), "Brian");
}

#[test]
fn paginator_without_pages() {
    let mut p = MenuPaginator::new(vec![], String::new(), TTSMode::gCloud, String::new());
    assert!(p.page().is_none());
    assert!(p.button_disabled(PageButton::Last, false));
    p.press(PageButton::Last);
    p.press(PageButton::Next);
    assert_eq!(p.index(), 0);
}

#[test]
fn page_button_ids() {
    for b in PageButton::all() {
        assert_eq!(PageButton::from_custom_id(b.custom_id()), Some(b));
    }
    assert_eq!(PageButton::First.custom_id(), "⏮️");
    assert_eq!(PageButton::Previous.custom_id(), "◀");
    assert_eq!(PageButton::Stop.custom_id(), "⏹️");
    assert_eq!(PageButton::Next.custom_id(), "▶️");
    assert_eq!(PageButton::Last.custom_id(), "⏭️");
    assert_eq!(PageButton::from_custom_id("x"), None);
}

#[test]
fn setting_limits() {
    assert!(repeated_characters(None, 0).store);
    assert!(repeated_characters(None, 5).store);
    assert!(repeated_characters(None, 100).store);
    assert_eq!(repeated_characters(None, 4).reply, "**Error**: Cannot set the max repeated characters below 5");
    assert_eq!(repeated_characters(None, 101).reply, "**Error**: Cannot set the max repeated characters above 100");
    assert_eq!(repeated_characters(None, 42).reply, "Max repeated characters is now: 42");
    assert!(!msg_length(None, 9).store);
    assert!(!msg_length(None, 61).store);
    assert_eq!(msg_length(None, 30).reply, "Max message length is now: 30 seconds");
    assert_eq!(msg_length(None, 61).reply, "**Error**: Cannot set the max length of messages above 60 seconds");
    assert_eq!(msg_length(None, 9).reply, "**Error**: Cannot set the max length of messages below 10 seconds");
}

#[test]
fn prefix_and_nickname_rules() {
    assert_eq!(prefix(None, "-").reply, "Command prefix for this server is now: -");
    assert!(prefix(None, "a b").store);
    assert!(!prefix(None, "a b c").store);
    assert!(!prefix(None, "toolong").store);
    assert!(!prefix(None, "ééé").store);
    assert_eq!(
        prefix(None, "123456").reply,
        "**Error**: Invalid Prefix, please use 5 or less characters with maximum 1 space"
    );
    assert_eq!(nick(None, "bob", "Bobby").reply, "Changed bob's nickname to Bobby");
    assert!(nick(None, "bob", "<b").store);
    assert!(!nick(None, "bob", "<@123>").store);
    assert_eq!(
        nick(None, "bob", "<:e:1>").reply,
        "**Error**: You can't have mentions/emotes in your nickname!"
    );
}

#[test]
fn toggles_and_modes() {
    assert_eq!(to_enabled(None, true), "Enabled");
    assert_eq!(to_enabled(None, false), "Disabled");
    assert_eq!(toggle_reply(None, "xsaid is now: {}", true), "xsaid is now: Enabled");
    assert_eq!(mode_column(Some(TTSMode::Polly), Target::Guild), "premium_voice_mode");
    assert_eq!(mode_column(Some(TTSMode::gTTS), Target::User(TTSMode::gCloud)), "voice_mode");
    assert_eq!(mode_column(None, Target::User(TTSMode::gCloud)), "premium_voice_mode");
    assert_eq!(mode_column(None, Target::Guild), "voice_mode");
    assert_eq!(mode_change_reply(None, Some(TTSMode::eSpeak), Target::Guild), "Changed the server TTS Mode to: eSpeak");
    assert_eq!(mode_change_reply(None, Some(TTSMode::gCloud), Target::User(TTSMode::gTTS)), "Changed your TTS Mode to: gCloud");
    assert_eq!(mode_change_reply(None, None, Target::Guild), "Reset the server mode");
    assert_eq!(mode_change_reply(None, None, Target::User(TTSMode::gTTS)), "Reset your mode");
}

#[test]
fn voice_changes() {
    let d = data();
    let (what, reply) = voice_change(None, &d, &Some("fr".to_string()), TTSMode::gTTS, Target::Guild);
    assert_eq!(what, VoiceChange::Store);
    assert_eq!(reply, "Changed the server voice to: fr");
    let (what, reply) = voice_change(None, &d, &Some("xx".to_string()), TTSMode::gTTS, Target::User(TTSMode::gTTS));
    assert_eq!(what, VoiceChange::Invalid);
    assert_eq!(reply, "Invalid voice, do `/voices`");
    let (what, reply) = voice_change(None, &d, &Some("Brian".to_string()), TTSMode::Polly, Target::User(TTSMode::Polly));
    assert_eq!(what, VoiceChange::Store);
    assert_eq!(reply, "Changed your voice to Brian");
    let (what, reply) = voice_change(None, &d, &None, TTSMode::Polly, Target::User(TTSMode::Polly));
    assert_eq!(what, VoiceChange::Reset);
    assert_eq!(reply, "Reset your voice");
    assert_eq!(voice_change(None, &d, &None, TTSMode::gTTS, Target::Guild).1, "Reset the server voice");
}

#[test]
fn channel_send_permissions() {
    assert!(can_send(Some(VIEW_CHANNEL | SEND_MESSAGES)));
    assert!(can_send(Some(u64::MAX)));
    assert!(!can_send(Some(SEND_MESSAGES)));
    assert!(!can_send(Some(VIEW_CHANNEL)));
    assert!(!can_send(None));
    assert_eq!(VIEW_CHANNEL, 1 << 10);
    assert_eq!(SEND_MESSAGES, 1 << 11);
}

fn names(v: &[VoiceChoice]) -> Vec<&str> {
    v.iter().map(|c| c.name.as_str()).collect()
}

#[test]
fn choices_per_mode() {
    let d = data();
    let g = voice_choices(&d, TTSMode::gCloud);
    assert_eq!(names(&g), vec!["en-US A (MALE)", "en-US C (FEMALE)", "de-DE B (MALE)"]);
    assert_eq!(g[1].value, "en-US C");
    let p = voice_choices(&d, TTSMode::Polly);
    assert_eq!(names(&p), vec!["Brian - Brian (Male)", "Joanna - Joanna (Female)"]);
    assert_eq!(p[1].value, "Joanna");
    let t = voice_choices(&d, TTSMode::gTTS);
    assert_eq!(names(&t), vec!["English", "French"]);
    assert_eq!(t[0].value, "en");
    let e = voice_choices(&d, TTSMode::eSpeak);
    assert_eq!(names(&e), vec!["en", "de"]);
}

#[test]
fn suggestions_closest_first() {
    let choice = |n: &str| VoiceChoice { name: n.to_string(), value: n.to_string() };
    let choices = vec![choice("abcdef"), choice("abc"), choice("xabc"), choice("abcd"), choice("abce")];
    let ranked = rank_choices(&choices, "abc");
    assert_eq!(names(&ranked), vec!["abc", "abcd", "abce", "abcdef"]);
    assert!(rank_choices(&choices, "zz").is_empty());
    assert_eq!(names(&rank_choices(&choices, "")), vec!["abc", "xabc", "abcd", "abce", "abcdef"]);
    let d = data();
    assert_eq!(names(&voice_autocomplete(&d, TTSMode::gCloud, "en-US")), vec!["en-US A (MALE)", "en-US C (FEMALE)"]);
}
