use tts_bot::listing::{code_list, gcloud_pages, gtts_codes, polly_pages};
use tts_bot::setup::{setup_done, setup, usable_sorted, ChannelCandidate, MAX_CHANNELS};
use tts_bot::status::{generate_status, sort_shards, stage_str, ShardInfo, ShardStage};
use tts_bot::translation::{lowercase_languages, translation_lang, LanguageReply};
use tts_bot::voices::{GttsVoice, PollyVoice, PremiumLanguage, VoiceData, VoiceVariant};

fn shard(id: u32, stage: ShardStage) -> ShardInfo {
    ShardInfo { id, stage }
}

#[test]
fn shards_sorted_by_id() {
    let sorted = sort_shards(&vec![
        shard(3, ShardStage::Connected),
        shard(0, ShardStage::Connecting),
        shard(2, ShardStage::Resuming),
        shard(1, ShardStage::Handshake),
    ]);
    let ids: Vec<u32> = sorted.iter().map(|s| s.id).collect();
    assert_eq!(ids, vec![0, 1, 2, 3]);
    assert_eq!(sorted[0].stage, ShardStage::Connecting);
}

#[test]
fn status_lines_per_run() {
    let shards = vec![
        shard(2, ShardStage::Connecting),
        shard(0, ShardStage::Connected),
        shard(1, ShardStage::Connected),
        shard(3, ShardStage::Connecting),
    ];
    assert_eq!(generate_status(&shards), "Shards 0-2: connected\nShards 2-3: connecting\n");
    assert_eq!(generate_status(&vec![]), "");
    assert_eq!(generate_status(&vec![shard(0, ShardStage::Identifying)]), "");
    assert_eq!(
        generate_status(&vec![shard(0, ShardStage::Identifying), shard(1, ShardStage::Identifying)]),
        "Shards 0-1: identifying\n"
    );
}

#[test]
fn stage_names() {
    assert_eq!(stage_str(ShardStage::Connected), "connected");
    assert_eq!(stage_str(ShardStage::Connecting), "connecting");
    assert_eq!(stage_str(ShardStage::Disconnected), "disconnected");
    assert_eq!(stage_str(ShardStage::Handshake), "handshaking");
    assert_eq!(stage_str(ShardStage::Identifying), "identifying");
    assert_eq!(stage_str(ShardStage::Resuming), "resuming");
}

fn voices() -> VoiceData {
    let polly = |id: &str, lang: &str, gender: &str| PollyVoice {
        id: id.to_string(),
        name: id.to_string(),
        language_name: lang.to_string(),
        gender: gender.to_string(),
    };
    VoiceData {
        gtts_voices: vec![
            GttsVoice { code: "en".to_string(), name: "English".to_string() },
            GttsVoice { code: "de".to_string(), name: "German".to_string() },
        ],
        espeak_voices: vec![],
        polly_voices: vec![
            polly("Brian", "British English", "Male"),
            polly("Joanna", "US English", "Female"),
            polly("Amy", "British English", "Female"),
        ],
        premium_voices: vec![
            PremiumLanguage {
                language: "en-US".to_string(),
                variants: vec![
                    VoiceVariant { variant: "A".to_string(), gender: "MALE".to_string() },
                    VoiceVariant { variant: "C".to_string(), gender: "FEMALE".to_string() },
                ],
            },
            PremiumLanguage { language: "de-DE".to_string(), variants: vec![] },
        ],
    }
}

#[test]
fn voice_lists() {
    let d = voices();
    assert_eq!(code_list(&gtts_codes(&d)), "`en`, `de`");
    assert_eq!(code_list(&vec![]), "");
    assert_eq!(code_list(&vec!["x".to_string()]), "`x`");
    assert_eq!(gcloud_pages(&d), vec!["en-US A (MALE)\nen-US C (FEMALE)\n".to_string(), String::new()]);
    assert_eq!(
        polly_pages(&d),
        vec![
            "Brian - British English (Male)\nAmy - British English (Female)\n".to_string(),
            "Joanna - US English (Female)\n".to_string(),
        ]
    );
}

fn channel(id: u64, position: u16, is_text: bool, author: Option<u64>, bot: Option<u64>) -> ChannelCandidate {
    ChannelCandidate { id, name: format!("c{id}"), position, is_text, author_permissions: author, bot_permissions: bot }
}

const BOTH: u64 = (1 << 10) | (1 << 11);

#[test]
fn setup_offers_usable_channels_by_position() {
    let channels = vec![
        channel(1, 5, true, Some(BOTH), Some(BOTH)),
        channel(2, 1, true, Some(BOTH), Some(BOTH)),
        channel(3, 0, false, Some(BOTH), Some(BOTH)),
        channel(4, 0, true, Some(1 << 11), Some(BOTH)),
        channel(5, 2, true, Some(BOTH), None),
        channel(6, 1, true, Some(u64::MAX), Some(BOTH)),
    ];
    let ids: Vec<u64> = usable_sorted(&channels).iter().map(|c| c.id).collect();
    assert_eq!(ids, vec![2, 6, 1]);
    let menus = setup(None, &channels).unwrap();
    assert_eq!(menus.len(), 1);
    assert_eq!(menus[0].len(), 3);
}

#[test]
fn setup_menus_hold_25_each() {
    let channels: Vec<_> = (0..60).map(|i| channel(i, (60 - i) as u16, true, Some(BOTH), Some(BOTH))).collect();
    let menus = setup(None, &channels).unwrap();
    let sizes: Vec<usize> = menus.iter().map(Vec::len).collect();
    assert_eq!(sizes, vec![25, 25, 10]);
    assert_eq!(menus[0][0].id, 59);
    let exact: Vec<_> = (0..25).map(|i| channel(i, 0, true, Some(BOTH), Some(BOTH))).collect();
    assert_eq!(setup(None, &exact).unwrap().len(), 1);
}

#[test]
fn setup_refusals() {
    assert_eq!(
        setup(None, &vec![channel(1, 0, false, Some(BOTH), Some(BOTH))]).unwrap_err(),
        "**Error**: This server doesn't have any text channels that we both have Read/Send Messages in!"
    );
    let many: Vec<_> = (0..MAX_CHANNELS as u64).map(|i| channel(i, 0, true, Some(BOTH), Some(BOTH))).collect();
    assert_eq!(
        setup(None, &many).unwrap_err(),
        "**Error**: This server has too many text channels to show in a menu! Please run `/setup #channel`"
    );
    assert_eq!(setup(None, &many[1..].to_vec()).unwrap().len(), 5);
}

#[test]
fn setup_confirmation() {
    let (title, body) = setup_done(None, "TTS Bot", 1234);
    assert_eq!(title, "TTS Bot has been setup!");
    assert_eq!(body, "\nTTS Bot will now accept commands and read from <#1234>.\nJust do `/join` and start talking!\n");
}

#[test]
fn translation_language_choice() {
    let langs = lowercase_languages(&vec!["EN-GB".to_string(), "DE".to_string()]);
    assert_eq!(langs, vec!["en-gb".to_string(), "de".to_string()]);
    match translation_lang(None, &Some("de".to_string()), &langs, false) {
        LanguageReply::Changed(text) => assert_eq!(text, "The target translation language is now: de"),
        other => panic!("unexpected reply {other:?}"),
    }
    match translation_lang(None, &Some("de".to_string()), &langs, true) {
        LanguageReply::Changed(text) => assert_eq!(
            text,
            "The target translation language is now: deYou may want to enable translation with `/set translation on`"
        ),
        other => panic!("unexpected reply {other:?}"),
    }
    match translation_lang(None, &Some("fr".to_string()), &langs, false) {
        LanguageReply::Offer { title, languages } => {
            assert_eq!(title, "DeepL Translation - Supported languages");
            assert_eq!(languages, "```en-gb, de```");
        }
        other => panic!("unexpected reply {other:?}"),
    }
    assert!(matches!(translation_lang(None, &None, &langs, false), LanguageReply::Offer { .. }));
}

use tts_bot::listing::{list_gcloud_voices, list_polly_voices, voices as voice_list, VoiceList};
use tts_bot::settings::{
    audienceignore, autojoin, botignore, mode, require_voice, server_mode, server_voice, translation, voice, xsaid,
    VoiceChange,
};
use tts_bot::voices::TTSMode;

#[test]
fn toggle_commands_reply() {
    assert_eq!(xsaid(None, true), "xsaid is now: Enabled");
    assert_eq!(autojoin(None, false), "Auto Join is now: Disabled");
    assert_eq!(botignore(None, true), "Ignoring bots is now: Enabled");
    assert_eq!(require_voice(None, true), "Requiring users to be in voice channel for TTS is now: Enabled");
    assert_eq!(translation(None, false), "Translation is now: Disabled");
    assert_eq!(audienceignore(None, true), "Ignoring audience is now: Enabled");
}

#[test]
fn mode_and_voice_commands() {
    assert_eq!(server_mode(None, TTSMode::gCloud), ("premium_voice_mode", "Changed the server TTS Mode to: gCloud".to_string()));
    assert_eq!(mode(None, Some(TTSMode::eSpeak), TTSMode::Polly), ("voice_mode", "Changed your TTS Mode to: eSpeak".to_string()));
    assert_eq!(mode(None, None, TTSMode::Polly), ("premium_voice_mode", "Reset your mode".to_string()));
    let d = voices();
    assert_eq!(server_voice(None, &d, "en".to_string(), TTSMode::gTTS), (VoiceChange::Store, "Changed the server voice to: en".to_string()));
    assert_eq!(server_voice(None, &d, "xx".to_string(), TTSMode::gTTS).0, VoiceChange::Invalid);
    assert_eq!(voice(None, &d, Some("Amy".to_string()), TTSMode::Polly), (VoiceChange::Store, "Changed your voice to Amy".to_string()));
    assert_eq!(voice(None, &d, None, TTSMode::Polly), (VoiceChange::Reset, "Reset your voice".to_string()));
}

#[test]
fn voice_list_commands() {
    let d = voices();
    assert!(matches!(voice_list(&d, TTSMode::gTTS, &String::new()), Some(VoiceList::Inline(t)) if t == "`en`, `de`"));
    assert!(matches!(voice_list(&d, TTSMode::eSpeak, &String::new()), Some(VoiceList::Inline(t)) if t.is_empty()));
    let (current, pages) = list_polly_voices(&d, &"Amy".to_string()).unwrap();
    assert_eq!(current, "Amy - British English (Female)");
    assert_eq!(pages.len(), 2);
    assert!(list_polly_voices(&d, &"Nobody".to_string()).is_none());
    let (current, pages) = list_gcloud_voices(&d, &"en-US C".to_string()).unwrap();
    assert_eq!(current, "en-US C (FEMALE)");
    assert_eq!(pages[0], "en-US A (MALE)\nen-US C (FEMALE)\n");
    assert!(list_gcloud_voices(&d, &"en-US Z".to_string()).is_none());
    assert!(matches!(voice_list(&d, TTSMode::Polly, &"Brian".to_string()), Some(VoiceList::Pages { .. })));
    assert!(voice_list(&d, TTSMode::gCloud, &"xx".to_string()).is_none());
}
