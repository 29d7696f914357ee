use tts_bot::classify::{
    channel_type, classify, ChannelKind, EventFailure, Failure, Fault, GuildRef, Route, TrackErrorHandler,
};
use tts_bot::envelope::{
    blank_field, build_notification, field, occurrence_footer, FailureEnvelope, Field, Telemetry,
    VIEW_TRACEBACK_CUSTOM_ID,
};
use tts_bot::fingerprint::fingerprint;
use tts_bot::locale::localize;
use tts_bot::replies::{cooldown_reply, seconds_string, ParseFailureKind};
use tts_bot::report::{Phase, Report, ReportAction, ReportEvent};
use tts_bot::retrieval::{is_traceback_control, retrieve, traceback_reply};
use tts_bot::store::DedupStore;
use tts_bot::text::{decimal_string, join_with, replace_all, truncate_title};

fn envelope(diagnostic: &str) -> FailureEnvelope {
    FailureEnvelope {
        event: "command".to_string(),
        summary: "boom".to_string(),
        fields: vec![field("Command", "tts", true)],
        author_name: Some("alice".to_string()),
        icon_url: Some("https://cdn.example/alice.png".to_string()),
        diagnostic: diagnostic.to_string(),
    }
}

fn telemetry() -> Telemetry {
    Telemetry { load_average: Some("0.42".to_string()), memory_used_bytes: Some(2048 * 1024 + 100) }
}

/// Runs one report against the in-memory store; `sent` is the reference the
/// channel gives a new notification. Returns the actions in order.
fn run_report(store: &mut DedupStore, env: FailureEnvelope, sent: u64) -> Vec<ReportAction> {
    let (mut report, mut action) = Report::start(env, "TTS Bot".to_string());
    let mut log = Vec::new();
    loop {
        let event = match &action {
            ReportAction::CountExisting => ReportEvent::Counted(store.increment_existing(&report.fingerprint)),
            ReportAction::Measure => ReportEvent::Measured(telemetry(), 2),
            ReportAction::Send(_) => ReportEvent::Sent(sent),
            ReportAction::Record { sent } => {
                let outcome = store.upsert(&report.fingerprint, &report.envelope.diagnostic, *sent);
                ReportEvent::Recorded(outcome.record.notification_ref)
            }
            ReportAction::EditFooter { .. } | ReportAction::Delete { .. } => ReportEvent::Completed,
            ReportAction::Finish => break,
        };
        log.push(action);
        action = report.step(event);
    }
    assert_eq!(report.phase, Phase::Finished);
    log
}

#[test]
fn fingerprint_is_stable_and_distinguishes_texts() {
    let a = "Error: connection reset\n\nCaused by:\n    0: io error";
    let b = "Error: permission denied\n\nCaused by:\n    0: missing access";
    assert_eq!(fingerprint(a), fingerprint(a));
    assert_ne!(fingerprint(a), fingerprint(b));
    assert_eq!(fingerprint(a).len(), 32);
}

#[test]
fn fingerprint_is_sha256_of_the_text() {
    let fp = fingerprint("abc");
    assert_eq!(fp[..4], [0xba, 0x78, 0x16, 0xbf]);
    assert_eq!(fp[28..], [0xf2, 0x00, 0x15, 0xad]);
}

#[test]
fn repeated_upserts_keep_one_record() {
    let mut store = DedupStore::new();
    let fp = fingerprint("trace");
    for (i, candidate) in [10u64, 20, 30, 40, 50].iter().enumerate() {
        let outcome = store.upsert(&fp, "trace", *candidate);
        assert_eq!(outcome.is_new, i == 0);
        assert_eq!(outcome.record.notification_ref, 10);
        assert_eq!(outcome.record.occurrence_count, i as u64 + 1);
    }
    assert_eq!(store.len(), 1);
    let rec = store.get(&fp).unwrap();
    assert_eq!(rec.occurrence_count, 5);
    assert_eq!(rec.notification_ref, 10);
    assert_eq!(rec.diagnostic, "trace");
}

#[test]
fn increment_of_unknown_fingerprint_changes_nothing() {
    let mut store = DedupStore::new();
    assert_eq!(store.increment_existing(&fingerprint("x")), None);
    assert_eq!(store.len(), 0);
}

#[test]
fn racing_first_occurrences_leave_one_notification() {
    let mut store = DedupStore::new();
    let (mut a, _) = Report::start(envelope("same fault"), "bot".to_string());
    let (mut b, _) = Report::start(envelope("same fault"), "bot".to_string());
    // Both find the fingerprint unknown and send a notification.
    assert!(matches!(a.step(ReportEvent::Counted(store.increment_existing(&a.fingerprint))), ReportAction::Measure));
    assert!(matches!(b.step(ReportEvent::Counted(store.increment_existing(&b.fingerprint))), ReportAction::Measure));
    assert!(matches!(a.step(ReportEvent::Measured(telemetry(), 1)), ReportAction::Send(_)));
    assert!(matches!(b.step(ReportEvent::Measured(telemetry(), 1)), ReportAction::Send(_)));
    assert!(matches!(a.step(ReportEvent::Sent(100)), ReportAction::Record { sent: 100 }));
    assert!(matches!(b.step(ReportEvent::Sent(200)), ReportAction::Record { sent: 200 }));
    // The first upsert wins; the loser deletes its own notification.
    let owner_a = store.upsert(&a.fingerprint, "same fault", 100).record.notification_ref;
    let owner_b = store.upsert(&b.fingerprint, "same fault", 200).record.notification_ref;
    assert!(matches!(a.step(ReportEvent::Recorded(owner_a)), ReportAction::Finish));
    assert!(matches!(b.step(ReportEvent::Recorded(owner_b)), ReportAction::Delete { target: 200 }));
    assert!(matches!(b.step(ReportEvent::Completed), ReportAction::Finish));
    let rec = store.get(&a.fingerprint).unwrap();
    assert_eq!(rec.notification_ref, 100);
    assert_eq!(rec.occurrence_count, 2);
    assert_eq!(store.len(), 1);
}

#[test]
fn title_truncation_respects_char_boundaries() {
    let two_byte = "é".repeat(200);
    let t = truncate_title(&two_byte);
    assert_eq!(t.len(), 256);
    assert_eq!(t, "é".repeat(128));

    let shifted = format!("a{}", "é".repeat(200));
    let t = truncate_title(&shifted);
    assert_eq!(t.len(), 255);
    assert!(shifted.starts_with(&t));

    let emoji = format!("ab{}", "🦀".repeat(100));
    let t = truncate_title(&emoji);
    assert_eq!(t.len(), 254);

    assert_eq!(truncate_title("short"), "short");
    assert_eq!(truncate_title(""), "");
    let exact = "x".repeat(256);
    assert_eq!(truncate_title(&exact), exact);
    assert_eq!(truncate_title(&"x".repeat(300)).len(), 256);
}

#[test]
fn unparsable_integer_is_answered_inline() {
    let failure = Failure::ArgumentParse {
        kind: ParseFailureKind::Integer,
        input: Some("abc".to_string()),
        command: "set msg_length".to_string(),
    };
    let store = DedupStore::new();
    match classify(&failure, None) {
        Route::Reply(text) => {
            assert!(text.contains("cannot convert"));
            assert!(text.contains("to a number"));
            assert_eq!(text, "I cannot convert `abc` to a number, please check out `/help set msg_length`");
        }
        other => panic!("unexpected route {other:?}"),
    }
    assert_eq!(store.len(), 0);
}

#[test]
fn parse_failure_messages_by_kind() {
    let reply = |kind, input: Option<&str>| match classify(
        &Failure::ArgumentParse { kind, input: input.map(str::to_string), command: "voice".to_string() },
        None,
    ) {
        Route::Reply(t) => t,
        other => panic!("unexpected route {other:?}"),
    };
    assert_eq!(
        reply(ParseFailureKind::MemberNotFound, Some("bob")),
        "I cannot find the member: `bob`, please check out `/help voice`"
    );
    assert_eq!(
        reply(ParseFailureKind::Boolean, Some("maybe")),
        "I cannot convert `maybe` to True/False, please check out `/help voice`"
    );
    assert_eq!(
        reply(ParseFailureKind::Other, Some("x")),
        "I cannot understand your message, please check out `/help voice`"
    );
    assert_eq!(
        reply(ParseFailureKind::Integer, None),
        "You missed an argument to the command, please check out `/help voice`"
    );
}

#[test]
fn first_command_failure_sends_one_notification() {
    let mut store = DedupStore::new();
    let failure = Failure::Command {
        command: "tts".to_string(),
        slash: true,
        channel: ChannelKind::Voice,
        guild: Some(GuildRef { name: "Guild".to_string(), id: 42 }),
        author_name: "alice".to_string(),
        author_face: "face.png".to_string(),
        fault: Fault { summary: "boom".to_string(), diagnostic: "boom\n\nCaused by: x".to_string() },
    };
    let env = match classify(&failure, None) {
        Route::Escalate { envelope, reply } => {
            assert_eq!(reply.as_deref(), Some("An unknown error occurred, please report this on the support server!"));
            envelope
        }
        other => panic!("unexpected route {other:?}"),
    };
    let log = run_report(&mut store, env, 7);
    let sends: Vec<_> = log
        .iter()
        .filter_map(|a| match a {
            ReportAction::Send(n) => Some(n),
            _ => None,
        })
        .collect();
    assert_eq!(sends.len(), 1);
    assert_eq!(sends[0].footer, "This error has occurred 1 time!");
    assert_eq!(sends[0].control_id, VIEW_TRACEBACK_CUSTOM_ID);
    assert!(!log.iter().any(|a| matches!(a, ReportAction::Delete { .. } | ReportAction::EditFooter { .. })));
    assert_eq!(store.len(), 1);
    let rec = store.get(&fingerprint("boom\n\nCaused by: x")).unwrap();
    assert_eq!(rec.occurrence_count, 1);
    assert_eq!(rec.notification_ref, 7);
}

#[test]
fn second_occurrence_edits_the_footer() {
    let mut store = DedupStore::new();
    run_report(&mut store, envelope("fault"), 7);
    let log = run_report(&mut store, envelope("fault"), 8);
    assert!(!log.iter().any(|a| matches!(a, ReportAction::Send(_))));
    match &log[1] {
        ReportAction::EditFooter { target, footer } => {
            assert_eq!(*target, 7);
            assert_eq!(footer, "This error has occurred 2 times!");
        }
        other => panic!("unexpected action {other:?}"),
    }
    assert_eq!(store.len(), 1);
    let third = run_report(&mut store, envelope("fault"), 9);
    assert!(matches!(&third[1], ReportAction::EditFooter { target: 7, footer } if footer == "This error has occurred 3 times!"));
}

#[test]
fn failed_store_ends_the_report_quietly() {
    let (mut report, _) = Report::start(envelope("x"), "bot".to_string());
    assert!(matches!(report.step(ReportEvent::Failed), ReportAction::Finish));
    assert_eq!(report.phase, Phase::Finished);
    let (mut report, _) = Report::start(envelope("x"), "bot".to_string());
    assert!(matches!(report.step(ReportEvent::Sent(3)), ReportAction::Finish));
}

#[test]
fn retrieval_of_unknown_reference_is_private_notice() {
    let mut store = DedupStore::new();
    store.upsert(&fingerprint("known"), "known", 5);
    let reply = retrieve(&store, 6);
    assert!(reply.ephemeral);
    assert_eq!(reply.content.as_deref(), Some("No traceback found."));
    assert!(reply.attachment.is_none());
}

#[test]
fn retrieval_of_known_reference_attaches_the_text() {
    let mut store = DedupStore::new();
    store.upsert(&fingerprint("full text é"), "full text é", 5);
    let reply = retrieve(&store, 5);
    assert!(reply.ephemeral);
    assert!(reply.content.is_none());
    let file = reply.attachment.unwrap();
    assert_eq!(file.filename, "traceback.txt");
    assert_eq!(file.data, "full text é".as_bytes());
    assert!(traceback_reply(None).content.is_some());
}

#[test]
fn traceback_control_is_recognised() {
    assert!(is_traceback_control("error::traceback::view"));
    assert!(!is_traceback_control("error::traceback::vie"));
    assert!(!is_traceback_control(""));
}

#[test]
fn missing_bot_permissions_are_answered_inline() {
    let store = DedupStore::new();
    let failure = Failure::MissingBotPermissions {
        permissions: vec!["Send Messages".to_string(), "Embed Links".to_string()],
    };
    match classify(&failure, None) {
        Route::Reply(text) => assert_eq!(
            text,
            "I cannot run this command as I am missing permissions, please ask an administrator of the server to give me: Send Messages, Embed Links"
        ),
        other => panic!("unexpected route {other:?}"),
    }
    assert_eq!(store.len(), 0);
}

#[test]
fn missing_user_permissions_replies() {
    let named = Failure::MissingUserPermissions { permissions: Some(vec!["Manage Guild".to_string()]) };
    assert!(matches!(classify(&named, None), Route::Reply(t) if t.ends_with("give you: Manage Guild")));
    let unnamed = Failure::MissingUserPermissions { permissions: None };
    assert!(matches!(classify(&unnamed, None), Route::Reply(t) if t == "You cannot run this command as you are missing permissions."));
}

#[test]
fn cooldown_replies_and_cleanup() {
    let conversational = Failure::CooldownHit { command: "tts".to_string(), remaining_ms: 2450, conversational: true };
    match classify(&conversational, None) {
        Route::ReplyThenClean { reply, delay_ms } => {
            assert_eq!(reply, "`/tts` is on cooldown, please try again in 2.5 seconds!");
            assert_eq!(delay_ms, 2450);
        }
        other => panic!("unexpected route {other:?}"),
    }
    let slash = Failure::CooldownHit { command: "tts".to_string(), remaining_ms: 300, conversational: false };
    assert!(matches!(classify(&slash, None), Route::Reply(t) if t == "`/tts` is on cooldown, please try again in 0.3 seconds!"));
    assert_eq!(seconds_string(0), "0.0");
    assert_eq!(seconds_string(12_049), "12.0");
    assert_eq!(seconds_string(12_050), "12.1");
    assert_eq!(cooldown_reply("{command_name} {} {}", "x", 1000), "x 1.0 1.0");
}

#[test]
fn fatal_logged_and_guild_only_routes() {
    assert!(matches!(classify(&Failure::Setup, None), Route::Fatal));
    assert!(matches!(classify(&Failure::CommandPanic, None), Route::Fatal));
    assert!(matches!(classify(&Failure::DynamicPrefix, None), Route::Log));
    assert!(matches!(classify(&Failure::Unanswered, None), Route::Log));
    assert!(matches!(classify(&Failure::CommandCheckFailed { errored: false }, None), Route::Log));
    assert!(matches!(
        classify(&Failure::CommandCheckFailed { errored: true }, None),
        Route::Reply(t) if t == "An unknown error occurred during the premium check, please report this on the support server!"
    ));
    let other = Failure::Event {
        event: EventFailure::Other { name: "typing_start".to_string() },
        fault: Fault { summary: "s".to_string(), diagnostic: "d".to_string() },
    };
    assert!(matches!(classify(&other, None), Route::Log));
    let guild_only = Failure::GuildOnly { command: "setup".to_string(), bot_name: "TTS Bot".to_string() };
    assert!(matches!(
        classify(&guild_only, None),
        Route::Reply(t) if t == "`/setup` cannot be used in private messages, please run this command in a server channel."
    ));
}

fn fault() -> Fault {
    Fault { summary: "s".to_string(), diagnostic: "d".to_string() }
}

fn escalated(failure: Failure) -> FailureEnvelope {
    match classify(&failure, None) {
        Route::Escalate { envelope, reply: None } => envelope,
        other => panic!("unexpected route {other:?}"),
    }
}

fn labels(fields: &[Field]) -> Vec<(String, String)> {
    fields.iter().map(|f| (f.label.clone(), f.value.clone())).collect()
}

#[test]
fn event_failures_are_escalated_with_context() {
    let msg = escalated(Failure::Event {
        event: EventFailure::Message {
            guild_id: Some(9),
            guild_name: Some("G".to_string()),
            channel: ChannelKind::PublicThread,
            author_name: "bob".to_string(),
            author_face: "bob.png".to_string(),
        },
        fault: fault(),
    });
    assert_eq!(msg.event, "MessageCreate");
    assert_eq!(
        labels(&msg.fields),
        vec![
            ("Guild".to_string(), "G".to_string()),
            ("Guild ID".to_string(), "9".to_string()),
            ("Channel Type".to_string(), "Public Thread Channel".to_string()),
        ]
    );
    assert_eq!(msg.author_name.as_deref(), Some("bob"));

    let member = escalated(Failure::Event { event: EventFailure::MemberAddition { guild_id: 1, user_id: 2 }, fault: fault() });
    assert_eq!(member.event, "GuildMemberAdd");
    assert_eq!(labels(&member.fields)[2], ("User ID".to_string(), "2".to_string()));
    assert!(member.author_name.is_none());

    let create = escalated(Failure::Event {
        event: EventFailure::GuildCreate { guild_name: "G".to_string(), icon_url: None },
        fault: fault(),
    });
    assert_eq!(create.event, "GuildCreate");
    assert_eq!(create.author_name.as_deref(), Some("G"));

    let delete = escalated(Failure::Event { event: EventFailure::GuildDelete { guild_name: None, icon_url: None }, fault: fault() });
    assert_eq!(delete.event, "GuildDelete");
    assert!(delete.author_name.is_none());

    let ready = escalated(Failure::Event { event: EventFailure::Ready, fault: fault() });
    assert_eq!(ready.event, "Ready");
    assert!(ready.fields.is_empty());
    assert_eq!(ready.diagnostic, "d");
}

#[test]
fn command_failure_envelope_fields() {
    let failure = Failure::Command {
        command: "join".to_string(),
        slash: false,
        channel: ChannelKind::News,
        guild: Some(GuildRef { name: "Home".to_string(), id: 123 }),
        author_name: "alice".to_string(),
        author_face: "a.png".to_string(),
        fault: fault(),
    };
    let env = match classify(&failure, None) {
        Route::Escalate { envelope, .. } => envelope,
        other => panic!("unexpected route {other:?}"),
    };
    assert_eq!(env.event, "command");
    assert_eq!(
        labels(&env.fields),
        vec![
            ("Command".to_string(), "join".to_string()),
            ("Slash Command".to_string(), "false".to_string()),
            ("Channel Type".to_string(), "Text Channel".to_string()),
            ("Guild".to_string(), "Home".to_string()),
            ("Guild ID".to_string(), "123".to_string()),
            ("\u{200B}".to_string(), "\u{200B}".to_string()),
        ]
    );
    assert_eq!(env.icon_url.as_deref(), Some("a.png"));
}

#[test]
fn track_failure_reuses_bound_author() {
    let env = escalated(Failure::Track {
        fields: vec![field("Channel", "general", true)],
        author_name: "carol".to_string(),
        icon_url: "c.png".to_string(),
        fault: fault(),
    });
    assert_eq!(env.event, "TrackError");
    assert_eq!(env.author_name.as_deref(), Some("carol"));
    assert_eq!(env.icon_url.as_deref(), Some("c.png"));
    assert_eq!(labels(&env.fields), vec![("Channel".to_string(), "general".to_string())]);
}

#[test]
fn notification_layout() {
    let mut env = envelope(&"y".repeat(300));
    env.fields.push(blank_field());
    let n = build_notification(&env, "TTS Bot", &telemetry(), 3);
    assert_eq!(n.title.len(), 256);
    assert_eq!(n.footer, "This error has occurred 1 time!");
    assert_eq!(n.control_label, "View Traceback");
    assert_eq!(
        labels(&n.fields),
        vec![
            ("Event".to_string(), "`command`".to_string()),
            ("Bot User".to_string(), "`TTS Bot`".to_string()),
            ("\u{200B}".to_string(), "\u{200B}".to_string()),
            ("Command".to_string(), "`tts`".to_string()),
            ("\u{200B}".to_string(), "\u{200B}".to_string()),
            ("CPU Usage (5 minutes)".to_string(), "`0.42`".to_string()),
            ("System Memory Usage".to_string(), "`2048`".to_string()),
            ("Shard Count".to_string(), "`3`".to_string()),
        ]
    );
    assert_eq!(n.author_name.as_deref(), Some("alice"));
    assert_eq!(n.icon_url.as_deref(), Some("https://cdn.example/alice.png"));
}

#[test]
fn notification_without_telemetry_or_author() {
    let mut env = envelope("z");
    env.author_name = None;
    let n = build_notification(&env, "bot", &Telemetry { load_average: None, memory_used_bytes: None }, 1);
    assert_eq!(n.fields.len(), 5);
    assert_eq!(n.fields[4].label, "Shard Count");
    assert!(n.author_name.is_none());
    assert!(n.icon_url.is_none());
    assert_eq!(n.title, "z");
}

#[test]
fn footers_and_numbers() {
    assert_eq!(occurrence_footer(1), "This error has occurred 1 time!");
    assert_eq!(occurrence_footer(2), "This error has occurred 2 times!");
    assert_eq!(occurrence_footer(0), "This error has occurred 0 times!");
    assert_eq!(decimal_string(0), "0");
    assert_eq!(decimal_string(1_000_007), "1000007");
    assert_eq!(decimal_string(u64::MAX), "18446744073709551615");
}

#[test]
fn text_helpers() {
    assert_eq!(replace_all("a{}b{}", "{}", "X"), "aXbX");
    assert_eq!(replace_all("{{}}", "{}", "-"), "{-}");
    assert_eq!(replace_all("aaa", "aa", "b"), "ba");
    assert_eq!(replace_all("", "{}", "x"), "");
    assert_eq!(join_with(&vec![], ", "), "");
    assert_eq!(join_with(&vec!["a".to_string()], ", "), "a");
    assert_eq!(join_with(&vec!["a".to_string(), "b".to_string(), "c".to_string()], "/"), "a/b/c");
}

#[test]
fn channel_type_names() {
    assert_eq!(channel_type(ChannelKind::Text), "Text Channel");
    assert_eq!(channel_type(ChannelKind::News), "Text Channel");
    assert_eq!(channel_type(ChannelKind::Voice), "Voice Channel");
    assert_eq!(channel_type(ChannelKind::NewsThread), "News Thread Channel");
    assert_eq!(channel_type(ChannelKind::PrivateThread), "Private Thread Channel");
    assert_eq!(channel_type(ChannelKind::Private), "Private Channel");
    assert_eq!(channel_type(ChannelKind::OtherGuild), "Unknown Channel Type");
    assert_eq!(channel_type(ChannelKind::Other), "Unknown Channel Type");
}

#[test]
fn localize_with_empty_catalog_keeps_message() {
    let catalog = gettext::Catalog::empty();
    assert_eq!(localize(Some(&catalog), "Enabled"), "Enabled");
    assert_eq!(localize(None, "Disabled"), "Disabled");
}

#[test]
fn track_handler_reuses_bound_context() {
    let handler = TrackErrorHandler::new(vec![field("Channel", "music", true)], "dave".to_string(), "d.png".to_string());
    for diagnostic in ["first", "second"] {
        let failure = handler.act(Fault { summary: "track failed".to_string(), diagnostic: diagnostic.to_string() });
        let env = escalated(failure);
        assert_eq!(env.event, "TrackError");
        assert_eq!(env.author_name.as_deref(), Some("dave"));
        assert_eq!(env.icon_url.as_deref(), Some("d.png"));
        assert_eq!(labels(&env.fields), vec![("Channel".to_string(), "music".to_string())]);
        assert_eq!(env.diagnostic, diagnostic);
    }
}

#[test]
fn reported_text_comes_back_on_request() {
    let mut store = DedupStore::new();
    let log = run_report(&mut store, envelope("Error: boom\n\nCaused by: é"), 77);
    match &log[2] {
        ReportAction::Send(n) => {
            assert_eq!(n.control_id, VIEW_TRACEBACK_CUSTOM_ID);
            assert_eq!(n.control_label, "View Traceback");
            assert_eq!(n.author_name.as_deref(), Some("alice"));
        }
        other => panic!("unexpected action {other:?}"),
    }
    let reply = retrieve(&store, 77);
    assert!(reply.ephemeral);
    assert!(reply.content.is_none());
    let file = reply.attachment.unwrap();
    assert_eq!(file.filename, "traceback.txt");
    assert_eq!(file.data, "Error: boom\n\nCaused by: é".as_bytes());
}
