//! The parts on their own.

use ryu_quests::auth::{
    admits, bearer_ok, ct_eq, default_model_from, gateway_token_from, gateway_url_from, port_from,
    token_from,
};
use ryu_quests::board::board_columns;
use ryu_quests::clock::{snooze_elapsed, snooze_elapsed_at, Moment};
use ryu_quests::context::{read_tool_reply, recent_call, search_call, usable_text, ToolCall};
use ryu_quests::detection::DetectionMode;
use ryu_quests::engine::new_quest_id;
use ryu_quests::interval::valid_interval;
use ryu_quests::plan::{keep_readable, Action, Run, Step};
use ryu_quests::prefs::{read_prefs, write_prefs, Prefs};
use ryu_quests::quest::{Quest, QuestKind, QuestStatus};
use ryu_quests::verdict::{build_judge_prompt, parse_verdict, snippet};

fn parsed(text: &str) -> serde_json::Value {
    serde_json::from_str(text).unwrap()
}

fn quest(id: &str, status: QuestStatus) -> Quest {
    Quest {
        id: id.into(),
        title: id.into(),
        detail: None,
        completion_condition: String::new(),
        status,
        created_at: "now".into(),
        updated_at: "now".into(),
        completed_at: None,
        completion_source: None,
        last_judged_at: None,
        snoozed_until: None,
        suggestion: None,
        kind: QuestKind::Task,
        body: None,
        source: None,
        pinned: false,
        used_at: None,
    }
}

#[test]
fn detection_mode_roundtrips() {
    assert_eq!(DetectionMode::from_pref("off"), DetectionMode::Off);
    assert_eq!(DetectionMode::from_pref("suggest"), DetectionMode::Suggest);
    assert_eq!(DetectionMode::from_pref("auto_high"), DetectionMode::AutoHigh);
    assert_eq!(DetectionMode::from_pref("auto-all"), DetectionMode::AutoAll);
    assert_eq!(DetectionMode::from_pref("garbage"), DetectionMode::Suggest);
    assert_eq!(DetectionMode::AutoHigh.as_str(), "auto_high");
}

#[test]
fn mode_names_are_read_in_any_case() {
    assert_eq!(DetectionMode::from_pref(" Auto_HIGH\n"), DetectionMode::AutoHigh);
    assert_eq!(DetectionMode::from_pref("OFF"), DetectionMode::Off);
    assert_eq!(DetectionMode::from_pref("AUTO-ALL"), DetectionMode::AutoAll);
    assert_eq!(DetectionMode::from_pref("auto_hİgh"), DetectionMode::Suggest);
    assert_eq!(DetectionMode::from_pref("É"), DetectionMode::from_pref("é"));
    for mode in [
        DetectionMode::Off,
        DetectionMode::Suggest,
        DetectionMode::AutoHigh,
        DetectionMode::AutoAll,
    ] {
        assert_eq!(DetectionMode::from_pref(mode.as_str()), mode);
    }
    assert_eq!(DetectionMode::default(), DetectionMode::AutoHigh);
}

#[test]
fn kind_names_read_back() {
    for kind in [
        QuestKind::Task,
        QuestKind::Note,
        QuestKind::Link,
        QuestKind::Prompt,
        QuestKind::Snippet,
    ] {
        assert_eq!(QuestKind::from_wire(kind.as_str()), kind);
        assert_eq!(kind.is_judged(), kind == QuestKind::Task);
    }
    assert_eq!(QuestKind::from_wire("Note"), QuestKind::Task);
}

#[test]
fn parses_clear_done_verdict() {
    let v = parse_verdict("MET: yes\nCONFIDENCE: 90\nREASON: The PR was merged.");
    assert!(v.met);
    assert_eq!(v.confidence, 90);
    assert_eq!(v.reason, "The PR was merged.");
}

#[test]
fn parses_not_done_verdict() {
    let v = parse_verdict("MET: no\nCONFIDENCE: 20\nREASON: Still editing the draft.");
    assert!(!v.met);
    assert_eq!(v.confidence, 20);
}

#[test]
fn clamps_confidence_and_handles_messy_lines() {
    let v = parse_verdict("MET: YES — done\nConfidence: 130%\nReason: shipped");
    assert!(v.met);
    assert_eq!(v.confidence, 100);
    assert_eq!(v.reason, "shipped");
}

#[test]
fn garbage_fails_safe_to_not_met() {
    let v = parse_verdict("I think maybe it could be done?");
    assert!(!v.met);
    assert_eq!(v.confidence, 0);
}

#[test]
fn verdict_edge_cases() {
    let v = parse_verdict("");
    assert_eq!((v.met, v.confidence), (false, 0));
    assert_eq!(v.reason, "No clear verdict from the judge.");
    let v = parse_verdict("met: true\r\nconfidence: about 8 of 10");
    assert_eq!((v.met, v.confidence, v.reason.as_str()), (true, 100, "Looks done."));
    let v = parse_verdict("MET: false");
    assert_eq!((v.met, v.confidence, v.reason.as_str()), (false, 0, "Not yet done."));
    let v = parse_verdict("MET: perhaps\nREASON: unsure");
    assert_eq!((v.met, v.confidence, v.reason.as_str()), (false, 0, "unsure"));
    let v = parse_verdict("MET: yes\nMET: no\nCONFIDENCE: 7\nCONFIDENCE: none");
    assert_eq!((v.met, v.confidence), (false, 7));
    let v = parse_verdict("MET: yes\nCONFIDENCE: 99999999999");
    assert_eq!((v.met, v.confidence), (true, 0));
    // A letter that grows by a byte in lower case does not shift the reason.
    let v = parse_verdict("MET: yes\nCONFIDENCE: 99\nȺ reason:éx");
    assert_eq!((v.met, v.confidence, v.reason.as_str()), (true, 99, "éx"));
    // Neither the Kelvin sign nor the dotted capital I makes up a label.
    let v = parse_verdict("MET: yes\nCONFİDENCE: 99");
    assert_eq!((v.met, v.confidence), (true, 0));
}

#[test]
fn indented_reasons_are_kept() {
    let v = parse_verdict("MET: yes\nCONFIDENCE: 90\n  REASON: Shipped");
    assert_eq!((v.met, v.confidence, v.reason.as_str()), (true, 90, "Shipped"));
    let v = parse_verdict("\t REASON: Shipped ");
    assert_eq!((v.met, v.confidence, v.reason.as_str()), (false, 0, "Shipped"));
    let v = parse_verdict(" met: yes\n the Reason: A Reason: B");
    assert_eq!((v.met, v.reason.as_str()), (true, "A Reason: B"));
}

#[test]
fn replies_without_an_answer_are_not_met() {
    let v = parse_verdict("MET: perhaps\nMET:\nCONFIDENCE: 95\nREASON: Unsure");
    assert_eq!((v.met, v.confidence, v.reason.as_str()), (false, 0, "Unsure"));
}

#[test]
fn quest_condition_falls_back_to_title() {
    let mut q = quest("q1", QuestStatus::Open);
    q.title = "Deploy staging".into();
    q.completion_condition = "  ".into();
    assert_eq!(q.condition(), "Deploy staging");
    q.completion_condition = " it is up ".into();
    assert_eq!(q.condition(), "it is up");
}

#[test]
fn unavailable_shadow_result_is_not_usable() {
    let v = parsed("{\"available\":false,\"reason\":\"down\"}");
    assert!(usable_text(&read_tool_reply(&v)).is_none());
    let v2 = parsed("{\"summary\":\"user merged a PR\"}");
    assert_eq!(usable_text(&read_tool_reply(&v2)).as_deref(), Some("user merged a PR"));
}

#[test]
fn tool_replies_are_read() {
    let text = |payload: &str| usable_text(&read_tool_reply(&parsed(payload)));
    assert_eq!(text("{\"text\":\" t \"}").as_deref(), Some("t"));
    assert_eq!(text("{\"context\":\"c\",\"text\":\"t\"}").as_deref(), Some("t"));
    assert_eq!(text("{\"available\":true,\"context\":\"c\"}").as_deref(), Some("c"));
    assert_eq!(text("{}"), None);
    assert_eq!(text("null"), None);
    assert_eq!(text("{\"summary\":\"  \"}"), None);
    assert_eq!(text("{\"summary\":\"{}\"}"), None);
    // A field that is no string hides the later ones: the whole reply is used.
    assert_eq!(
        text("{ \"summary\": 3, \"text\": \"t\" }").as_deref(),
        Some("{\"summary\":3,\"text\":\"t\"}")
    );
    assert_eq!(text("[1, \"x\"]").as_deref(), Some("[1,\"x\"]"));
    assert_eq!(text("{\"available\":\"false\"}").as_deref(), Some("{\"available\":\"false\"}"));
    let nested = "{\"z\":{\"a\":1,\"$serde_json::private::RawValue\":2},\"text\":\"t\"}";
    assert_eq!(text(nested).as_deref(), Some("t"));
}

#[test]
fn tool_calls_carry_their_arguments() {
    assert_eq!(recent_call(), ToolCall::RecentContext { minutes: 15 });
    assert_eq!(recent_call().tool(), "shadow__recent_context");
    let mut sought = quest("q", QuestStatus::Open);
    sought.title = "Ship it".into();
    sought.completion_condition = "PR merged".into();
    let call = search_call(&sought);
    assert_eq!(call, ToolCall::SemanticSearch { query: "Ship it".to_string(), limit: 5 });
    assert_eq!(call.tool(), "shadow__semantic_search");
}

#[test]
fn snooze_elapsed_handles_past_future_and_garbage() {
    let past = (chrono::Utc::now() - chrono::Duration::hours(1)).to_rfc3339();
    let future = (chrono::Utc::now() + chrono::Duration::hours(1)).to_rfc3339();
    assert!(snooze_elapsed(&past));
    assert!(!snooze_elapsed(&future));
    assert!(snooze_elapsed("not-a-timestamp"));
}

#[test]
fn timestamps_are_written_and_read() {
    let moment = Moment { secs: 1_700_000_000, nanos: 0 };
    assert_eq!(moment.timestamp(), "2023-11-14T22:13:20+00:00");
    assert!(snooze_elapsed_at("2023-11-14T22:13:20+00:00", moment));
    assert!(!snooze_elapsed_at("2023-11-14T22:13:20.000000001+00:00", moment));
    assert!(snooze_elapsed_at("2023-11-15T00:13:20+02:00", moment));
    assert!(!snooze_elapsed_at("2023-11-14T23:13:20Z", moment));
    let last = Moment { secs: 8_210_266_876_799, nanos: 1 };
    assert_eq!(last.after(3600), last);
    assert_eq!(last.timestamp(), "+262142-12-31T23:59:59.000000001+00:00");
    let final_year = Moment { secs: 253_402_300_799, nanos: 999_999_999 };
    assert_eq!(final_year.timestamp(), "9999-12-31T23:59:59.999999999+00:00");
    assert!(snooze_elapsed_at(&final_year.timestamp(), final_year));
    assert!(!snooze_elapsed_at(&final_year.timestamp(), moment));
    let now = Moment::now();
    assert!(now.secs > 1_700_000_000 && now.nanos < 1_000_000_000);
}

#[test]
fn ids_are_hexadecimal_and_differ() {
    let id = new_quest_id();
    assert_eq!(id.len(), 38);
    assert!(id.starts_with("quest_"));
    assert!(id[6..].chars().all(|c| c.is_ascii_digit() || ('a'..='f').contains(&c)));
    assert_ne!(id, new_quest_id());
}

#[test]
fn intervals_are_durations_in_words() {
    for good in ["2m", "1h 30m", "15days", "90s"] {
        assert!(valid_interval(good), "{good}");
    }
    for bad in ["", "banana", "2", "m", "5 minutes ago"] {
        assert!(!valid_interval(bad), "{bad}");
    }
    assert!(valid_interval("0000000000000002m"));
    assert!(valid_interval("1.000000000000000s"));
    assert!(valid_interval("18446744073709551615s 999ms 999us 999ns"));
    assert!(valid_interval("18446744073709551615.5s"));
    assert!(valid_interval("584542046090years 19767615s 1ms"));
    // One second more than a duration holds, counted in seconds and in nanoseconds.
    assert!(!valid_interval("18446744073709551616s"));
    assert!(!valid_interval("18446744073709551615s 1s"));
    assert!(!valid_interval("18446744073709551615s 1000ms"));
    assert!(!valid_interval("18446744073709551615.5s0.5s"));
    assert!(!valid_interval("584542046090y 19767615s 1000ms"));
    assert!(!valid_interval("18446744073709551615s 999ms 1 000 us and more"));
}

#[test]
fn board_columns_groups_by_status() {
    let quests = vec![
        quest("a", QuestStatus::Open),
        quest("b", QuestStatus::Done),
        quest("c", QuestStatus::Open),
    ];
    let board = board_columns(&quests);
    assert_eq!(board.open.count, 2);
    assert_eq!(board.done.count, 1);
    assert_eq!(board.dismissed.count, 0);
    assert_eq!(board.open.status, "open");
    assert_eq!(board.done.status, "done");
    assert_eq!(board.dismissed.status, "dismissed");
    assert_eq!(board.open.quests[1].id, "c");
}

#[test]
fn bearer_ok_matches_only_exact_nonempty_token() {
    assert!(bearer_ok(Some("secret"), Some("secret")));
    assert!(!bearer_ok(Some("secret"), Some("other")));
    assert!(!bearer_ok(Some("secre"), Some("secret")));
    assert!(!bearer_ok(None, Some("secret")));
}

#[test]
fn bearer_ok_is_fail_closed_without_expected() {
    // No or an empty configured token: everything is rejected.
    assert!(!bearer_ok(Some("secret"), None));
    assert!(!bearer_ok(Some(""), Some("")));
    assert!(!bearer_ok(None, None));
}

#[test]
fn admission_reads_the_header() {
    assert!(admits(Some("Bearer secret"), Some("secret")));
    assert!(!admits(Some("bearer secret"), Some("secret")));
    assert!(!admits(Some("secret"), Some("secret")));
    assert!(!admits(Some("Bearer secret "), Some("secret")));
    assert!(!admits(None, Some("secret")));
    assert!(!admits(Some("Bearer "), Some("")));
    assert!(ct_eq(b"", b""));
    assert!(ct_eq(b"abc", b"abc"));
    assert!(!ct_eq(b"abc", b"abd"));
    assert!(!ct_eq(b"abc", b"ab"));
}

#[test]
fn process_settings_have_defaults() {
    assert_eq!(port_from(None), 7991);
    assert_eq!(port_from(Some(" 8080\n")), 8080);
    assert_eq!(port_from(Some("+65535")), 65535);
    assert_eq!(port_from(Some("0")), 0);
    for bad in ["", "+", "65536", "-1", "80a", "8 0"] {
        assert_eq!(port_from(Some(bad)), 7991, "{bad}");
    }
    assert_eq!(token_from(Some("  t ")).as_deref(), Some("t"));
    assert_eq!(token_from(Some("  ")), None);
    assert_eq!(token_from(None), None);
    assert_eq!(gateway_url_from(None), "http://127.0.0.1:7981");
    assert_eq!(gateway_url_from(Some("")), "http://127.0.0.1:7981");
    assert_eq!(gateway_url_from(Some("http://gw")), "http://gw");
    assert_eq!(gateway_token_from(Some("")), None);
    assert_eq!(gateway_token_from(Some("k")).as_deref(), Some("k"));
    assert_eq!(default_model_from(None), "gemma-4-E2B-it-Q4_K_M");
    assert_eq!(default_model_from(Some("m")), "m");
}

#[test]
fn snippets_are_one_short_line() {
    assert_eq!(snippet("  a\n\tb  c "), "a b c");
    assert_eq!(snippet(&"x".repeat(280)), "x".repeat(280));
    assert_eq!(snippet(&"x".repeat(281)), format!("{}…", "x".repeat(280)));
    // More than 280 bytes but fewer characters: marked, though nothing was cut.
    assert_eq!(snippet(&"参".repeat(100)), format!("{}…", "参".repeat(100)));
}

#[test]
fn prompts_hold_the_task_and_the_evidence() {
    let (system, user) = build_judge_prompt("ship it", "shipped");
    assert_eq!(user, "TASK: ship it\n\nEVIDENCE (recent activity):\nshipped");
    assert!(system.ends_with(
        "Reply with EXACTLY three lines and nothing else:\n\
         MET: yes or no\n\
         CONFIDENCE: an integer from 0 to 100 (how certain you are it is done)\n\
         REASON: one short sentence citing the evidence."
    ));
}

#[test]
fn preferences_map_each_key_to_its_last_value() {
    let prefs = Prefs::new().set("a", "1").set("b", "2").set("a", "3");
    assert_eq!(prefs.get("a").as_deref(), Some("3"));
    assert_eq!(prefs.get("b").as_deref(), Some("2"));
    assert_eq!(prefs.get("c"), None);
    let copy = prefs.clone().set("b", "4");
    assert_eq!(prefs.get("b").as_deref(), Some("2"));
    let mut pairs = copy.into_pairs();
    pairs.sort();
    assert_eq!(
        pairs,
        vec![("a".to_string(), "3".to_string()), ("b".to_string(), "4".to_string())]
    );
    let read = Prefs::of_pairs(vec![
        ("k".to_string(), "old".to_string()),
        ("k".to_string(), "new".to_string()),
    ]);
    assert_eq!(read.get("k").as_deref(), Some("new"));
}

#[test]
fn preferences_are_read_back_as_written() {
    // No file, or one that holds no preferences, gives none.
    for bytes in ["", "not json", "[]", "{\"a\":1}", "{\"a\":\"x\",\"b\":null}", "{\"a\":1,\"a\":\"x\"}"]
    {
        assert!(read_prefs(bytes.as_bytes()).into_pairs().is_empty(), "{bytes}");
    }
    let prefs = Prefs::new()
        .set("quest-detection-mode", "off")
        .set("quest-judge-model", " a \"quoted\"\nmodel é ");
    // Keys that serde_json keeps for itself are keys like any other.
    let odd = Prefs::new().set("$serde_json::private::RawValue", "v").set("$x", "w");
    let odd = read_prefs(&write_prefs(&odd));
    assert_eq!(odd.get("$serde_json::private::RawValue").as_deref(), Some("v"));
    assert_eq!(odd.get("$x").as_deref(), Some("w"));
    let bytes = write_prefs(&prefs);
    let reloaded = read_prefs(&bytes);
    assert_eq!(reloaded.get("quest-detection-mode").as_deref(), Some("off"));
    assert_eq!(
        reloaded.get("quest-judge-model").as_deref(),
        Some(" a \"quoted\"\nmodel é ")
    );
    assert_eq!(reloaded.into_pairs().len(), 2);
    assert_eq!(
        write_prefs(&Prefs::new().set("b", "2").set("a", "1")),
        b"{\n  \"a\": \"1\",\n  \"b\": \"2\"\n}".to_vec()
    );
}

#[test]
fn runs_stop_at_a_required_failure() {
    let step = |id: &str, required: bool| Step {
        action: Action::DeleteJob(id.to_string()),
        required,
    };
    let mut run = Run::new(vec![step("a", false), step("b", true), step("c", true)]);
    assert_eq!(run.next(), Some(&Action::DeleteJob("a".to_string())));
    run.report(Err("ignored".to_string()));
    assert_eq!(run.next(), Some(&Action::DeleteJob("b".to_string())));
    run.report(Err("stopped".to_string()));
    assert_eq!(run.next(), None);
    assert_eq!(run.result(), Err("stopped".to_string()));
}

#[test]
fn unreadable_rows_are_left_out() {
    let rows = vec![
        Some(quest("a", QuestStatus::Open)),
        None,
        Some(quest("b", QuestStatus::Done)),
    ];
    let ids: Vec<String> = keep_readable(rows).into_iter().map(|q| q.id).collect();
    assert_eq!(ids, vec!["a", "b"]);
}
