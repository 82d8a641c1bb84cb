//! The engine and the HTTP surface, against a world outside that lives in memory.

use ryu_quests::api::{
    self, Body, CaptureBody, DetectionConfigBody, Emission, JudgeBody, ListQuery, PinBody,
    QuestBody, Received, Reply, UseBody,
};
use ryu_quests::board::{board_columns, pinned_first};
use ryu_quests::clock::Moment;
use ryu_quests::detection::{
    DetectionMode, DETECTION_INTERVAL_PREF, DETECTION_MODE_PREF, JUDGE_EFFORT_PREF,
    JUDGE_MODEL_PREF,
};
use ryu_quests::engine::{Environment, Gateway, QuestEngine};
use ryu_quests::judge::{GatewayReply, JudgeRequest, Pass};
use ryu_quests::plan::{deleted, upserted, Action, Detection, Plan, QuestEvent, Run, Step};
use ryu_quests::prefs::Prefs;
use ryu_quests::quest::{CaptureSource, CompletionSource, Quest, QuestKind, QuestStatus};
use ryu_quests::verdict::Verdict;

// ---- the world outside -----------------------------------------------------------------

struct Outside {
    quests: Vec<Quest>,
    jobs: Vec<(String, bool)>,
    deleted_jobs: Vec<String>,
    detections: Vec<Detection>,
    events: Vec<QuestEvent>,
    sync_fails: bool,
    recent: Option<serde_json::Value>,
    semantic: Option<serde_json::Value>,
    reply: Option<String>,
    asked: Vec<JudgeRequest>,
}

impl Outside {
    fn new() -> Self {
        Outside {
            quests: Vec::new(),
            jobs: Vec::new(),
            deleted_jobs: Vec::new(),
            detections: Vec::new(),
            events: Vec::new(),
            sync_fails: false,
            recent: None,
            semantic: None,
            reply: None,
            asked: Vec::new(),
        }
    }

    fn failing() -> Self {
        Outside { sync_fails: true, ..Outside::new() }
    }

    fn find(&self, id: &str) -> Option<Quest> {
        self.quests.iter().find(|q| q.id == id).cloned()
    }

    fn found(&self, id: &str) -> Result<Option<Quest>, String> {
        Ok(self.find(id))
    }

    fn perform(&mut self, action: &Action) -> Result<(), String> {
        match action {
            Action::Upsert(quest) => {
                self.quests.retain(|q| q.id != quest.id);
                self.quests.insert(0, quest.clone());
                self.events.push(upserted(quest));
                Ok(())
            }
            Action::SyncJob { quest_id, open, .. } => {
                if self.sync_fails {
                    return Err("sync failed".to_string());
                }
                self.jobs.push((quest_id.clone(), *open));
                Ok(())
            }
            Action::DeleteJob(id) => {
                self.deleted_jobs.push(id.clone());
                Ok(())
            }
            Action::Delete(id) => {
                let before = self.quests.len();
                self.quests.retain(|q| &q.id != id);
                self.detections.retain(|d| &d.quest_id != id);
                if let Some(event) = deleted(id, before - self.quests.len()) {
                    self.events.push(event);
                }
                Ok(())
            }
            Action::Record(detection) => {
                self.detections.push(detection.clone());
                Ok(())
            }
            Action::Broadcast(event) => {
                self.events.push(event.clone());
                Ok(())
            }
        }
    }

    fn take(&mut self, steps: Vec<Step>) -> Result<(), String> {
        let mut run = Run::new(steps);
        while run.next().is_some() {
            let outcome = self.perform(run.next().unwrap());
            run.report(outcome);
        }
        run.result()
    }

    fn carry_out(&mut self, plan: Plan) -> Result<Quest, String> {
        let Plan { quest, steps } = plan;
        self.take(steps).map(|_| quest)
    }

    fn create(&mut self, engine: &QuestEngine, title: &str) -> Quest {
        let plan = engine.create_quest(title.to_string(), None, String::new());
        self.carry_out(plan).expect("created")
    }

    fn remove(&mut self, engine: &QuestEngine, id: &str) -> Result<bool, String> {
        let before = self.quests.len();
        self.take(engine.delete_quest(id))?;
        Ok(self.quests.len() < before)
    }

    /// Runs a detection pass to its end.
    fn judge(
        &mut self,
        engine: &QuestEngine,
        id: &str,
        context: Option<&str>,
    ) -> Result<Option<Verdict>, String> {
        let found = self.find(id);
        let mut pass = engine.judge_quest_with_context(id, found, context.map(str::to_string));
        loop {
            pass = match pass {
                Pass::Gather(quest) => engine.gathered(quest, &self.recent, &self.semantic),
                Pass::Ask { quest, evidence, request } => {
                    self.asked.push(request);
                    let reply = match &self.reply {
                        Some(text) => Ok(GatewayReply {
                            status: 200,
                            status_text: "200 OK".to_string(),
                            body: Ok(completion(text).into_bytes()),
                        }),
                        None => Err("connection refused".to_string()),
                    };
                    engine.answered(quest, &evidence, reply)
                }
                Pass::Over { result, steps } => {
                    let _ = self.take(steps);
                    return result;
                }
            };
        }
    }

    fn completed(&self, auto: bool) -> bool {
        self.events.iter().any(|e| matches!(e, QuestEvent::Completed { auto: a, .. } if *a == auto))
    }

    fn suggested(&self) -> bool {
        self.events.iter().any(|e| matches!(e, QuestEvent::Suggested { .. }))
    }
}

fn completion(text: &str) -> String {
    format!(
        "{{\"choices\":[{{\"message\":{{\"content\":{}}}}}]}}",
        serde_json::Value::String(text.to_string())
    )
}

fn parsed(text: &str) -> serde_json::Value {
    serde_json::from_str(text).unwrap()
}

fn engine() -> QuestEngine {
    QuestEngine::new(
        Prefs::new(),
        Environment {
            quest_interval: None,
            quest_judge_model: None,
            default_llm_model: None,
            quest_judge_effort: None,
        },
        "fake-default-model".to_string(),
        Gateway { url: "http://127.0.0.1:1".to_string(), token: None },
    )
}

fn quest(id: &str, created_at: &str) -> Quest {
    Quest {
        id: id.into(),
        title: id.into(),
        detail: None,
        completion_condition: String::new(),
        status: QuestStatus::Open,
        created_at: created_at.into(),
        updated_at: created_at.into(),
        completed_at: None,
        completion_source: None,
        last_judged_at: None,
        snoozed_until: None,
        suggestion: None,
        kind: QuestKind::Task,
        body: None,
        source: None,
        pinned: false,
        used_at: None,
    }
}

// ---- store -----------------------------------------------------------------------------

#[test]
fn store_broadcasts_updated_and_deleted() {
    let mut outside = Outside::new();
    outside.perform(&Action::Upsert(quest("q1", "2021-01-01T00:00:00Z"))).unwrap();
    outside.perform(&Action::Delete("q1".to_string())).unwrap();
    assert!(matches!(outside.events[0], QuestEvent::Updated { .. }));
    assert!(matches!(outside.events[1], QuestEvent::Deleted { .. }));
    // A second deletion finds nothing and says nothing.
    outside.perform(&Action::Delete("q1".to_string())).unwrap();
    assert_eq!(outside.events.len(), 2);
}

// ---- CRUD ------------------------------------------------------------------------------

#[test]
fn create_quest_trims_and_syncs_open_job() {
    let mut outside = Outside::new();
    let plan = engine().create_quest(
        "  Ship the release  ".into(),
        Some("   ".into()),
        "  PR merged  ".into(),
    );
    let q = outside.carry_out(plan).expect("created");
    assert_eq!(q.title, "Ship the release");
    assert_eq!(q.completion_condition, "PR merged");
    assert!(q.detail.is_none());
    assert_eq!(q.status, QuestStatus::Open);
    assert!(q.id.starts_with("quest_"));
    assert_eq!(outside.jobs, vec![(q.id.clone(), true)]);
}

#[test]
fn create_quest_surfaces_backing_job_failure() {
    let mut outside = Outside::failing();
    let plan = engine().create_quest("t".into(), None, String::new());
    let err = outside.carry_out(plan).expect_err("job sync failure propagates");
    assert!(err.contains("sync failed"));
}

#[test]
fn update_quest_edits_or_reports_missing() {
    let mut outside = Outside::new();
    let engine = engine();
    assert!(engine
        .update_quest(outside.find("ghost"), "x".into(), None, String::new())
        .is_none());

    let q = outside.create(&engine, "orig");
    let plan = engine
        .update_quest(outside.find(&q.id), " new title ".into(), Some("d".into()), " cond ".into())
        .expect("present");
    let updated = outside.carry_out(plan).unwrap();
    assert_eq!(updated.title, "new title");
    assert_eq!(updated.detail.as_deref(), Some("d"));
    assert_eq!(updated.completion_condition, "cond");
    assert_eq!(outside.find(&q.id), Some(updated));
}

#[test]
fn updating_survives_a_failing_job() {
    let mut outside = Outside::failing();
    let engine = engine();
    let plan = engine
        .update_quest(Some(quest("q1", "t")), "x".into(), None, String::new())
        .unwrap();
    assert_eq!(outside.carry_out(plan).unwrap().title, "x");
    assert!(outside.jobs.is_empty());
}

#[test]
fn delete_quest_removes_job_and_row() {
    let mut outside = Outside::new();
    let engine = engine();
    let q = outside.create(&engine, "t");
    assert!(outside.remove(&engine, &q.id).unwrap());
    assert_eq!(outside.deleted_jobs, vec![q.id.clone()]);
    assert!(!outside.remove(&engine, &q.id).unwrap());
}

// ---- manual changes of status ----------------------------------------------------------

#[test]
fn complete_quest_manual_sets_source_and_disables_job() {
    let mut outside = Outside::new();
    let engine = engine();
    let q = outside.create(&engine, "t");
    let plan = engine.complete_quest(outside.find(&q.id), false).unwrap();
    let done = outside.carry_out(plan).unwrap();
    assert_eq!(done.status, QuestStatus::Done);
    assert_eq!(done.completion_source, Some(CompletionSource::Manual));
    assert!(done.completed_at.is_some());
    assert!(outside.jobs.iter().any(|(id, open)| id == &q.id && !*open));
    assert!(outside.completed(false));
    assert!(engine.complete_quest(outside.find("ghost"), false).is_none());
}

#[test]
fn accept_suggestion_marks_detected() {
    let mut outside = Outside::new();
    let engine = engine();
    let q = outside.create(&engine, "t");
    let plan = engine.complete_quest(outside.find(&q.id), true).unwrap();
    let done = outside.carry_out(plan).unwrap();
    assert_eq!(done.completion_source, Some(CompletionSource::Detected));
}

#[test]
fn dismiss_quest_and_reopen_cycle() {
    let mut outside = Outside::new();
    let engine = engine();
    let q = outside.create(&engine, "t");

    let plan = engine.dismiss_quest(outside.find(&q.id)).unwrap();
    let dismissed = outside.carry_out(plan).unwrap();
    assert_eq!(dismissed.status, QuestStatus::Dismissed);
    assert!(dismissed.suggestion.is_none());

    let plan = engine.reopen_quest(outside.find(&q.id)).unwrap();
    let reopened = outside.carry_out(plan).unwrap();
    assert_eq!(reopened.status, QuestStatus::Open);
    assert!(reopened.completed_at.is_none());
    assert!(reopened.completion_source.is_none());
    assert_eq!(
        outside.jobs,
        vec![(q.id.clone(), true), (q.id.clone(), false), (q.id.clone(), true)]
    );

    assert!(engine.dismiss_quest(outside.find("ghost")).is_none());
    assert!(engine.reopen_quest(outside.find("ghost")).is_none());
}

#[test]
fn dismiss_suggestion_snoozes_and_clears() {
    let mut outside = Outside::new();
    let engine = engine();
    let q = outside.create(&engine, "t");
    let plan = engine.dismiss_suggestion(outside.find(&q.id)).unwrap();
    let out = outside.carry_out(plan).unwrap();
    assert!(out.suggestion.is_none());
    let until = out.snoozed_until.expect("snoozed");
    let parsed = chrono::DateTime::parse_from_rfc3339(&until).unwrap();
    assert!(parsed > chrono::Utc::now() + chrono::Duration::minutes(50));
    assert!(engine.dismiss_suggestion(outside.find("ghost")).is_none());
}

#[test]
fn dismissal_snoozes_for_exactly_an_hour() {
    let engine = engine();
    let start = Moment { secs: 1_700_000_000, nanos: 5 };
    let plan = engine.dismiss_suggestion_at(Some(quest("q", "t")), start).unwrap();
    assert_eq!(plan.quest.updated_at, "2023-11-14T22:13:20.000000005+00:00");
    assert_eq!(plan.quest.snoozed_until.as_deref(), Some("2023-11-14T23:13:20.000000005+00:00"));

    let just_before = Moment { secs: start.secs + 3600, nanos: 4 };
    let context = Some("evidence".to_string());
    assert_eq!(
        engine.judge_quest_at("q", Some(plan.quest.clone()), context.clone(), just_before),
        Pass::Over { result: Ok(None), steps: Vec::new() }
    );
    let then = Moment { secs: start.secs + 3600, nanos: 5 };
    let pass = engine.judge_quest_at("q", Some(plan.quest), context, then);
    assert!(matches!(pass, Pass::Ask { .. }));
}

// ---- passes that are skipped -----------------------------------------------------------

#[test]
fn judge_skips_non_open_quest() {
    let mut outside = Outside::new();
    let engine = engine();
    let q = outside.create(&engine, "t");
    let plan = engine.complete_quest(outside.find(&q.id), false).unwrap();
    outside.carry_out(plan).unwrap();
    assert!(outside.judge(&engine, &q.id, Some("evidence")).unwrap().is_none());
    assert!(outside.asked.is_empty());
}

#[test]
fn judge_skips_when_detection_off() {
    let mut outside = Outside::new();
    let mut engine = engine();
    engine.pref_set(DETECTION_MODE_PREF, "off");
    let q = outside.create(&engine, "t");
    assert!(outside.judge(&engine, &q.id, Some("evidence")).unwrap().is_none());
}

#[test]
fn judge_skips_while_snoozed() {
    let mut outside = Outside::new();
    let engine = engine();
    let q = outside.create(&engine, "t");
    let plan = engine.dismiss_suggestion(outside.find(&q.id)).unwrap();
    outside.carry_out(plan).unwrap();
    assert!(outside.judge(&engine, &q.id, Some("evidence")).unwrap().is_none());
}

#[test]
fn judge_skips_when_no_context_available() {
    let mut outside = Outside::new();
    let engine = engine();
    let q = outside.create(&engine, "t");
    assert!(outside.judge(&engine, &q.id, None).unwrap().is_none());
    assert!(outside.judge(&engine, "ghost", Some("e")).is_err());
    assert_eq!(
        outside.judge(&engine, "ghost", Some("e")).unwrap_err(),
        "quest 'ghost' not found"
    );
}

#[test]
fn captures_are_never_judged_and_carry_no_backing_job() {
    let mut outside = Outside::new();
    outside.reply = Some("MET: yes\nCONFIDENCE: 99\nREASON: done".into());
    let mut engine = engine();
    engine.pref_set(DETECTION_MODE_PREF, "auto_all");
    for kind in [QuestKind::Note, QuestKind::Link, QuestKind::Prompt, QuestKind::Snippet] {
        let plan = engine.capture(Some(kind), None, "kept".to_string(), None);
        let kept = outside.carry_out(plan).unwrap();
        assert!(!kept.kind.is_judged());
        assert!(outside.judge(&engine, &kept.id, Some("evidence")).unwrap().is_none());
        let found = outside.find(&kept.id);
        let plan = engine.update_quest(found, "x".into(), None, String::new()).unwrap();
        outside.carry_out(plan).unwrap();
        let plan = engine.dismiss_quest(outside.find(&kept.id)).unwrap();
        outside.carry_out(plan).unwrap();
    }
    assert!(outside.asked.is_empty());
    assert!(outside.jobs.is_empty());
}

// ---- verdict and action ----------------------------------------------------------------

fn judged(reply: &str, mode: &str) -> (Outside, QuestEngine, Quest) {
    let mut outside = Outside::new();
    outside.reply = Some(reply.to_string());
    let mut engine = engine();
    engine.pref_set(DETECTION_MODE_PREF, mode);
    engine.pref_set(JUDGE_MODEL_PREF, "test-judge");
    let q = outside.create(&engine, "write the report");
    (outside, engine, q)
}

#[test]
fn judge_suggest_mode_creates_suggestion_not_completion() {
    let (mut outside, engine, q) =
        judged("MET: yes\nCONFIDENCE: 90\nREASON: report filed", "suggest");
    let v = outside
        .judge(&engine, &q.id, Some("the report was filed"))
        .unwrap()
        .expect("verdict");
    assert!(v.met);
    assert_eq!(v.confidence, 90);

    let after = outside.find(&q.id).unwrap();
    assert_eq!(after.status, QuestStatus::Open, "suggest never auto-completes");
    let s = after.suggestion.expect("suggestion present");
    assert_eq!(s.confidence, 90);
    assert_eq!(s.reason, "report filed");
    assert!(s.evidence.is_some());
    assert_eq!(s.evidence.as_deref(), Some("the report was filed"));
    assert!(after.last_judged_at.is_some());
    assert!(outside
        .events
        .iter()
        .any(|e| matches!(e, QuestEvent::Suggested { confidence: 90, .. })));
    assert_eq!(outside.detections.len(), 1);
    assert_eq!(outside.detections[0].disposition, "suggested");
    assert_eq!(outside.asked[0].model, "test-judge");
    assert_eq!(
        outside.asked[0].user,
        "TASK: write the report\n\nEVIDENCE (recent activity):\nthe report was filed"
    );
}

#[test]
fn judge_suggest_mode_does_not_respam_identical_suggestion() {
    let (mut outside, engine, q) =
        judged("MET: yes\nCONFIDENCE: 77\nREASON: same reason", "suggest");
    outside.judge(&engine, &q.id, Some("evidence")).unwrap();
    assert!(outside.suggested());
    outside.events.clear();
    outside.judge(&engine, &q.id, Some("evidence")).unwrap();
    assert!(!outside.suggested(), "no repeat Suggested for an unchanged verdict");
    assert_eq!(outside.detections.len(), 1);
}

#[test]
fn judge_auto_high_completes_above_threshold() {
    let (mut outside, engine, q) =
        judged("MET: yes\nCONFIDENCE: 90\nREASON: shipped", "auto_high");
    outside.judge(&engine, &q.id, Some("shipped it")).unwrap();
    let after = outside.find(&q.id).unwrap();
    assert_eq!(after.status, QuestStatus::Done);
    assert_eq!(after.completion_source, Some(CompletionSource::Detected));
    assert!(after.suggestion.is_none());
    assert!(outside.completed(true));
    assert_eq!(outside.detections[0].disposition, "auto_completed");
    // The backing job was enabled with the quest and is disabled with its completion.
    assert_eq!(outside.jobs, vec![(q.id.clone(), true), (q.id.clone(), false)]);
}

#[test]
fn judge_auto_high_below_threshold_only_suggests() {
    let (mut outside, engine, q) = judged("MET: yes\nCONFIDENCE: 70\nREASON: maybe", "auto_high");
    outside.judge(&engine, &q.id, Some("evidence")).unwrap();
    let after = outside.find(&q.id).unwrap();
    assert_eq!(after.status, QuestStatus::Open);
    assert!(after.suggestion.is_some());
}

#[test]
fn thresholds_are_exact() {
    for (confidence, mode, done, suggested) in [
        (49, "auto_all", false, false),
        (50, "auto_all", true, false),
        (84, "auto_high", false, true),
        (85, "auto_high", true, false),
        (100, "suggest", false, true),
    ] {
        let reply = format!("MET: yes\nCONFIDENCE: {confidence}\nREASON: r");
        let (mut outside, engine, q) = judged(&reply, mode);
        outside.judge(&engine, &q.id, Some("evidence")).unwrap();
        let after = outside.find(&q.id).unwrap();
        assert_eq!(after.status == QuestStatus::Done, done);
        assert_eq!(after.suggestion.is_some(), suggested);
    }
}

#[test]
fn judge_auto_all_completes_any_above_floor() {
    let (mut outside, engine, q) =
        judged("MET: yes\nCONFIDENCE: 60\nREASON: good enough", "auto_all");
    outside.judge(&engine, &q.id, Some("evidence")).unwrap();
    let after = outside.find(&q.id).unwrap();
    assert_eq!(after.status, QuestStatus::Done);
}

#[test]
fn judge_below_confidence_floor_is_ignored() {
    let (mut outside, engine, q) = judged("MET: yes\nCONFIDENCE: 40\nREASON: weak", "auto_all");
    let v = outside.judge(&engine, &q.id, Some("evidence")).unwrap().unwrap();
    assert!(v.met);
    assert_eq!(v.confidence, 40);
    let after = outside.find(&q.id).unwrap();
    assert_eq!(after.status, QuestStatus::Open);
    assert!(after.suggestion.is_none());
    assert!(after.last_judged_at.is_some());
}

#[test]
fn judge_not_met_takes_no_action() {
    let (mut outside, engine, q) =
        judged("MET: no\nCONFIDENCE: 95\nREASON: not started", "auto_all");
    outside.judge(&engine, &q.id, Some("evidence")).unwrap();
    let after = outside.find(&q.id).unwrap();
    assert_eq!(after.status, QuestStatus::Open);
    assert!(after.suggestion.is_none());
}

#[test]
fn judge_gathers_context_from_shadow_when_no_external() {
    let (mut outside, engine, q) = judged("MET: yes\nCONFIDENCE: 88\nREASON: done", "suggest");
    outside.recent =
        Some(parsed("{\"summary\":\"user finished writing and saved the report\"}"));
    outside.semantic = Some(parsed("{\"text\":\"earlier draft edits\"}"));
    let v = outside
        .judge(&engine, &q.id, None)
        .unwrap()
        .expect("gathered context and judged");
    assert!(v.met);
    assert_eq!(
        outside.asked[0].user,
        "TASK: write the report\n\nEVIDENCE (recent activity):\nRecent activity:\n\
         user finished writing and saved the report\n\nRelated history:\nearlier draft edits"
    );
}

#[test]
fn blank_context_is_gathered_instead() {
    let (mut outside, engine, q) = judged("MET: yes\nCONFIDENCE: 88\nREASON: done", "suggest");
    assert!(outside.judge(&engine, &q.id, Some("  \n ")).unwrap().is_none());
    outside.semantic = Some(parsed("{\"context\":\"history\"}"));
    assert!(outside.judge(&engine, &q.id, Some("  \n ")).unwrap().is_some());
    assert!(outside.asked[0].user.ends_with("\nRelated history:\nhistory"));
}

#[test]
fn judge_survives_multibyte_evidence_over_cap() {
    let (mut outside, engine, q) = judged("MET: no\nCONFIDENCE: 10\nREASON: nope", "suggest");
    let big = "参".repeat(2000);
    outside.recent = Some(parsed(&format!("{{\"summary\":\"{big}\"}}")));
    let v = outside.judge(&engine, &q.id, None).unwrap();
    assert!(v.is_some());
    // 17 bytes of heading leave room for 1327 characters of three bytes each.
    let shown = outside.asked[0].user.split("EVIDENCE (recent activity):\n").nth(1).unwrap();
    assert_eq!(shown, format!("Recent activity:\n{}", "参".repeat(1327)));
    assert!(shown.len() <= 4000);
}

#[test]
fn gateway_failures_are_reported() {
    let (mut outside, engine, q) = judged("", "auto_all");
    let before = outside.find(&q.id);
    outside.reply = None;
    assert_eq!(
        outside.judge(&engine, &q.id, Some("e")).unwrap_err(),
        "gateway unreachable: connection refused"
    );
    let reply = |status: u16, text: &str, body: &str| {
        Ok(GatewayReply {
            status,
            status_text: text.to_string(),
            body: Ok(body.as_bytes().to_vec()),
        })
    };
    assert_eq!(
        engine.answered(q.clone(), "e", reply(503, "503 Service Unavailable", "{}")),
        Pass::Over {
            result: Err("gateway returned HTTP 503 Service Unavailable".to_string()),
            steps: Vec::new()
        }
    );
    assert_eq!(
        engine.answered(q.clone(), "e", reply(200, "200 OK", "<html>")),
        Pass::Over {
            result: Err(
                "response was not valid JSON: error decoding response body".to_string()
            ),
            steps: Vec::new()
        }
    );
    let broken = |status: u16, text: &str| {
        Ok(GatewayReply {
            status,
            status_text: text.to_string(),
            body: Err("connection reset".to_string()),
        })
    };
    assert_eq!(
        engine.answered(q.clone(), "e", broken(200, "200 OK")),
        Pass::Over {
            result: Err("response was not valid JSON: connection reset".to_string()),
            steps: Vec::new()
        }
    );
    assert_eq!(
        engine.answered(q.clone(), "e", broken(404, "404 Not Found")),
        Pass::Over {
            result: Err("gateway returned HTTP 404 Not Found".to_string()),
            steps: Vec::new()
        }
    );
    // A completion without content is an unreadable verdict, and never completes.
    for body in ["{}", "[]", "{\"choices\":[]}", "{\"choices\":[{\"message\":{\"content\":7}}]}"] {
        match engine.answered(q.clone(), "e", reply(200, "200 OK", body)) {
            Pass::Over { result, steps } => {
                let verdict = result.unwrap().unwrap();
                assert!(!verdict.met);
                assert_eq!(verdict.confidence, 0);
                assert_eq!(steps.len(), 1);
            }
            other => panic!("{other:?}"),
        }
    }
    // A key that serde_json keeps for itself hides nothing from the completion.
    let body = "{\"choices\":[{\"message\":{\"content\":\"MET: yes\\nCONFIDENCE: 70\",\
                \"$serde_json::private::RawValue\":1}}]}";
    match engine.answered(q.clone(), "e", reply(200, "200 OK", body)) {
        Pass::Over { result, .. } => assert_eq!(result.unwrap().unwrap().confidence, 70),
        other => panic!("{other:?}"),
    }
    assert_eq!(outside.find(&q.id), before);
}

#[test]
fn judge_request_names_the_gateway_and_the_effort() {
    let mut engine = engine();
    engine.gateway = Gateway { url: "http://gw/base//".to_string(), token: Some("k".to_string()) };
    let ask = |engine: &QuestEngine| match engine.ask_judge(quest("q", "t"), "seen".to_string()) {
        Pass::Ask { request, .. } => request,
        other => panic!("{other:?}"),
    };
    let request = ask(&engine);
    assert_eq!(request.url, "http://gw/base/v1/chat/completions");
    assert_eq!(request.bearer.as_deref(), Some("k"));
    assert_eq!(request.model, "fake-default-model");
    assert_eq!(request.reasoning_effort, None);
    assert_eq!(request.timeout_secs, 60);
    assert!(!request.stream);
    assert!(request.system.starts_with("You are a meticulous completion judge"));
    engine.pref_set(JUDGE_EFFORT_PREF, "  low ");
    assert_eq!(ask(&engine).reasoning_effort.as_deref(), Some("low"));
    engine.pref_set(JUDGE_EFFORT_PREF, "  ");
    engine.environment.quest_judge_effort = Some(" high ".to_string());
    assert_eq!(ask(&engine).reasoning_effort.as_deref(), Some("high"));
}

// ---- settings --------------------------------------------------------------------------

#[test]
fn detection_mode_reads_pref_then_default() {
    let mut engine = engine();
    assert_eq!(engine.detection_mode(), DetectionMode::AutoHigh);
    engine.pref_set(DETECTION_MODE_PREF, "auto_all");
    assert_eq!(engine.detection_mode(), DetectionMode::AutoAll);
}

#[test]
fn resolve_interval_prefers_valid_pref_else_default() {
    let mut engine = engine();
    engine.pref_set(DETECTION_INTERVAL_PREF, "5m");
    assert_eq!(engine.resolve_interval(), "5m");
    engine.pref_set(DETECTION_INTERVAL_PREF, "not-a-duration");
    assert_eq!(engine.resolve_interval(), "2m");
    engine.environment.quest_interval = Some("90s".to_string());
    assert_eq!(engine.resolve_interval(), "90s");
    engine.pref_set(DETECTION_INTERVAL_PREF, "  1h 30m  ");
    assert_eq!(engine.resolve_interval(), "1h 30m");
    engine.pref_set(DETECTION_INTERVAL_PREF, "0000000000000002m");
    assert_eq!(engine.resolve_interval(), "0000000000000002m");
    engine.pref_set(DETECTION_INTERVAL_PREF, "");
    engine.environment.quest_interval = Some("soon".to_string());
    assert_eq!(engine.resolve_interval(), "2m");
}

#[test]
fn resolve_judge_model_prefers_pref() {
    let mut engine = engine();
    engine.pref_set(JUDGE_MODEL_PREF, "my-model");
    assert_eq!(engine.pref_get(JUDGE_MODEL_PREF).as_deref(), Some("my-model"));
    engine.pref_set(JUDGE_EFFORT_PREF, "high");
    assert_eq!(engine.pref_get(JUDGE_EFFORT_PREF).as_deref(), Some("high"));
    assert_eq!(engine.resolve_judge_model(), "my-model");
    assert_eq!(engine.resolve_judge_effort(), "high");
}

#[test]
fn judge_model_falls_back_in_order() {
    let mut engine = engine();
    assert_eq!(engine.resolve_judge_model(), "fake-default-model");
    engine.environment.default_llm_model = Some("second".to_string());
    assert_eq!(engine.resolve_judge_model(), "second");
    engine.environment.quest_judge_model = Some(String::new());
    assert_eq!(engine.resolve_judge_model(), "second");
    engine.environment.quest_judge_model = Some("first".to_string());
    assert_eq!(engine.resolve_judge_model(), "first");
    engine.pref_set(JUDGE_MODEL_PREF, "   ");
    assert_eq!(engine.resolve_judge_model(), "first");
    assert_eq!(engine.resolve_judge_effort(), "");
}

#[test]
fn scratchpad_is_overwritten() {
    let mut engine = engine();
    assert_eq!(engine.scratchpad(), "");
    engine.set_scratchpad("one");
    engine.set_scratchpad("two");
    assert_eq!(engine.scratchpad(), "two");
}

// ---- board -----------------------------------------------------------------------------

#[test]
fn board_columns_render_source_labels() {
    let mut open = quest("o", "t");
    open.status = QuestStatus::Open;
    let mut done = quest("d", "t");
    done.status = QuestStatus::Done;
    done.completion_source = Some(CompletionSource::Detected);
    let mut dismissed = quest("x", "t");
    dismissed.status = QuestStatus::Dismissed;
    let board = board_columns(&[open, done, dismissed]);
    assert_eq!(board.done.quests[0].source.as_deref(), Some("detected"));
    assert_eq!(board.open.count, 1);
    assert_eq!(board.dismissed.count, 1);
    assert_eq!(board.open.quests[0].source, None);
}

#[test]
fn pinned_items_stand_at_the_top() {
    let mut quests = vec![quest("a", "t"), quest("b", "t"), quest("c", "t"), quest("d", "t")];
    quests[1].pinned = true;
    quests[3].pinned = true;
    let ordered = pinned_first(quests);
    let ids: Vec<&str> = ordered.iter().map(|q| q.id.as_str()).collect();
    assert_eq!(ids, vec!["b", "d", "a", "c"]);
    assert_eq!(board_columns(&ordered).open.quests[0].id, "b");
}

// ---- HTTP surface ----------------------------------------------------------------------

fn quest_body(title: &str) -> QuestBody {
    QuestBody { title: title.into(), detail: None, completion_condition: String::new() }
}

fn post(outside: &mut Outside, engine: &QuestEngine, body: QuestBody) -> Reply {
    match api::create_quest(engine, body) {
        Ok(plan) => api::stored(outside.carry_out(plan)),
        Err(reply) => reply,
    }
}

fn put(outside: &mut Outside, engine: &QuestEngine, id: &str, body: QuestBody) -> Reply {
    match api::update_quest(engine, outside.found(id), body) {
        Ok(plan) => api::stored(outside.carry_out(plan)),
        Err(reply) => reply,
    }
}

fn settle(outside: &mut Outside, planned: Result<Plan, Reply>) -> Reply {
    match planned {
        Ok(plan) => api::finish(outside.carry_out(plan).map(Some)),
        Err(reply) => reply,
    }
}

fn quest_in(reply: &Reply) -> Quest {
    match &reply.body {
        Body::Quest(quest) => quest.clone(),
        other => panic!("{other:?}"),
    }
}

#[test]
fn api_create_validates_and_creates() {
    let mut outside = Outside::new();
    let engine = engine();
    let reply = post(&mut outside, &engine, quest_body("   "));
    assert_eq!(reply.status, 400);
    assert_eq!(reply.body, Body::Error("title is required".to_string()));

    let reply = post(
        &mut outside,
        &engine,
        QuestBody {
            title: "Do it".into(),
            detail: Some("x".into()),
            completion_condition: "done".into(),
        },
    );
    assert_eq!(reply.status, 200);
    assert_eq!(quest_in(&reply).title, "Do it");

    let reply = api::list_quests(&ListQuery::default(), Ok(outside.quests.clone()));
    match reply.body {
        Body::Quests(quests) => assert_eq!(quests.len(), 1),
        other => panic!("{other:?}"),
    }
}

#[test]
fn api_create_maps_backing_job_failure_to_500() {
    let mut outside = Outside::failing();
    let reply = post(&mut outside, &engine(), quest_body("t"));
    assert_eq!(reply.status, 500);
}

#[test]
fn api_get_update_delete_lifecycle() {
    let mut outside = Outside::new();
    let engine = engine();
    let id = quest_in(&post(&mut outside, &engine, quest_body("t"))).id;

    assert_eq!(api::get_quest(outside.found(&id)).status, 200);
    assert_eq!(api::get_quest(outside.found("ghost")).status, 404);
    assert_eq!(api::get_quest(Err("locked".to_string())).status, 500);

    assert_eq!(put(&mut outside, &engine, &id, quest_body("  ")).status, 400);
    assert_eq!(put(&mut outside, &engine, "ghost", quest_body("x")).status, 404);
    let reply = put(&mut outside, &engine, &id, quest_body("renamed"));
    assert_eq!(reply.status, 200);
    assert_eq!(quest_in(&reply).title, "renamed");

    assert_eq!(api::delete_quest(outside.remove(&engine, &id)).status, 200);
    assert_eq!(api::delete_quest(outside.remove(&engine, &id)).status, 404);
    assert_eq!(api::delete_quest(Err("locked".to_string())).status, 500);
}

#[test]
fn api_status_change_handlers() {
    let mut outside = Outside::new();
    let engine = engine();
    let id = quest_in(&post(&mut outside, &engine, quest_body("t"))).id;

    let planned = api::dismiss_suggestion(&engine, outside.found(&id));
    assert_eq!(settle(&mut outside, planned).status, 200);
    let planned = api::dismiss_suggestion(&engine, outside.found("ghost"));
    assert_eq!(settle(&mut outside, planned).status, 404);

    let planned = api::reopen_quest(&engine, outside.found(&id));
    assert_eq!(settle(&mut outside, planned).status, 200);

    let planned = api::complete_quest(&engine, outside.found(&id));
    let reply = settle(&mut outside, planned);
    assert_eq!(reply.status, 200);
    assert_eq!(quest_in(&reply).status, QuestStatus::Done);
    let planned = api::complete_quest(&engine, outside.found("ghost"));
    assert_eq!(settle(&mut outside, planned).status, 404);

    let planned = api::reopen_quest(&engine, outside.found(&id));
    settle(&mut outside, planned);
    let planned = api::accept_suggestion(&engine, outside.found(&id));
    let reply = settle(&mut outside, planned);
    assert_eq!(reply.status, 200);
    assert_eq!(quest_in(&reply).completion_source, Some(CompletionSource::Detected));

    let planned = api::reopen_quest(&engine, outside.found(&id));
    settle(&mut outside, planned);
    let planned = api::dismiss_quest(&engine, outside.found(&id));
    assert_eq!(settle(&mut outside, planned).status, 200);

    let planned = api::dismiss_quest(&engine, Err("locked".to_string()));
    let reply = settle(&mut outside, planned);
    assert_eq!(reply, Reply { status: 400, body: Body::Error("locked".to_string()) });
}

#[test]
fn api_judge_handler_skip_and_verdict() {
    let mut outside = Outside::new();
    let engine = engine();
    let id = quest_in(&post(&mut outside, &engine, quest_body("t"))).id;
    let context = api::judge_context(None);
    let reply = api::judge_quest(outside.judge(&engine, &id, context.as_deref()));
    assert_eq!(reply.status, 200);
    assert_eq!(
        reply.body,
        Body::Skipped("not open, snoozed, detection off, or no context available".to_string())
    );

    let context = api::judge_context(Some(JudgeBody { context: Some("e".into()) }));
    let reply = api::judge_quest(outside.judge(&engine, "ghost", context.as_deref()));
    assert_eq!(reply.status, 400);
}

#[test]
fn api_judge_handler_returns_verdict_with_gateway() {
    let (mut outside, engine, _) = judged("MET: yes\nCONFIDENCE: 92\nREASON: done", "suggest");
    let id = quest_in(&post(&mut outside, &engine, quest_body("t"))).id;
    let context =
        api::judge_context(Some(JudgeBody { context: Some("the thing is done".into()) }));
    let reply = api::judge_quest(outside.judge(&engine, &id, context.as_deref()));
    assert_eq!(reply.status, 200);
    match reply.body {
        Body::Verdict(v) => {
            assert!(v.met);
            assert_eq!(v.confidence, 92);
        }
        other => panic!("{other:?}"),
    }
}

fn put_config(engine: &mut QuestEngine, body: &DetectionConfigBody) -> Reply {
    let plan = api::set_detection_config(body);
    for write in &plan.writes {
        engine.pref_set(&write.key, &write.value);
    }
    plan.reply
}

#[test]
fn api_detection_config_get_and_set() {
    let mut engine = engine();
    let config = |mode: &str, model: &str, effort: &str, interval: &str| Body::Config {
        mode: mode.to_string(),
        model: model.to_string(),
        effort: effort.to_string(),
        interval: interval.to_string(),
    };
    assert_eq!(api::get_detection_config(&engine).body, config("auto_high", "", "", "2m"));

    let reply = put_config(
        &mut engine,
        &DetectionConfigBody {
            mode: Some("auto-all".into()),
            model: Some(" gpt ".into()),
            effort: Some("low".into()),
            interval: Some("10m".into()),
        },
    );
    assert_eq!(reply.status, 200);
    assert_eq!(api::get_detection_config(&engine).body, config("auto_all", "gpt", "low", "10m"));

    let reply = put_config(
        &mut engine,
        &DetectionConfigBody {
            mode: None,
            model: None,
            effort: None,
            interval: Some("banana".into()),
        },
    );
    assert_eq!(reply.status, 400);
    assert_eq!(
        reply.body,
        Body::Error("interval 'banana' is not a valid duration (e.g. 2m)".to_string())
    );
    assert_eq!(api::get_detection_config(&engine).body, config("auto_all", "gpt", "low", "10m"));
}

#[test]
fn config_keeps_what_is_omitted_and_normalizes_the_mode() {
    let body = DetectionConfigBody {
        mode: Some("  OFF ".into()),
        model: None,
        effort: None,
        interval: Some("  ".into()),
    };
    let plan = api::set_detection_config(&body);
    assert_eq!(plan.writes.len(), 2);
    assert_eq!(plan.writes[0].key, DETECTION_MODE_PREF);
    assert_eq!(plan.writes[0].value, "off");
    assert_eq!(plan.writes[1].value, "");
    assert_eq!(
        api::write_failed(&plan.writes[0], "disk full".to_string()),
        Some(Reply { status: 500, body: Body::Error("disk full".to_string()) })
    );
    assert_eq!(api::write_failed(&plan.writes[1], "disk full".to_string()), None);
}

#[test]
fn capture_keeps_the_body_and_its_source() {
    let mut outside = Outside::new();
    let engine = engine();
    let capture = |body: &str| CaptureBody {
        body: body.to_string(),
        kind: None,
        title: None,
        source: Some(CaptureSource {
            app: Some("Browser".into()),
            title: Some("Docs".into()),
            url: Some("https://example.com".into()),
        }),
    };
    let text = "\n  first line  \nsecond ";
    let plan = api::capture_item(&engine, capture(text)).unwrap();
    let kept = quest_in(&api::stored(outside.carry_out(plan)));
    assert_eq!(kept.body.as_deref(), Some(text));
    assert_eq!(kept.title, "first line");
    assert_eq!(kept.kind, QuestKind::Note);
    assert_eq!(kept.status, QuestStatus::Open);
    assert_eq!(kept.source.clone().unwrap().url.as_deref(), Some("https://example.com"));

    let plan = api::capture_item(&engine, capture(" https://example.com/a ")).unwrap();
    assert_eq!(plan.quest.kind, QuestKind::Link);
    let mut named = capture("x");
    named.kind = Some("prompt".into());
    named.title = Some(" ask ".into());
    let plan = api::capture_item(&engine, named).unwrap();
    assert_eq!(plan.quest.kind, QuestKind::Prompt);
    assert_eq!(plan.quest.title, "ask");

    let reply = api::capture_item(&engine, capture(" \n")).unwrap_err();
    assert_eq!(reply, Reply { status: 400, body: Body::Error("body is required".to_string()) });
}

#[test]
fn using_and_pinning_an_item() {
    let mut outside = Outside::new();
    let engine = engine();
    let plan = engine.capture(Some(QuestKind::Prompt), None, "ask".to_string(), None);
    let kept = outside.carry_out(plan).unwrap();

    let plan = api::use_item(&engine, outside.found(&kept.id), None).unwrap();
    let used = outside.carry_out(plan).unwrap();
    assert!(used.used_at.is_some());
    assert_eq!(used.status, QuestStatus::Open);

    let body = Some(UseBody { complete: true });
    let plan = api::use_item(&engine, outside.found(&kept.id), body).unwrap();
    let done = outside.carry_out(plan).unwrap();
    assert_eq!(done.status, QuestStatus::Done);
    assert_eq!(done.completion_source, Some(CompletionSource::Manual));
    assert!(outside.completed(false));
    assert!(outside.jobs.is_empty());

    let plan = api::pin_item(&engine, outside.found(&kept.id), None).unwrap();
    assert!(outside.carry_out(plan).unwrap().pinned);
    let body = Some(PinBody { pinned: false });
    let plan = api::pin_item(&engine, outside.found(&kept.id), body).unwrap();
    assert!(!outside.carry_out(plan).unwrap().pinned);

    let reply = api::use_item(&engine, outside.found("ghost"), None).unwrap_err();
    assert_eq!(reply, Reply { status: 404, body: Body::Error("quest not found".to_string()) });
    let reply = api::pin_item(&engine, Err("locked".to_string()), None).unwrap_err();
    assert_eq!(reply, Reply { status: 500, body: Body::Error("locked".to_string()) });
}

#[test]
fn lists_are_restricted_to_a_kind() {
    let mut note = quest("n", "t");
    note.kind = QuestKind::Note;
    let quests = vec![quest("a", "t"), note, quest("b", "t")];
    let ids = |kind: Option<&str>| -> Vec<String> {
        let query = ListQuery { kind: kind.map(str::to_string) };
        match api::list_quests(&query, Ok(quests.clone())).body {
            Body::Quests(listed) => listed.into_iter().map(|q| q.id).collect(),
            other => panic!("{other:?}"),
        }
    };
    assert_eq!(ids(None), vec!["a", "n", "b"]);
    assert_eq!(ids(Some("  ")), vec!["a", "n", "b"]);
    assert_eq!(ids(Some(" note ")), vec!["n"]);
    assert_eq!(ids(Some("unheard-of")), vec!["a", "b"]);
    assert_eq!(
        api::list_quests(&ListQuery::default(), Err("locked".to_string())),
        Reply { status: 200, body: Body::NoQuests("locked".to_string()) }
    );
}

#[test]
fn scratchpad_and_health_replies() {
    assert_eq!(
        api::get_scratchpad(Ok("t".to_string())),
        Reply { status: 200, body: Body::Text("t".to_string()) }
    );
    assert_eq!(
        api::get_scratchpad(Err("e".to_string())),
        Reply { status: 200, body: Body::NoText("e".to_string()) }
    );
    assert_eq!(api::set_scratchpad(Ok(())).status, 200);
    assert_eq!(api::set_scratchpad(Err("e".to_string())).status, 500);
    assert_eq!(
        api::health(Ok(vec![quest("a", "t")])),
        Reply { status: 200, body: Body::Healthy { quest_count: 1 } }
    );
    assert_eq!(api::health(Err("e".to_string())).status, 503);
}

#[test]
fn event_stream_is_primed_and_goes_on() {
    assert_eq!(api::first_emission(), Emission::Comment("ready".to_string()));
    let event = QuestEvent::Deleted { id: "q".to_string() };
    assert_eq!(api::quest_events(Received::Event(event.clone())), Emission::Event(event));
    assert_eq!(api::quest_events(Received::Lagged), Emission::Nothing);
    assert_eq!(api::quest_events(Received::Closed), Emission::End);
}

#[test]
fn deletion_takes_the_job_and_then_the_row() {
    let steps = engine().delete_quest("q");
    assert_eq!(
        steps,
        vec![
            Step { action: Action::DeleteJob("q".to_string()), required: false },
            Step { action: Action::Delete("q".to_string()), required: true },
        ]
    );
}

#[test]
fn a_failing_job_does_not_take_a_verdict_back() {
    let (mut outside, engine, q) = judged("MET: yes\nCONFIDENCE: 90\nREASON: r", "auto_all");
    outside.sync_fails = true;
    let verdict = outside.judge(&engine, &q.id, Some("evidence")).unwrap().unwrap();
    assert!(verdict.met);
    assert_eq!(outside.find(&q.id).unwrap().status, QuestStatus::Done);
    assert!(outside.completed(true));
}

#[test]
fn reopening_undoes_closing() {
    let mut open = quest("q", "t0");
    open.snoozed_until = Some("t9".into());
    let mut back = open.clone().complete(true, "t1").reopen("t2");
    assert_eq!(back.snoozed_until, None);
    back.snoozed_until = Some("t9".into());
    back.updated_at = "t0".into();
    assert_eq!(back, open);
    let mut back = open.clone().dismiss("t1").reopen("t2");
    back.updated_at = "t0".into();
    assert_eq!(back, open);
}

#[test]
fn a_weak_verdict_leaves_the_quest_but_for_the_time() {
    let (mut outside, engine, q) = judged("no idea", "auto_all");
    let verdict = outside.judge(&engine, &q.id, Some("evidence")).unwrap().unwrap();
    assert_eq!(verdict.reason, "No clear verdict from the judge.");
    let mut after = outside.find(&q.id).unwrap();
    assert!(after.last_judged_at.is_some());
    after.last_judged_at = None;
    after.updated_at = q.updated_at.clone();
    assert_eq!(after, q);
    assert!(outside.detections.is_empty());
    assert!(!outside.suggested() && !outside.completed(true));
}

#[test]
fn editing_with_the_same_changes_nothing() {
    let once = quest("q", "t0").edit("  a b ", Some(" d ".into()), " c ", "t1");
    assert_eq!((once.title.as_str(), once.detail.as_deref()), ("a b", Some(" d ")));
    let again = once.clone().edit(
        &once.title,
        once.detail.clone(),
        &once.completion_condition,
        "t1",
    );
    assert_eq!(again, once);
}
