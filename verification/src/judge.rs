//! One detection pass: whether a quest is judged at all, what the judge is asked, and
//! what follows from its reply.
use vstd::prelude::*;

use crate::clock::{
    is_stamp, rfc3339_moment, snooze_elapsed_at, snooze_over, timestamp_now, Moment,
};
use crate::context::{content_of, gather_context, shown_evidence};
use crate::detection::DetectionMode;
use crate::engine::QuestEngine;
use crate::json::{
    held, holding, item, json_contents, json_document, leaf_at, lemma_found, member, parse_json,
    string_of, Key, Leaf,
};
use crate::operations::{append, job_steps, sync_action};
use crate::plan::{
    best_effort, may, steps_of, Action, ActionView, Detection, DetectionView, EventView,
    QuestEvent, Step, StepView,
};
use crate::quest::{Quest, QuestStatus, QuestView};
use crate::text::{
    blank, concat2, concat3, copy_of, is_blank, strip_slashes, text_of, trim_owned,
    trimmed, without_slashes,
};
use crate::verdict::{
    build_judge_prompt, judge_question, parse_verdict, snippet, snippet_of, verdict_of, Verdict,
    VerdictView, JUDGE_SYSTEM,
};

verus! {

/// Below this confidence a "done" verdict is ignored entirely (treated as noise).
pub const CONFIDENCE_FLOOR: u8 = 50;

/// At or above this confidence, `auto_high` mode completes instead of suggesting.
pub const HIGH_CONFIDENCE: u8 = 85;

/// How long the judge may take to reply.
pub const JUDGE_TIMEOUT_SECS: u64 = 60;

// ---- the start of a pass ---------------------------------------------------------------
/// How a detection pass starts.
#[derive(Debug, PartialEq, Eq)]
pub enum Opening {
    /// The quest is not judged now.
    Skip,
    /// The quest is judged once evidence was gathered.
    Gather(Quest),
    /// The quest is judged on the evidence that the caller supplied.
    Judge { quest: Quest, evidence: String },
}

/// How a detection pass starts, as text.
pub enum OpeningView {
    Skip,
    Gather(QuestView),
    Judge { quest: QuestView, evidence: Seq<char> },
}

impl View for Opening {
    type V = OpeningView;

    open spec fn view(&self) -> OpeningView {
        match *self {
            Opening::Skip => OpeningView::Skip,
            Opening::Gather(quest) => OpeningView::Gather(quest@),
            Opening::Judge { quest, evidence } => OpeningView::Judge {
                quest: quest@,
                evidence: evidence@,
            },
        }
    }
}

/// Whether a snooze keeps a quest from being judged at a given moment.
pub open spec fn is_snoozed(quest: QuestView, now: Moment) -> bool {
    match quest.snoozed_until {
        Some(until) => !snooze_over(rfc3339_moment(until), now),
        None => false,
    }
}

/// Whether a quest is judged: an open task that is not snoozed, with detection on.
pub open spec fn is_judgeable(mode: DetectionMode, quest: QuestView, now: Moment) -> bool {
    &&& quest.kind is Task
    &&& quest.status is Open
    &&& !(mode is Off)
    &&& !is_snoozed(quest, now)
}

/// How a detection pass starts.
pub open spec fn opening(
    mode: DetectionMode,
    quest: QuestView,
    external: Option<Seq<char>>,
    now: Moment,
) -> OpeningView {
    if !is_judgeable(mode, quest, now) {
        OpeningView::Skip
    } else {
        match external {
            Some(context) if !is_blank(context) => OpeningView::Judge { quest, evidence: context },
            _ => OpeningView::Gather(quest),
        }
    }
}

/// What is answered where there is no quest with an id.
pub open spec fn quest_not_found(id: Seq<char>) -> Seq<char> {
    "quest '"@ + id + "' not found"@
}

/// Decides how the pass over a quest starts.
pub fn open_pass(
    mode: DetectionMode,
    quest: Quest,
    external_context: Option<String>,
    now: Moment,
) -> (r: Opening)
    ensures
        r@ == opening(mode, quest@, text_of(external_context), now),
{
    if !quest.kind.is_judged() {
        return Opening::Skip;
    }
    if quest.status != QuestStatus::Open {
        return Opening::Skip;
    }
    if mode == DetectionMode::Off {
        return Opening::Skip;
    }
    if let Some(until) = &quest.snoozed_until {
        if !snooze_elapsed_at(until.as_str(), now) {
            return Opening::Skip;
        }
    }
    match external_context {
        Some(context) => if blank(context.as_str()) {
            Opening::Gather(quest)
        } else {
            Opening::Judge { quest, evidence: context }
        },
        None => Opening::Gather(quest),
    }
}

// ---- the question ----------------------------------------------------------------------
/// A chat completion to be asked for.
#[derive(Debug, PartialEq, Eq)]
pub struct JudgeRequest {
    pub url: String,
    pub model: String,
    pub system: String,
    pub user: String,
    /// Whether the reply comes in pieces.
    pub stream: bool,
    pub reasoning_effort: Option<String>,
    pub bearer: Option<String>,
    pub timeout_secs: u64,
}

/// A chat completion to be asked for, as text.
pub struct JudgeRequestView {
    pub url: Seq<char>,
    pub model: Seq<char>,
    pub system: Seq<char>,
    pub user: Seq<char>,
    pub stream: bool,
    pub reasoning_effort: Option<Seq<char>>,
    pub bearer: Option<Seq<char>>,
    pub timeout_secs: u64,
}

impl View for JudgeRequest {
    type V = JudgeRequestView;

    open spec fn view(&self) -> JudgeRequestView {
        JudgeRequestView {
            url: self.url@,
            model: self.model@,
            system: self.system@,
            user: self.user@,
            stream: self.stream,
            reasoning_effort: text_of(self.reasoning_effort),
            bearer: text_of(self.bearer),
            timeout_secs: self.timeout_secs,
        }
    }
}

/// Where a gateway takes chat completions.
pub open spec fn completions_url(gateway: Seq<char>) -> Seq<char> {
    without_slashes(gateway) + "/v1/chat/completions"@
}

/// The request to a gateway for one completion.
pub open spec fn completion_request(
    gateway: Seq<char>,
    token: Option<Seq<char>>,
    model: Seq<char>,
    effort: Seq<char>,
    system: Seq<char>,
    user: Seq<char>,
) -> JudgeRequestView {
    JudgeRequestView {
        url: completions_url(gateway),
        model,
        system,
        user,
        stream: false,
        reasoning_effort: if is_blank(effort) {
            None
        } else {
            Some(trimmed(effort))
        },
        bearer: token,
        timeout_secs: JUDGE_TIMEOUT_SECS,
    }
}

/// Makes the request to a gateway for one completion, neither streamed nor with an
/// effort where none is set.
pub fn call_judge(
    gateway_url: &str,
    gateway_token: Option<String>,
    model: &str,
    effort: &str,
    system: &str,
    user: &str,
) -> (r: JudgeRequest)
    ensures
        r@ == completion_request(
            gateway_url@,
            text_of(gateway_token),
            model@,
            effort@,
            system@,
            user@,
        ),
{
    let effort = trim_owned(effort);
    JudgeRequest {
        url: concat2(strip_slashes(gateway_url), "/v1/chat/completions"),
        model: model.to_owned(),
        system: system.to_owned(),
        user: user.to_owned(),
        stream: false,
        reasoning_effort: if effort.as_str().is_empty() {
            None
        } else {
            Some(effort)
        },
        bearer: gateway_token,
        timeout_secs: JUDGE_TIMEOUT_SECS,
    }
}

// ---- the reply -------------------------------------------------------------------------
/// The content of a completion: `choices[0].message.content` where that is a string,
/// else the empty text.
pub open spec fn completion_text(contents: Map<Seq<Key>, Leaf>) -> Seq<char> {
    let path = seq![
        Key::Member("choices"@),
        Key::Item(0),
        Key::Member("message"@),
        Key::Member("content"@),
    ];
    match leaf_at(contents, path) {
        Some(Leaf::Text(t)) => t,
        _ => Seq::empty(),
    }
}

/// The string at `choices[0].message.content`.
fn find_content(value: &serde_json::Value) -> (r: Option<String>)
    ensures
        match r {
            Some(t) => completion_text(json_contents(*value)) == t@,
            None => completion_text(json_contents(*value)) == Seq::<char>::empty(),
        },
{
    let ghost (a, b, c, d) = (
        Key::Member("choices"@),
        Key::Item(0),
        Key::Member("message"@),
        Key::Member("content"@),
    );
    proof {
        assert(seq![a] + seq![b, c, d] =~= seq![a, b, c, d]);
        assert(seq![b] + seq![c, d] =~= seq![b, c, d]);
        assert(seq![c] + seq![d] =~= seq![c, d]);
    }
    let choices = member(value, "choices");
    proof {
        lemma_found(json_contents(*value), a, held(choices));
    }
    let choices = choices?;
    let first = item(choices, 0);
    proof {
        lemma_found(json_contents(*choices), b, held(first));
    }
    let first = first?;
    let message = member(first, "message");
    proof {
        lemma_found(json_contents(*first), c, held(message));
    }
    let message = message?;
    let content = member(message, "content");
    proof {
        lemma_found(json_contents(*message), d, held(content));
    }
    string_of(content?)
}

/// The content of a completion.
pub fn completion_content(value: &serde_json::Value) -> (r: String)
    ensures
        r@ == completion_text(json_contents(*value)),
{
    match find_content(value) {
        Some(text) => text,
        None => {
            let empty = String::new();
            assert(empty@ == Seq::<char>::empty());
            empty
        },
    }
}

/// What is answered for a reply that is no JSON, or that broke off.
pub open spec fn not_json(error: Seq<char>) -> Seq<char> {
    "response was not valid JSON: "@ + error
}

/// What is wrong with a body that is no JSON.
pub open spec fn undecodable() -> Seq<char> {
    "error decoding response body"@
}

/// What is answered for a reply without success.
pub open spec fn gateway_refused(status_text: Seq<char>) -> Seq<char> {
    "gateway returned HTTP "@ + status_text
}

/// Whether an HTTP status stands for success.
pub open spec fn is_success(status: u16) -> bool {
    200 <= status < 300
}

/// What a gateway's reply holds: the content of the completion, or why there is none. The
/// body of a reply without success is not looked at.
pub open spec fn completion_in(
    status: u16,
    status_text: Seq<char>,
    body: Result<Vec<u8>, String>,
) -> Result<Seq<char>, Seq<char>> {
    if !is_success(status) {
        Err(gateway_refused(status_text))
    } else {
        match body {
            Ok(bytes) => match json_document(bytes@) {
                Some(contents) => Ok(completion_text(contents)),
                None => Err(not_json(undecodable())),
            },
            Err(e) => Err(not_json(e@)),
        }
    }
}

/// Reads the gateway's reply.
pub fn read_completion(status: u16, status_text: &str, body: &Result<Vec<u8>, String>) -> (r:
    Result<String, String>)
    ensures
        match r {
            Ok(text) => completion_in(status, status_text@, *body) == Ok::<
                Seq<char>,
                Seq<char>,
            >(text@),
            Err(e) => completion_in(status, status_text@, *body) == Err::<
                Seq<char>,
                Seq<char>,
            >(e@),
        },
{
    if status < 200 || 300 <= status {
        return Err(concat2("gateway returned HTTP ", status_text));
    }
    match body {
        Ok(bytes) => match parse_json(bytes.as_slice()) {
            Some(value) => Ok(completion_content(&value)),
            None => Err(
                concat2("response was not valid JSON: ", "error decoding response body"),
            ),
        },
        Err(e) => Err(concat2("response was not valid JSON: ", e.as_str())),
    }
}

// ---- what follows ----------------------------------------------------------------------
/// What follows from a verdict.
#[derive(Debug, Clone, Copy, PartialEq, Eq, Structural)]
pub enum Outcome {
    /// Nothing but that the quest was judged.
    Ignore,
    /// The quest is completed.
    Complete,
    /// Its completion is suggested.
    Suggest,
}

/// What follows from a verdict in a mode.
pub open spec fn outcome(mode: DetectionMode, verdict: VerdictView) -> Outcome {
    if !verdict.met || verdict.confidence < CONFIDENCE_FLOOR {
        Outcome::Ignore
    } else if mode is AutoAll || (mode is AutoHigh && verdict.confidence >= HIGH_CONFIDENCE) {
        Outcome::Complete
    } else {
        Outcome::Suggest
    }
}

/// The entry in the log of detections that a verdict makes.
pub open spec fn detection_of(
    quest: QuestView,
    verdict: VerdictView,
    evidence: Seq<char>,
    disposition: Seq<char>,
) -> DetectionView {
    DetectionView {
        quest_id: quest.id,
        confidence: verdict.confidence,
        reason: verdict.reason,
        evidence: Some(snippet_of(evidence)),
        disposition,
    }
}

/// The quest after a verdict.
pub open spec fn quest_after(
    mode: DetectionMode,
    quest: QuestView,
    verdict: VerdictView,
    evidence: Seq<char>,
    now: Seq<char>,
) -> QuestView {
    match outcome(mode, verdict) {
        Outcome::Ignore => quest.judged(now),
        Outcome::Complete => quest.auto_completed(now),
        Outcome::Suggest => quest.suggested(verdict, snippet_of(evidence), now),
    }
}

/// The steps that follow from a verdict. The job of a completed task is brought up to
/// date, which disables it. A suggestion that was made already is neither logged nor
/// announced again.
pub open spec fn steps_after(
    mode: DetectionMode,
    quest: QuestView,
    verdict: VerdictView,
    evidence: Seq<char>,
    interval: Seq<char>,
    now: Seq<char>,
) -> Seq<StepView> {
    let next = quest_after(mode, quest, verdict, evidence, now);
    match outcome(mode, verdict) {
        Outcome::Ignore => seq![may(ActionView::Upsert(next))],
        Outcome::Complete => seq![
            may(
                ActionView::Record(detection_of(quest, verdict, evidence, "auto_completed"@)),
            ),
            may(ActionView::Upsert(next)),
        ] + job_steps(next, interval) + seq![
            may(ActionView::Broadcast(EventView::Completed { quest: next, auto: true })),
        ],
        Outcome::Suggest => if quest.suggests(verdict) {
            seq![may(ActionView::Upsert(next))]
        } else {
            seq![
                may(ActionView::Upsert(next)),
                may(ActionView::Record(detection_of(quest, verdict, evidence, "suggested"@))),
                may(
                    ActionView::Broadcast(
                        EventView::Suggested {
                            quest: next,
                            confidence: verdict.confidence,
                            reason: verdict.reason,
                        },
                    ),
                ),
            ]
        },
    }
}

/// What follows from a verdict in a mode.
pub fn decide(mode: DetectionMode, verdict: &Verdict) -> (r: Outcome)
    ensures
        r == outcome(mode, verdict@),
{
    if !verdict.met || verdict.confidence < CONFIDENCE_FLOOR {
        return Outcome::Ignore;
    }
    let auto = match mode {
        DetectionMode::AutoAll => true,
        DetectionMode::AutoHigh => verdict.confidence >= HIGH_CONFIDENCE,
        DetectionMode::Suggest => false,
        DetectionMode::Off => false,
    };
    if auto {
        Outcome::Complete
    } else {
        Outcome::Suggest
    }
}

/// The entry in the log of detections that a verdict makes.
fn make_detection(quest_id: &str, verdict: &Verdict, evidence: &str, disposition: &str) -> (r:
    Detection)
    ensures
        r@ == (DetectionView {
            quest_id: quest_id@,
            confidence: verdict@.confidence,
            reason: verdict@.reason,
            evidence: Some(evidence@),
            disposition: disposition@,
        }),
{
    Detection {
        quest_id: quest_id.to_owned(),
        confidence: verdict.confidence,
        reason: verdict.reason.clone(),
        evidence: Some(evidence.to_owned()),
        disposition: disposition.to_owned(),
    }
}

/// Acts on a verdict.
pub fn act_on(
    mode: DetectionMode,
    quest: Quest,
    verdict: &Verdict,
    evidence: &str,
    interval: String,
    now: &str,
) -> (r: Vec<Step>)
    ensures
        steps_of(r@) == steps_after(mode, quest@, verdict@, evidence@, interval@, now@),
{
    let ghost before = quest@;
    let mut steps: Vec<Step> = Vec::new();
    assert(steps_of(steps@) =~= Seq::<StepView>::empty());
    match decide(mode, verdict) {
        Outcome::Ignore => {
            append(&mut steps, best_effort(Action::Upsert(quest.judged(now))));
        },
        Outcome::Complete => {
            let snip = snippet(evidence);
            append(
                &mut steps,
                best_effort(
                    Action::Record(
                        make_detection(
                            quest.id.as_str(),
                            verdict,
                            snip.as_str(),
                            "auto_completed",
                        ),
                    ),
                ),
            );
            let done = quest.auto_complete(now);
            append(&mut steps, best_effort(Action::Upsert(done.clone())));
            if done.kind.is_judged() {
                append(&mut steps, best_effort(sync_action(&done, interval)));
            }
            append(
                &mut steps,
                best_effort(Action::Broadcast(QuestEvent::Completed { quest: done, auto: true })),
            );
        },
        Outcome::Suggest => {
            let already = quest.suggests(verdict);
            let snip = snippet(evidence);
            let next = quest.suggest(verdict, snip.clone(), now);
            append(&mut steps, best_effort(Action::Upsert(next.clone())));
            if !already {
                append(
                    &mut steps,
                    best_effort(
                        Action::Record(
                            make_detection(
                                next.id.as_str(),
                                verdict,
                                snip.as_str(),
                                "suggested",
                            ),
                        ),
                    ),
                );
                append(
                    &mut steps,
                    best_effort(
                        Action::Broadcast(
                            QuestEvent::Suggested {
                                quest: next,
                                confidence: verdict.confidence,
                                reason: verdict.reason.clone(),
                            },
                        ),
                    ),
                );
            }
        },
    }
    assert(steps_of(steps@) =~= steps_after(
        mode,
        before,
        verdict@,
        evidence@,
        interval@,
        now@,
    ));
    steps
}

// ---- the pass --------------------------------------------------------------------------
/// A detection pass under way: what is to be done next outside, or what came of it.
#[derive(Debug, PartialEq, Eq)]
pub enum Pass {
    /// The context tools are to be called.
    Gather(Quest),
    /// The judge is to be asked.
    Ask { quest: Quest, evidence: String, request: JudgeRequest },
    /// The pass is over: with a verdict, without one where the quest was not judged, or
    /// with an error. The steps are to be taken in any case.
    Over { result: Result<Option<Verdict>, String>, steps: Vec<Step> },
}

/// A detection pass under way, as text.
pub enum PassView {
    Gather(QuestView),
    Ask { quest: QuestView, evidence: Seq<char>, request: JudgeRequestView },
    Over { result: Result<Option<VerdictView>, Seq<char>>, steps: Seq<StepView> },
}

/// The text of the result of a pass.
pub open spec fn result_of(result: Result<Option<Verdict>, String>) -> Result<
    Option<VerdictView>,
    Seq<char>,
> {
    match result {
        Ok(Some(verdict)) => Ok(Some(verdict@)),
        Ok(None) => Ok(None),
        Err(e) => Err(e@),
    }
}

impl View for Pass {
    type V = PassView;

    open spec fn view(&self) -> PassView {
        match *self {
            Pass::Gather(quest) => PassView::Gather(quest@),
            Pass::Ask { quest, evidence, request } => PassView::Ask {
                quest: quest@,
                evidence: evidence@,
                request: request@,
            },
            Pass::Over { result, steps } => PassView::Over {
                result: result_of(result),
                steps: steps_of(steps@),
            },
        }
    }
}

/// A pass that ended with nothing judged: nothing is done.
pub open spec fn skipped() -> PassView {
    PassView::Over { result: Ok(None), steps: Seq::empty() }
}

/// A pass that failed: nothing is done.
pub open spec fn failed(error: Seq<char>) -> PassView {
    PassView::Over { result: Err(error), steps: Seq::empty() }
}

/// A pass that ended with a verdict.
pub open spec fn concluded(
    mode: DetectionMode,
    quest: QuestView,
    verdict: VerdictView,
    evidence: Seq<char>,
    interval: Seq<char>,
    now: Seq<char>,
) -> PassView {
    PassView::Over {
        result: Ok(Some(verdict)),
        steps: steps_after(mode, quest, verdict, evidence, interval, now),
    }
}

/// What is answered where the gateway could not be reached.
pub open spec fn unreachable_gateway(error: Seq<char>) -> Seq<char> {
    "gateway unreachable: "@ + error
}

/// A gateway's reply.
#[derive(Debug, PartialEq, Eq)]
pub struct GatewayReply {
    pub status: u16,
    /// The status with its name, such as `404 Not Found`.
    pub status_text: String,
    /// The body, or why it broke off.
    pub body: Result<Vec<u8>, String>,
}

/// No steps.
fn no_steps() -> (r: Vec<Step>)
    ensures
        steps_of(r@) == Seq::<StepView>::empty(),
{
    let steps: Vec<Step> = Vec::new();
    assert(steps_of(steps@) =~= Seq::<StepView>::empty());
    steps
}

/// Ends a pass with a verdict at the given time.
pub fn conclude_at(
    mode: DetectionMode,
    quest: Quest,
    verdict: Verdict,
    evidence: &str,
    interval: String,
    now: &str,
) -> (r: Pass)
    ensures
        r@ == concluded(mode, quest@, verdict@, evidence@, interval@, now@),
{
    let steps = act_on(mode, quest, &verdict, evidence, interval, now);
    Pass::Over { result: Ok(Some(verdict)), steps }
}

impl QuestEngine {
    /// The pass in which the judge is asked about a quest.
    pub open spec fn asking(self, quest: QuestView, evidence: Seq<char>) -> PassView {
        PassView::Ask {
            quest,
            evidence,
            request: completion_request(
                self.gateway.url@,
                text_of(self.gateway.token),
                self.judge_model(),
                self.judge_effort(),
                JUDGE_SYSTEM@,
                judge_question(quest.condition(), evidence),
            ),
        }
    }

    /// The pass that starts with what was found under an id.
    pub open spec fn started(
        self,
        quest_id: Seq<char>,
        found: Option<QuestView>,
        external: Option<Seq<char>>,
        now: Moment,
    ) -> PassView {
        match found {
            Some(quest) => match opening(self.mode(), quest, external, now) {
                OpeningView::Skip => skipped(),
                OpeningView::Gather(q) => PassView::Gather(q),
                OpeningView::Judge { quest: q, evidence } => self.asking(q, evidence),
            },
            None => failed(quest_not_found(quest_id)),
        }
    }

    /// Asks the judge whether the evidence shows a quest done.
    pub fn ask_judge(&self, quest: Quest, evidence: String) -> (r: Pass)
        ensures
            r@ == self.asking(quest@, evidence@),
    {
        let model = self.resolve_judge_model();
        let effort = self.resolve_judge_effort();
        let (system, user) = build_judge_prompt(quest.condition(), evidence.as_str());
        let request = call_judge(
            self.gateway.url.as_str(),
            copy_of(&self.gateway.token),
            model.as_str(),
            effort.as_str(),
            system.as_str(),
            user.as_str(),
        );
        Pass::Ask { quest, evidence, request }
    }

    /// Starts a detection pass at a given moment.
    pub fn judge_quest_at(
        &self,
        quest_id: &str,
        found: Option<Quest>,
        external_context: Option<String>,
        now: Moment,
    ) -> (r: Pass)
        ensures
            r@ == self.started(
                quest_id@,
                quest_found(found),
                text_of(external_context),
                now,
            ),
    {
        match found {
            Some(quest) => match open_pass(self.detection_mode(), quest, external_context, now) {
                Opening::Skip => Pass::Over { result: Ok(None), steps: no_steps() },
                Opening::Gather(quest) => Pass::Gather(quest),
                Opening::Judge { quest, evidence } => self.ask_judge(quest, evidence),
            },
            None => {
                let error = concat3("quest '", quest_id, "' not found");
                Pass::Over { result: Err(error), steps: no_steps() }
            },
        }
    }

    /// Starts a detection pass over the quest that was found under an id, with
    /// detection context supplied by the caller. Without context, or with a blank one,
    /// evidence is gathered first. The quest is not judged where it is no task, is not
    /// open or is snoozed, or detection is off.
    pub fn judge_quest_with_context(
        &self,
        quest_id: &str,
        found: Option<Quest>,
        external_context: Option<String>,
    ) -> (r: Pass)
        ensures
            exists|now: Moment|
                {
                    &&& now.in_range()
                    &&& r@ == #[trigger] self.started(
                        quest_id@,
                        quest_found(found),
                        text_of(external_context),
                        now,
                    )
                },
    {
        self.judge_quest_at(quest_id, found, external_context, Moment::now())
    }

    /// Starts a detection pass for which evidence is to be gathered.
    pub fn judge_quest(&self, quest_id: &str, found: Option<Quest>) -> (r: Pass)
        ensures
            exists|now: Moment|
                {
                    &&& now.in_range()
                    &&& r@ == #[trigger] self.started(quest_id@, quest_found(found), None, now)
                },
    {
        self.judge_quest_with_context(quest_id, found, None)
    }

    /// Goes on with the replies of the context tools, each there where the tool was.
    /// Without any evidence the quest is not judged.
    pub fn gathered(
        &self,
        quest: Quest,
        recent: &Option<serde_json::Value>,
        semantic: &Option<serde_json::Value>,
    ) -> (r: Pass)
        ensures
            r@ == (match shown_evidence(
                content_of(holding(*recent)),
                content_of(holding(*semantic)),
            ) {
                Some(evidence) => self.asking(quest@, evidence),
                None => skipped(),
            }),
    {
        match gather_context(recent, semantic) {
            Some(evidence) => self.ask_judge(quest, evidence),
            None => Pass::Over { result: Ok(None), steps: no_steps() },
        }
    }

    /// Goes on with the text of the judge's reply: reads the verdict, and acts on it per
    /// the detection mode.
    pub fn conclude(&self, quest: Quest, evidence: &str, reply: &str) -> (r: Pass)
        ensures
            exists|now: Seq<char>|
                {
                    &&& #[trigger] is_stamp(now)
                    &&& r@ == concluded(
                        self.mode(),
                        quest@,
                        verdict_of(reply@),
                        evidence@,
                        self.interval(),
                        now,
                    )
                },
    {
        let verdict = parse_verdict(reply);
        let now = timestamp_now();
        conclude_at(
            self.detection_mode(),
            quest,
            verdict,
            evidence,
            self.resolve_interval(),
            now.as_str(),
        )
    }

    /// Goes on with the gateway's reply, or with why there is none.
    pub fn answered(
        &self,
        quest: Quest,
        evidence: &str,
        reply: Result<GatewayReply, String>,
    ) -> (r: Pass)
        ensures
            match reply {
                Err(e) => r@ == failed(unreachable_gateway(e@)),
                Ok(got) => match completion_in(got.status, got.status_text@, got.body) {
                    Err(e) => r@ == failed(e),
                    Ok(text) => exists|now: Seq<char>|
                        {
                            &&& #[trigger] is_stamp(now)
                            &&& r@ == concluded(
                                self.mode(),
                                quest@,
                                verdict_of(text),
                                evidence@,
                                self.interval(),
                                now,
                            )
                        },
                },
            },
    {
        match reply {
            Err(e) => {
                let error = concat2("gateway unreachable: ", e.as_str());
                Pass::Over { result: Err(error), steps: no_steps() }
            },
            Ok(got) => match read_completion(
                got.status,
                got.status_text.as_str(),
                &got.body,
            ) {
                Ok(text) => self.conclude(quest, evidence, text.as_str()),
                Err(error) => Pass::Over { result: Err(error), steps: no_steps() },
            },
        }
    }
}

/// The text of the quest that was found.
pub open spec fn quest_found(found: Option<Quest>) -> Option<QuestView> {
    match found {
        Some(quest) => Some(quest@),
        None => None,
    }
}

} // verus!
