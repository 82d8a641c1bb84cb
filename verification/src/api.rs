//! The HTTP surface (`/api/quests/*`): from request bodies to plans, and from results
//! to replies.
use vstd::prelude::*;

use crate::clock::{is_stamp, rfc3339_moment, Moment, LAST_FOUR_DIGIT_SECOND};
use crate::detection::{
    mode_in, mode_name, DetectionMode, DETECTION_INTERVAL_PREF, DETECTION_MODE_PREF,
    JUDGE_EFFORT_PREF, JUDGE_MODEL_PREF,
};
use crate::engine::{is_quest_id, pref, QuestEngine};
use crate::interval::{is_interval, valid_interval};
use crate::operations::{
    capture_kind, capture_title, change, completion, creation, rewrite, DISMISS_SNOOZE_SECS,
};
use crate::plan::{quests_of, EventView, Plan, QuestEvent};
use crate::quest::{kind_named, source_of, CaptureSource, Quest, QuestKind, QuestView};
use crate::text::{blank, concat3, is_blank, text_of, trim, trimmed};
use crate::verdict::{Verdict, VerdictView};

verus! {

// ---- request bodies --------------------------------------------------------------------
/// Request body for creating or updating a quest.
#[derive(Debug, PartialEq, Eq)]
pub struct QuestBody {
    /// The one-line name of the quest. Required and must be non-blank.
    pub title: String,
    /// Optional longer description of what the quest involves.
    pub detail: Option<String>,
    /// Natural-language condition the judge evaluates to decide the quest is done.
    /// Empty means "use the title".
    pub completion_condition: String,
}

/// Query params for the list endpoint.
#[derive(Debug, PartialEq, Eq)]
pub struct ListQuery {
    /// Restrict to one kind (`task`/`note`/`link`/`prompt`/`snippet`). Absent = every
    /// kind.
    pub kind: Option<String>,
}

impl Default for ListQuery {
    fn default() -> (r: ListQuery)
        ensures
            r.kind is None,
    {
        ListQuery { kind: None }
    }
}

/// Request body for a capture.
#[derive(Debug, PartialEq, Eq)]
pub struct CaptureBody {
    /// The captured text. The only required field.
    pub body: String,
    /// `task`/`note`/`link`/`prompt`/`snippet`. Inferred from the body when absent.
    pub kind: Option<String>,
    /// A label. Derived from the body's first line when absent.
    pub title: Option<String>,
    /// Where the capture came from.
    pub source: Option<CaptureSource>,
}

/// Request body for marking an item used.
#[derive(Debug, Clone, Copy, PartialEq, Eq, Structural)]
pub struct UseBody {
    /// Also check the item off. A prompt list is worked through this way.
    pub complete: bool,
}

impl Default for UseBody {
    fn default() -> (r: UseBody)
        ensures
            !r.complete,
    {
        UseBody { complete: false }
    }
}

/// Request body for pinning.
#[derive(Debug, Clone, Copy, PartialEq, Eq, Structural)]
pub struct PinBody {
    /// `true` pins the item to the top of the board, `false` unpins it. An absent body
    /// pins.
    pub pinned: bool,
}

impl Default for PinBody {
    fn default() -> (r: PinBody)
        ensures
            !r.pinned,
    {
        PinBody { pinned: false }
    }
}

/// Request body for the scratchpad write.
#[derive(Debug, PartialEq, Eq)]
pub struct ScratchpadBody {
    /// The full new contents of the brain-dump buffer. This overwrites, it does not
    /// append.
    pub text: String,
}

impl Default for ScratchpadBody {
    fn default() -> (r: ScratchpadBody)
        ensures
            r.text@ == Seq::<char>::empty(),
    {
        let text = String::new();
        assert(text@ == Seq::<char>::empty());
        ScratchpadBody { text }
    }
}

/// Optional request body for a detection pass: context supplied by the caller.
#[derive(Debug, PartialEq, Eq)]
pub struct JudgeBody {
    /// Evidence for the judge to evaluate. Omit it to have it gathered.
    pub context: Option<String>,
}

impl Default for JudgeBody {
    fn default() -> (r: JudgeBody)
        ensures
            r.context is None,
    {
        JudgeBody { context: None }
    }
}

/// Request body for the detection knobs. An omitted field leaves that knob untouched.
#[derive(Debug, PartialEq, Eq)]
pub struct DetectionConfigBody {
    /// How aggressive auto-detection is: `off`, `suggest`, `auto_high`, or `auto_all`.
    pub mode: Option<String>,
    /// Model id the completion judge runs on. Empty clears it back to the default.
    pub model: Option<String>,
    /// Reasoning effort for the judge (e.g. `low`, `medium`, `high`).
    pub effort: Option<String>,
    /// How often detection runs, as a duration (e.g. `2m`, `1h`).
    pub interval: Option<String>,
}

// ---- replies ---------------------------------------------------------------------------
/// The body of a reply.
#[derive(Debug, PartialEq, Eq)]
pub enum Body {
    Done,
    Error(String),
    Quest(Quest),
    Quests(Vec<Quest>),
    /// No quests, because of an error.
    NoQuests(String),
    Text(String),
    /// No text, because of an error.
    NoText(String),
    Verdict(Verdict),
    /// No verdict, and why.
    Skipped(String),
    Config { mode: String, model: String, effort: String, interval: String },
    Healthy { quest_count: usize },
    Unhealthy(String),
}

/// The body of a reply, its strings as text.
pub enum BodyView {
    Done,
    Error(Seq<char>),
    Quest(QuestView),
    Quests(Seq<QuestView>),
    NoQuests(Seq<char>),
    Text(Seq<char>),
    NoText(Seq<char>),
    Verdict(VerdictView),
    Skipped(Seq<char>),
    Config { mode: Seq<char>, model: Seq<char>, effort: Seq<char>, interval: Seq<char> },
    Healthy { quest_count: usize },
    Unhealthy(Seq<char>),
}

impl View for Body {
    type V = BodyView;

    open spec fn view(&self) -> BodyView {
        match *self {
            Body::Done => BodyView::Done,
            Body::Error(e) => BodyView::Error(e@),
            Body::Quest(q) => BodyView::Quest(q@),
            Body::Quests(qs) => BodyView::Quests(quests_of(qs@)),
            Body::NoQuests(e) => BodyView::NoQuests(e@),
            Body::Text(t) => BodyView::Text(t@),
            Body::NoText(e) => BodyView::NoText(e@),
            Body::Verdict(v) => BodyView::Verdict(v@),
            Body::Skipped(reason) => BodyView::Skipped(reason@),
            Body::Config { mode, model, effort, interval } => BodyView::Config {
                mode: mode@,
                model: model@,
                effort: effort@,
                interval: interval@,
            },
            Body::Healthy { quest_count } => BodyView::Healthy { quest_count },
            Body::Unhealthy(e) => BodyView::Unhealthy(e@),
        }
    }
}

/// A reply: an HTTP status and a body.
#[derive(Debug, PartialEq, Eq)]
pub struct Reply {
    pub status: u16,
    pub body: Body,
}

/// A reply, as text.
pub struct ReplyView {
    pub status: u16,
    pub body: BodyView,
}

impl View for Reply {
    type V = ReplyView;

    open spec fn view(&self) -> ReplyView {
        ReplyView { status: self.status, body: self.body@ }
    }
}

/// The reply that carries an error.
pub open spec fn error_reply(status: u16, error: Seq<char>) -> ReplyView {
    ReplyView { status, body: BodyView::Error(error) }
}

/// The reply that carries a quest.
pub open spec fn quest_reply(quest: QuestView) -> ReplyView {
    ReplyView { status: 200, body: BodyView::Quest(quest) }
}

/// Makes the reply that carries an error.
fn refuse(status: u16, error: &str) -> (r: Reply)
    ensures
        r@ == error_reply(status, error@),
{
    Reply { status, body: Body::Error(error.to_owned()) }
}

/// The reply to the result of a write: the quest, or an error with the given status.
pub open spec fn written(result: Result<Quest, String>, failure: u16) -> ReplyView {
    match result {
        Ok(quest) => quest_reply(quest@),
        Err(e) => error_reply(failure, e@),
    }
}

/// The reply to the result of creating, capturing, editing, using or pinning.
pub fn stored(result: Result<Quest, String>) -> (r: Reply)
    ensures
        r@ == written(result, 500),
{
    match result {
        Ok(quest) => Reply { status: 200, body: Body::Quest(quest) },
        Err(e) => Reply { status: 500, body: Body::Error(e) },
    }
}

/// The shared tail of the operations that change a status, and of dismissing a
/// suggestion.
pub fn finish(result: Result<Option<Quest>, String>) -> (r: Reply)
    ensures
        r@ == (match result {
            Ok(Some(quest)) => quest_reply(quest@),
            Ok(None) => error_reply(404, "not found"@),
            Err(e) => error_reply(400, e@),
        }),
{
    match result {
        Ok(Some(quest)) => Reply { status: 200, body: Body::Quest(quest) },
        Ok(None) => refuse(404, "not found"),
        Err(e) => Reply { status: 400, body: Body::Error(e) },
    }
}

/// What was found under an id, or why nothing could be: the reply where an operation
/// has no quest to work on.
pub open spec fn missing(
    found: Result<Option<Quest>, String>,
    not_found: Seq<char>,
    failure: u16,
) -> Option<ReplyView> {
    match found {
        Ok(Some(_)) => None,
        Ok(None) => Some(error_reply(404, not_found)),
        Err(e) => Some(error_reply(failure, e@)),
    }
}

/// The quest that was found, or the reply where there is none.
fn take_found(found: Result<Option<Quest>, String>, not_found: &str, failure: u16) -> (r: Result<
    Quest,
    Reply,
>)
    ensures
        match r {
            Ok(quest) => found == Ok::<Option<Quest>, String>(Some(quest)) && missing(
                found,
                not_found@,
                failure,
            ) is None,
            Err(reply) => missing(found, not_found@, failure) == Some(reply@),
        },
{
    match found {
        Ok(Some(quest)) => Ok(quest),
        Ok(None) => Err(refuse(404, not_found)),
        Err(e) => Err(Reply { status: failure, body: Body::Error(e) }),
    }
}

// ---- quests ----------------------------------------------------------------------------
/// The kind that a list is restricted to. An unknown kind stands for tasks, so that it
/// cannot produce an empty list that reads like "you have nothing".
pub open spec fn wanted_kind(kind: Option<Seq<char>>) -> Option<QuestKind> {
    match kind {
        Some(k) if !is_blank(k) => Some(kind_named(trimmed(k))),
        _ => None,
    }
}

/// The kind that a list is restricted to.
pub fn list_kind(query: &ListQuery) -> (r: Option<QuestKind>)
    ensures
        r == wanted_kind(text_of(query.kind)),
{
    match &query.kind {
        Some(k) => {
            let name = trim(k.as_str());
            if name.is_empty() {
                None
            } else {
                Some(QuestKind::from_wire(name))
            }
        },
        None => None,
    }
}

/// The quests of a list, in their order, of the wanted kind.
pub open spec fn of_kind(quests: Seq<QuestView>, kind: Option<QuestKind>) -> Seq<QuestView> {
    quests.filter(|q: QuestView| kind is None || kind == Some(q.kind))
}

/// Picks the quests of the wanted kind.
pub fn select_kind(quests: Vec<Quest>, kind: Option<QuestKind>) -> (r: Vec<Quest>)
    ensures
        quests_of(r@) == of_kind(quests_of(quests@), kind),
{
    let mut picked: Vec<Quest> = Vec::new();
    let ghost all = quests_of(quests@);
    let ghost wanted = |q: QuestView| kind is None || kind == Some(q.kind);
    let n: usize = quests.len();
    let mut i: usize = 0;
    proof {
        reveal(Seq::filter);
        assert(quests_of(picked@) =~= all.take(0).filter(wanted));
    }
    while i < n
        invariant
            n == quests@.len(),
            i <= n,
            all == quests_of(quests@),
            wanted == (|q: QuestView| kind is None || kind == Some(q.kind)),
            quests_of(picked@) == all.take(i as int).filter(wanted),
        decreases n - i,
    {
        proof {
            reveal(Seq::filter);
            assert(all.take(i + 1).drop_last() == all.take(i as int));
            assert(all.take(i + 1).last() == quests@[i as int]@);
        }
        let fits = match kind {
            Some(k) => quests[i].kind == k,
            None => true,
        };
        if fits {
            let ghost before = picked@;
            let copy = quests[i].clone();
            picked.push(copy);
            assert(quests_of(before.push(copy)) =~= quests_of(before).push(copy@));
        }
        i = i + 1;
    }
    assert(all.take(n as int) == all);
    picked
}

/// The reply to a list, given the quests that the store listed: those of the wanted kind.
pub fn list_quests(query: &ListQuery, listed: Result<Vec<Quest>, String>) -> (r: Reply)
    ensures
        r@ == (ReplyView {
            status: 200,
            body: match listed {
                Ok(quests) => BodyView::Quests(
                    of_kind(quests_of(quests@), wanted_kind(text_of(query.kind))),
                ),
                Err(e) => BodyView::NoQuests(e@),
            },
        }),
{
    match listed {
        Ok(quests) => {
            let picked = select_kind(quests, list_kind(query));
            Reply { status: 200, body: Body::Quests(picked) }
        },
        Err(e) => Reply { status: 200, body: Body::NoQuests(e) },
    }
}

/// The reply to a read of one quest.
pub fn get_quest(found: Result<Option<Quest>, String>) -> (r: Reply)
    ensures
        r@ == (match found {
            Ok(Some(quest)) => quest_reply(quest@),
            Ok(None) => error_reply(404, "not found"@),
            Err(e) => error_reply(500, e@),
        }),
{
    match take_found(found, "not found", 500) {
        Ok(quest) => Reply { status: 200, body: Body::Quest(quest) },
        Err(reply) => reply,
    }
}

/// Creates a quest. A blank title is refused.
pub fn create_quest(engine: &QuestEngine, body: QuestBody) -> (r: Result<Plan, Reply>)
    ensures
        match r {
            Ok(plan) => {
                &&& !is_blank(body.title@)
                &&& is_quest_id(plan.quest@.id)
                &&& is_stamp(plan.quest@.created_at)
                &&& plan@ == creation(
                    QuestView::task(
                        plan.quest@.id,
                        body.title@,
                        text_of(body.detail),
                        body.completion_condition@,
                        plan.quest@.created_at,
                    ),
                    engine.interval(),
                )
            },
            Err(reply) => is_blank(body.title@) && reply@ == error_reply(
                400,
                "title is required"@,
            ),
        },
{
    if blank(body.title.as_str()) {
        return Err(refuse(400, "title is required"));
    }
    Ok(engine.create_quest(body.title, body.detail, body.completion_condition))
}

/// Keeps something grabbed while working. A blank body is refused.
pub fn capture_item(engine: &QuestEngine, body: CaptureBody) -> (r: Result<Plan, Reply>)
    ensures
        match r {
            Ok(plan) => {
                &&& !is_blank(body.body@)
                &&& is_quest_id(plan.quest@.id)
                &&& is_stamp(plan.quest@.created_at)
                &&& plan@ == creation(
                    QuestView::capture(
                        plan.quest@.id,
                        capture_kind(
                            match body.kind {
                                Some(k) => Some(kind_named(k@)),
                                None => None,
                            },
                            body.body@,
                        ),
                        capture_title(text_of(body.title), body.body@),
                        body.body@,
                        source_of(body.source),
                        plan.quest@.created_at,
                    ),
                    engine.interval(),
                )
            },
            Err(reply) => is_blank(body.body@) && reply@ == error_reply(400, "body is required"@),
        },
{
    if blank(body.body.as_str()) {
        return Err(refuse(400, "body is required"));
    }
    let kind = match &body.kind {
        Some(k) => Some(QuestKind::from_wire(k.as_str())),
        None => None,
    };
    Ok(engine.capture(kind, body.title, body.body, body.source))
}

/// Edits a quest's title, detail and completion condition. A blank title is refused
/// before anything else.
pub fn update_quest(
    engine: &QuestEngine,
    found: Result<Option<Quest>, String>,
    body: QuestBody,
) -> (r: Result<Plan, Reply>)
    ensures
        match r {
            Ok(plan) => {
                &&& !is_blank(body.title@)
                &&& missing(found, "not found"@, 500) is None
                &&& is_stamp(plan.quest@.updated_at)
                &&& plan@ == change(
                    found->Ok_0->0@.edited(
                        body.title@,
                        text_of(body.detail),
                        body.completion_condition@,
                        plan.quest@.updated_at,
                    ),
                    engine.interval(),
                )
            },
            Err(reply) => if is_blank(body.title@) {
                reply@ == error_reply(400, "title is required"@)
            } else {
                missing(found, "not found"@, 500) == Some(reply@)
            },
        },
{
    if blank(body.title.as_str()) {
        return Err(refuse(400, "title is required"));
    }
    match take_found(found, "not found", 500) {
        Ok(quest) => match engine.update_quest(
            Some(quest),
            body.title,
            body.detail,
            body.completion_condition,
        ) {
            Some(plan) => Ok(plan),
            None => Err(refuse(404, "not found")),
        },
        Err(reply) => Err(reply),
    }
}

/// The reply to a deletion, by whether a quest was removed.
pub fn delete_quest(result: Result<bool, String>) -> (r: Reply)
    ensures
        r@ == (match result {
            Ok(true) => ReplyView { status: 200, body: BodyView::Done },
            Ok(false) => error_reply(404, "not found"@),
            Err(e) => error_reply(500, e@),
        }),
{
    match result {
        Ok(removed) => if removed {
            Reply { status: 200, body: Body::Done }
        } else {
            refuse(404, "not found")
        },
        Err(e) => Reply { status: 500, body: Body::Error(e) },
    }
}

/// Records that an item was copied back out, and completes it where the body asks for
/// it.
pub fn use_item(
    engine: &QuestEngine,
    found: Result<Option<Quest>, String>,
    body: Option<UseBody>,
) -> (r: Result<Plan, Reply>)
    ensures
        match r {
            Ok(plan) => {
                let complete = body is Some && body->0.complete;
                let quest = found->Ok_0->0@.used(complete, plan.quest@.updated_at);
                &&& missing(found, "quest not found"@, 500) is None
                &&& is_stamp(plan.quest@.updated_at)
                &&& plan@ == (if complete {
                    completion(quest, engine.interval())
                } else {
                    rewrite(quest)
                })
            },
            Err(reply) => missing(found, "quest not found"@, 500) == Some(reply@),
        },
{
    let complete = match body {
        Some(b) => b.complete,
        None => false,
    };
    match take_found(found, "quest not found", 500) {
        Ok(quest) => match engine.mark_used(Some(quest), complete) {
            Some(plan) => Ok(plan),
            None => Err(refuse(404, "quest not found")),
        },
        Err(reply) => Err(reply),
    }
}

/// Pins or unpins an item. Without a body it is pinned.
pub fn pin_item(
    engine: &QuestEngine,
    found: Result<Option<Quest>, String>,
    body: Option<PinBody>,
) -> (r: Result<Plan, Reply>)
    ensures
        match r {
            Ok(plan) => {
                let pinned = body is None || body->0.pinned;
                &&& missing(found, "quest not found"@, 500) is None
                &&& is_stamp(plan.quest@.updated_at)
                &&& plan@ == rewrite(found->Ok_0->0@.with_pin(pinned, plan.quest@.updated_at))
            },
            Err(reply) => missing(found, "quest not found"@, 500) == Some(reply@),
        },
{
    let pinned = match body {
        Some(b) => b.pinned,
        None => true,
    };
    match take_found(found, "quest not found", 500) {
        Ok(quest) => match engine.set_pinned(Some(quest), pinned) {
            Some(plan) => Ok(plan),
            None => Err(refuse(404, "quest not found")),
        },
        Err(reply) => Err(reply),
    }
}

// ---- changes of status -----------------------------------------------------------------
/// Completes the quest that was found.
fn complete_found(
    engine: &QuestEngine,
    found: Result<Option<Quest>, String>,
    detected: bool,
) -> (r: Result<Plan, Reply>)
    ensures
        match r {
            Ok(plan) => {
                &&& missing(found, "not found"@, 400) is None
                &&& is_stamp(plan.quest@.updated_at)
                &&& plan@ == completion(
                    found->Ok_0->0@.completed(detected, plan.quest@.updated_at),
                    engine.interval(),
                )
            },
            Err(reply) => missing(found, "not found"@, 400) == Some(reply@),
        },
{
    match take_found(found, "not found", 400) {
        Ok(quest) => match engine.complete_quest(Some(quest), detected) {
            Some(plan) => Ok(plan),
            None => Err(refuse(404, "not found")),
        },
        Err(reply) => Err(reply),
    }
}

/// Marks a quest done (a manual check-off).
pub fn complete_quest(engine: &QuestEngine, found: Result<Option<Quest>, String>) -> (r: Result<
    Plan,
    Reply,
>)
    ensures
        match r {
            Ok(plan) => {
                &&& missing(found, "not found"@, 400) is None
                &&& is_stamp(plan.quest@.updated_at)
                &&& plan@ == completion(
                    found->Ok_0->0@.completed(false, plan.quest@.updated_at),
                    engine.interval(),
                )
            },
            Err(reply) => missing(found, "not found"@, 400) == Some(reply@),
        },
{
    complete_found(engine, found, false)
}

/// Confirms a pending detection.
pub fn accept_suggestion(
    engine: &QuestEngine,
    found: Result<Option<Quest>, String>,
) -> (r: Result<Plan, Reply>)
    ensures
        match r {
            Ok(plan) => {
                &&& missing(found, "not found"@, 400) is None
                &&& is_stamp(plan.quest@.updated_at)
                &&& plan@ == completion(
                    found->Ok_0->0@.completed(true, plan.quest@.updated_at),
                    engine.interval(),
                )
            },
            Err(reply) => missing(found, "not found"@, 400) == Some(reply@),
        },
{
    complete_found(engine, found, true)
}

/// Abandons a quest entirely.
pub fn dismiss_quest(engine: &QuestEngine, found: Result<Option<Quest>, String>) -> (r: Result<
    Plan,
    Reply,
>)
    ensures
        match r {
            Ok(plan) => {
                &&& missing(found, "not found"@, 400) is None
                &&& is_stamp(plan.quest@.updated_at)
                &&& plan@ == change(
                    found->Ok_0->0@.dismissed(plan.quest@.updated_at),
                    engine.interval(),
                )
            },
            Err(reply) => missing(found, "not found"@, 400) == Some(reply@),
        },
{
    match take_found(found, "not found", 400) {
        Ok(quest) => match engine.dismiss_quest(Some(quest)) {
            Some(plan) => Ok(plan),
            None => Err(refuse(404, "not found")),
        },
        Err(reply) => Err(reply),
    }
}

/// Moves a done or dismissed quest back to open.
pub fn reopen_quest(engine: &QuestEngine, found: Result<Option<Quest>, String>) -> (r: Result<
    Plan,
    Reply,
>)
    ensures
        match r {
            Ok(plan) => {
                &&& missing(found, "not found"@, 400) is None
                &&& is_stamp(plan.quest@.updated_at)
                &&& plan@ == change(
                    found->Ok_0->0@.reopened(plan.quest@.updated_at),
                    engine.interval(),
                )
            },
            Err(reply) => missing(found, "not found"@, 400) == Some(reply@),
        },
{
    match take_found(found, "not found", 400) {
        Ok(quest) => match engine.reopen_quest(Some(quest)) {
            Some(plan) => Ok(plan),
            None => Err(refuse(404, "not found")),
        },
        Err(reply) => Err(reply),
    }
}

/// Rejects the pending suggestion but keeps the quest, and snoozes further detection
/// for a while.
pub fn dismiss_suggestion(
    engine: &QuestEngine,
    found: Result<Option<Quest>, String>,
) -> (r: Result<Plan, Reply>)
    ensures
        match r {
            Ok(plan) => {
                &&& missing(found, "not found"@, 400) is None
                &&& exists|now: Moment|
                    {
                        &&& now.in_range()
                        &&& plan@ == rewrite(
                            found->Ok_0->0@.snoozed(
                                now.later(DISMISS_SNOOZE_SECS as int).stamp(),
                                #[trigger] now.stamp(),
                            ),
                        )
                        &&& now.secs + DISMISS_SNOOZE_SECS <= LAST_FOUR_DIGIT_SECOND
                            ==> rfc3339_moment(plan.quest@.snoozed_until->0) == Some(
                            ((now.secs + DISMISS_SNOOZE_SECS) as i64, now.nanos),
                        )
                    }
            },
            Err(reply) => missing(found, "not found"@, 400) == Some(reply@),
        },
{
    match take_found(found, "not found", 400) {
        Ok(quest) => match engine.dismiss_suggestion(Some(quest)) {
            Some(plan) => Ok(plan),
            None => Err(refuse(404, "not found")),
        },
        Err(reply) => Err(reply),
    }
}

// ---- detection -------------------------------------------------------------------------
/// The context that the body of a judge request supplies.
pub fn judge_context(body: Option<JudgeBody>) -> (r: Option<String>)
    ensures
        text_of(r) == (match body {
            Some(b) => text_of(b.context),
            None => None,
        }),
{
    match body {
        Some(b) => b.context,
        None => None,
    }
}

/// What is said of a pass that was skipped.
pub open spec fn skip_reason() -> Seq<char> {
    "not open, snoozed, detection off, or no context available"@
}

/// The reply to a detection pass.
pub fn judge_quest(result: Result<Option<Verdict>, String>) -> (r: Reply)
    ensures
        r@ == (match result {
            Ok(Some(verdict)) => ReplyView { status: 200, body: BodyView::Verdict(verdict@) },
            Ok(None) => ReplyView { status: 200, body: BodyView::Skipped(skip_reason()) },
            Err(e) => error_reply(400, e@),
        }),
{
    match result {
        Ok(Some(verdict)) => Reply { status: 200, body: Body::Verdict(verdict) },
        Ok(None) => Reply {
            status: 200,
            body: Body::Skipped(
                "not open, snoozed, detection off, or no context available".to_owned(),
            ),
        },
        Err(e) => Reply { status: 400, body: Body::Error(e) },
    }
}

/// A text, or the empty one.
pub open spec fn or_empty(text: Option<Seq<char>>) -> Seq<char> {
    match text {
        Some(t) => t,
        None => Seq::empty(),
    }
}

/// A text, or the empty one.
fn unwrap_text(text: Option<String>) -> (r: String)
    ensures
        r@ == or_empty(text_of(text)),
{
    match text {
        Some(t) => t,
        None => {
            let empty = String::new();
            assert(empty@ == Seq::<char>::empty());
            empty
        },
    }
}

/// The current detection knobs.
pub fn get_detection_config(engine: &QuestEngine) -> (r: Reply)
    ensures
        r@ == (ReplyView {
            status: 200,
            body: BodyView::Config {
                mode: mode_name(engine.mode()),
                model: or_empty(pref(engine.prefs@, JUDGE_MODEL_PREF@)),
                effort: or_empty(pref(engine.prefs@, JUDGE_EFFORT_PREF@)),
                interval: engine.interval(),
            },
        }),
{
    Reply {
        status: 200,
        body: Body::Config {
            mode: engine.detection_mode().as_str().to_owned(),
            model: unwrap_text(engine.pref_get(JUDGE_MODEL_PREF)),
            effort: unwrap_text(engine.pref_get(JUDGE_EFFORT_PREF)),
            interval: engine.resolve_interval(),
        },
    }
}

/// A preference to be written, and whether a failure to write it fails the request.
#[derive(Debug, PartialEq, Eq)]
pub struct PrefWrite {
    pub key: String,
    pub value: String,
    pub required: bool,
}

/// A preference to be written, as text.
pub struct PrefWriteView {
    pub key: Seq<char>,
    pub value: Seq<char>,
    pub required: bool,
}

impl View for PrefWrite {
    type V = PrefWriteView;

    open spec fn view(&self) -> PrefWriteView {
        PrefWriteView { key: self.key@, value: self.value@, required: self.required }
    }
}

/// The writes of a list, as text.
pub open spec fn writes_of(writes: Seq<PrefWrite>) -> Seq<PrefWriteView> {
    writes.map_values(|w: PrefWrite| w@)
}

/// The preferences to be written, in order, and the reply once they are.
#[derive(Debug, PartialEq, Eq)]
pub struct ConfigPlan {
    pub writes: Vec<PrefWrite>,
    pub reply: Reply,
}

/// The write of a mode: only names of modes are ever written.
pub open spec fn mode_write(mode: Option<Seq<char>>) -> Seq<PrefWriteView> {
    match mode {
        Some(m) => seq![
            PrefWriteView {
                key: DETECTION_MODE_PREF@,
                value: mode_name(mode_in(m)),
                required: true,
            },
        ],
        None => Seq::empty(),
    }
}

/// The write of a text, without space around it.
pub open spec fn text_write(key: Seq<char>, value: Option<Seq<char>>) -> Seq<PrefWriteView> {
    match value {
        Some(v) => seq![PrefWriteView { key, value: trimmed(v), required: false }],
        None => Seq::empty(),
    }
}

/// Whether an interval is refused: it is neither blank nor an interval.
pub open spec fn interval_refused(interval: Option<Seq<char>>) -> bool {
    match interval {
        Some(v) => !is_blank(v) && !is_interval(trimmed(v)),
        None => false,
    }
}

/// What is answered for an interval that is refused.
pub open spec fn bad_interval(interval: Seq<char>) -> Seq<char> {
    "interval '"@ + trimmed(interval) + "' is not a valid duration (e.g. 2m)"@
}

/// The writes that a change of the knobs asks for.
pub open spec fn config_writes(
    mode: Option<Seq<char>>,
    model: Option<Seq<char>>,
    effort: Option<Seq<char>>,
    interval: Option<Seq<char>>,
) -> Seq<PrefWriteView> {
    let others = mode_write(mode) + text_write(JUDGE_MODEL_PREF@, model) + text_write(
        JUDGE_EFFORT_PREF@,
        effort,
    );
    if interval_refused(interval) {
        others
    } else {
        others + text_write(DETECTION_INTERVAL_PREF@, interval)
    }
}

/// The reply to a change of the knobs whose writes succeeded.
pub open spec fn config_reply(interval: Option<Seq<char>>) -> ReplyView {
    if interval_refused(interval) {
        error_reply(400, bad_interval(interval->0))
    } else {
        ReplyView { status: 200, body: BodyView::Done }
    }
}

/// Appends a write.
fn put_write(writes: &mut Vec<PrefWrite>, key: &str, value: &str, required: bool)
    ensures
        writes_of(final(writes)@) == writes_of(old(writes)@) + seq![
            PrefWriteView { key: key@, value: value@, required },
        ],
{
    let ghost before = writes@;
    let write = PrefWrite { key: key.to_owned(), value: value.to_owned(), required };
    writes.push(write);
    assert(writes_of(before.push(write)) =~= writes_of(before) + seq![write@]);
}

/// Appends the write of a text that is there, without space around it.
fn put_text(writes: &mut Vec<PrefWrite>, key: &str, value: &Option<String>)
    ensures
        writes_of(final(writes)@) == writes_of(old(writes)@) + text_write(key@, text_of(*value)),
{
    match value {
        Some(v) => put_write(writes, key, trim(v.as_str()), false),
        None => {
            assert(writes_of(writes@) + Seq::<PrefWriteView>::empty() =~= writes_of(writes@));
        },
    }
}

/// Sets the detection mode, the judge model, the effort and the interval. The mode is
/// normalized so that only valid modes persist; an interval that is none is refused,
/// after the other knobs were set.
pub fn set_detection_config(body: &DetectionConfigBody) -> (r: ConfigPlan)
    ensures
        writes_of(r.writes@) == config_writes(
            text_of(body.mode),
            text_of(body.model),
            text_of(body.effort),
            text_of(body.interval),
        ),
        r.reply@ == config_reply(text_of(body.interval)),
{
    let mut writes: Vec<PrefWrite> = Vec::new();
    assert(writes_of(writes@) =~= Seq::<PrefWriteView>::empty());
    if let Some(mode) = &body.mode {
        let name = DetectionMode::from_pref(mode.as_str()).as_str();
        put_write(&mut writes, DETECTION_MODE_PREF, name, true);
    }
    assert(writes_of(writes@) =~= mode_write(text_of(body.mode)));
    put_text(&mut writes, JUDGE_MODEL_PREF, &body.model);
    put_text(&mut writes, JUDGE_EFFORT_PREF, &body.effort);
    if let Some(interval) = &body.interval {
        let text = trim(interval.as_str());
        if !text.is_empty() && !valid_interval(text) {
            let error = concat3("interval '", text, "' is not a valid duration (e.g. 2m)");
            return ConfigPlan { writes, reply: Reply { status: 400, body: Body::Error(error) } };
        }
    }
    put_text(&mut writes, DETECTION_INTERVAL_PREF, &body.interval);
    ConfigPlan { writes, reply: Reply { status: 200, body: Body::Done } }
}

/// The reply where a write of a preference failed; nothing where the failure is
/// ignored.
pub fn write_failed(write: &PrefWrite, error: String) -> (r: Option<Reply>)
    ensures
        match r {
            Some(reply) => write.required && reply@ == error_reply(500, error@),
            None => !write.required,
        },
{
    if write.required {
        Some(Reply { status: 500, body: Body::Error(error) })
    } else {
        None
    }
}

// ---- events ----------------------------------------------------------------------------
/// What a subscription to the events hands out.
#[derive(Debug, PartialEq, Eq)]
pub enum Received {
    Event(QuestEvent),
    /// Events were missed.
    Lagged,
    /// There will be no more.
    Closed,
}

/// What goes out to a subscriber of the event stream.
#[derive(Debug, PartialEq, Eq)]
pub enum Emission {
    /// A comment, which readers of the stream ignore.
    Comment(String),
    Event(QuestEvent),
    /// Nothing now; the stream goes on.
    Nothing,
    /// The stream ends.
    End,
}

/// What goes out, its strings as text.
pub enum EmissionView {
    Comment(Seq<char>),
    Event(EventView),
    Nothing,
    End,
}

impl View for Emission {
    type V = EmissionView;

    open spec fn view(&self) -> EmissionView {
        match *self {
            Emission::Comment(text) => EmissionView::Comment(text@),
            Emission::Event(event) => EmissionView::Event(event@),
            Emission::Nothing => EmissionView::Nothing,
            Emission::End => EmissionView::End,
        }
    }
}

/// What goes out first: a comment, so that the stream has a byte at once and an idle
/// board does not read as a hang.
pub fn first_emission() -> (r: Emission)
    ensures
        r@ == EmissionView::Comment("ready"@),
{
    Emission::Comment("ready".to_owned())
}

/// What goes out for what the subscription handed out. Missed events are passed over.
pub fn quest_events(received: Received) -> (r: Emission)
    ensures
        r@ == (match received {
            Received::Event(event) => EmissionView::Event(event@),
            Received::Lagged => EmissionView::Nothing,
            Received::Closed => EmissionView::End,
        }),
{
    match received {
        Received::Event(event) => Emission::Event(event),
        Received::Lagged => Emission::Nothing,
        Received::Closed => Emission::End,
    }
}

// ---- the rest --------------------------------------------------------------------------
/// The reply to a read of the scratchpad.
pub fn get_scratchpad(result: Result<String, String>) -> (r: Reply)
    ensures
        r@ == (ReplyView {
            status: 200,
            body: match result {
                Ok(text) => BodyView::Text(text@),
                Err(e) => BodyView::NoText(e@),
            },
        }),
{
    match result {
        Ok(text) => Reply { status: 200, body: Body::Text(text) },
        Err(e) => Reply { status: 200, body: Body::NoText(e) },
    }
}

/// The reply to a write of the scratchpad.
pub fn set_scratchpad(result: Result<(), String>) -> (r: Reply)
    ensures
        r@ == (match result {
            Ok(_) => ReplyView { status: 200, body: BodyView::Done },
            Err(e) => error_reply(500, e@),
        }),
{
    match result {
        Ok(_) => Reply { status: 200, body: Body::Done },
        Err(e) => Reply { status: 500, body: Body::Error(e) },
    }
}

/// The reply to a health probe, by whether the store could be listed.
pub fn health(result: Result<Vec<Quest>, String>) -> (r: Reply)
    ensures
        r@ == (match result {
            Ok(quests) => ReplyView {
                status: 200,
                body: BodyView::Healthy { quest_count: quests@.len() as usize },
            },
            Err(e) => ReplyView { status: 503, body: BodyView::Unhealthy(e@) },
        }),
{
    match result {
        Ok(quests) => Reply { status: 200, body: Body::Healthy { quest_count: quests.len() } },
        Err(e) => Reply { status: 503, body: Body::Unhealthy(e) },
    }
}

} // verus!
