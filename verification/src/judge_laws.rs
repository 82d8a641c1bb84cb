//! What holds of a detection pass: of its start, of the evidence, of the request to the
//! judge, and of what follows from the verdict.
use vstd::prelude::*;

use crate::clock::{rfc3339_moment, Moment};
use crate::context::{content_of, shown_evidence, usable, FieldView, ToolReplyView};
use crate::detection::DetectionMode;
use crate::engine::QuestEngine;
use crate::json::{json_document, json_text, Key, Leaf};
use crate::judge::{
    completion_in, completion_request, completion_text, concluded, detection_of, failed, opening,
    outcome, quest_after, quest_not_found, skipped, steps_after, unreachable_gateway, OpeningView,
    PassView,
};
use crate::laws::same_item;
use crate::plan::{ActionView, EventView, Job, World};
use crate::quest::{CompletionSource, QuestView};
use crate::quest_laws::{same_completion, same_marks, same_wording};
use crate::text::{fitting, text_of, trimmed};
use crate::text_laws::{all_white, blank_is_white_space_alone, slashes_are_taken_from_the_end};
use crate::verdict::{judge_question, snippet_of, VerdictView, JUDGE_SYSTEM};

verus! {

// ---- the start of a pass ---------------------------------------------------------------
/// Whether a snooze holds: its end is a timestamp, and it names a later moment than now.
pub open spec fn rests(quest: QuestView, now: Moment) -> bool {
    match quest.snoozed_until {
        Some(until) => match rfc3339_moment(until) {
            Some(end) => now.secs < end.0 || (now.secs == end.0 && now.nanos < end.1),
            None => false,
        },
        None => false,
    }
}

/// A quest is judged exactly where it is an open task that does not rest, and detection is
/// on: on the context supplied where that says something, as it is, and else once evidence
/// was gathered.
pub proof fn exactly_open_tasks_are_judged(
    mode: DetectionMode,
    quest: QuestView,
    external: Option<Seq<char>>,
    now: Moment,
)
    ensures
        ({
            let judged = quest.kind is Task && quest.status is Open && !(mode is Off) && !rests(
                quest,
                now,
            );
            let supplied = external is Some && !all_white(external->0);
            &&& !judged ==> opening(mode, quest, external, now) == OpeningView::Skip
            &&& judged && supplied ==> opening(mode, quest, external, now) == (
            OpeningView::Judge { quest, evidence: external->0 })
            &&& judged && !supplied ==> opening(mode, quest, external, now)
                == OpeningView::Gather(quest)
        }),
{
    if external is Some {
        blank_is_white_space_alone(external->0);
    }
}

/// A pass over a quest that was not found fails and names the id; a pass over one that is
/// not judged ends without a verdict; neither does anything.
pub proof fn passes_start_as_the_quest_allows(
    engine: QuestEngine,
    id: Seq<char>,
    quest: QuestView,
    external: Option<Seq<char>>,
    now: Moment,
)
    ensures
        engine.started(id, None, external, now) == (PassView::Over {
            result: Err("quest '"@ + id + "' not found"@),
            steps: Seq::empty(),
        }),
        opening(engine.mode(), quest, external, now) is Skip ==> engine.started(
            id,
            Some(quest),
            external,
            now,
        ) == (PassView::Over { result: Ok(None), steps: Seq::empty() }),
        opening(engine.mode(), quest, external, now) is Gather ==> engine.started(
            id,
            Some(quest),
            external,
            now,
        ) == PassView::Gather(quest),
        opening(engine.mode(), quest, external, now) is Judge ==> engine.started(
            id,
            Some(quest),
            external,
            now,
        ) == engine.asking(quest, external->0),
{
}

/// A detection pass that is skipped or fails does nothing, and a failure says what failed.
pub proof fn failures_do_nothing(error: Seq<char>, id: Seq<char>)
    ensures
        skipped() == (PassView::Over { result: Ok(None), steps: Seq::empty() }),
        failed(error) == (PassView::Over { result: Err(error), steps: Seq::empty() }),
        quest_not_found(id) == "quest '"@ + id + "' not found"@,
        unreachable_gateway(error) == "gateway unreachable: "@ + error,
{
}

// ---- evidence --------------------------------------------------------------------------
/// Whether a text offers nothing: it is white space alone, or but for white space an empty
/// object or nothing of JSON.
pub open spec fn offers_nothing(text: Seq<char>) -> bool {
    all_white(text) || trimmed(text) == "{}"@ || trimmed(text) == "null"@
}

/// The text of a reply that counts: that of the first of its summary, text and context that
/// is there, where that is a string, and the whole reply otherwise.
pub open spec fn is_chosen(reply: ToolReplyView, text: Seq<char>) -> bool {
    ||| reply.summary == FieldView::Text(text)
    ||| reply.summary is Absent && reply.text == FieldView::Text(text)
    ||| reply.summary is Absent && reply.text is Absent && reply.context == FieldView::Text(text)
    ||| {
        &&& text == reply.rendered
        &&& !(reply.summary is Text)
        &&& reply.summary is Absent ==> !(reply.text is Text)
        &&& reply.summary is Absent && reply.text is Absent ==> !(reply.context is Text)
    }
}

/// A reply has as its content the text of it that counts, without space around it, whatever
/// else it holds; it has none exactly where it is marked unavailable or that text offers
/// nothing.
pub proof fn replies_offer_the_chosen_text(reply: ToolReplyView, text: Seq<char>)
    requires
        is_chosen(reply, text),
    ensures
        usable(reply) is None <==> reply.available == Some(false) || offers_nothing(text),
        usable(reply) is Some ==> usable(reply)->0 == trimmed(text),
{
    blank_is_white_space_alone(text);
}

/// A reply that is not marked `available: false` and whose summary is a string that offers
/// something has that summary as its content, without space around it, whatever else the
/// reply holds.
pub proof fn summary_is_the_content(reply: ToolReplyView, summary: Seq<char>)
    requires
        reply.available != Some(false),
        reply.summary == FieldView::Text(summary),
        !offers_nothing(summary),
    ensures
        usable(reply) == Some(trimmed(summary)),
{
    blank_is_white_space_alone(summary);
}

/// Whether something stands under a key of a JSON object.
pub open spec fn stands(contents: Map<Seq<Key>, Leaf>, key: Seq<char>) -> bool {
    contents.contains_key(seq![Key::Member(key)])
}

/// Whether a string stands under a key of a JSON object.
pub open spec fn stands_text(
    contents: Map<Seq<Key>, Leaf>,
    key: Seq<char>,
    text: Seq<char>,
) -> bool {
    stands(contents, key) && contents[seq![Key::Member(key)]] == Leaf::Text(text)
}

/// Whether something other than a string stands under a key of a JSON object.
pub open spec fn stands_other(contents: Map<Seq<Key>, Leaf>, key: Seq<char>) -> bool {
    stands(contents, key) && !(contents[seq![Key::Member(key)]] is Text)
}

/// Whether a JSON object marks itself as not available.
pub open spec fn is_unavailable(contents: Map<Seq<Key>, Leaf>) -> bool {
    stands(contents, "available"@) && contents[seq![Key::Member("available"@)]] == Leaf::Bool(false)
}

/// The content of a tool's reply is, without space around it, the string under `summary`;
/// without anything there, that under `text`; without anything there either, that under
/// `context`; and where none of them decides, or the one that does is no string, the whole
/// reply as JSON. There is none exactly where the tool did not reply, marked the reply
/// `available: false`, or that text offers nothing.
pub proof fn tool_replies_are_read_in_order(contents: Map<Seq<Key>, Leaf>, text: Seq<char>)
    requires
        ({
            ||| stands_text(contents, "summary"@, text)
            ||| !stands(contents, "summary"@) && stands_text(contents, "text"@, text)
            ||| !stands(contents, "summary"@) && !stands(contents, "text"@) && stands_text(
                contents,
                "context"@,
                text,
            )
            ||| text == json_text(contents) && stands_other(contents, "summary"@)
            ||| text == json_text(contents) && !stands(contents, "summary"@) && stands_other(
                contents,
                "text"@,
            )
            ||| text == json_text(contents) && !stands(contents, "summary"@) && !stands(
                contents,
                "text"@,
            ) && (stands_other(contents, "context"@) || !stands(contents, "context"@))
        }),
    ensures
        content_of(None) is None,
        content_of(Some(contents)) is None <==> is_unavailable(contents) || offers_nothing(text),
        content_of(Some(contents)) is Some ==> content_of(Some(contents))->0 == trimmed(text),
{
    blank_is_white_space_alone(text);
}

/// The evidence is recent activity, then related history, each under its heading and each
/// only where there is any; there is none without both.
pub proof fn evidence_is_headed(recent: Seq<char>, related: Seq<char>)
    ensures
        shown_evidence(None, None) is None,
        shown_evidence(Some(recent), None) == Some(
            fitting("Recent activity:\n"@ + recent, 4000),
        ),
        shown_evidence(None, Some(related)) == Some(
            fitting("Related history:\n"@ + related, 4000),
        ),
        shown_evidence(Some(recent), Some(related)) == Some(
            fitting(
                "Recent activity:\n"@ + recent + "\n\n"@ + "Related history:\n"@ + related,
                4000,
            ),
        ),
{
    assert("Recent activity:\n"@ + recent + "\n\n"@ + ("Related history:\n"@ + related)
        =~= "Recent activity:\n"@ + recent + "\n\n"@ + "Related history:\n"@ + related);
}

/// Evidence that takes at most 4000 bytes is shown whole.
pub proof fn short_evidence_is_shown_whole(recent: Seq<char>, related: Seq<char>)
    ensures
        ({
            let both = "Recent activity:\n"@ + recent + "\n\n"@ + "Related history:\n"@ + related;
            vstd::utf8::encode_utf8(both).len() <= 4000 ==> shown_evidence(
                Some(recent),
                Some(related),
            ) == Some(both)
        }),
        vstd::utf8::encode_utf8("Recent activity:\n"@ + recent).len() <= 4000 ==> shown_evidence(
            Some(recent),
            None,
        ) == Some("Recent activity:\n"@ + recent),
        vstd::utf8::encode_utf8("Related history:\n"@ + related).len() <= 4000 ==> shown_evidence(
            None,
            Some(related),
        ) == Some("Related history:\n"@ + related),
{
    evidence_is_headed(recent, related);
    let both = "Recent activity:\n"@ + recent + "\n\n"@ + "Related history:\n"@ + related;
    let first = "Recent activity:\n"@ + recent;
    let second = "Related history:\n"@ + related;
    crate::text::fitting_is_longest(both, 4000);
    crate::text::fitting_is_longest(first, 4000);
    crate::text::fitting_is_longest(second, 4000);
    crate::text::byte_len_counts_utf8(both);
    crate::text::byte_len_counts_utf8(first);
    crate::text::byte_len_counts_utf8(second);
}

// ---- the question ----------------------------------------------------------------------
/// A completion is asked for under the gateway's address, however many slashes that ends
/// with: in one piece, within a minute, with the model, the prompts and the token as given,
/// and with an effort only where one is set, without space around it.
pub proof fn requests_carry_what_was_given(
    base: Seq<char>,
    slashes: Seq<char>,
    token: Option<Seq<char>>,
    model: Seq<char>,
    effort: Seq<char>,
    system: Seq<char>,
    user: Seq<char>,
)
    requires
        base.len() > 0 ==> base.last() != '/',
        forall|i: int| 0 <= i < slashes.len() ==> #[trigger] slashes[i] == '/',
    ensures
        ({
            let request = completion_request(base + slashes, token, model, effort, system, user);
            &&& request.url == base + "/v1/chat/completions"@
            &&& request.model == model
            &&& request.system == system
            &&& request.user == user
            &&& !request.stream
            &&& request.bearer == token
            &&& request.timeout_secs == 60
            &&& all_white(effort) ==> request.reasoning_effort is None
            &&& !all_white(effort) ==> request.reasoning_effort == Some(trimmed(effort))
        }),
{
    blank_is_white_space_alone(effort);
    let all = base + slashes;
    slashes_are_taken_from_the_end(all);
    let kept = crate::text::without_slashes(all);
    if kept.len() > base.len() {
        assert(kept.last() == slashes[kept.len() - base.len() - 1]);
    }
    if kept.len() < base.len() {
        assert(all[base.len() - 1] == base.last());
    }
    assert(kept =~= base);
}

/// The judge is asked about a quest's condition on the evidence, by the model and with the
/// effort that are set, at the gateway and with its token.
pub proof fn judge_is_asked_about_the_quest(
    engine: QuestEngine,
    quest: QuestView,
    evidence: Seq<char>,
)
    ensures
        engine.asking(quest, evidence) is Ask,
        engine.asking(quest, evidence)->Ask_quest == quest,
        engine.asking(quest, evidence)->Ask_evidence == evidence,
        ({
            let request = engine.asking(quest, evidence)->request;
            &&& request.model == engine.judge_model()
            &&& request.system == JUDGE_SYSTEM@
            &&& request.user == judge_question(quest.condition(), evidence)
            &&& request.bearer == text_of(engine.gateway.token)
            &&& !request.stream
            &&& request.timeout_secs == 60
            &&& request == completion_request(
                engine.gateway.url@,
                text_of(engine.gateway.token),
                engine.judge_model(),
                engine.judge_effort(),
                JUDGE_SYSTEM@,
                judge_question(quest.condition(), evidence),
            )
        }),
{
}

// ---- the reply -------------------------------------------------------------------------
/// The path to the content of a completion: that of the message of the first choice.
pub open spec fn content_path() -> Seq<Key> {
    seq![
        Key::Member("choices"@),
        Key::Item(0),
        Key::Member("message"@),
        Key::Member("content"@),
    ]
}

/// A completion's content is the string in the message of its first choice, as it is, and
/// empty where there is no such string.
pub proof fn content_is_that_of_the_first_choice(contents: Map<Seq<Key>, Leaf>, text: Seq<char>)
    ensures
        contents.contains_key(content_path()) && contents[content_path()] == Leaf::Text(text)
            ==> completion_text(contents) == text,
        contents.contains_key(content_path()) && !(contents[content_path()] is Text)
            ==> completion_text(contents) == Seq::<char>::empty(),
        !contents.contains_key(content_path()) ==> completion_text(contents)
            == Seq::<char>::empty(),
{
}

/// A gateway's reply gives a completion exactly where its status is from 200 to 299, its
/// body came whole and holds JSON; otherwise it says which of these failed, the status
/// first.
pub proof fn only_success_gives_a_completion(
    status: u16,
    status_text: Seq<char>,
    bytes: Vec<u8>,
    broken: String,
)
    ensures
        ({
            let whole = completion_in(status, status_text, Ok(bytes));
            let cut = completion_in(status, status_text, Err(broken));
            let success = status >= 200 && status <= 299;
            &&& !success ==> whole == Err::<Seq<char>, Seq<char>>(
                "gateway returned HTTP "@ + status_text,
            ) && cut == whole
            &&& success && json_document(bytes@) is Some ==> whole == Ok::<Seq<char>, Seq<char>>(
                completion_text(json_document(bytes@)->0),
            )
            &&& success && json_document(bytes@) is None ==> whole == Err::<Seq<char>, Seq<char>>(
                "response was not valid JSON: "@ + "error decoding response body"@,
            )
            &&& success ==> cut == Err::<Seq<char>, Seq<char>>(
                "response was not valid JSON: "@ + broken@,
            )
        }),
{
}

// ---- what follows ----------------------------------------------------------------------
/// Whether the engine completes a quest by itself: the task counts as done, with a
/// confidence of at least 50 in the mode for all and of at least 85 in the mode for high
/// ones.
pub open spec fn completes(mode: DetectionMode, verdict: VerdictView) -> bool {
    verdict.met && ((mode is AutoAll && verdict.confidence >= 50) || (mode is AutoHigh
        && verdict.confidence >= 85))
}

/// Whether a verdict is too weak to act on: it is not met, or its confidence is below 50.
pub open spec fn is_weak(verdict: VerdictView) -> bool {
    !verdict.met || verdict.confidence < 50
}

/// A verdict has no consequence exactly where it is not met or its confidence is below 50.
/// One that is met, of at least 50, and that does not complete the quest is always a
/// suggestion: at any such confidence where the engine only suggests, and below 85 where it
/// completes on sure ones.
pub proof fn every_strong_verdict_has_a_consequence(mode: DetectionMode, verdict: VerdictView)
    ensures
        outcome(mode, verdict) is Ignore <==> is_weak(verdict),
        outcome(mode, verdict) is Complete <==> completes(mode, verdict),
        outcome(mode, verdict) is Suggest <==> !is_weak(verdict) && !completes(mode, verdict),
        verdict.met && verdict.confidence >= 50 && mode is Suggest ==> outcome(
            mode,
            verdict,
        ) is Suggest,
        verdict.met && 50 <= verdict.confidence < 85 && mode is AutoHigh ==> outcome(
            mode,
            verdict,
        ) is Suggest,
{
}

/// More confidence never takes a consequence back: a verdict that completes still does, and
/// one that is acted on still is.
pub proof fn confidence_only_adds(mode: DetectionMode, less: VerdictView, more: VerdictView)
    requires
        less.met == more.met,
        less.confidence <= more.confidence,
    ensures
        outcome(mode, less) is Complete ==> outcome(mode, more) is Complete,
        !(outcome(mode, less) is Ignore) ==> !(outcome(mode, more) is Ignore),
{
}

/// After a verdict the quest was judged at that time and rests no more, and keeps its
/// wording, its marks and what it is. A verdict that completes it makes it done by
/// detection, without a suggestion; one that is too weak leaves its status and its
/// suggestion; any other leaves its status and suggests its completion with the verdict's
/// confidence and reason and a snippet of the evidence.
pub proof fn quests_follow_the_verdict(
    mode: DetectionMode,
    quest: QuestView,
    verdict: VerdictView,
    evidence: Seq<char>,
    now: Seq<char>,
)
    ensures
        ({
            let next = quest_after(mode, quest, verdict, evidence, now);
            &&& next.last_judged_at == Some(now)
            &&& next.snoozed_until is None
            &&& next.updated_at == now
            &&& same_wording(next, quest)
            &&& same_marks(next, quest)
            &&& same_item(next, quest)
            &&& is_weak(verdict) ==> same_completion(next, quest) && next.suggestion
                == quest.suggestion
            &&& completes(mode, verdict) ==> next.status is Done && next.completed_at == Some(now)
                && next.completion_source == Some(CompletionSource::Detected)
                && next.suggestion is None
            &&& !is_weak(verdict) && !completes(mode, verdict) ==> {
                &&& same_completion(next, quest)
                &&& next.suggestion is Some
                &&& next.suggestion->0.confidence == verdict.confidence
                &&& next.suggestion->0.reason == verdict.reason
                &&& next.suggestion->0.evidence == Some(snippet_of(evidence))
                &&& next.suggestion->0.suggested_at == now
            }
        }),
{
}

/// Whether the pending suggestion of a quest has the confidence and the reason of a verdict.
pub open spec fn is_pending(quest: QuestView, verdict: VerdictView) -> bool {
    quest.suggestion is Some && quest.suggestion->0.confidence == verdict.confidence
        && quest.suggestion->0.reason == verdict.reason
}

/// What follows from a verdict outside: the quest is stored as it is after the verdict, and
/// that is announced. A completion is logged as such, disables the job of a task, and is
/// announced as one by the engine. A suggestion is logged as such and announced with the
/// verdict's confidence and reason, unless it is pending already. A weak verdict is neither
/// logged nor announced. Nothing else changes.
pub proof fn consequences_of_a_verdict(
    world: World,
    mode: DetectionMode,
    quest: QuestView,
    verdict: VerdictView,
    evidence: Seq<char>,
    interval: Seq<char>,
    now: Seq<char>,
)
    ensures
        ({
            let next = quest_after(mode, quest, verdict, evidence, now);
            let after = world.after_all(steps_after(mode, quest, verdict, evidence, interval, now));
            let told = world.events.push(EventView::Updated { quest: next });
            let news = !is_weak(verdict) && !completes(mode, verdict) && !is_pending(
                quest,
                verdict,
            );
            &&& after.quests == world.quests.insert(quest.id, next)
            &&& completes(mode, verdict) ==> {
                &&& after.events == told.push(EventView::Completed { quest: next, auto: true })
                &&& after.detections.len() == world.detections.len() + 1
                &&& after.detections.drop_last() == world.detections
                &&& after.detections.last().quest_id == quest.id
                &&& after.detections.last().confidence == verdict.confidence
                &&& after.detections.last().reason == verdict.reason
                &&& after.detections.last().evidence == Some(snippet_of(evidence))
                &&& after.detections.last().disposition == "auto_completed"@
                &&& quest.kind is Task ==> after.jobs == world.jobs.insert(
                    quest.id,
                    Job { title: quest.title, interval, open: false },
                )
                &&& !(quest.kind is Task) ==> after.jobs == world.jobs
            }
            &&& news ==> {
                &&& after.events == told.push(
                    EventView::Suggested {
                        quest: next,
                        confidence: verdict.confidence,
                        reason: verdict.reason,
                    },
                )
                &&& after.detections.len() == world.detections.len() + 1
                &&& after.detections.drop_last() == world.detections
                &&& after.detections.last().quest_id == quest.id
                &&& after.detections.last().confidence == verdict.confidence
                &&& after.detections.last().reason == verdict.reason
                &&& after.detections.last().evidence == Some(snippet_of(evidence))
                &&& after.detections.last().disposition == "suggested"@
                &&& after.jobs == world.jobs
            }
            &&& !news && !completes(mode, verdict) ==> {
                &&& after.events == told
                &&& after.detections == world.detections
                &&& after.jobs == world.jobs
            }
        }),
{
    let steps = steps_after(mode, quest, verdict, evidence, interval, now);
    if completes(mode, verdict) {
        crate::laws::completions_are_logged_and_announced(
            world,
            mode,
            quest,
            verdict,
            evidence,
            interval,
            now,
        );
        let entry = detection_of(quest, verdict, evidence, "auto_completed"@);
        assert(world.detections.push(entry).drop_last() =~= world.detections);
    } else if !is_weak(verdict) && !is_pending(quest, verdict) {
        crate::laws::suggestions_are_logged_and_announced(
            world,
            mode,
            quest,
            verdict,
            evidence,
            interval,
            now,
        );
        let entry = detection_of(quest, verdict, evidence, "suggested"@);
        assert(world.detections.push(entry).drop_last() =~= world.detections);
    } else {
        reveal_with_fuel(World::after_all, 2);
        assert(steps.drop_last() =~= Seq::empty());
    }
}

/// The steps that follow from a verdict come in this order: a completion is logged, then
/// stored, then the job of a task is disabled, then it is announced; a new suggestion is
/// stored, then logged, then announced; anything else is only stored.
pub proof fn steps_come_in_order(
    mode: DetectionMode,
    quest: QuestView,
    verdict: VerdictView,
    evidence: Seq<char>,
    interval: Seq<char>,
    now: Seq<char>,
)
    ensures
        ({
            let next = quest_after(mode, quest, verdict, evidence, now);
            let steps = steps_after(mode, quest, verdict, evidence, interval, now);
            let news = !is_weak(verdict) && !completes(mode, verdict) && !is_pending(
                quest,
                verdict,
            );
            &&& completes(mode, verdict) ==> {
                &&& steps.len() == (if quest.kind is Task {
                    4nat
                } else {
                    3nat
                })
                &&& steps[0].action is Record
                &&& steps[1].action == ActionView::Upsert(next)
                &&& quest.kind is Task ==> steps[2].action is SyncJob
                &&& steps.last().action is Broadcast
            }
            &&& news ==> {
                &&& steps.len() == 3
                &&& steps[0].action == ActionView::Upsert(next)
                &&& steps[1].action is Record
                &&& steps[2].action is Broadcast
            }
            &&& !news && !completes(mode, verdict) ==> steps.len() == 1 && steps[0].action
                == ActionView::Upsert(next)
        }),
{
}

/// A pass that ended with a verdict gives that verdict back, and its steps are those that
/// follow from it.
pub proof fn passes_end_with_the_verdict(
    mode: DetectionMode,
    quest: QuestView,
    verdict: VerdictView,
    evidence: Seq<char>,
    interval: Seq<char>,
    now: Seq<char>,
)
    ensures
        concluded(mode, quest, verdict, evidence, interval, now) is Over,
        concluded(mode, quest, verdict, evidence, interval, now)->result == Ok::<
            Option<VerdictView>,
            Seq<char>,
        >(Some(verdict)),
        concluded(mode, quest, verdict, evidence, interval, now)->steps == steps_after(
            mode,
            quest,
            verdict,
            evidence,
            interval,
            now,
        ),
{
}

} // verus!
