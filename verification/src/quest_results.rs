//! What a caller gets back from the operations on quests, in terms of what was handed in.
use vstd::prelude::*;

use crate::clock::Moment;
use crate::engine::QuestEngine;
use crate::laws::{is_coherent, same_item};
use crate::operations::{infer_kind, take_first_line};
use crate::plan::{
    deleted, keep_readable, quests_of, steps_of, upserted, Action, ActionView, EventView, Plan,
    QuestEvent, Run, Step, World,
};
use crate::quest::{
    keep_detail, source_of, CaptureSource, CompletionSource, Quest, QuestKind, QuestView,
};
use crate::quest_laws::{
    captures_are_links_or_notes, editing_changes_the_wording_alone, judged_by_condition_or_title,
    kinds_are_named_exactly, new_capture_holds_what_was_given, new_task_holds_what_was_given,
    operations_announce_what_they_store, readable_rows_are_kept, same_completion, same_judgement,
    same_marks, same_suggestion, same_wording, says_something,
};
use crate::settings_laws::ids_are_hexadecimal;
use crate::text::{is_white, text_of, trimmed};
use crate::text_laws::{all_white, blank_is_white_space_alone, none_white, on_one_line};
use crate::verdict::Verdict;

verus! {

// ---- quests ----------------------------------------------------------------------------
/// A new task is open and holds what was given.
pub proof fn task_result(
    id: String,
    title: &str,
    detail: Option<String>,
    condition: &str,
    now: &str,
    r: Quest,
)
    requires
        call_ensures(Quest::task, (id, title, detail, condition, now), r),
    ensures
        r@.id == id@,
        r@.title == trimmed(title@),
        says_something(text_of(detail)) ==> r@.detail == text_of(detail),
        !says_something(text_of(detail)) ==> r@.detail is None,
        r@.completion_condition == trimmed(condition@),
        r@.status is Open,
        r@.kind is Task,
        r@.created_at == now@,
        r@.updated_at == now@,
        r@.completed_at is None,
        r@.completion_source is None,
        r@.last_judged_at is None,
        r@.snoozed_until is None,
        r@.suggestion is None,
        r@.body is None,
        r@.source is None,
        !r@.pinned,
        r@.used_at is None,
{
    new_task_holds_what_was_given(id@, title@, text_of(detail), condition@, now@);
}

/// A new captured item is open and holds what was given, the text verbatim.
pub proof fn captured_result(
    id: String,
    kind: QuestKind,
    title: &str,
    body: String,
    source: Option<CaptureSource>,
    now: &str,
    r: Quest,
)
    requires
        call_ensures(Quest::captured, (id, kind, title, body, source, now), r),
    ensures
        r@.id == id@,
        r@.title == trimmed(title@),
        r@.detail is None,
        r@.completion_condition == Seq::<char>::empty(),
        r@.status is Open,
        r@.kind == kind,
        r@.created_at == now@,
        r@.updated_at == now@,
        r@.completed_at is None,
        r@.completion_source is None,
        r@.last_judged_at is None,
        r@.snoozed_until is None,
        r@.suggestion is None,
        r@.body == Some(body@),
        r@.source == source_of(source),
        !r@.pinned,
        r@.used_at is None,
{
    new_capture_holds_what_was_given(id@, kind, title@, body@, source_of(source), now@);
}

/// An edited quest differs in its title, description, condition and time of update alone.
pub proof fn edit_result(
    quest: Quest,
    title: &str,
    detail: Option<String>,
    condition: &str,
    now: &str,
    r: Quest,
)
    requires
        call_ensures(Quest::edit, (quest, title, detail, condition, now), r),
    ensures
        r.status == quest.status,
        text_of(r.completed_at) == text_of(quest.completed_at),
        r.completion_source == quest.completion_source,
        same_suggestion(r@, quest@),
        same_judgement(r@, quest@),
        same_marks(r@, quest@),
        same_item(r@, quest@),
        r.title@ == trimmed(title@),
        r.completion_condition@ == trimmed(condition@),
        says_something(text_of(detail)) ==> text_of(r.detail) == text_of(detail),
        !says_something(text_of(detail)) ==> r@.detail is None,
        r.updated_at@ == now@,
{
    editing_changes_the_wording_alone(quest@, title@, text_of(detail), condition@, now@);
    assert(r@.status == quest@.status);
    assert(r@.completed_at == quest@.completed_at);
}

/// A description is kept as it is where it says something, and dropped otherwise.
pub proof fn keep_detail_result(detail: Option<String>, r: Option<String>)
    requires
        call_ensures(keep_detail, (detail,), r),
    ensures
        says_something(text_of(detail)) ==> text_of(r) == text_of(detail),
        !says_something(text_of(detail)) ==> r is None,
{
    if detail is Some {
        blank_is_white_space_alone(detail->0@);
    }
}

/// A completed quest is done, without a suggestion or a snooze.
pub proof fn complete_result(quest: Quest, detected: bool, now: &str, r: Quest)
    requires
        call_ensures(Quest::complete, (quest, detected, now), r),
    ensures
        r@.status is Done,
        r@.completed_at == Some(now@),
        r@.completion_source == Some(
            if detected {
                CompletionSource::Detected
            } else {
                CompletionSource::Manual
            },
        ),
        r@.suggestion is None,
        r@.snoozed_until is None,
        r@.updated_at == now@,
        same_wording(r@, quest@),
        same_judgement(r@, quest@),
        same_marks(r@, quest@),
        same_item(r@, quest@),
{
}

/// A quest whose suggestion was dismissed has none, whatever it had before.
pub proof fn snooze_result(quest: Quest, until: String, now: &str, r: Quest)
    requires
        call_ensures(Quest::snooze, (quest, until, now), r),
    ensures
        r@.suggestion is None,
        r@.snoozed_until == Some(until@),
        r@.updated_at == now@,
        same_wording(r@, quest@),
        same_completion(r@, quest@),
        same_judgement(r@, quest@),
        same_marks(r@, quest@),
        same_item(r@, quest@),
{
}

/// An abandoned quest is dismissed, without a suggestion.
pub proof fn dismiss_result(quest: Quest, now: &str, r: Quest)
    requires
        call_ensures(Quest::dismiss, (quest, now), r),
    ensures
        r@.status is Dismissed,
        r@.suggestion is None,
        r@.updated_at == now@,
        r@.completed_at == quest@.completed_at,
        r@.completion_source == quest@.completion_source,
        r@.snoozed_until == quest@.snoozed_until,
        same_wording(r@, quest@),
        same_judgement(r@, quest@),
        same_marks(r@, quest@),
        same_item(r@, quest@),
{
}

/// A reopened quest is open, with nothing recorded of a completion.
pub proof fn reopen_result(quest: Quest, now: &str, r: Quest)
    requires
        call_ensures(Quest::reopen, (quest, now), r),
    ensures
        r@.status is Open,
        r@.completed_at is None,
        r@.completion_source is None,
        r@.updated_at == now@,
        same_wording(r@, quest@),
        same_suggestion(r@, quest@),
        same_judgement(r@, quest@),
        same_marks(r@, quest@),
        same_item(r@, quest@),
{
}

/// A pinned item is pinned, and nothing else of it changes.
pub proof fn pin_result(quest: Quest, pinned: bool, now: &str, r: Quest)
    requires
        call_ensures(Quest::pin, (quest, pinned, now), r),
    ensures
        r@.pinned == pinned,
        r@.updated_at == now@,
        r@.used_at == quest@.used_at,
        same_wording(r@, quest@),
        same_completion(r@, quest@),
        same_suggestion(r@, quest@),
        same_judgement(r@, quest@),
        same_item(r@, quest@),
{
}

/// A used item records when, and is completed by hand exactly where that is asked for.
pub proof fn mark_used_result(quest: Quest, complete: bool, now: &str, r: Quest)
    requires
        call_ensures(Quest::mark_used, (quest, complete, now), r),
    ensures
        r@.used_at == Some(now@),
        r@.updated_at == now@,
        r@.pinned == quest@.pinned,
        same_wording(r@, quest@),
        same_judgement(r@, quest@),
        same_item(r@, quest@),
        !complete ==> same_completion(r@, quest@) && same_suggestion(r@, quest@),
        complete ==> r@.status is Done && r@.completed_at == Some(now@) && r@.completion_source
            == Some(CompletionSource::Manual) && r@.suggestion is None && r@.snoozed_until is None,
{
}

/// A quest that was judged records when, and rests no more.
pub proof fn judged_result(quest: Quest, now: &str, r: Quest)
    requires
        call_ensures(Quest::judged, (quest, now), r),
    ensures
        r@.last_judged_at == Some(now@),
        r@.snoozed_until is None,
        r@.updated_at == now@,
        r@.suggestion == quest@.suggestion,
        same_wording(r@, quest@),
        same_completion(r@, quest@),
        same_marks(r@, quest@),
        same_item(r@, quest@),
{
}

/// A quest that the engine completed is done by detection, and was judged.
pub proof fn auto_complete_result(quest: Quest, now: &str, r: Quest)
    requires
        call_ensures(Quest::auto_complete, (quest, now), r),
    ensures
        r@.status is Done,
        r@.completed_at == Some(now@),
        r@.completion_source == Some(CompletionSource::Detected),
        r@.suggestion is None,
        r@.last_judged_at == Some(now@),
        r@.snoozed_until is None,
        r@.updated_at == now@,
        same_wording(r@, quest@),
        same_marks(r@, quest@),
        same_item(r@, quest@),
{
}

/// A suggested quest carries the verdict and the evidence, and was judged.
pub proof fn suggest_result(
    quest: Quest,
    verdict: &Verdict,
    evidence: String,
    now: &str,
    r: Quest,
)
    requires
        call_ensures(Quest::suggest, (quest, verdict, evidence, now), r),
    ensures
        r@.suggestion is Some,
        r@.suggestion->0.confidence == verdict.confidence,
        r@.suggestion->0.reason == verdict.reason@,
        r@.suggestion->0.evidence == Some(evidence@),
        r@.suggestion->0.suggested_at == now@,
        r@.last_judged_at == Some(now@),
        r@.snoozed_until is None,
        r@.updated_at == now@,
        same_wording(r@, quest@),
        same_completion(r@, quest@),
        same_marks(r@, quest@),
        same_item(r@, quest@),
{
}

/// The same completion is suggested already exactly where the pending suggestion has the
/// verdict's confidence and reason.
pub proof fn suggests_result(quest: &Quest, verdict: &Verdict, r: bool)
    requires
        call_ensures(Quest::suggests, (quest, verdict), r),
    ensures
        r <==> quest@.suggestion is Some && quest@.suggestion->0.confidence == verdict.confidence
            && quest@.suggestion->0.reason == verdict.reason@,
{
}

/// A quest is judged by its condition, and by its title where that says nothing.
pub proof fn condition_result(quest: &Quest, r: &str)
    requires
        call_ensures(Quest::condition, (quest,), r),
    ensures
        all_white(quest.completion_condition@) ==> r@ == trimmed(quest.title@),
        !all_white(quest.completion_condition@) ==> r@ == trimmed(quest.completion_condition@),
{
    judged_by_condition_or_title(quest@);
}

/// A kind is named on the wire by its name alone, and only a task is ever judged.
pub proof fn kind_results(
    name: &str,
    named: QuestKind,
    kind: QuestKind,
    text: &'static str,
    judged: bool,
)
    requires
        call_ensures(QuestKind::from_wire, (name,), named),
        call_ensures(QuestKind::as_str, (kind,), text),
        call_ensures(QuestKind::is_judged, (kind,), judged),
    ensures
        named is Note <==> name@ == "note"@,
        named is Link <==> name@ == "link"@,
        named is Prompt <==> name@ == "prompt"@,
        named is Snippet <==> name@ == "snippet"@,
        text@ == (match kind {
            QuestKind::Task => "task"@,
            QuestKind::Note => "note"@,
            QuestKind::Link => "link"@,
            QuestKind::Prompt => "prompt"@,
            QuestKind::Snippet => "snippet"@,
        }),
        judged <==> kind is Task,
        name@ == text@ ==> named == kind,
{
    kinds_are_named_exactly(name@);
    crate::quest::kind_names_read_back(kind);
}

// ---- captures --------------------------------------------------------------------------
/// A captured text is a link exactly where it is, but for space around it, an unbroken
/// address on the web.
pub proof fn infer_kind_result(
    body: &str,
    before: Seq<char>,
    text: Seq<char>,
    behind: Seq<char>,
    r: QuestKind,
)
    requires
        call_ensures(infer_kind, (body,), r),
        body@ == before + text + behind,
        all_white(before),
        all_white(behind),
        text.len() > 0 ==> !is_white(text[0]) && !is_white(text.last()),
    ensures
        r == (if none_white(text) && ("http://"@.is_prefix_of(text) || "https://"@.is_prefix_of(
            text,
        )) {
            QuestKind::Link
        } else {
            QuestKind::Note
        }),
{
    captures_are_links_or_notes(QuestKind::Task, before, text, behind);
}

/// The first line of a text is the first that says something, without space around it.
pub proof fn take_first_line_result(
    text: &str,
    before: Seq<char>,
    line: Seq<char>,
    rest: Seq<char>,
    r: String,
)
    requires
        call_ensures(take_first_line, (text,), r),
        text@ == before + line + rest,
        all_white(before),
        on_one_line(line),
        line.len() > 0,
        !is_white(line[0]),
        rest.len() > 0 ==> rest[0] == '\n',
    ensures
        r@ == trimmed(line),
{
    crate::text_laws::lemma_first_line(before, line, rest);
}

// ---- operations of the engine ----------------------------------------------------------
/// The world after the steps of a plan.
pub open spec fn world_after(world: World, plan: Plan) -> World {
    world.after_all(steps_of(plan.steps@))
}

/// Whether a plan stores its quest, announces that it was updated, and leaves all other
/// quests and the log of detections.
pub open spec fn stores_its_quest(world: World, plan: Plan) -> bool {
    let after = world_after(world, plan);
    &&& after.quests == world.quests.insert(plan.quest@.id, plan.quest@)
    &&& after.events.len() > world.events.len()
    &&& after.events.take(world.events.len() as int + 1) == world.events.push(
        EventView::Updated { quest: plan.quest@ },
    )
    &&& after.detections == world.detections
}

/// Whether a plan announces nothing but that its quest was updated.
pub open spec fn announces_the_update_alone(world: World, plan: Plan) -> bool {
    world_after(world, plan).events.len() == world.events.len() + 1
}

/// Whether a plan writes its row first and fails only where that fails.
pub open spec fn fails_with_its_row_alone(plan: Plan) -> bool {
    &&& plan.steps@.len() > 0
    &&& plan.steps@[0].action@ == ActionView::Upsert(plan.quest@)
    &&& forall|i: int|
        0 <= i < plan.steps@.len() ==> ((#[trigger] plan.steps@[i]).required <==> i == 0)
}

/// Whether a plan writes its row first and fails where any of its steps fails.
pub open spec fn fails_with_any_step(plan: Plan) -> bool {
    &&& plan.steps@.len() > 0
    &&& plan.steps@[0].action@ == ActionView::Upsert(plan.quest@)
    &&& forall|i: int| 0 <= i < plan.steps@.len() ==> (#[trigger] plan.steps@[i]).required
}

proof fn lemma_required(plan: Plan, interval: Seq<char>)
    ensures
        plan@ == crate::operations::creation(plan.quest@, interval) ==> fails_with_any_step(plan),
        plan@ == crate::operations::rewrite(plan.quest@) ==> fails_with_its_row_alone(plan),
        plan@ == crate::operations::change(plan.quest@, interval) ==> fails_with_its_row_alone(
            plan,
        ),
        plan@ == crate::operations::completion(plan.quest@, interval) ==> fails_with_its_row_alone(
            plan,
        ),
{
    let steps = steps_of(plan.steps@);
    assert(steps.len() == plan.steps@.len());
    assert forall|i: int| 0 <= i < plan.steps@.len() implies steps[i].required == (
    #[trigger] plan.steps@[i]).required by {
        assert(steps[i] == plan.steps@[i]@);
    }
    if steps.len() > 0 {
        assert(steps[0] == plan.steps@[0]@);
    }
}

/// Whether a plan leaves a job for its quest where that is a task, enabled exactly where
/// the quest is open, and no other job changes.
pub open spec fn syncs_the_job(world: World, plan: Plan, interval: Seq<char>) -> bool {
    let after = world_after(world, plan);
    if plan.quest@.kind is Task {
        &&& after.jobs.contains_key(plan.quest@.id)
        &&& after.jobs[plan.quest@.id].title == plan.quest@.title
        &&& after.jobs[plan.quest@.id].interval == interval
        &&& after.jobs[plan.quest@.id].open == (plan.quest@.status is Open)
        &&& after.jobs.remove(plan.quest@.id) == world.jobs.remove(plan.quest@.id)
    } else {
        after.jobs == world.jobs
    }
}

proof fn lemma_plans(world: World, quest: QuestView, interval: Seq<char>)
    ensures
        world.events.push(EventView::Updated { quest }).take(world.events.len() as int + 1)
            == world.events.push(EventView::Updated { quest }),
        world.events.push(EventView::Updated { quest }).push(
            EventView::Completed { quest, auto: false },
        ).take(world.events.len() as int + 1) == world.events.push(EventView::Updated { quest }),
        ({
            let job = crate::plan::Job { title: quest.title, interval, open: quest.status is Open };
            world.jobs.insert(quest.id, job).remove(quest.id) == world.jobs.remove(quest.id)
        }),
{
    let told = world.events.push(EventView::Updated { quest });
    assert(told.take(told.len() as int) =~= told);
    assert(told.push(EventView::Completed { quest, auto: false }).take(told.len() as int) =~= told);
    let job = crate::plan::Job { title: quest.title, interval, open: quest.status is Open };
    assert(world.jobs.insert(quest.id, job).remove(quest.id) =~= world.jobs.remove(quest.id));
    operations_announce_what_they_store(world, quest, interval);
    crate::laws::stored_quests_are_read_back(world, quest, interval);
}

proof fn lemma_plan_effects(world: World, quest: QuestView, interval: Seq<char>)
    ensures
        ({
            let plan = crate::operations::creation(quest, interval);
            let after = world.after_all(plan.steps);
            &&& plan.quest == quest
            &&& after.quests == world.quests.insert(quest.id, quest)
            &&& after.events == world.events.push(EventView::Updated { quest })
            &&& after.detections == world.detections
        }),
        ({
            let plan = crate::operations::rewrite(quest);
            let after = world.after_all(plan.steps);
            &&& plan.quest == quest
            &&& after.quests == world.quests.insert(quest.id, quest)
            &&& after.events == world.events.push(EventView::Updated { quest })
            &&& after.detections == world.detections
            &&& after.jobs == world.jobs
        }),
        ({
            let plan = crate::operations::change(quest, interval);
            let after = world.after_all(plan.steps);
            &&& plan.quest == quest
            &&& after.quests == world.quests.insert(quest.id, quest)
            &&& after.events == world.events.push(EventView::Updated { quest })
            &&& after.detections == world.detections
        }),
        ({
            let plan = crate::operations::completion(quest, interval);
            let after = world.after_all(plan.steps);
            &&& plan.quest == quest
            &&& after.quests == world.quests.insert(quest.id, quest)
            &&& after.events == world.events.push(EventView::Updated { quest }).push(
                EventView::Completed { quest, auto: false },
            )
            &&& after.detections == world.detections
        }),
        ({
            let job = crate::plan::Job { title: quest.title, interval, open: quest.status is Open };
            let jobs = if quest.kind is Task {
                world.jobs.insert(quest.id, job)
            } else {
                world.jobs
            };
            &&& world.after_all(crate::operations::creation(quest, interval).steps).jobs == jobs
            &&& world.after_all(crate::operations::change(quest, interval).steps).jobs == jobs
            &&& world.after_all(crate::operations::completion(quest, interval).steps).jobs == jobs
        }),
{
    operations_announce_what_they_store(world, quest, interval);
    crate::laws::stored_quests_are_read_back(world, quest, interval);
    if quest.kind is Task {
        crate::laws::jobs_follow_the_status(world, quest, interval);
    } else {
        crate::laws::captures_carry_no_job(world, quest, interval);
    }
}

/// A created quest is a new task that holds what was given, stored with an enabled job.
pub proof fn create_quest_result(
    world: World,
    engine: &QuestEngine,
    title: String,
    detail: Option<String>,
    condition: String,
    r: Plan,
)
    requires
        call_ensures(QuestEngine::create_quest, (engine, title, detail, condition), r),
    ensures
        r.quest@.id.len() == 38,
        r.quest@.id.take(6) == "quest_"@,
        r.quest@.title == trimmed(title@),
        says_something(text_of(detail)) ==> r.quest@.detail == text_of(detail),
        !says_something(text_of(detail)) ==> r.quest@.detail is None,
        r.quest@.completion_condition == trimmed(condition@),
        r.quest@.status is Open,
        r.quest@.kind is Task,
        r.quest@.created_at == r.quest@.updated_at,
        r.quest@.completed_at is None,
        r.quest@.completion_source is None,
        r.quest@.last_judged_at is None,
        r.quest@.snoozed_until is None,
        r.quest@.suggestion is None,
        r.quest@.body is None,
        r.quest@.source is None,
        !r.quest@.pinned,
        r.quest@.used_at is None,
        stores_its_quest(world, r),
        announces_the_update_alone(world, r),
        syncs_the_job(world, r, engine.interval()),
        fails_with_any_step(r),
{
    let quest = r@.quest;
    lemma_required(r, engine.interval());
    ids_are_hexadecimal(quest.id);
    lemma_plan_effects(world, quest, engine.interval());
    lemma_plans(world, quest, engine.interval());
    new_task_holds_what_was_given(
        quest.id,
        title@,
        text_of(detail),
        condition@,
        quest.created_at,
    );
}

/// A captured text is kept verbatim as a new item of the given kind, or of the one that it
/// looks like, under the given label, or under its first line, and without a job unless it
/// is a task.
pub proof fn capture_result(
    world: World,
    engine: &QuestEngine,
    kind: Option<QuestKind>,
    title: Option<String>,
    body: String,
    source: Option<CaptureSource>,
    r: Plan,
)
    requires
        call_ensures(QuestEngine::capture, (engine, kind, title, body, source), r),
    ensures
        r.quest@.id.len() == 38,
        r.quest@.id.take(6) == "quest_"@,
        kind is Some ==> r.quest@.kind == kind->0,
        kind is None ==> r.quest@.kind is Link || r.quest@.kind is Note,
        title is Some && !all_white(title->0@) ==> r.quest@.title == trimmed(title->0@),
        r.quest@.body == Some(body@),
        r.quest@.source == source_of(source),
        r.quest@.status is Open,
        r.quest@.detail is None,
        r.quest@.completion_condition == Seq::<char>::empty(),
        r.quest@.created_at == r.quest@.updated_at,
        r.quest@.completed_at is None,
        r.quest@.completion_source is None,
        r.quest@.last_judged_at is None,
        r.quest@.snoozed_until is None,
        r.quest@.suggestion is None,
        !r.quest@.pinned,
        r.quest@.used_at is None,
        stores_its_quest(world, r),
        announces_the_update_alone(world, r),
        syncs_the_job(world, r, engine.interval()),
        fails_with_any_step(r),
{
    let quest = r@.quest;
    lemma_required(r, engine.interval());
    ids_are_hexadecimal(quest.id);
    if title is Some {
        blank_is_white_space_alone(title->0@);
    }
    assert(trimmed(Seq::<char>::empty()) == Seq::<char>::empty());
    lemma_plan_effects(world, quest, engine.interval());
    lemma_plans(world, quest, engine.interval());
}

/// A captured text without a kind and a label is a link or a note by what it looks like, and
/// is known by its first line that says something.
pub proof fn bare_capture_result(
    engine: &QuestEngine,
    body: String,
    before: Seq<char>,
    line: Seq<char>,
    rest: Seq<char>,
    r: Plan,
)
    requires
        call_ensures(QuestEngine::capture, (engine, None, None, body, None), r),
        body@ == before + line + rest,
        all_white(before),
        on_one_line(line),
        line.len() > 0,
        !is_white(line[0]),
        !is_white(line.last()),
        rest.len() > 0 ==> rest[0] == '\n',
    ensures
        r.quest@.title == line,
        all_white(rest) ==> (r.quest@.kind is Link <==> none_white(line) && (
        "http://"@.is_prefix_of(line) || "https://"@.is_prefix_of(line))),
{
    crate::text_laws::lemma_first_line(before, line, rest);
    crate::text_laws::nothing_to_strip(line);
    if all_white(rest) {
        captures_are_links_or_notes(QuestKind::Task, before, line, rest);
    }
}

/// An edited quest keeps its status and what is recorded of its completion, and its job
/// follows its title. Nothing is planned where there is no quest.
pub proof fn update_quest_result(
    world: World,
    engine: &QuestEngine,
    found: Option<Quest>,
    title: String,
    detail: Option<String>,
    condition: String,
    r: Option<Plan>,
)
    requires
        call_ensures(QuestEngine::update_quest, (engine, found, title, detail, condition), r),
    ensures
        r is Some <==> found is Some,
        r is Some ==> {
            let (before, after) = (found->0@, r->0.quest@);
            &&& same_completion(after, before)
            &&& same_suggestion(after, before)
            &&& same_judgement(after, before)
            &&& same_marks(after, before)
            &&& same_item(after, before)
            &&& after.title == trimmed(title@)
            &&& after.completion_condition == trimmed(condition@)
            &&& says_something(text_of(detail)) ==> after.detail == text_of(detail)
            &&& !says_something(text_of(detail)) ==> after.detail is None
            &&& stores_its_quest(world, r->0)
            &&& fails_with_its_row_alone(r->0)
            &&& announces_the_update_alone(world, r->0)
            &&& syncs_the_job(world, r->0, engine.interval())
        },
{
    if r is Some {
        let quest = r->0@.quest;
        lemma_required(r->0, engine.interval());
        editing_changes_the_wording_alone(
            found->0@,
            title@,
            text_of(detail),
            condition@,
            quest.updated_at,
        );
        lemma_plan_effects(world, quest, engine.interval());
        lemma_plans(world, quest, engine.interval());
    }
}

/// A completed quest is done, by hand or by a detection that was confirmed, its job is
/// disabled, and its completion is announced as one by the user.
pub proof fn complete_quest_result(
    world: World,
    engine: &QuestEngine,
    found: Option<Quest>,
    detected: bool,
    r: Option<Plan>,
)
    requires
        call_ensures(QuestEngine::complete_quest, (engine, found, detected), r),
    ensures
        r is Some <==> found is Some,
        r is Some ==> {
            let (before, after) = (found->0@, r->0.quest@);
            &&& after.status is Done
            &&& after.completed_at == Some(after.updated_at)
            &&& after.completion_source == Some(
                if detected {
                    CompletionSource::Detected
                } else {
                    CompletionSource::Manual
                },
            )
            &&& after.suggestion is None
            &&& after.snoozed_until is None
            &&& same_wording(after, before)
            &&& same_judgement(after, before)
            &&& same_marks(after, before)
            &&& same_item(after, before)
            &&& stores_its_quest(world, r->0)
            &&& fails_with_its_row_alone(r->0)
            &&& syncs_the_job(world, r->0, engine.interval())
            &&& world_after(world, r->0).events.len() == world.events.len() + 2
            &&& world_after(world, r->0).events.last() == (EventView::Completed {
                quest: after,
                auto: false,
            })
        },
{
    if r is Some {
        let quest = r->0@.quest;
        lemma_required(r->0, engine.interval());
        lemma_plan_effects(world, quest, engine.interval());
        lemma_plans(world, quest, engine.interval());
    }
}

/// After a suggestion was dismissed the quest has none, whatever it had before, rests for an
/// hour, and is otherwise as it was; its job is not touched.
pub proof fn dismiss_suggestion_at_result(
    world: World,
    engine: &QuestEngine,
    found: Option<Quest>,
    now: Moment,
    r: Option<Plan>,
)
    requires
        now.in_range(),
        call_ensures(QuestEngine::dismiss_suggestion_at, (engine, found, now), r),
    ensures
        r is Some <==> found is Some,
        r is Some ==> {
            let (before, after) = (found->0@, r->0.quest@);
            &&& after.suggestion is None
            &&& after.snoozed_until is Some
            &&& now.secs + 3600 <= 253_402_300_799 ==> crate::clock::rfc3339_moment(
                after.snoozed_until->0,
            ) == Some(((now.secs + 3600) as i64, now.nanos))
            &&& after.updated_at == now.stamp()
            &&& same_wording(after, before)
            &&& same_completion(after, before)
            &&& same_judgement(after, before)
            &&& same_marks(after, before)
            &&& same_item(after, before)
            &&& stores_its_quest(world, r->0)
            &&& fails_with_its_row_alone(r->0)
            &&& announces_the_update_alone(world, r->0)
            &&& world_after(world, r->0).quests[before.id].suggestion is None
            &&& world_after(world, r->0).jobs == world.jobs
        },
{
    if r is Some {
        let quest = r->0@.quest;
        lemma_required(r->0, engine.interval());
        lemma_plan_effects(world, quest, Seq::empty());
        lemma_plans(world, quest, Seq::empty());
    }
}

/// The same holds whenever a suggestion is dismissed.
pub proof fn dismiss_suggestion_result(
    world: World,
    engine: &QuestEngine,
    found: Option<Quest>,
    r: Option<Plan>,
)
    requires
        call_ensures(QuestEngine::dismiss_suggestion, (engine, found), r),
    ensures
        r is Some <==> found is Some,
        r is Some ==> {
            let (before, after) = (found->0@, r->0.quest@);
            &&& after.suggestion is None
            &&& after.snoozed_until is Some
            &&& same_wording(after, before)
            &&& same_completion(after, before)
            &&& same_judgement(after, before)
            &&& same_marks(after, before)
            &&& same_item(after, before)
            &&& stores_its_quest(world, r->0)
            &&& fails_with_its_row_alone(r->0)
            &&& announces_the_update_alone(world, r->0)
            &&& world_after(world, r->0).quests[before.id].suggestion is None
            &&& world_after(world, r->0).jobs == world.jobs
        },
{
    if r is Some {
        let quest = r->0@.quest;
        lemma_required(r->0, engine.interval());
        lemma_plan_effects(world, quest, Seq::empty());
        lemma_plans(world, quest, Seq::empty());
    }
}

/// An abandoned quest is dismissed, without a suggestion, and its job is disabled.
pub proof fn dismiss_quest_result(
    world: World,
    engine: &QuestEngine,
    found: Option<Quest>,
    r: Option<Plan>,
)
    requires
        call_ensures(QuestEngine::dismiss_quest, (engine, found), r),
    ensures
        r is Some <==> found is Some,
        r is Some ==> {
            let (before, after) = (found->0@, r->0.quest@);
            &&& after.status is Dismissed
            &&& after.suggestion is None
            &&& after.completed_at == before.completed_at
            &&& after.completion_source == before.completion_source
            &&& after.snoozed_until == before.snoozed_until
            &&& same_wording(after, before)
            &&& same_judgement(after, before)
            &&& same_marks(after, before)
            &&& same_item(after, before)
            &&& stores_its_quest(world, r->0)
            &&& fails_with_its_row_alone(r->0)
            &&& announces_the_update_alone(world, r->0)
            &&& syncs_the_job(world, r->0, engine.interval())
        },
{
    if r is Some {
        let quest = r->0@.quest;
        lemma_required(r->0, engine.interval());
        lemma_plan_effects(world, quest, engine.interval());
        lemma_plans(world, quest, engine.interval());
    }
}

/// A reopened quest is open, with nothing recorded of a completion, and its job is enabled
/// again.
pub proof fn reopen_quest_result(
    world: World,
    engine: &QuestEngine,
    found: Option<Quest>,
    r: Option<Plan>,
)
    requires
        call_ensures(QuestEngine::reopen_quest, (engine, found), r),
    ensures
        r is Some <==> found is Some,
        r is Some ==> {
            let (before, after) = (found->0@, r->0.quest@);
            &&& after.status is Open
            &&& after.completed_at is None
            &&& after.completion_source is None
            &&& same_wording(after, before)
            &&& same_suggestion(after, before)
            &&& same_judgement(after, before)
            &&& same_marks(after, before)
            &&& same_item(after, before)
            &&& stores_its_quest(world, r->0)
            &&& fails_with_its_row_alone(r->0)
            &&& announces_the_update_alone(world, r->0)
            &&& syncs_the_job(world, r->0, engine.interval())
        },
{
    if r is Some {
        let quest = r->0@.quest;
        lemma_required(r->0, engine.interval());
        lemma_plan_effects(world, quest, engine.interval());
        lemma_plans(world, quest, engine.interval());
    }
}

/// A used item records when; checked off as well, it is completed by hand, its job is
/// disabled, and that is announced; otherwise its job is not touched.
pub proof fn engine_mark_used_result(
    world: World,
    engine: &QuestEngine,
    found: Option<Quest>,
    complete: bool,
    r: Option<Plan>,
)
    requires
        call_ensures(QuestEngine::mark_used, (engine, found, complete), r),
    ensures
        r is Some <==> found is Some,
        r is Some ==> {
            let (before, after) = (found->0@, r->0.quest@);
            &&& after.used_at == Some(after.updated_at)
            &&& after.pinned == before.pinned
            &&& same_wording(after, before)
            &&& same_judgement(after, before)
            &&& same_item(after, before)
            &&& stores_its_quest(world, r->0)
            &&& fails_with_its_row_alone(r->0)
            &&& !complete ==> same_completion(after, before) && same_suggestion(after, before)
                && announces_the_update_alone(world, r->0) && world_after(world, r->0).jobs
                == world.jobs
            &&& complete ==> after.status is Done && after.completed_at == Some(after.updated_at)
                && after.completion_source == Some(CompletionSource::Manual)
                && after.suggestion is None && after.snoozed_until is None && syncs_the_job(
                world,
                r->0,
                engine.interval(),
            ) && world_after(world, r->0).events.len() == world.events.len() + 2 && world_after(
                world,
                r->0,
            ).events.last() == (EventView::Completed { quest: after, auto: false })
        },
{
    if r is Some {
        let quest = r->0@.quest;
        lemma_required(r->0, engine.interval());
        lemma_plan_effects(world, quest, engine.interval());
        lemma_plans(world, quest, engine.interval());
    }
}

/// A pinned item is stored as such, and nothing else of it changes, nor its job.
pub proof fn set_pinned_result(
    world: World,
    engine: &QuestEngine,
    found: Option<Quest>,
    pinned: bool,
    r: Option<Plan>,
)
    requires
        call_ensures(QuestEngine::set_pinned, (engine, found, pinned), r),
    ensures
        r is Some <==> found is Some,
        r is Some ==> {
            let (before, after) = (found->0@, r->0.quest@);
            &&& after.pinned == pinned
            &&& after.used_at == before.used_at
            &&& same_wording(after, before)
            &&& same_completion(after, before)
            &&& same_suggestion(after, before)
            &&& same_judgement(after, before)
            &&& same_item(after, before)
            &&& stores_its_quest(world, r->0)
            &&& fails_with_its_row_alone(r->0)
            &&& announces_the_update_alone(world, r->0)
            &&& world_after(world, r->0).jobs == world.jobs
        },
{
    if r is Some {
        let quest = r->0@.quest;
        lemma_required(r->0, engine.interval());
        lemma_plan_effects(world, quest, engine.interval());
        lemma_plans(world, quest, engine.interval());
    }
}

/// A deleted quest is gone, with its job and its detections; its job first, and only the
/// deletion of its row can fail.
pub proof fn delete_quest_result(world: World, engine: &QuestEngine, id: &str, r: Vec<Step>)
    requires
        call_ensures(QuestEngine::delete_quest, (engine, id), r),
    ensures
        ({
            let after = world.after_all(steps_of(r@));
            &&& after.quests == world.quests.remove(id@)
            &&& after.jobs == world.jobs.remove(id@)
            &&& forall|i: int|
                0 <= i < after.detections.len() ==> (#[trigger] after.detections[i]).quest_id
                    != id@
        }),
        r@.len() == 2,
        r@[0]@.action == ActionView::DeleteJob(id@),
        !r@[0]@.required,
        r@[1]@.action == ActionView::Delete(id@),
        r@[1]@.required,
{
    crate::laws::deletion_leaves_nothing(world, id@);
    assert(steps_of(r@).len() == r@.len());
    assert(steps_of(r@)[0] == r@[0]@);
    assert(steps_of(r@)[1] == r@[1]@);
}

/// Every operation of the engine keeps a coherent quest coherent.
pub proof fn operations_keep_coherence(
    engine: &QuestEngine,
    quest: Quest,
    detected: bool,
    completed: Option<Plan>,
    dismissed: Option<Plan>,
    reopened: Option<Plan>,
    rested: Option<Plan>,
)
    requires
        is_coherent(quest@),
        call_ensures(QuestEngine::complete_quest, (engine, Some(quest), detected), completed),
        call_ensures(QuestEngine::dismiss_quest, (engine, Some(quest)), dismissed),
        call_ensures(QuestEngine::reopen_quest, (engine, Some(quest)), reopened),
        call_ensures(QuestEngine::dismiss_suggestion, (engine, Some(quest)), rested),
    ensures
        completed is Some && is_coherent(completed->0.quest@),
        dismissed is Some && is_coherent(dismissed->0.quest@),
        reopened is Some && is_coherent(reopened->0.quest@),
        rested is Some && is_coherent(rested->0.quest@),
{
}

// ---- the store and its runs ------------------------------------------------------------
/// What is announced of a row that was written, and of one that was deleted where there was
/// one.
pub proof fn store_event_results(
    quest: &Quest,
    updated: QuestEvent,
    id: &str,
    rows: usize,
    gone: Option<QuestEvent>,
)
    requires
        call_ensures(upserted, (quest,), updated),
        call_ensures(deleted, (id, rows), gone),
    ensures
        updated@ == (EventView::Updated { quest: quest@ }),
        rows == 0 <==> gone is None,
        gone is Some ==> gone->0@ == (EventView::Deleted { id: id@ }),
{
}

/// The rows that could be read are kept, in their order, and the others left out.
pub proof fn keep_readable_result(
    rows: Vec<Option<Quest>>,
    more: Vec<Option<Quest>>,
    all: Vec<Option<Quest>>,
    kept: Vec<Quest>,
    kept_more: Vec<Quest>,
    kept_all: Vec<Quest>,
    quest: Quest,
)
    requires
        all@ == rows@ + more@,
        call_ensures(keep_readable, (rows,), kept),
        call_ensures(keep_readable, (more,), kept_more),
        call_ensures(keep_readable, (all,), kept_all),
    ensures
        quests_of(kept_all@) == quests_of(kept@) + quests_of(kept_more@),
        rows@ == seq![Some(quest)] ==> quests_of(kept@) == seq![quest@],
        rows@ == seq![None::<Quest>] ==> kept@.len() == 0,
{
    readable_rows_are_kept(rows@, more@, quest);
    assert(quests_of(kept@).len() == kept@.len());
}

/// A run hands out its steps in their order, and nothing more once all were taken or one
/// that had to succeed failed.
pub proof fn run_results(
    steps: Vec<Step>,
    fresh: Run,
    run: &Run,
    next: Option<&Action>,
    over: Run,
    result: Result<(), String>,
)
    requires
        call_ensures(Run::new, (steps,), fresh),
        call_ensures(Run::next, (run,), next),
        call_ensures(Run::result, (over,), result),
    ensures
        fresh.steps@ == steps@,
        fresh.taken == 0,
        fresh.failure is None,
        next is Some <==> run.failure is None && run.taken < run.steps@.len(),
        next is Some ==> next->0@ == run.steps@[run.taken as int].action@,
        result is Ok <==> over.failure is None,
        over.failure is Some ==> result is Err && result->Err_0@ == over.failure->0@,
{
}

/// Reporting on a step takes it, and stops the run exactly where the step failed and had to
/// succeed.
pub proof fn report_result(run: &mut Run, outcome: Result<(), String>)
    requires
        old(run).failure is None,
        old(run).taken < old(run).steps@.len(),
        call_ensures(Run::report, (run, outcome), ()),
    ensures
        final(run).steps@ == old(run).steps@,
        final(run).taken == old(run).taken + 1,
        final(run).failure is Some <==> outcome is Err
            && old(run).steps@[old(run).taken as int].required,
        final(run).failure is Some ==> final(run).failure->0@ == outcome->Err_0@,
{
    assert(text_of(final(run).failure) is Some <==> final(run).failure is Some);
}

} // verus!
