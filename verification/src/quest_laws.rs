//! What each change of a quest leaves as it was, and what it does not.
use vstd::prelude::*;

use crate::laws::{same_item, stored_quests_are_read_back};
use crate::operations::{
    capture_kind, capture_title, change, completion, creation, removal, rewrite,
};
use crate::plan::{readable, ActionView, EventView, World};
use crate::quest::{
    kind_name, kind_named, CaptureSourceView, CompletionSource, Quest, QuestKind, QuestView,
    SuggestionView,
};
use crate::text::{is_white, trimmed};
use crate::text_laws::{all_white, blank_is_white_space_alone, none_white, on_one_line};
use crate::verdict::VerdictView;

verus! {

/// Whether two quests have the same title, description and condition.
pub open spec fn same_wording(a: QuestView, b: QuestView) -> bool {
    &&& a.title == b.title
    &&& a.detail == b.detail
    &&& a.completion_condition == b.completion_condition
}

/// Whether two quests have the same status, and record the same of a completion.
pub open spec fn same_completion(a: QuestView, b: QuestView) -> bool {
    &&& a.status == b.status
    &&& a.completed_at == b.completed_at
    &&& a.completion_source == b.completion_source
}

/// Whether two quests were last judged at the same time.
pub open spec fn same_judgement(a: QuestView, b: QuestView) -> bool {
    a.last_judged_at == b.last_judged_at
}

/// Whether two quests have the same suggestion and the same snooze.
pub open spec fn same_suggestion(a: QuestView, b: QuestView) -> bool {
    &&& a.suggestion == b.suggestion
    &&& a.snoozed_until == b.snoozed_until
}

/// Whether two quests are pinned alike and were last used at the same time.
pub open spec fn same_marks(a: QuestView, b: QuestView) -> bool {
    &&& a.pinned == b.pinned
    &&& a.used_at == b.used_at
}

/// Whether a description is worth keeping: it is there, and something other than white
/// space is in it.
pub open spec fn says_something(detail: Option<Seq<char>>) -> bool {
    detail is Some && !all_white(detail->0)
}

// ---- new items -------------------------------------------------------------------------
/// A new task has the given title and condition without space around them, the given
/// description where it says something, and nothing else: it is open, was never judged,
/// snoozed, suggested, pinned or used, and holds nothing captured.
pub proof fn new_task_holds_what_was_given(
    id: Seq<char>,
    title: Seq<char>,
    detail: Option<Seq<char>>,
    condition: Seq<char>,
    now: Seq<char>,
)
    ensures
        ({
            let quest = QuestView::task(id, title, detail, condition, now);
            &&& quest.id == id
            &&& quest.title == trimmed(title)
            &&& says_something(detail) ==> quest.detail == detail
            &&& !says_something(detail) ==> quest.detail is None
            &&& quest.completion_condition == trimmed(condition)
            &&& quest.status is Open
            &&& quest.created_at == now
            &&& quest.updated_at == now
            &&& quest.completed_at is None
            &&& quest.completion_source is None
            &&& quest.last_judged_at is None
            &&& quest.snoozed_until is None
            &&& quest.suggestion is None
            &&& quest.kind is Task
            &&& quest.body is None
            &&& quest.source is None
            &&& !quest.pinned
            &&& quest.used_at is None
        }),
{
    if detail is Some {
        blank_is_white_space_alone(detail->0);
    }
}

/// A new captured item is of the given kind, under the given label without space around
/// it, and holds the text and where it came from as they were given. In all else it is
/// like a new task without a description or a condition.
pub proof fn new_capture_holds_what_was_given(
    id: Seq<char>,
    kind: QuestKind,
    title: Seq<char>,
    body: Seq<char>,
    source: Option<CaptureSourceView>,
    now: Seq<char>,
)
    ensures
        ({
            let quest = QuestView::capture(id, kind, title, body, source, now);
            &&& quest.id == id
            &&& quest.title == trimmed(title)
            &&& quest.detail is None
            &&& quest.completion_condition == Seq::<char>::empty()
            &&& quest.status is Open
            &&& quest.created_at == now
            &&& quest.updated_at == now
            &&& quest.completed_at is None
            &&& quest.completion_source is None
            &&& quest.last_judged_at is None
            &&& quest.snoozed_until is None
            &&& quest.suggestion is None
            &&& quest.kind == kind
            &&& quest.body == Some(body)
            &&& quest.source == source
            &&& !quest.pinned
            &&& quest.used_at is None
        }),
{
    assert(trimmed(Seq::<char>::empty()) == Seq::<char>::empty());
}

// ---- changes by the user ---------------------------------------------------------------
/// Editing a quest leaves its status, when and how it was completed, its suggestion and
/// snooze, when it was judged and used, and whether it is pinned as they were: only the
/// title, the description, the condition and the time of the update may differ. The title
/// and the condition are the given ones without space around them, and a description that
/// says nothing is dropped.
pub proof fn editing_changes_the_wording_alone(
    quest: QuestView,
    title: Seq<char>,
    detail: Option<Seq<char>>,
    condition: Seq<char>,
    now: Seq<char>,
)
    ensures
        ({
            let edited = quest.edited(title, detail, condition, now);
            &&& same_completion(edited, quest)
            &&& same_suggestion(edited, quest)
            &&& same_judgement(edited, quest)
            &&& same_marks(edited, quest)
            &&& same_item(edited, quest)
            &&& edited.title == trimmed(title)
            &&& edited.completion_condition == trimmed(condition)
            &&& says_something(detail) ==> edited.detail == detail
            &&& !says_something(detail) ==> edited.detail is None
            &&& edited.updated_at == now
        }),
{
    if detail is Some {
        blank_is_white_space_alone(detail->0);
    }
}

/// An edited quest is stored with the status and the record of completion that it had, and
/// its job is enabled exactly where it was open.
pub proof fn edited_quests_keep_their_status(
    world: World,
    quest: QuestView,
    title: Seq<char>,
    detail: Option<Seq<char>>,
    condition: Seq<char>,
    interval: Seq<char>,
    now: Seq<char>,
)
    ensures
        ({
            let plan = change(quest.edited(title, detail, condition, now), interval);
            let after = world.after_all(plan.steps);
            &&& after.quests.contains_key(quest.id)
            &&& same_completion(after.quests[quest.id], quest)
            &&& same_completion(plan.quest, quest)
            &&& quest.kind is Task ==> after.jobs.contains_key(quest.id)
                && after.jobs[quest.id].open == (quest.status is Open)
                && after.jobs[quest.id].title == trimmed(title)
        }),
{
    let edited = quest.edited(title, detail, condition, now);
    stored_quests_are_read_back(world, edited, interval);
    if quest.kind is Task {
        crate::laws::jobs_follow_the_status(world, edited, interval);
    }
}

/// A quest that the user completes is done from then on, by hand or by a detection that
/// was confirmed, without a suggestion or a snooze. Nothing else of it changes.
pub proof fn completing_closes_the_quest(quest: QuestView, detected: bool, now: Seq<char>)
    ensures
        ({
            let done = quest.completed(detected, now);
            &&& done.status is Done
            &&& done.completed_at == Some(now)
            &&& detected ==> done.completion_source == Some(CompletionSource::Detected)
            &&& !detected ==> done.completion_source == Some(CompletionSource::Manual)
            &&& done.suggestion is None
            &&& done.snoozed_until is None
            &&& done.updated_at == now
            &&& same_wording(done, quest)
            &&& same_judgement(done, quest)
            &&& same_marks(done, quest)
            &&& same_item(done, quest)
        }),
{
}

/// Dismissing a suggestion leaves none, whatever suggestion there was before, and rests
/// the quest until the given time. Nothing else of it changes.
pub proof fn dismissing_a_suggestion_leaves_none(
    quest: QuestView,
    until: Seq<char>,
    now: Seq<char>,
)
    ensures
        ({
            let resting = quest.snoozed(until, now);
            &&& resting.suggestion is None
            &&& resting.snoozed_until == Some(until)
            &&& resting.updated_at == now
            &&& same_wording(resting, quest)
            &&& same_completion(resting, quest)
            &&& same_judgement(resting, quest)
            &&& same_marks(resting, quest)
            &&& same_item(resting, quest)
        }),
{
}

/// After a suggestion was dismissed the stored quest has no suggestion, whatever it had
/// before, the one given back has none either, and neither its job nor the log of
/// detections is touched.
pub proof fn dismissed_suggestions_are_not_stored(
    world: World,
    quest: QuestView,
    until: Seq<char>,
    now: Seq<char>,
)
    ensures
        ({
            let plan = rewrite(quest.snoozed(until, now));
            let after = world.after_all(plan.steps);
            &&& plan.quest.suggestion is None
            &&& after.quests.contains_key(quest.id)
            &&& after.quests[quest.id].suggestion is None
            &&& after.quests[quest.id].snoozed_until == Some(until)
            &&& after.jobs == world.jobs
            &&& after.detections == world.detections
        }),
{
    let resting = quest.snoozed(until, now);
    stored_quests_are_read_back(world, resting, Seq::empty());
    rewriting_is_one_step(world, resting);
}

/// An abandoned quest is dismissed and has no suggestion. Nothing else of it changes.
pub proof fn dismissing_abandons_the_quest(quest: QuestView, now: Seq<char>)
    ensures
        ({
            let gone = quest.dismissed(now);
            &&& gone.status is Dismissed
            &&& gone.suggestion is None
            &&& gone.updated_at == now
            &&& gone.completed_at == quest.completed_at
            &&& gone.completion_source == quest.completion_source
            &&& gone.snoozed_until == quest.snoozed_until
            &&& same_wording(gone, quest)
            &&& same_judgement(gone, quest)
            &&& same_marks(gone, quest)
            &&& same_item(gone, quest)
        }),
{
}

/// A reopened quest is open, with nothing recorded of a completion. Nothing else of it
/// changes.
pub proof fn reopening_forgets_the_completion(quest: QuestView, now: Seq<char>)
    ensures
        ({
            let open = quest.reopened(now);
            &&& open.status is Open
            &&& open.completed_at is None
            &&& open.completion_source is None
            &&& open.updated_at == now
            &&& same_wording(open, quest)
            &&& same_suggestion(open, quest)
            &&& same_judgement(open, quest)
            &&& same_marks(open, quest)
            &&& same_item(open, quest)
        }),
{
}

/// Pinning changes whether an item is pinned, and nothing else of it.
pub proof fn pinning_moves_nothing_else(quest: QuestView, pinned: bool, now: Seq<char>)
    ensures
        ({
            let moved = quest.with_pin(pinned, now);
            &&& moved.pinned == pinned
            &&& moved.updated_at == now
            &&& moved.used_at == quest.used_at
            &&& same_wording(moved, quest)
            &&& same_completion(moved, quest)
            &&& same_suggestion(moved, quest)
            &&& same_judgement(moved, quest)
            &&& same_item(moved, quest)
        }),
{
}

/// Using an item records when, and nothing else of it changes; where it is to be checked
/// off as well, it is then also completed by hand, like any other.
pub proof fn using_marks_the_item(quest: QuestView, now: Seq<char>)
    ensures
        ({
            let used = quest.used(false, now);
            &&& used.used_at == Some(now)
            &&& used.updated_at == now
            &&& used.pinned == quest.pinned
            &&& same_wording(used, quest)
            &&& same_completion(used, quest)
            &&& same_suggestion(used, quest)
            &&& same_judgement(used, quest)
            &&& same_item(used, quest)
        }),
        ({
            let done = quest.used(true, now);
            &&& done.used_at == Some(now)
            &&& done.updated_at == now
            &&& done.pinned == quest.pinned
            &&& done.status is Done
            &&& done.completed_at == Some(now)
            &&& done.completion_source == Some(CompletionSource::Manual)
            &&& done.suggestion is None
            &&& done.snoozed_until is None
            &&& same_wording(done, quest)
            &&& same_judgement(done, quest)
            &&& same_item(done, quest)
        }),
{
}

// ---- changes by the engine -------------------------------------------------------------
/// Judging a quest records when, and ends a snooze. Nothing else of it changes.
pub proof fn judging_records_the_time(quest: QuestView, now: Seq<char>)
    ensures
        ({
            let judged = quest.judged(now);
            &&& judged.last_judged_at == Some(now)
            &&& judged.snoozed_until is None
            &&& judged.updated_at == now
            &&& judged.suggestion == quest.suggestion
            &&& same_wording(judged, quest)
            &&& same_completion(judged, quest)
            &&& same_marks(judged, quest)
            &&& same_item(judged, quest)
        }),
{
}

/// A quest that the engine completes is done by detection from then on, judged at that
/// time, without a suggestion or a snooze. Nothing else of it changes.
pub proof fn detected_completion_closes_the_quest(quest: QuestView, now: Seq<char>)
    ensures
        ({
            let done = quest.auto_completed(now);
            &&& done.status is Done
            &&& done.completed_at == Some(now)
            &&& done.completion_source == Some(CompletionSource::Detected)
            &&& done.suggestion is None
            &&& done.last_judged_at == Some(now)
            &&& done.snoozed_until is None
            &&& done.updated_at == now
            &&& same_wording(done, quest)
            &&& same_marks(done, quest)
            &&& same_item(done, quest)
        }),
{
}

/// A suggestion carries the verdict's confidence and reason, the evidence and the time,
/// and takes the place of any other. Of the quest nothing else changes but that it was
/// judged.
pub proof fn suggesting_carries_the_verdict(
    quest: QuestView,
    verdict: VerdictView,
    evidence: Seq<char>,
    now: Seq<char>,
)
    ensures
        ({
            let next = quest.suggested(verdict, evidence, now);
            &&& next.suggestion is Some
            &&& next.suggestion->0.confidence == verdict.confidence
            &&& next.suggestion->0.reason == verdict.reason
            &&& next.suggestion->0.evidence == Some(evidence)
            &&& next.suggestion->0.suggested_at == now
            &&& next.last_judged_at == Some(now)
            &&& next.snoozed_until is None
            &&& next.updated_at == now
            &&& same_wording(next, quest)
            &&& same_completion(next, quest)
            &&& same_marks(next, quest)
            &&& same_item(next, quest)
        }),
{
}

/// A verdict is suggested already exactly where the pending suggestion has its confidence
/// and its reason, whatever the evidence and the time.
pub proof fn suggestions_are_told_apart_by_the_verdict(quest: QuestView, verdict: VerdictView)
    ensures
        quest.suggests(verdict) <==> exists|evidence: Option<Seq<char>>, at: Seq<char>|
            quest.suggestion == Some(
                #[trigger] suggestion_with(verdict.confidence, verdict.reason, evidence, at),
            ),
{
    if quest.suggests(verdict) {
        let s = quest.suggestion->0;
        let (confidence, reason) = (verdict.confidence, verdict.reason);
        assert(s == suggestion_with(confidence, reason, s.evidence, s.suggested_at));
    }
}

/// A suggestion of the given parts.
pub open spec fn suggestion_with(
    confidence: u8,
    reason: Seq<char>,
    evidence: Option<Seq<char>>,
    at: Seq<char>,
) -> SuggestionView {
    SuggestionView { confidence, reason, evidence, suggested_at: at }
}

/// A quest is judged by its condition, and by its title where the condition says nothing,
/// in either case without space around it.
pub proof fn judged_by_condition_or_title(quest: QuestView)
    ensures
        all_white(quest.completion_condition) ==> quest.condition() == trimmed(quest.title),
        !all_white(quest.completion_condition) ==> quest.condition() == trimmed(
            quest.completion_condition,
        ),
{
    blank_is_white_space_alone(quest.completion_condition);
}

// ---- kinds -----------------------------------------------------------------------------
/// Each kind is named as on the wire, and only its name names it; every other name stands
/// for a task.
pub proof fn kinds_are_named_exactly(name: Seq<char>)
    ensures
        kind_named(name) is Note <==> name == "note"@,
        kind_named(name) is Link <==> name == "link"@,
        kind_named(name) is Prompt <==> name == "prompt"@,
        kind_named(name) is Snippet <==> name == "snippet"@,
        kind_name(QuestKind::Task) == "task"@,
        kind_name(QuestKind::Note) == "note"@,
        kind_name(QuestKind::Link) == "link"@,
        kind_name(QuestKind::Prompt) == "prompt"@,
        kind_name(QuestKind::Snippet) == "snippet"@,
{
    reveal_strlit("note");
    reveal_strlit("link");
    reveal_strlit("prompt");
    reveal_strlit("snippet");
    assert("note"@[0] == 'n' && "link"@[0] == 'l' && "prompt"@[0] == 'p' && "snippet"@[0] == 's');
}

// ---- captures --------------------------------------------------------------------------
/// A captured text is of the kind that was given; without one it is a link exactly where
/// it is, but for space around it, an address that starts with `http://` or `https://` and
/// holds no white space, and a note otherwise.
pub proof fn captures_are_links_or_notes(
    kind: QuestKind,
    before: Seq<char>,
    text: Seq<char>,
    behind: Seq<char>,
)
    requires
        all_white(before),
        all_white(behind),
        text.len() > 0 ==> !is_white(text[0]) && !is_white(text.last()),
    ensures
        capture_kind(Some(kind), before + text + behind) == kind,
        capture_kind(None, before + text + behind) == (if none_white(text) && (
        "http://"@.is_prefix_of(text) || "https://"@.is_prefix_of(text)) {
            QuestKind::Link
        } else {
            QuestKind::Note
        }),
{
    crate::text_laws::stripping_ignores_space_around(before, text, behind);
    if text.len() > 0 {
        crate::text_laws::nothing_to_strip(text);
    }
}

/// A captured text has the label that was given, where that says something.
pub proof fn given_labels_are_kept(title: Seq<char>, body: Seq<char>)
    requires
        !all_white(title),
    ensures
        capture_title(Some(title), body) == title,
{
    blank_is_white_space_alone(title);
}

/// A captured text without a label is known by its first line that says something, without
/// space around it; a label of white space alone counts as none.
pub proof fn first_line_is_the_label(
    title: Seq<char>,
    before: Seq<char>,
    line: Seq<char>,
    rest: Seq<char>,
)
    requires
        all_white(title),
        all_white(before),
        on_one_line(line),
        line.len() > 0,
        !is_white(line[0]),
        rest.len() > 0 ==> rest[0] == '\n',
    ensures
        capture_title(None, before + line + rest) == trimmed(line),
        capture_title(Some(title), before + line + rest) == trimmed(line),
{
    blank_is_white_space_alone(title);
    crate::text_laws::lemma_first_line(before, line, rest);
}

/// A captured text that says nothing has an empty label, unless one that says something is
/// given.
pub proof fn blank_captures_have_no_label(title: Seq<char>, body: Seq<char>)
    requires
        all_white(title),
        all_white(body),
    ensures
        capture_title(None, body) == Seq::<char>::empty(),
        capture_title(Some(title), body) == Seq::<char>::empty(),
        capture_kind(None, body) is Note,
{
    blank_is_white_space_alone(title);
    crate::text_laws::lemma_all_white(body);
    assert(trimmed(body) =~= Seq::<char>::empty());
    captures_are_links_or_notes(QuestKind::Task, body, Seq::empty(), Seq::empty());
    assert(body + Seq::<char>::empty() + Seq::<char>::empty() =~= body);
    reveal_strlit("http://");
    reveal_strlit("https://");
    assert("http://"@.len() == 7 && "https://"@.len() == 8);
}

// ---- plans -----------------------------------------------------------------------------
/// Storing a quest again is one step.
proof fn rewriting_is_one_step(world: World, quest: QuestView)
    ensures
        world.after_all(rewrite(quest).steps) == world.after(ActionView::Upsert(quest)),
{
    reveal_with_fuel(World::after_all, 2);
    assert(rewrite(quest).steps.drop_last() =~= Seq::empty());
}

/// Every operation gives back the quest that it stores, announces that it was updated, and
/// leaves the log of detections; a completion by the user is announced as such, and nothing
/// else is.
pub proof fn operations_announce_what_they_store(
    world: World,
    quest: QuestView,
    interval: Seq<char>,
)
    ensures
        creation(quest, interval).quest == quest,
        rewrite(quest).quest == quest,
        change(quest, interval).quest == quest,
        completion(quest, interval).quest == quest,
        world.after_all(creation(quest, interval).steps).events == world.events.push(
            EventView::Updated { quest },
        ),
        world.after_all(rewrite(quest).steps).events == world.events.push(
            EventView::Updated { quest },
        ),
        world.after_all(change(quest, interval).steps).events == world.events.push(
            EventView::Updated { quest },
        ),
        world.after_all(completion(quest, interval).steps).events == world.events.push(
            EventView::Updated { quest },
        ).push(EventView::Completed { quest, auto: false }),
        world.after_all(creation(quest, interval).steps).detections == world.detections,
        world.after_all(rewrite(quest).steps).detections == world.detections,
        world.after_all(rewrite(quest).steps).jobs == world.jobs,
        world.after_all(change(quest, interval).steps).detections == world.detections,
        world.after_all(completion(quest, interval).steps).detections == world.detections,
{
    crate::laws::lemma_plan_worlds(world, quest, interval);
}

/// The row of a quest is written before its job, and its job before a completion is
/// announced.
pub proof fn rows_come_first(quest: QuestView, interval: Seq<char>)
    requires
        quest.kind is Task,
    ensures
        creation(quest, interval).steps.len() == 2,
        creation(quest, interval).steps[0].action == ActionView::Upsert(quest),
        creation(quest, interval).steps[1].action is SyncJob,
        change(quest, interval).steps.len() == 2,
        change(quest, interval).steps[0].action == ActionView::Upsert(quest),
        change(quest, interval).steps[1].action is SyncJob,
        completion(quest, interval).steps.len() == 3,
        completion(quest, interval).steps[0].action == ActionView::Upsert(quest),
        completion(quest, interval).steps[1].action is SyncJob,
        completion(quest, interval).steps[2].action is Broadcast,
{
}

/// Storing a quest again fails where its row cannot be written; deleting one fails where
/// its row cannot be deleted, and not where its job cannot.
pub proof fn rows_decide_over_failure(quest: QuestView, id: Seq<char>)
    ensures
        rewrite(quest).steps.len() == 1,
        rewrite(quest).steps[0].required,
        removal(id).len() == 2,
        removal(id)[0].action == ActionView::DeleteJob(id),
        !removal(id)[0].required,
        removal(id)[1].action == ActionView::Delete(id),
        removal(id)[1].required,
{
}

/// Of the rows of a store exactly those that could be read are quests, in their order: what
/// is read of two lists of rows is what is read of the one and then of the other.
pub proof fn readable_rows_are_kept(a: Seq<Option<Quest>>, b: Seq<Option<Quest>>, quest: Quest)
    ensures
        readable(a + b) == readable(a) + readable(b),
        readable(seq![Some(quest)]) == seq![quest@],
        readable(seq![None]) == Seq::<QuestView>::empty(),
    decreases b.len(),
{
    let none = Seq::<Option<Quest>>::empty();
    assert(seq![Some(quest)].drop_last() =~= none);
    assert(seq![None::<Quest>].drop_last() =~= none);
    assert(readable(none) =~= Seq::<QuestView>::empty());
    assert(readable(seq![Some(quest)]) =~= seq![quest@]);
    if b.len() == 0 {
        assert(a + b =~= a);
        assert(readable(a) + readable(b) =~= readable(a));
    } else {
        readable_rows_are_kept(a, b.drop_last(), quest);
        assert((a + b).drop_last() =~= a + b.drop_last());
        assert(readable(a + b) =~= readable(a) + readable(b));
    }
}

} // verus!
