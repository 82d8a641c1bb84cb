//! The operations of the engine on quests, each as a plan of what is to be done
//! outside.
use vstd::prelude::*;

use crate::clock::{is_stamp, rfc3339_moment, timestamp_now, Moment, LAST_FOUR_DIGIT_SECOND};
use crate::engine::{is_quest_id, new_quest_id, QuestEngine};
use crate::plan::{
    best_effort, may, must, required, steps_of, Action, ActionView, EventView, Plan, PlanView,
    QuestEvent, Step, StepView,
};
use crate::quest::{source_of, CaptureSource, Quest, QuestKind, QuestStatus, QuestView};
use crate::text::{
    blank, has_prefix, is_blank, is_white, lines, split_lines, text_of, trim, trim_owned, trimmed,
    white,
};

verus! {

/// After a user dismisses a suggestion, judging skips the quest for this long so it
/// does not immediately suggest the same (rejected) completion again.
pub const DISMISS_SNOOZE_SECS: u32 = 3600;

// ---- plans -------------------------------------------------------------------------
/// The job that backs a quest, enabled only while the quest is open.
pub open spec fn backing_job(quest: QuestView, interval: Seq<char>) -> ActionView {
    ActionView::SyncJob {
        quest_id: quest.id,
        title: quest.title,
        interval,
        open: quest.status is Open,
    }
}

/// The step that brings the backing job up to date. Only a task has a job: for a
/// captured item nothing is done at all.
pub open spec fn job_steps(quest: QuestView, interval: Seq<char>) -> Seq<StepView> {
    if quest.kind is Task {
        seq![may(backing_job(quest, interval))]
    } else {
        Seq::empty()
    }
}

/// A quest stored for the first time. That its job could not be made fails the
/// operation.
pub open spec fn creation(quest: QuestView, interval: Seq<char>) -> PlanView {
    PlanView {
        quest,
        steps: seq![must(ActionView::Upsert(quest))] + (if quest.kind is Task {
            seq![must(backing_job(quest, interval))]
        } else {
            Seq::empty()
        }),
    }
}

/// A quest stored again, its job left as it is.
pub open spec fn rewrite(quest: QuestView) -> PlanView {
    PlanView { quest, steps: seq![must(ActionView::Upsert(quest))] }
}

/// A quest stored again, its job brought up to date.
pub open spec fn change(quest: QuestView, interval: Seq<char>) -> PlanView {
    PlanView {
        quest,
        steps: seq![must(ActionView::Upsert(quest))] + job_steps(quest, interval),
    }
}

/// A quest completed by the user: stored, its job brought up to date, and announced.
pub open spec fn completion(quest: QuestView, interval: Seq<char>) -> PlanView {
    PlanView {
        quest,
        steps: change(quest, interval).steps.push(
            may(ActionView::Broadcast(EventView::Completed { quest, auto: false })),
        ),
    }
}

/// A quest removed: first its job, then its row and its detections.
pub open spec fn removal(id: Seq<char>) -> Seq<StepView> {
    seq![may(ActionView::DeleteJob(id)), must(ActionView::Delete(id))]
}

/// The action that brings the backing job up to date.
pub fn sync_action(quest: &Quest, interval: String) -> (r: Action)
    ensures
        r@ == backing_job(quest@, interval@),
{
    Action::SyncJob {
        quest_id: quest.id.clone(),
        title: quest.title.clone(),
        interval,
        open: quest.status == QuestStatus::Open,
    }
}

/// A list of one step.
fn only(step: Step) -> (r: Vec<Step>)
    ensures
        steps_of(r@) == seq![step@],
{
    let mut steps: Vec<Step> = Vec::new();
    steps.push(step);
    assert(steps_of(steps@) =~= seq![step@]);
    steps
}

/// Appends a step to a list.
pub fn append(steps: &mut Vec<Step>, step: Step)
    ensures
        steps_of(final(steps)@) == steps_of(old(steps)@).push(step@),
{
    let ghost before = steps@;
    steps.push(step);
    assert(steps_of(before.push(step)) =~= steps_of(before).push(step@));
}

/// Plans to store a quest for the first time.
pub fn plan_creation(quest: Quest, interval: String) -> (r: Plan)
    ensures
        r@ == creation(quest@, interval@),
{
    let mut steps = only(required(Action::Upsert(quest.clone())));
    if quest.kind.is_judged() {
        append(&mut steps, required(sync_action(&quest, interval)));
    }
    assert(steps_of(steps@) =~= creation(quest@, interval@).steps);
    Plan { quest, steps }
}

/// Plans to store a quest again, its job left as it is.
pub fn plan_rewrite(quest: Quest) -> (r: Plan)
    ensures
        r@ == rewrite(quest@),
{
    let steps = only(required(Action::Upsert(quest.clone())));
    Plan { quest, steps }
}

/// Plans to store a quest again, its job brought up to date.
pub fn plan_change(quest: Quest, interval: String) -> (r: Plan)
    ensures
        r@ == change(quest@, interval@),
{
    let mut steps = only(required(Action::Upsert(quest.clone())));
    if quest.kind.is_judged() {
        append(&mut steps, best_effort(sync_action(&quest, interval)));
    }
    assert(steps_of(steps@) =~= change(quest@, interval@).steps);
    Plan { quest, steps }
}

/// Plans what follows from the user completing a quest.
pub fn plan_completion(quest: Quest, interval: String) -> (r: Plan)
    ensures
        r@ == completion(quest@, interval@),
{
    let Plan { quest, mut steps } = plan_change(quest, interval);
    let event = QuestEvent::Completed { quest: quest.clone(), auto: false };
    append(&mut steps, best_effort(Action::Broadcast(event)));
    Plan { quest, steps }
}

// ---- captures ----------------------------------------------------------------------
/// Whether a text is a lone web address.
pub open spec fn is_web_address(text: Seq<char>) -> bool {
    &&& "http://"@.is_prefix_of(text) || "https://"@.is_prefix_of(text)
    &&& forall|i: int| 0 <= i < text.len() ==> !is_white(#[trigger] text[i])
}

/// The kind of a captured text for which none is given: a lone web address is a
/// link, anything else a note.
pub open spec fn inferred_kind(body: Seq<char>) -> QuestKind {
    if is_web_address(trimmed(body)) {
        QuestKind::Link
    } else {
        QuestKind::Note
    }
}

/// The first line of a text, without space around it.
pub open spec fn first_line(text: Seq<char>) -> Seq<char> {
    let all = lines(trimmed(text));
    if all.len() > 0 {
        trimmed(all[0])
    } else {
        Seq::empty()
    }
}

/// The label of a captured text: the given one, else the first line of the body.
pub open spec fn capture_title(title: Option<Seq<char>>, body: Seq<char>) -> Seq<char> {
    match title {
        Some(t) if !is_blank(t) => t,
        _ => first_line(body),
    }
}

/// The kind of a captured text.
pub open spec fn capture_kind(kind: Option<QuestKind>, body: Seq<char>) -> QuestKind {
    match kind {
        Some(k) => k,
        None => inferred_kind(body),
    }
}

/// Whether a text holds no white space.
fn unbroken(text: &str) -> (r: bool)
    ensures
        r == (forall|i: int| 0 <= i < text@.len() ==> !is_white(#[trigger] text@[i])),
{
    for c in it: text.chars()
        invariant
            it.seq() == text@,
            forall|i: int| 0 <= i < it.index() ==> !is_white(#[trigger] text@[i]),
    {
        if white(c) {
            assert(is_white(text@[it.index()]));
            return false;
        }
    }
    true
}

/// Infers the kind of a captured text.
pub fn infer_kind(body: &str) -> (r: QuestKind)
    ensures
        r == inferred_kind(body@),
{
    let text = trim(body);
    if (has_prefix(text, "http://") || has_prefix(text, "https://")) && unbroken(text) {
        QuestKind::Link
    } else {
        QuestKind::Note
    }
}

/// The first line of a text, without space around it.
pub fn take_first_line(text: &str) -> (r: String)
    ensures
        r@ == first_line(text@),
{
    let all = split_lines(trim(text));
    if all.len() > 0 {
        assert(crate::text::texts(all@)[0] == all@[0]@);
        trim_owned(all[0].as_str())
    } else {
        assert(crate::text::texts(all@).len() == 0);
        let empty = String::new();
        assert(empty@ == Seq::<char>::empty());
        empty
    }
}

// ---- operations ----------------------------------------------------------------------
/// The plan for a quest that was found; nothing where none was.
pub open spec fn planned(plan: Option<Plan>) -> Option<PlanView> {
    match plan {
        Some(p) => Some(p@),
        None => None,
    }
}

impl QuestEngine {
    /// Creates a quest and its backing detection job. Trims the title and condition
    /// and drops an empty detail. A failure to persist the job is surfaced.
    pub fn create_quest(
        &self,
        title: String,
        detail: Option<String>,
        completion_condition: String,
    ) -> (r: Plan)
        ensures
            is_quest_id(r.quest@.id),
            is_stamp(r.quest@.created_at),
            r@ == creation(
                QuestView::task(
                    r.quest@.id,
                    title@,
                    text_of(detail),
                    completion_condition@,
                    r.quest@.created_at,
                ),
                self.interval(),
            ),
    {
        let now = timestamp_now();
        let quest = Quest::task(
            new_quest_id(),
            title.as_str(),
            detail,
            completion_condition.as_str(),
            now.as_str(),
        );
        plan_creation(quest, self.resolve_interval())
    }

    /// Keeps a captured text verbatim, with where it came from. Without a kind it is
    /// inferred from the text; without a title the text's first line stands for it.
    pub fn capture(
        &self,
        kind: Option<QuestKind>,
        title: Option<String>,
        body: String,
        source: Option<CaptureSource>,
    ) -> (r: Plan)
        ensures
            is_quest_id(r.quest@.id),
            is_stamp(r.quest@.created_at),
            r@ == creation(
                QuestView::capture(
                    r.quest@.id,
                    capture_kind(kind, body@),
                    capture_title(text_of(title), body@),
                    body@,
                    source_of(source),
                    r.quest@.created_at,
                ),
                self.interval(),
            ),
    {
        let now = timestamp_now();
        let kind = match kind {
            Some(k) => k,
            None => infer_kind(body.as_str()),
        };
        let label = match title {
            Some(t) => if blank(t.as_str()) {
                take_first_line(body.as_str())
            } else {
                t
            },
            None => take_first_line(body.as_str()),
        };
        let quest = Quest::captured(
            new_quest_id(),
            kind,
            label.as_str(),
            body,
            source,
            now.as_str(),
        );
        plan_creation(quest, self.resolve_interval())
    }

    /// Edits a quest's title, detail and completion condition, and brings its job up
    /// to date (best-effort). Nothing where the quest does not exist.
    pub fn update_quest(
        &self,
        found: Option<Quest>,
        title: String,
        detail: Option<String>,
        completion_condition: String,
    ) -> (r: Option<Plan>)
        ensures
            match found {
                Some(quest) => {
                    &&& r is Some
                    &&& is_stamp(r->0.quest@.updated_at)
                    &&& r->0@ == change(
                        quest@.edited(
                            title@,
                            text_of(detail),
                            completion_condition@,
                            r->0.quest@.updated_at,
                        ),
                        self.interval(),
                    )
                },
                None => r is None,
            },
    {
        match found {
            Some(quest) => {
                let now = timestamp_now();
                let edited = quest.edit(
                    title.as_str(),
                    detail,
                    completion_condition.as_str(),
                    now.as_str(),
                );
                Some(plan_change(edited, self.resolve_interval()))
            },
            None => None,
        }
    }

    /// Deletes a quest, its detection history, and its backing job.
    pub fn delete_quest(&self, id: &str) -> (r: Vec<Step>)
        ensures
            steps_of(r@) == removal(id@),
    {
        let mut steps = only(best_effort(Action::DeleteJob(id.to_owned())));
        append(&mut steps, required(Action::Delete(id.to_owned())));
        assert(steps_of(steps@) =~= removal(id@));
        steps
    }

    /// Completes a quest for the user (a check-off, or a confirmed suggestion, which
    /// `detected` tells apart), and disables its job (best-effort).
    pub fn complete_quest(&self, found: Option<Quest>, detected: bool) -> (r: Option<Plan>)
        ensures
            match found {
                Some(quest) => {
                    &&& r is Some
                    &&& is_stamp(r->0.quest@.updated_at)
                    &&& r->0@ == completion(
                        quest@.completed(detected, r->0.quest@.updated_at),
                        self.interval(),
                    )
                },
                None => r is None,
            },
    {
        match found {
            Some(quest) => {
                let now = timestamp_now();
                let done = quest.complete(detected, now.as_str());
                Some(plan_completion(done, self.resolve_interval()))
            },
            None => None,
        }
    }

    /// Dismisses the *pending suggestion* at a given moment but keeps the quest as it
    /// is otherwise, snoozing further judging so that the same rejected completion
    /// does not immediately reappear.
    pub fn dismiss_suggestion_at(&self, found: Option<Quest>, now: Moment) -> (r: Option<Plan>)
        requires
            now.in_range(),
        ensures
            planned(r) == (match found {
                Some(quest) => Some(
                    rewrite(
                        quest@.snoozed(
                            now.later(DISMISS_SNOOZE_SECS as int).stamp(),
                            now.stamp(),
                        ),
                    ),
                ),
                None => None,
            }),
            r is Some && now.secs + DISMISS_SNOOZE_SECS <= LAST_FOUR_DIGIT_SECOND
                ==> rfc3339_moment(r->0.quest@.snoozed_until->0) == Some(
                ((now.secs + DISMISS_SNOOZE_SECS) as i64, now.nanos),
            ),
    {
        match found {
            Some(quest) => {
                let until = now.after(DISMISS_SNOOZE_SECS).timestamp();
                let stamp = now.timestamp();
                Some(plan_rewrite(quest.snooze(until, stamp.as_str())))
            },
            None => None,
        }
    }

    /// Dismisses the *pending suggestion* and snoozes further judging.
    pub fn dismiss_suggestion(&self, found: Option<Quest>) -> (r: Option<Plan>)
        ensures
            match found {
                Some(quest) => exists|now: Moment|
                    {
                        &&& now.in_range()
                        &&& planned(r) == Some(
                            rewrite(
                                quest@.snoozed(
                                    now.later(DISMISS_SNOOZE_SECS as int).stamp(),
                                    #[trigger] now.stamp(),
                                ),
                            ),
                        )
                        &&& now.secs + DISMISS_SNOOZE_SECS <= LAST_FOUR_DIGIT_SECOND
                            ==> rfc3339_moment(r->0.quest@.snoozed_until->0) == Some(
                            ((now.secs + DISMISS_SNOOZE_SECS) as i64, now.nanos),
                        )
                    },
                None => r is None,
            },
    {
        self.dismiss_suggestion_at(found, Moment::now())
    }

    /// Dismisses the whole quest (abandons it); it is never judged again. Also
    /// disables its job (best-effort).
    pub fn dismiss_quest(&self, found: Option<Quest>) -> (r: Option<Plan>)
        ensures
            match found {
                Some(quest) => {
                    &&& r is Some
                    &&& is_stamp(r->0.quest@.updated_at)
                    &&& r->0@ == change(
                        quest@.dismissed(r->0.quest@.updated_at),
                        self.interval(),
                    )
                },
                None => r is None,
            },
    {
        match found {
            Some(quest) => {
                let now = timestamp_now();
                Some(plan_change(quest.dismiss(now.as_str()), self.resolve_interval()))
            },
            None => None,
        }
    }

    /// Reopens a done or dismissed quest. Clears what was recorded of its completion
    /// and enables its job again.
    pub fn reopen_quest(&self, found: Option<Quest>) -> (r: Option<Plan>)
        ensures
            match found {
                Some(quest) => {
                    &&& r is Some
                    &&& is_stamp(r->0.quest@.updated_at)
                    &&& r->0@ == change(
                        quest@.reopened(r->0.quest@.updated_at),
                        self.interval(),
                    )
                },
                None => r is None,
            },
    {
        match found {
            Some(quest) => {
                let now = timestamp_now();
                Some(plan_change(quest.reopen(now.as_str()), self.resolve_interval()))
            },
            None => None,
        }
    }

    /// Records that an item was copied back out, and completes it where that is asked
    /// for.
    pub fn mark_used(&self, found: Option<Quest>, complete: bool) -> (r: Option<Plan>)
        ensures
            match found {
                Some(quest) => {
                    &&& r is Some
                    &&& is_stamp(r->0.quest@.updated_at)
                    &&& r->0@ == (if complete {
                        completion(
                            quest@.used(true, r->0.quest@.updated_at),
                            self.interval(),
                        )
                    } else {
                        rewrite(quest@.used(false, r->0.quest@.updated_at))
                    })
                },
                None => r is None,
            },
    {
        match found {
            Some(quest) => {
                let now = timestamp_now();
                let used = quest.mark_used(complete, now.as_str());
                if complete {
                    Some(plan_completion(used, self.resolve_interval()))
                } else {
                    Some(plan_rewrite(used))
                }
            },
            None => None,
        }
    }

    /// Pins an item, or unpins it.
    pub fn set_pinned(&self, found: Option<Quest>, pinned: bool) -> (r: Option<Plan>)
        ensures
            match found {
                Some(quest) => {
                    &&& r is Some
                    &&& is_stamp(r->0.quest@.updated_at)
                    &&& r->0@ == rewrite(quest@.with_pin(pinned, r->0.quest@.updated_at))
                },
                None => r is None,
            },
    {
        match found {
            Some(quest) => {
                let now = timestamp_now();
                Some(plan_rewrite(quest.pin(pinned, now.as_str())))
            },
            None => None,
        }
    }
}

} // verus!
