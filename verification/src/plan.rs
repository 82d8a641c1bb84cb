//! What an operation does to the world outside: the rows of the store, the
//! scheduled jobs, the log of detections and the events for subscribers.
use vstd::prelude::*;

use crate::quest::{Quest, QuestView};
use crate::text::{copy_of, text_of};

verus! {

// ---- events ------------------------------------------------------------------------
/// A change event fanned out to subscribers.
#[derive(Debug, PartialEq, Eq)]
pub enum QuestEvent {
    /// The engine thinks a quest is done and wants the user to confirm.
    Suggested { quest: Quest, confidence: u8, reason: String },
    /// A quest was completed (manually or auto). `auto` distinguishes the two.
    Completed { quest: Quest, auto: bool },
    /// A quest was created or edited.
    Updated { quest: Quest },
    /// A quest was deleted.
    Deleted { id: String },
}

/// An event, its strings as text.
pub enum EventView {
    Suggested { quest: QuestView, confidence: u8, reason: Seq<char> },
    Completed { quest: QuestView, auto: bool },
    Updated { quest: QuestView },
    Deleted { id: Seq<char> },
}

impl View for QuestEvent {
    type V = EventView;

    open spec fn view(&self) -> EventView {
        match *self {
            QuestEvent::Suggested { quest, confidence, reason } => EventView::Suggested {
                quest: quest@,
                confidence,
                reason: reason@,
            },
            QuestEvent::Completed { quest, auto } => EventView::Completed { quest: quest@, auto },
            QuestEvent::Updated { quest } => EventView::Updated { quest: quest@ },
            QuestEvent::Deleted { id } => EventView::Deleted { id: id@ },
        }
    }
}

impl Clone for QuestEvent {
    fn clone(&self) -> (r: QuestEvent)
        ensures
            r@ == self@,
    {
        match self {
            QuestEvent::Suggested { quest, confidence, reason } => QuestEvent::Suggested {
                quest: quest.clone(),
                confidence: *confidence,
                reason: reason.clone(),
            },
            QuestEvent::Completed { quest, auto } => QuestEvent::Completed {
                quest: quest.clone(),
                auto: *auto,
            },
            QuestEvent::Updated { quest } => QuestEvent::Updated { quest: quest.clone() },
            QuestEvent::Deleted { id } => QuestEvent::Deleted { id: id.clone() },
        }
    }
}

// ---- detections --------------------------------------------------------------------
/// An entry in the log of why a quest was flagged done.
#[derive(Debug, PartialEq, Eq)]
pub struct Detection {
    pub quest_id: String,
    pub confidence: u8,
    pub reason: String,
    pub evidence: Option<String>,
    /// `auto_completed` or `suggested`.
    pub disposition: String,
}

/// A detection, as text.
pub struct DetectionView {
    pub quest_id: Seq<char>,
    pub confidence: u8,
    pub reason: Seq<char>,
    pub evidence: Option<Seq<char>>,
    pub disposition: Seq<char>,
}

impl View for Detection {
    type V = DetectionView;

    open spec fn view(&self) -> DetectionView {
        DetectionView {
            quest_id: self.quest_id@,
            confidence: self.confidence,
            reason: self.reason@,
            evidence: text_of(self.evidence),
            disposition: self.disposition@,
        }
    }
}

impl Clone for Detection {
    fn clone(&self) -> (r: Detection)
        ensures
            r@ == self@,
    {
        Detection {
            quest_id: self.quest_id.clone(),
            confidence: self.confidence,
            reason: self.reason.clone(),
            evidence: copy_of(&self.evidence),
            disposition: self.disposition.clone(),
        }
    }
}

// ---- actions -----------------------------------------------------------------------
/// Something to be done outside.
#[derive(Debug, PartialEq, Eq)]
pub enum Action {
    /// Insert or replace the quest's row, and broadcast that it was updated.
    Upsert(Quest),
    /// Create or refresh the scheduled job that backs a quest.
    SyncJob { quest_id: String, title: String, interval: String, open: bool },
    /// Remove the scheduled job that backs a quest.
    DeleteJob(String),
    /// Delete a quest's row and its detections, and broadcast it where there was one.
    Delete(String),
    /// Append to the log of detections.
    Record(Detection),
    /// Send an event to the subscribers.
    Broadcast(QuestEvent),
}

/// An action, its strings as text.
pub enum ActionView {
    Upsert(QuestView),
    SyncJob { quest_id: Seq<char>, title: Seq<char>, interval: Seq<char>, open: bool },
    DeleteJob(Seq<char>),
    Delete(Seq<char>),
    Record(DetectionView),
    Broadcast(EventView),
}

impl View for Action {
    type V = ActionView;

    open spec fn view(&self) -> ActionView {
        match *self {
            Action::Upsert(quest) => ActionView::Upsert(quest@),
            Action::SyncJob { quest_id, title, interval, open } => ActionView::SyncJob {
                quest_id: quest_id@,
                title: title@,
                interval: interval@,
                open,
            },
            Action::DeleteJob(id) => ActionView::DeleteJob(id@),
            Action::Delete(id) => ActionView::Delete(id@),
            Action::Record(detection) => ActionView::Record(detection@),
            Action::Broadcast(event) => ActionView::Broadcast(event@),
        }
    }
}

/// An action, and whether the operation fails where it fails.
#[derive(Debug, PartialEq, Eq)]
pub struct Step {
    pub action: Action,
    pub required: bool,
}

/// A step, as text.
pub struct StepView {
    pub action: ActionView,
    pub required: bool,
}

impl View for Step {
    type V = StepView;

    open spec fn view(&self) -> StepView {
        StepView { action: self.action@, required: self.required }
    }
}

/// The steps of a list, as text.
pub open spec fn steps_of(steps: Seq<Step>) -> Seq<StepView> {
    steps.map_values(|s: Step| s@)
}

/// A step that must succeed.
pub open spec fn must(action: ActionView) -> StepView {
    StepView { action, required: true }
}

/// A step whose failure is ignored.
pub open spec fn may(action: ActionView) -> StepView {
    StepView { action, required: false }
}

/// A step that must succeed.
pub fn required(action: Action) -> (r: Step)
    ensures
        r@ == must(action@),
{
    Step { action, required: true }
}

/// A step whose failure is ignored.
pub fn best_effort(action: Action) -> (r: Step)
    ensures
        r@ == may(action@),
{
    Step { action, required: false }
}

// ---- plans -------------------------------------------------------------------------
/// The steps of an operation on one quest, and the quest that it gives back once
/// they are carried out.
#[derive(Debug, PartialEq, Eq)]
pub struct Plan {
    pub quest: Quest,
    pub steps: Vec<Step>,
}

/// A plan, as text.
pub struct PlanView {
    pub quest: QuestView,
    pub steps: Seq<StepView>,
}

impl View for Plan {
    type V = PlanView;

    open spec fn view(&self) -> PlanView {
        PlanView { quest: self.quest@, steps: steps_of(self.steps@) }
    }
}

/// A list of steps under way: what comes next, and what went wrong.
#[derive(Debug)]
pub struct Run {
    pub steps: Vec<Step>,
    /// How many steps were taken.
    pub taken: usize,
    /// The failure that stopped the run.
    pub failure: Option<String>,
}

impl Run {
    /// Whether a step is still to be taken.
    pub open spec fn is_pending(self) -> bool {
        self.failure is None && self.taken < self.steps@.len()
    }

    /// A run of which no step was taken.
    pub fn new(steps: Vec<Step>) -> (r: Run)
        ensures
            r.steps == steps,
            r.taken == 0,
            r.failure is None,
    {
        Run { steps, taken: 0, failure: None }
    }

    /// The action to be done next; nothing where all steps were taken or one that
    /// had to succeed failed.
    pub fn next(&self) -> (r: Option<&Action>)
        ensures
            match r {
                Some(action) => self.is_pending() && action@
                    == self.steps@[self.taken as int]@.action,
                None => !self.is_pending(),
            },
    {
        match self.failure {
            Some(_) => None,
            None => if self.taken < self.steps.len() {
                Some(&self.steps[self.taken].action)
            } else {
                None
            },
        }
    }

    /// Takes the outcome of the next action into account.
    pub fn report(&mut self, outcome: Result<(), String>)
        requires
            old(self).is_pending(),
        ensures
            final(self).steps@ == old(self).steps@,
            final(self).taken == old(self).taken + 1,
            text_of(final(self).failure) == (match outcome {
                Err(e) if old(self).steps@[old(self).taken as int].required => Some(e@),
                _ => None,
            }),
    {
        let n: usize = self.steps.len();
        assert(self.taken < n);
        if let Err(e) = outcome {
            if self.steps[self.taken].required {
                self.failure = Some(e);
            }
        }
        self.taken = self.taken + 1;
    }

    /// What came of the run.
    pub fn result(self) -> (r: Result<(), String>)
        ensures
            match r {
                Ok(_) => self.failure is None,
                Err(e) => text_of(self.failure) == Some(e@),
            },
    {
        match self.failure {
            Some(e) => Err(e),
            None => Ok(()),
        }
    }
}

// ---- the world outside -------------------------------------------------------------
/// A scheduled job.
pub struct Job {
    pub title: Seq<char>,
    pub interval: Seq<char>,
    pub open: bool,
}

/// What lies outside: the quests by their ids, the jobs by the ids of the quests
/// they back, the log of detections, and the events sent so far.
pub struct World {
    pub quests: Map<Seq<char>, QuestView>,
    pub jobs: Map<Seq<char>, Job>,
    pub detections: Seq<DetectionView>,
    pub events: Seq<EventView>,
}

impl World {
    /// The world after an action.
    pub open spec fn after(self, action: ActionView) -> World {
        match action {
            ActionView::Upsert(quest) => World {
                quests: self.quests.insert(quest.id, quest),
                events: self.events.push(EventView::Updated { quest }),
                ..self
            },
            ActionView::SyncJob { quest_id, title, interval, open } => World {
                jobs: self.jobs.insert(quest_id, Job { title, interval, open }),
                ..self
            },
            ActionView::DeleteJob(id) => World { jobs: self.jobs.remove(id), ..self },
            ActionView::Delete(id) => World {
                quests: self.quests.remove(id),
                detections: self.detections.filter(|d: DetectionView| d.quest_id != id),
                events: if self.quests.contains_key(id) {
                    self.events.push(EventView::Deleted { id })
                } else {
                    self.events
                },
                ..self
            },
            ActionView::Record(detection) => World {
                detections: self.detections.push(detection),
                ..self
            },
            ActionView::Broadcast(event) => World { events: self.events.push(event), ..self },
        }
    }

    /// The world after all steps of a list, each of which succeeded.
    pub open spec fn after_all(self, steps: Seq<StepView>) -> World
        decreases steps.len(),
    {
        if steps.len() == 0 {
            self
        } else {
            self.after_all(steps.drop_last()).after(steps.last().action)
        }
    }
}

// ---- the store ---------------------------------------------------------------------
/// The event that follows an upsert.
pub fn upserted(quest: &Quest) -> (r: QuestEvent)
    ensures
        r@ == (EventView::Updated { quest: quest@ }),
{
    QuestEvent::Updated { quest: quest.clone() }
}

/// The event that follows a deletion, where rows were deleted.
pub fn deleted(id: &str, rows: usize) -> (r: Option<QuestEvent>)
    ensures
        match r {
            Some(event) => rows > 0 && event@ == (EventView::Deleted { id: id@ }),
            None => rows == 0,
        },
{
    if rows > 0 {
        Some(QuestEvent::Deleted { id: id.to_owned() })
    } else {
        None
    }
}

/// The quests that were read, in order, without the rows that could not be.
pub open spec fn readable(rows: Seq<Option<Quest>>) -> Seq<QuestView>
    decreases rows.len(),
{
    if rows.len() == 0 {
        Seq::empty()
    } else {
        let before = readable(rows.drop_last());
        match rows.last() {
            Some(quest) => before.push(quest@),
            None => before,
        }
    }
}

/// The quests of a list, as text.
pub open spec fn quests_of(quests: Seq<Quest>) -> Seq<QuestView> {
    quests.map_values(|q: Quest| q@)
}

/// Leaves out the rows that could not be read.
pub fn keep_readable(rows: Vec<Option<Quest>>) -> (r: Vec<Quest>)
    ensures
        quests_of(r@) == readable(rows@),
{
    let mut quests: Vec<Quest> = Vec::new();
    let n: usize = rows.len();
    let mut i: usize = 0;
    while i < n
        invariant
            n == rows@.len(),
            i <= n,
            quests_of(quests@) == readable(rows@.take(i as int)),
        decreases n - i,
    {
        assert(rows@.take(i + 1).drop_last() == rows@.take(i as int));
        let ghost before = quests_of(quests@);
        if let Some(quest) = &rows[i] {
            quests.push(quest.clone());
            assert(quests_of(quests@) == before.push(quest@));
        }
        i = i + 1;
    }
    assert(rows@.take(n as int) == rows@);
    quests
}

} // verus!
