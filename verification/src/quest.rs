//! Quests: their data, and the changes that a quest goes through.
use vstd::prelude::*;

use crate::text::{blank, copy_of, is_blank, same, text_of, trim, trim_owned, trimmed};
use crate::verdict::{Verdict, VerdictView};

verus! {

// ---- kinds -------------------------------------------------------------------
/// What an item on the board is: a task, or something kept while working.
#[derive(Debug, Clone, Copy, PartialEq, Eq, Structural)]
pub enum QuestKind {
    /// A task with a completion condition, which the judge evaluates.
    Task,
    /// A kept note.
    Note,
    /// A kept link.
    Link,
    /// A prompt to be used later.
    Prompt,
    /// A kept fragment of code or text.
    Snippet,
}

impl Default for QuestKind {
    fn default() -> (r: QuestKind)
        ensures
            r == QuestKind::Task,
    {
        QuestKind::Task
    }
}

/// The name of a kind on the wire.
pub open spec fn kind_name(kind: QuestKind) -> Seq<char> {
    match kind {
        QuestKind::Task => "task"@,
        QuestKind::Note => "note"@,
        QuestKind::Link => "link"@,
        QuestKind::Prompt => "prompt"@,
        QuestKind::Snippet => "snippet"@,
    }
}

/// The kind with a given name on the wire; a task where no kind has it.
pub open spec fn kind_named(name: Seq<char>) -> QuestKind {
    if name == "note"@ {
        QuestKind::Note
    } else if name == "link"@ {
        QuestKind::Link
    } else if name == "prompt"@ {
        QuestKind::Prompt
    } else if name == "snippet"@ {
        QuestKind::Snippet
    } else {
        QuestKind::Task
    }
}

impl QuestKind {
    /// The kind with a given name on the wire. An unknown name stands for a task.
    pub fn from_wire(name: &str) -> (r: QuestKind)
        ensures
            r == kind_named(name@),
    {
        if same(name, "note") {
            QuestKind::Note
        } else if same(name, "link") {
            QuestKind::Link
        } else if same(name, "prompt") {
            QuestKind::Prompt
        } else if same(name, "snippet") {
            QuestKind::Snippet
        } else {
            QuestKind::Task
        }
    }

    /// The name of the kind on the wire.
    pub fn as_str(self) -> (r: &'static str)
        ensures
            r@ == kind_name(self),
    {
        match self {
            QuestKind::Task => "task",
            QuestKind::Note => "note",
            QuestKind::Link => "link",
            QuestKind::Prompt => "prompt",
            QuestKind::Snippet => "snippet",
        }
    }

    /// Whether the judge ever evaluates an item of this kind: only a task has a
    /// completion condition.
    pub fn is_judged(self) -> (r: bool)
        ensures
            r == (self is Task),
    {
        match self {
            QuestKind::Task => true,
            _ => false,
        }
    }
}

/// Reading a kind's name gives the kind back.
pub proof fn kind_names_read_back(kind: QuestKind)
    ensures
        kind_named(kind_name(kind)) == kind,
{
    reveal_strlit("task");
    reveal_strlit("note");
    reveal_strlit("link");
    reveal_strlit("prompt");
    reveal_strlit("snippet");
    assert("task"@[0] != "note"@[0]);
    assert("task"@[0] != "link"@[0]);
    assert("task"@.len() != "prompt"@.len());
    assert("task"@.len() != "snippet"@.len());
    assert("note"@[0] != "link"@[0]);
}

// ---- lifecycle -----------------------------------------------------------------
/// Where a quest's completion came from.
#[derive(Debug, Clone, Copy, PartialEq, Eq, Structural)]
pub enum CompletionSource {
    /// The user marked it done themselves.
    Manual,
    /// The engine detected it from context.
    Detected,
}

/// A quest's lifecycle state.
#[derive(Debug, Clone, Copy, PartialEq, Eq, Structural)]
pub enum QuestStatus {
    /// Active; the engine judges it on each tick.
    Open,
    /// Completed (manually or detected).
    Done,
    /// Abandoned by the user; never judged again.
    Dismissed,
}

impl Default for QuestStatus {
    fn default() -> (r: QuestStatus)
        ensures
            r == QuestStatus::Open,
    {
        QuestStatus::Open
    }
}

// ---- data ----------------------------------------------------------------------
/// Where a captured item came from.
#[derive(Debug, PartialEq, Eq)]
pub struct CaptureSource {
    /// The application.
    pub app: Option<String>,
    /// The title of the window.
    pub title: Option<String>,
    /// The address of the page.
    pub url: Option<String>,
}

/// A capture's source, as text.
pub struct CaptureSourceView {
    pub app: Option<Seq<char>>,
    pub title: Option<Seq<char>>,
    pub url: Option<Seq<char>>,
}

impl View for CaptureSource {
    type V = CaptureSourceView;

    open spec fn view(&self) -> CaptureSourceView {
        CaptureSourceView {
            app: text_of(self.app),
            title: text_of(self.title),
            url: text_of(self.url),
        }
    }
}

impl Clone for CaptureSource {
    fn clone(&self) -> (r: CaptureSource)
        ensures
            r@ == self@,
    {
        CaptureSource {
            app: copy_of(&self.app),
            title: copy_of(&self.title),
            url: copy_of(&self.url),
        }
    }
}

/// A pending "looks done" detection awaiting the user's confirmation.
#[derive(Debug, PartialEq, Eq)]
pub struct Suggestion {
    /// 0-100 confidence from the judge.
    pub confidence: u8,
    /// One-line reason the judge gave.
    pub reason: String,
    /// A short snippet of the evidence the judge saw.
    pub evidence: Option<String>,
    pub suggested_at: String,
}

/// A suggestion, as text.
pub struct SuggestionView {
    pub confidence: u8,
    pub reason: Seq<char>,
    pub evidence: Option<Seq<char>>,
    pub suggested_at: Seq<char>,
}

impl View for Suggestion {
    type V = SuggestionView;

    open spec fn view(&self) -> SuggestionView {
        SuggestionView {
            confidence: self.confidence,
            reason: self.reason@,
            evidence: text_of(self.evidence),
            suggested_at: self.suggested_at@,
        }
    }
}

impl Clone for Suggestion {
    fn clone(&self) -> (r: Suggestion)
        ensures
            r@ == self@,
    {
        Suggestion {
            confidence: self.confidence,
            reason: self.reason.clone(),
            evidence: copy_of(&self.evidence),
            suggested_at: self.suggested_at.clone(),
        }
    }
}

/// A task the user wants to get done, or an item kept while working.
#[derive(Debug, PartialEq, Eq)]
pub struct Quest {
    pub id: String,
    pub title: String,
    /// Optional longer description.
    pub detail: Option<String>,
    /// The natural-language condition the judge evaluates. Empty = use `title`.
    pub completion_condition: String,
    pub status: QuestStatus,
    pub created_at: String,
    pub updated_at: String,
    pub completed_at: Option<String>,
    pub completion_source: Option<CompletionSource>,
    pub last_judged_at: Option<String>,
    /// While set, the engine skips judging until this time (after a dismissal).
    pub snoozed_until: Option<String>,
    /// The current pending suggestion, if the engine thinks it is done but is
    /// waiting on the user.
    pub suggestion: Option<Suggestion>,
    /// A task, or the kind of captured item.
    pub kind: QuestKind,
    /// The captured text, verbatim.
    pub body: Option<String>,
    /// Where the captured text came from.
    pub source: Option<CaptureSource>,
    /// Whether the item is pinned to the top of the board.
    pub pinned: bool,
    /// When the item was last copied back out.
    pub used_at: Option<String>,
}

/// A quest, its strings as text.
pub struct QuestView {
    pub id: Seq<char>,
    pub title: Seq<char>,
    pub detail: Option<Seq<char>>,
    pub completion_condition: Seq<char>,
    pub status: QuestStatus,
    pub created_at: Seq<char>,
    pub updated_at: Seq<char>,
    pub completed_at: Option<Seq<char>>,
    pub completion_source: Option<CompletionSource>,
    pub last_judged_at: Option<Seq<char>>,
    pub snoozed_until: Option<Seq<char>>,
    pub suggestion: Option<SuggestionView>,
    pub kind: QuestKind,
    pub body: Option<Seq<char>>,
    pub source: Option<CaptureSourceView>,
    pub pinned: bool,
    pub used_at: Option<Seq<char>>,
}

/// The text of an optional suggestion.
pub open spec fn suggestion_of(s: Option<Suggestion>) -> Option<SuggestionView> {
    match s {
        Some(t) => Some(t@),
        None => None,
    }
}

/// The text of an optional source.
pub open spec fn source_of(s: Option<CaptureSource>) -> Option<CaptureSourceView> {
    match s {
        Some(t) => Some(t@),
        None => None,
    }
}

impl View for Quest {
    type V = QuestView;

    open spec fn view(&self) -> QuestView {
        QuestView {
            id: self.id@,
            title: self.title@,
            detail: text_of(self.detail),
            completion_condition: self.completion_condition@,
            status: self.status,
            created_at: self.created_at@,
            updated_at: self.updated_at@,
            completed_at: text_of(self.completed_at),
            completion_source: self.completion_source,
            last_judged_at: text_of(self.last_judged_at),
            snoozed_until: text_of(self.snoozed_until),
            suggestion: suggestion_of(self.suggestion),
            kind: self.kind,
            body: text_of(self.body),
            source: source_of(self.source),
            pinned: self.pinned,
            used_at: text_of(self.used_at),
        }
    }
}

impl Clone for Quest {
    fn clone(&self) -> (r: Quest)
        ensures
            r@ == self@,
    {
        Quest {
            id: self.id.clone(),
            title: self.title.clone(),
            detail: copy_of(&self.detail),
            completion_condition: self.completion_condition.clone(),
            status: self.status,
            created_at: self.created_at.clone(),
            updated_at: self.updated_at.clone(),
            completed_at: copy_of(&self.completed_at),
            completion_source: self.completion_source,
            last_judged_at: copy_of(&self.last_judged_at),
            snoozed_until: copy_of(&self.snoozed_until),
            suggestion: match &self.suggestion {
                Some(s) => Some(s.clone()),
                None => None,
            },
            kind: self.kind,
            body: copy_of(&self.body),
            source: match &self.source {
                Some(s) => Some(s.clone()),
                None => None,
            },
            pinned: self.pinned,
            used_at: copy_of(&self.used_at),
        }
    }
}

// ---- changes ---------------------------------------------------------------------
/// A description, left out where it is blank.
pub open spec fn kept_detail(detail: Option<Seq<char>>) -> Option<Seq<char>> {
    match detail {
        Some(d) if !is_blank(d) => Some(d),
        _ => None,
    }
}

/// Drops a blank description.
pub fn keep_detail(detail: Option<String>) -> (r: Option<String>)
    ensures
        text_of(r) == kept_detail(text_of(detail)),
{
    match detail {
        Some(d) => if blank(d.as_str()) {
            None
        } else {
            Some(d)
        },
        None => None,
    }
}

impl QuestView {
    /// The text the judge evaluates: the explicit condition, or the title.
    pub open spec fn condition(self) -> Seq<char> {
        if is_blank(self.completion_condition) {
            trimmed(self.title)
        } else {
            trimmed(self.completion_condition)
        }
    }

    /// A new open task.
    pub open spec fn task(
        id: Seq<char>,
        title: Seq<char>,
        detail: Option<Seq<char>>,
        condition: Seq<char>,
        now: Seq<char>,
    ) -> QuestView {
        QuestView {
            id,
            title: trimmed(title),
            detail: kept_detail(detail),
            completion_condition: trimmed(condition),
            status: QuestStatus::Open,
            created_at: now,
            updated_at: now,
            completed_at: None,
            completion_source: None,
            last_judged_at: None,
            snoozed_until: None,
            suggestion: None,
            kind: QuestKind::Task,
            body: None,
            source: None,
            pinned: false,
            used_at: None,
        }
    }

    /// A new captured item: the body verbatim, and where it came from.
    pub open spec fn capture(
        id: Seq<char>,
        kind: QuestKind,
        title: Seq<char>,
        body: Seq<char>,
        source: Option<CaptureSourceView>,
        now: Seq<char>,
    ) -> QuestView {
        QuestView {
            kind,
            body: Some(body),
            source,
            ..QuestView::task(id, title, None, Seq::empty(), now)
        }
    }

    /// The quest with another title, description and condition.
    pub open spec fn edited(
        self,
        title: Seq<char>,
        detail: Option<Seq<char>>,
        condition: Seq<char>,
        now: Seq<char>,
    ) -> QuestView {
        QuestView {
            title: trimmed(title),
            detail: kept_detail(detail),
            completion_condition: trimmed(condition),
            updated_at: now,
            ..self
        }
    }

    /// The quest completed by the user, by hand or by confirming a detection.
    pub open spec fn completed(self, detected: bool, now: Seq<char>) -> QuestView {
        QuestView {
            status: QuestStatus::Done,
            completed_at: Some(now),
            completion_source: Some(
                if detected {
                    CompletionSource::Detected
                } else {
                    CompletionSource::Manual
                },
            ),
            suggestion: None,
            snoozed_until: None,
            updated_at: now,
            ..self
        }
    }

    /// The quest without its suggestion, and not to be judged before `until`.
    pub open spec fn snoozed(self, until: Seq<char>, now: Seq<char>) -> QuestView {
        QuestView { suggestion: None, snoozed_until: Some(until), updated_at: now, ..self }
    }

    /// The quest abandoned.
    pub open spec fn dismissed(self, now: Seq<char>) -> QuestView {
        QuestView {
            status: QuestStatus::Dismissed,
            suggestion: None,
            updated_at: now,
            ..self
        }
    }

    /// The quest open again, with nothing recorded of a completion.
    pub open spec fn reopened(self, now: Seq<char>) -> QuestView {
        QuestView {
            status: QuestStatus::Open,
            completed_at: None,
            completion_source: None,
            updated_at: now,
            ..self
        }
    }

    /// The quest pinned, or unpinned.
    pub open spec fn with_pin(self, pinned: bool, now: Seq<char>) -> QuestView {
        QuestView { pinned, updated_at: now, ..self }
    }

    /// The quest copied back out, and completed by hand where that is asked for.
    pub open spec fn used(self, complete: bool, now: Seq<char>) -> QuestView {
        let marked = QuestView { used_at: Some(now), updated_at: now, ..self };
        if complete {
            marked.completed(false, now)
        } else {
            marked
        }
    }

    /// The quest judged, without anything following from it.
    pub open spec fn judged(self, now: Seq<char>) -> QuestView {
        QuestView { last_judged_at: Some(now), snoozed_until: None, updated_at: now, ..self }
    }

    /// The quest judged and completed by the engine.
    pub open spec fn auto_completed(self, now: Seq<char>) -> QuestView {
        QuestView {
            status: QuestStatus::Done,
            completed_at: Some(now),
            completion_source: Some(CompletionSource::Detected),
            suggestion: None,
            ..self.judged(now)
        }
    }

    /// The quest judged, its completion suggested to the user.
    pub open spec fn suggested(
        self,
        verdict: VerdictView,
        evidence: Seq<char>,
        now: Seq<char>,
    ) -> QuestView {
        QuestView {
            suggestion: Some(
                SuggestionView {
                    confidence: verdict.confidence,
                    reason: verdict.reason,
                    evidence: Some(evidence),
                    suggested_at: now,
                },
            ),
            ..self.judged(now)
        }
    }

    /// Whether the same completion is suggested already.
    pub open spec fn suggests(self, verdict: VerdictView) -> bool {
        match self.suggestion {
            Some(s) => s.confidence == verdict.confidence && s.reason == verdict.reason,
            None => false,
        }
    }
}

impl Quest {
    /// The text the judge evaluates: the explicit condition, or the title.
    pub fn condition(&self) -> (r: &str)
        ensures
            r@ == self@.condition(),
    {
        let c = trim(self.completion_condition.as_str());
        if c.is_empty() {
            trim(self.title.as_str())
        } else {
            c
        }
    }

    /// A new open task.
    pub fn task(
        id: String,
        title: &str,
        detail: Option<String>,
        condition: &str,
        now: &str,
    ) -> (r: Quest)
        ensures
            r@ == QuestView::task(id@, title@, text_of(detail), condition@, now@),
    {
        Quest {
            id,
            title: trim_owned(title),
            detail: keep_detail(detail),
            completion_condition: trim_owned(condition),
            status: QuestStatus::Open,
            created_at: now.to_owned(),
            updated_at: now.to_owned(),
            completed_at: None,
            completion_source: None,
            last_judged_at: None,
            snoozed_until: None,
            suggestion: None,
            kind: QuestKind::Task,
            body: None,
            source: None,
            pinned: false,
            used_at: None,
        }
    }

    /// A new captured item: the body verbatim, and where it came from.
    pub fn captured(
        id: String,
        kind: QuestKind,
        title: &str,
        body: String,
        source: Option<CaptureSource>,
        now: &str,
    ) -> (r: Quest)
        ensures
            r@ == QuestView::capture(id@, kind, title@, body@, source_of(source), now@),
    {
        let mut quest = Quest::task(id, title, None, "", now);
        proof {
            reveal_strlit("");
            assert(""@ == Seq::<char>::empty());
        }
        quest.kind = kind;
        quest.body = Some(body);
        quest.source = source;
        quest
    }

    /// Changes the title, the description and the condition.
    pub fn edit(self, title: &str, detail: Option<String>, condition: &str, now: &str) -> (r: Quest)
        ensures
            r@ == self@.edited(title@, text_of(detail), condition@, now@),
    {
        Quest {
            title: trim_owned(title),
            detail: keep_detail(detail),
            completion_condition: trim_owned(condition),
            updated_at: now.to_owned(),
            ..self
        }
    }

    /// Completes the quest for the user, by hand or by confirming a detection.
    pub fn complete(self, detected: bool, now: &str) -> (r: Quest)
        ensures
            r@ == self@.completed(detected, now@),
    {
        Quest {
            status: QuestStatus::Done,
            completed_at: Some(now.to_owned()),
            completion_source: Some(
                if detected {
                    CompletionSource::Detected
                } else {
                    CompletionSource::Manual
                },
            ),
            suggestion: None,
            snoozed_until: None,
            updated_at: now.to_owned(),
            ..self
        }
    }

    /// Rejects the pending suggestion, and stops judging before `until`.
    pub fn snooze(self, until: String, now: &str) -> (r: Quest)
        ensures
            r@ == self@.snoozed(until@, now@),
    {
        Quest { suggestion: None, snoozed_until: Some(until), updated_at: now.to_owned(), ..self }
    }

    /// Abandons the quest.
    pub fn dismiss(self, now: &str) -> (r: Quest)
        ensures
            r@ == self@.dismissed(now@),
    {
        Quest {
            status: QuestStatus::Dismissed,
            suggestion: None,
            updated_at: now.to_owned(),
            ..self
        }
    }

    /// Opens the quest again.
    pub fn reopen(self, now: &str) -> (r: Quest)
        ensures
            r@ == self@.reopened(now@),
    {
        Quest {
            status: QuestStatus::Open,
            completed_at: None,
            completion_source: None,
            updated_at: now.to_owned(),
            ..self
        }
    }

    /// Pins the item, or unpins it.
    pub fn pin(self, pinned: bool, now: &str) -> (r: Quest)
        ensures
            r@ == self@.with_pin(pinned, now@),
    {
        Quest { pinned, updated_at: now.to_owned(), ..self }
    }

    /// Records that the item was copied back out, and completes it where that is
    /// asked for.
    pub fn mark_used(self, complete: bool, now: &str) -> (r: Quest)
        ensures
            r@ == self@.used(complete, now@),
    {
        let marked = Quest {
            used_at: Some(now.to_owned()),
            updated_at: now.to_owned(),
            ..self
        };
        if complete {
            marked.complete(false, now)
        } else {
            marked
        }
    }

    /// Records a judge run from which nothing follows.
    pub fn judged(self, now: &str) -> (r: Quest)
        ensures
            r@ == self@.judged(now@),
    {
        Quest {
            last_judged_at: Some(now.to_owned()),
            snoozed_until: None,
            updated_at: now.to_owned(),
            ..self
        }
    }

    /// Completes the quest for a verdict.
    pub fn auto_complete(self, now: &str) -> (r: Quest)
        ensures
            r@ == self@.auto_completed(now@),
    {
        Quest {
            status: QuestStatus::Done,
            completed_at: Some(now.to_owned()),
            completion_source: Some(CompletionSource::Detected),
            suggestion: None,
            ..self.judged(now)
        }
    }

    /// Suggests the completion to the user.
    pub fn suggest(self, verdict: &Verdict, evidence: String, now: &str) -> (r: Quest)
        ensures
            r@ == self@.suggested(verdict@, evidence@, now@),
    {
        Quest {
            suggestion: Some(
                Suggestion {
                    confidence: verdict.confidence,
                    reason: verdict.reason.clone(),
                    evidence: Some(evidence),
                    suggested_at: now.to_owned(),
                },
            ),
            ..self.judged(now)
        }
    }

    /// Whether the same completion is suggested already.
    pub fn suggests(&self, verdict: &Verdict) -> (r: bool)
        ensures
            r == self@.suggests(verdict@),
    {
        match &self.suggestion {
            Some(s) => s.confidence == verdict.confidence && same(
                s.reason.as_str(),
                verdict.reason.as_str(),
            ),
            None => false,
        }
    }
}

} // verus!
