//! What holds of the quests and their operations as a whole.
use vstd::prelude::*;

use crate::api::config_writes;
use crate::clock::{rfc3339_moment, Moment, NANOS_PER_SECOND};
use crate::detection::{
    mode_name, DetectionMode, DETECTION_INTERVAL_PREF, DETECTION_MODE_PREF,
    JUDGE_EFFORT_PREF, JUDGE_MODEL_PREF,
};
use crate::engine::{chosen_interval, QuestEngine};
use crate::interval::is_interval;
use crate::judge::{
    detection_of, is_judgeable, is_snoozed, opening, outcome, quest_after, quest_not_found,
    steps_after, OpeningView, PassView, CONFIDENCE_FLOOR, HIGH_CONFIDENCE,
};
use crate::operations::{
    backing_job, capture_title, change, completion, creation, removal, rewrite,
    DISMISS_SNOOZE_SECS,
};
use crate::plan::{may, must, ActionView, DetectionView, EventView, Job, StepView, World};
use crate::quest::{QuestKind, QuestView};
use crate::text::{
    ascii_lower, find, is_blank, is_white, line_end, lines, one_line, spaced, trim_start, trimmed,
    word_end, words,
};
use crate::verdict::{
    answer_on, labelled, read_lines, reason_on, snippet_of, verdict_in, Reading, VerdictView,
    SNIPPET_MAX,
};

verus! {

// ---- what is judged --------------------------------------------------------------------
/// A captured item is never judged: not in any mode, with any context, at any time.
pub proof fn captures_are_never_judged(
    mode: DetectionMode,
    quest: QuestView,
    external: Option<Seq<char>>,
    now: Moment,
)
    requires
        !(quest.kind is Task),
    ensures
        opening(mode, quest, external, now) is Skip,
{
}

/// A done or dismissed quest is never judged.
pub proof fn closed_quests_are_never_judged(
    mode: DetectionMode,
    quest: QuestView,
    external: Option<Seq<char>>,
    now: Moment,
)
    requires
        !(quest.status is Open),
    ensures
        opening(mode, quest, external, now) is Skip,
{
}

/// With detection off nothing is judged.
pub proof fn off_judges_nothing(quest: QuestView, external: Option<Seq<char>>, now: Moment)
    ensures
        opening(DetectionMode::Off, quest, external, now) is Skip,
{
}

/// An open task that is not snoozed is judged with detection on, on the context
/// supplied where there is one, and a blank context counts as none.
pub proof fn open_tasks_are_judged(
    mode: DetectionMode,
    quest: QuestView,
    context: Seq<char>,
    now: Moment,
)
    requires
        quest.kind is Task,
        quest.status is Open,
        !(mode is Off),
        !is_snoozed(quest, now),
    ensures
        opening(mode, quest, None, now) == OpeningView::Gather(quest),
        is_blank(context) ==> opening(mode, quest, Some(context), now) == opening(
            mode,
            quest,
            None,
            now,
        ),
        !is_blank(context) ==> opening(mode, quest, Some(context), now) == (OpeningView::Judge {
            quest,
            evidence: context,
        }),
{
}

/// After its suggestion was dismissed a quest is not judged for an hour, and is again
/// from then on where it is an open task and detection is on. The timestamp `until` is
/// one that reads as the moment an hour after the dismissal.
pub proof fn dismissed_suggestion_rests_an_hour(
    mode: DetectionMode,
    quest: QuestView,
    start: Moment,
    until: Seq<char>,
    stamp: Seq<char>,
    external: Option<Seq<char>>,
    now: Moment,
)
    requires
        start.in_range(),
        now.in_range(),
        rfc3339_moment(until) == Some(
            ((start.secs + DISMISS_SNOOZE_SECS) as i64, start.nanos),
        ),
    ensures
        ({
            let waited = (now.secs - start.secs) * NANOS_PER_SECOND + now.nanos - start.nanos;
            let snoozed = quest.snoozed(until, stamp);
            &&& waited < DISMISS_SNOOZE_SECS * NANOS_PER_SECOND ==> opening(
                mode,
                snoozed,
                external,
                now,
            ) is Skip
            &&& waited >= DISMISS_SNOOZE_SECS * NANOS_PER_SECOND && quest.kind is Task
                && quest.status is Open && !(mode is Off) ==> !(opening(
                mode,
                snoozed,
                external,
                now,
            ) is Skip)
        }),
{
}

/// A snooze whose end is no timestamp does not keep a quest from being judged.
pub proof fn unreadable_snooze_never_holds(quest: QuestView, now: Moment)
    requires
        quest.snoozed_until is Some,
        rfc3339_moment(quest.snoozed_until->0) is None,
    ensures
        !is_snoozed(quest, now),
{
}

// ---- what follows from a verdict -------------------------------------------------------
/// The engine completes a quest exactly on a done verdict of enough confidence: the
/// floor where it completes on any, the high mark where it completes on sure ones, and
/// never where it only suggests.
pub proof fn completion_needs_confidence(mode: DetectionMode, verdict: VerdictView)
    ensures
        outcome(mode, verdict) is Complete <==> verdict.met && match mode {
            DetectionMode::Off => false,
            DetectionMode::Suggest => false,
            DetectionMode::AutoHigh => verdict.confidence >= HIGH_CONFIDENCE,
            DetectionMode::AutoAll => verdict.confidence >= CONFIDENCE_FLOOR,
        },
{
}

/// Suggesting never changes a quest's status.
pub proof fn suggest_mode_never_completes(
    quest: QuestView,
    verdict: VerdictView,
    evidence: Seq<char>,
    now: Seq<char>,
)
    ensures
        quest_after(DetectionMode::Suggest, quest, verdict, evidence, now).status == quest.status,
{
}

/// A verdict that is not met, or below the floor, leaves everything of a quest but when
/// it was judged, and is neither logged nor announced.
pub proof fn weak_verdict_changes_nothing(
    mode: DetectionMode,
    quest: QuestView,
    verdict: VerdictView,
    evidence: Seq<char>,
    interval: Seq<char>,
    now: Seq<char>,
    world: World,
)
    requires
        !verdict.met || verdict.confidence < CONFIDENCE_FLOOR,
    ensures
        quest_after(mode, quest, verdict, evidence, now) == (QuestView {
            last_judged_at: Some(now),
            snoozed_until: None,
            updated_at: now,
            ..quest
        }),
        ({
            let after = world.after_all(steps_after(mode, quest, verdict, evidence, interval, now));
            &&& after.quests == world.quests.insert(
                quest.id,
                quest_after(mode, quest, verdict, evidence, now),
            )
            &&& after.detections == world.detections
            &&& after.jobs == world.jobs
        }),
{
    let steps = steps_after(mode, quest, verdict, evidence, interval, now);
    reveal_with_fuel(World::after_all, 2);
    assert(steps.drop_last() == Seq::<StepView>::empty());
}

/// A suggestion that was made is not made again: judged once more with the same
/// verdict, the quest is stored, and nothing is logged or announced.
pub proof fn same_suggestion_is_not_repeated(
    mode: DetectionMode,
    quest: QuestView,
    verdict: VerdictView,
    evidence: Seq<char>,
    interval: Seq<char>,
    first: Seq<char>,
    again: Seq<char>,
    second: Seq<char>,
)
    requires
        outcome(mode, verdict) is Suggest,
    ensures
        ({
            let suggested = quest_after(mode, quest, verdict, evidence, first);
            steps_after(mode, suggested, verdict, again, interval, second) == seq![
                may(
                    ActionView::Upsert(quest_after(mode, suggested, verdict, again, second)),
                ),
            ]
        }),
{
}

/// What follows from a verdict is done as well as it can be: no failure on the way
/// takes the verdict back.
pub proof fn judging_never_fails_on_the_way(
    mode: DetectionMode,
    quest: QuestView,
    verdict: VerdictView,
    evidence: Seq<char>,
    interval: Seq<char>,
    now: Seq<char>,
    at: int,
)
    requires
        0 <= at < steps_after(mode, quest, verdict, evidence, interval, now).len(),
    ensures
        !steps_after(mode, quest, verdict, evidence, interval, now)[at].required,
{
}

/// A quest that is not judged stays as it is, and so does everything else.
pub proof fn unjudged_quests_stay_as_they_are(
    engine: QuestEngine,
    id: Seq<char>,
    found: Option<QuestView>,
    external: Option<Seq<char>>,
    now: Moment,
    world: World,
)
    ensures
        match engine.started(id, found, external, now) {
            PassView::Over { result, steps } => {
                &&& world.after_all(steps) == world
                &&& result == (match found {
                    Some(_) => Ok::<Option<VerdictView>, Seq<char>>(None),
                    None => Err(quest_not_found(id)),
                })
            },
            _ => found is Some && is_judgeable(engine.mode(), found->0, now),
        },
{
}

/// A reply none of whose lines answers says that the task is not done, with no
/// confidence, and gives the last reason there is.
pub proof fn garbage_is_not_met(lines: Seq<Seq<char>>)
    requires
        forall|i: int| 0 <= i < lines.len() ==> answer_on(#[trigger] lines[i]) is None,
    ensures
        !verdict_in(lines).met,
        verdict_in(lines).confidence == 0,
        verdict_in(lines).reason == (if read_lines(lines).reason.len() > 0 {
            read_lines(lines).reason
        } else {
            "No clear verdict from the judge."@
        }),
{
    lemma_no_answer(lines);
}

proof fn lemma_no_answer(lines: Seq<Seq<char>>)
    requires
        forall|i: int| 0 <= i < lines.len() ==> answer_on(#[trigger] lines[i]) is None,
    ensures
        read_lines(lines).met is None,
    decreases lines.len(),
{
    if lines.len() > 0 {
        let init = lines.drop_last();
        assert forall|i: int| 0 <= i < init.len() implies answer_on(#[trigger] init[i]) is None by {
            assert(lines[i] == init[i]);
        }
        lemma_no_answer(init);
        assert(answer_on(lines[lines.len() - 1]) is None);
    }
}

/// Garbage never completes a quest and never suggests it, in whatever mode.
pub proof fn garbage_never_completes(mode: DetectionMode, lines: Seq<Seq<char>>)
    requires
        forall|i: int| 0 <= i < lines.len() ==> answer_on(#[trigger] lines[i]) is None,
    ensures
        outcome(mode, verdict_in(lines)) is Ignore,
{
    garbage_is_not_met(lines);
}

/// A verdict is met only where the reply says so: the last line that answers says yes.
pub proof fn met_is_said(lines: Seq<Seq<char>>)
    requires
        verdict_in(lines).met,
    ensures
        exists|i: int|
            {
                &&& 0 <= i < lines.len()
                &&& answer_on(#[trigger] lines[i]) == Some(true)
                &&& forall|k: int| i < k < lines.len() ==> answer_on(#[trigger] lines[k]) is None
            },
{
    lemma_answer_is_said(lines);
}

proof fn lemma_answer_is_said(lines: Seq<Seq<char>>)
    requires
        read_lines(lines).met == Some(true),
    ensures
        exists|i: int|
            {
                &&& 0 <= i < lines.len()
                &&& answer_on(#[trigger] lines[i]) == Some(true)
                &&& forall|k: int| i < k < lines.len() ==> answer_on(#[trigger] lines[k]) is None
            },
    decreases lines.len(),
{
    let last = lines.len() - 1;
    if lines.len() > 0 {
        if answer_on(lines[last]) is None {
            let init = lines.drop_last();
            lemma_answer_is_said(init);
            let i = choose|i: int|
                {
                    &&& 0 <= i < init.len()
                    &&& answer_on(#[trigger] init[i]) == Some(true)
                    &&& forall|k: int| i < k < init.len() ==> answer_on(#[trigger] init[k]) is None
                };
            assert(lines[i] == init[i]);
            assert forall|k: int| i < k < lines.len() implies answer_on(
                #[trigger] lines[k],
            ) is None by {
                if k < last {
                    assert(lines[k] == init[k]);
                }
            }
        } else {
            assert(answer_on(lines[last]) == Some(true));
        }
    }
}

/// The reason of a verdict is what the judge wrote: where the last line of a reply gives
/// a reason that is not blank, it is the text after the label, in its own case and
/// however far the line is indented.
pub proof fn reason_is_kept(lines: Seq<Seq<char>>, indent: Seq<char>, reason: Seq<char>)
    requires
        forall|i: int| 0 <= i < indent.len() ==> is_white(#[trigger] indent[i]),
        !is_blank(reason),
    ensures
        verdict_in(lines.push(indent + "REASON:"@ + reason)).reason == trimmed(reason),
        verdict_in(lines.push(indent + "REASON:"@ + reason)).met == verdict_in(lines).met,
        verdict_in(lines.push(indent + "REASON:"@ + reason)).confidence == verdict_in(
            lines,
        ).confidence,
{
    let line = indent + "REASON:"@ + reason;
    let all = lines.push(line);
    assert(all.drop_last() == lines);
    assert(all.last() == line);
    lemma_reason_line(indent, reason);
    assert(read_lines(all) == (Reading { reason: trimmed(reason), ..read_lines(lines) }));
}

/// A line with a reason is read as one.
proof fn lemma_reason_line(indent: Seq<char>, reason: Seq<char>)
    requires
        forall|i: int| 0 <= i < indent.len() ==> is_white(#[trigger] indent[i]),
    ensures
        ({
            let line = indent + "REASON:"@ + reason;
            &&& labelled(line, "met:"@) is None
            &&& labelled(line, "confidence:"@) is None
            &&& reason_on(line) == Some(trimmed(reason))
        }),
    decreases indent.len(),
{
    reveal_strlit("REASON:");
    reveal_strlit("reason:");
    reveal_strlit("met:");
    reveal_strlit("confidence:");
    let line = indent + "REASON:"@ + reason;
    let low = ascii_lower(line);
    if indent.len() == 0 {
        assert(line =~= "REASON:"@ + reason);
        assert(line[0] == 'R');
        crate::text::lemma_not_blank(line);
        assert(ascii_lower(trimmed(line))[0] == 'r');
        assert("met:"@[0] == 'm' && "confidence:"@[0] == 'c');
        assert(low.take(7) =~= "reason:"@);
        assert("reason:"@.is_prefix_of(low));
        assert(line.skip(7) =~= reason);
    } else {
        let rest = indent.skip(1);
        assert forall|i: int| 0 <= i < rest.len() implies is_white(#[trigger] rest[i]) by {
            assert(rest[i] == indent[i + 1]);
        }
        lemma_reason_line(rest, reason);
        let inner = rest + "REASON:"@ + reason;
        assert(line.skip(1) =~= inner);
        assert(line[0] == indent[0]);
        assert(trimmed(line) == trimmed(inner));
        assert(low[0] == line[0]);
        assert(low.skip(1) =~= ascii_lower(inner));
        assert("reason:"@[0] == 'r');
        assert(!"reason:"@.is_prefix_of(low));
        let at = find(ascii_lower(inner), "reason:"@)->0 as int;
        crate::text::lemma_find(ascii_lower(inner), "reason:"@);
        assert(line.skip(at + 1 + 7) =~= inner.skip(at + 7));
    }
}

/// The confidence of a verdict is at most 100.
pub proof fn confidence_is_a_percentage(lines: Seq<Seq<char>>)
    ensures
        verdict_in(lines).confidence <= 100,
{
    lemma_confidence(lines);
}

proof fn lemma_confidence(lines: Seq<Seq<char>>)
    ensures
        read_lines(lines).confidence <= 100,
    decreases lines.len(),
{
    if lines.len() > 0 {
        lemma_confidence(lines.drop_last());
    }
}

// ---- evidence --------------------------------------------------------------------------
/// A snippet is on one line and short: it has no white space but single spaces, and at
/// most one character more than its bound.
pub proof fn snippet_is_one_short_line(evidence: Seq<char>)
    ensures
        snippet_of(evidence).len() <= SNIPPET_MAX + 1,
        forall|i: int|
            0 <= i < snippet_of(evidence).len() && is_white(#[trigger] snippet_of(evidence)[i])
                ==> snippet_of(evidence)[i] == ' ',
{
    let line = one_line(evidence);
    lemma_words_unbroken(evidence);
    lemma_spaced(words(evidence));
    reveal_strlit("\u{2026}");
    lemma_bytes_cover(line);
}

/// Every character takes a byte at least.
pub proof fn lemma_bytes_cover(s: Seq<char>)
    ensures
        s.len() <= crate::text::byte_len(s),
    decreases s.len(),
{
    if s.len() > 0 {
        lemma_bytes_cover(s.skip(1));
    }
}

/// Whether a text has no white space.
spec fn unbroken(s: Seq<char>) -> bool {
    forall|i: int| 0 <= i < s.len() ==> !is_white(#[trigger] s[i])
}

proof fn lemma_words_unbroken(s: Seq<char>)
    ensures
        forall|k: int| 0 <= k < words(s).len() ==> unbroken(#[trigger] words(s)[k]),
    decreases s.len(),
{
    crate::text::lemma_trim_start(s);
    let t = trim_start(s);
    if t.len() > 0 {
        crate::text::lemma_word_end(t);
        let end = word_end(t) as int;
        lemma_words_unbroken(t.skip(end));
        assert(words(s) == seq![t.take(end)] + words(t.skip(end)));
        assert forall|k: int| 0 <= k < words(s).len() implies unbroken(
            #[trigger] words(s)[k],
        ) by {
            if k > 0 {
                assert(words(s)[k] == words(t.skip(end))[k - 1]);
            }
        }
    }
}

proof fn lemma_spaced(parts: Seq<Seq<char>>)
    requires
        forall|k: int| 0 <= k < parts.len() ==> unbroken(#[trigger] parts[k]),
    ensures
        forall|i: int|
            0 <= i < spaced(parts).len() && is_white(#[trigger] spaced(parts)[i])
                ==> spaced(parts)[i] == ' ',
    decreases parts.len(),
{
    if parts.len() == 0 {
    } else if parts.len() == 1 {
        assert(unbroken(parts[0]));
    } else {
        let rest = parts.skip(1);
        assert forall|k: int| 0 <= k < rest.len() implies unbroken(#[trigger] rest[k]) by {
            assert(rest[k] == parts[k + 1]);
        }
        lemma_spaced(rest);
        assert(unbroken(parts[0]));
        let all = spaced(parts);
        let n = parts[0].len() as int;
        assert forall|i: int| 0 <= i < all.len() && is_white(#[trigger] all[i]) implies all[i]
            == ' ' by {
            if i < n {
                assert(all[i] == parts[0][i]);
            } else if i > n {
                assert(all[i] == spaced(rest)[i - n - 1]);
            }
        }
    }
}

/// A quest keeps its title, and its condition, without space around it: editing it with
/// what it has changes neither.
pub proof fn editing_with_the_same_changes_nothing(
    quest: QuestView,
    title: Seq<char>,
    detail: Option<Seq<char>>,
    condition: Seq<char>,
    first: Seq<char>,
    now: Seq<char>,
)
    ensures
        ({
            let edited = quest.edited(title, detail, condition, first);
            edited.edited(edited.title, edited.detail, edited.completion_condition, now) == (
            QuestView { updated_at: now, ..edited })
        }),
{
    crate::text::trimmed_is_stable(title);
    crate::text::trimmed_is_stable(condition);
}

/// A captured text that is not blank always has a label that is not.
pub proof fn captures_have_a_label(title: Option<Seq<char>>, body: Seq<char>)
    requires
        !is_blank(body),
    ensures
        !is_blank(capture_title(title, body)),
{
    let text = trimmed(body);
    crate::text::lemma_trim_start(body);
    crate::text::lemma_trim_end(trim_start(body));
    assert(!is_white(text[0]));
    crate::text::lemma_line_end(text);
    let line = lines(text)[0];
    assert(line_end(text) > 0);
    assert(line.len() > 0 && line[0] == text[0]);
    crate::text::lemma_not_blank(line);
    crate::text::lemma_not_blank(trimmed(line));
}

// ---- what every change keeps -----------------------------------------------------------
/// Whether one quest is the same item as another: its id, when it was created, its kind
/// and what was captured.
pub open spec fn same_item(a: QuestView, b: QuestView) -> bool {
    &&& a.id == b.id
    &&& a.created_at == b.created_at
    &&& a.kind == b.kind
    &&& a.body == b.body
    &&& a.source == b.source
}

/// Whether what a quest records of its completion fits its status: a done quest says
/// when and how it was completed, an open one says neither, and only an open one has a
/// suggestion.
pub open spec fn is_coherent(quest: QuestView) -> bool {
    &&& quest.status is Done ==> quest.completed_at is Some && quest.completion_source is Some
    &&& quest.status is Open ==> quest.completed_at is None && quest.completion_source is None
    &&& quest.suggestion is Some ==> quest.status is Open
}

/// Every new item is open and coherent.
pub proof fn new_items_are_coherent(
    id: Seq<char>,
    kind: QuestKind,
    title: Seq<char>,
    detail: Option<Seq<char>>,
    text: Seq<char>,
    source: Option<crate::quest::CaptureSourceView>,
    now: Seq<char>,
)
    ensures
        is_coherent(QuestView::task(id, title, detail, text, now)),
        QuestView::task(id, title, detail, text, now).status is Open,
        is_coherent(QuestView::capture(id, kind, title, text, source, now)),
        QuestView::capture(id, kind, title, text, source, now).status is Open,
        QuestView::capture(id, kind, title, text, source, now).body == Some(text),
        QuestView::capture(id, kind, title, text, source, now).source == source,
{
}

/// Every operation of the user keeps the item and its coherence.
pub proof fn operations_keep_the_item(
    quest: QuestView,
    title: Seq<char>,
    detail: Option<Seq<char>>,
    condition: Seq<char>,
    until: Seq<char>,
    flag: bool,
    now: Seq<char>,
)
    requires
        is_coherent(quest),
    ensures
        same_item(quest.edited(title, detail, condition, now), quest),
        is_coherent(quest.edited(title, detail, condition, now)),
        same_item(quest.completed(flag, now), quest),
        is_coherent(quest.completed(flag, now)),
        same_item(quest.snoozed(until, now), quest),
        is_coherent(quest.snoozed(until, now)),
        same_item(quest.dismissed(now), quest),
        is_coherent(quest.dismissed(now)),
        same_item(quest.reopened(now), quest),
        is_coherent(quest.reopened(now)),
        same_item(quest.with_pin(flag, now), quest),
        is_coherent(quest.with_pin(flag, now)),
        same_item(quest.used(flag, now), quest),
        is_coherent(quest.used(flag, now)),
{
}

/// Judging keeps the item and its coherence, on the quests that are judged.
pub proof fn judging_keeps_the_item(
    mode: DetectionMode,
    quest: QuestView,
    verdict: VerdictView,
    evidence: Seq<char>,
    now: Seq<char>,
)
    requires
        is_coherent(quest),
        quest.status is Open,
    ensures
        same_item(quest_after(mode, quest, verdict, evidence, now), quest),
        is_coherent(quest_after(mode, quest, verdict, evidence, now)),
        quest_after(mode, quest, verdict, evidence, now).status is Done <==> outcome(
            mode,
            verdict,
        ) is Complete,
{
}

/// Reopening undoes a completion and an abandonment: of an open quest all that is lost
/// is its suggestion, and of a completed one its snooze.
pub proof fn reopening_undoes_closing(
    quest: QuestView,
    detected: bool,
    closed: Seq<char>,
    now: Seq<char>,
)
    requires
        is_coherent(quest),
        quest.status is Open,
    ensures
        quest.completed(detected, closed).reopened(now) == (QuestView {
            suggestion: None,
            snoozed_until: None,
            updated_at: now,
            ..quest
        }),
        quest.dismissed(closed).reopened(now) == (QuestView {
            suggestion: None,
            updated_at: now,
            ..quest
        }),
{
}

/// A quest with a title always has something to be judged by.
pub proof fn condition_is_never_blank(quest: QuestView)
    requires
        !is_blank(quest.title),
    ensures
        quest.condition().len() > 0,
{
}

// ---- what the plans do to the world outside --------------------------------------------
/// The world after two steps.
proof fn lemma_two(world: World, first: StepView, second: StepView)
    ensures
        world.after_all(seq![first, second]) == world.after(first.action).after(second.action),
        world.after_all(seq![first]) == world.after(first.action),
{
    reveal_with_fuel(World::after_all, 3);
    assert(seq![first, second].drop_last() == seq![first]);
    assert(seq![first].drop_last() == Seq::<StepView>::empty());
}

/// A stored quest is read back as it was stored, and no other quest changes.
pub proof fn stored_quests_are_read_back(world: World, quest: QuestView, interval: Seq<char>)
    ensures
        world.after_all(creation(quest, interval).steps).quests == world.quests.insert(
            quest.id,
            quest,
        ),
        world.after_all(rewrite(quest).steps).quests == world.quests.insert(quest.id, quest),
        world.after_all(change(quest, interval).steps).quests == world.quests.insert(
            quest.id,
            quest,
        ),
        world.after_all(completion(quest, interval).steps).quests == world.quests.insert(
            quest.id,
            quest,
        ),
{
    lemma_plan_worlds(world, quest, interval);
}

/// The backing job of a stored task is enabled exactly while the task is open, under
/// its title.
pub proof fn jobs_follow_the_status(world: World, quest: QuestView, interval: Seq<char>)
    requires
        quest.kind is Task,
    ensures
        ({
            let jobs = world.jobs.insert(
                quest.id,
                Job { title: quest.title, interval, open: quest.status is Open },
            );
            &&& world.after_all(creation(quest, interval).steps).jobs == jobs
            &&& world.after_all(change(quest, interval).steps).jobs == jobs
            &&& world.after_all(completion(quest, interval).steps).jobs == jobs
        }),
{
    lemma_plan_worlds(world, quest, interval);
}

/// A captured item carries no backing job: no operation on it touches a job.
pub proof fn captures_carry_no_job(world: World, quest: QuestView, interval: Seq<char>)
    requires
        !(quest.kind is Task),
    ensures
        world.after_all(creation(quest, interval).steps).jobs == world.jobs,
        world.after_all(rewrite(quest).steps).jobs == world.jobs,
        world.after_all(change(quest, interval).steps).jobs == world.jobs,
        world.after_all(completion(quest, interval).steps).jobs == world.jobs,
{
    lemma_plan_worlds(world, quest, interval);
}

/// The worlds that the plans of operations lead to.
pub proof fn lemma_plan_worlds(world: World, quest: QuestView, interval: Seq<char>)
    ensures
        ({
            let upserted = world.after(ActionView::Upsert(quest));
            let synced = if quest.kind is Task {
                upserted.after(backing_job(quest, interval))
            } else {
                upserted
            };
            &&& world.after_all(creation(quest, interval).steps) == synced
            &&& world.after_all(rewrite(quest).steps) == upserted
            &&& world.after_all(change(quest, interval).steps) == synced
            &&& world.after_all(completion(quest, interval).steps) == synced.after(
                ActionView::Broadcast(EventView::Completed { quest, auto: false }),
            )
        }),
{
    let upsert = must(ActionView::Upsert(quest));
    lemma_two(world, upsert, must(backing_job(quest, interval)));
    lemma_two(world, upsert, may(backing_job(quest, interval)));
    if quest.kind is Task {
        assert(creation(quest, interval).steps =~= seq![
            upsert,
            must(backing_job(quest, interval)),
        ]);
        assert(change(quest, interval).steps =~= seq![
            upsert,
            may(backing_job(quest, interval)),
        ]);
    } else {
        assert(creation(quest, interval).steps =~= seq![upsert]);
        assert(change(quest, interval).steps =~= seq![upsert]);
    }
    let steps = completion(quest, interval).steps;
    assert(steps.drop_last() == change(quest, interval).steps);
}

/// Creating fails where the row or the job cannot be written; any other operation only
/// where the row cannot.
pub proof fn only_creation_insists_on_the_job(quest: QuestView, interval: Seq<char>, at: int)
    ensures
        0 <= at < creation(quest, interval).steps.len() ==> creation(
            quest,
            interval,
        ).steps[at].required,
        0 <= at < completion(quest, interval).steps.len() ==> (completion(
            quest,
            interval,
        ).steps[at].required <==> at == 0),
        0 <= at < change(quest, interval).steps.len() ==> (change(
            quest,
            interval,
        ).steps[at].required <==> at == 0),
        completion(quest, interval).steps[0].action == ActionView::Upsert(quest),
        change(quest, interval).steps[0].action == ActionView::Upsert(quest),
{
}

/// A deleted quest is gone, with its job and its detections, and nothing else is. It is
/// announced where there was one.
pub proof fn deletion_leaves_nothing(world: World, id: Seq<char>)
    ensures
        ({
            let after = world.after_all(removal(id));
            &&& after.quests == world.quests.remove(id)
            &&& after.jobs == world.jobs.remove(id)
            &&& forall|i: int|
                0 <= i < after.detections.len() ==> (#[trigger] after.detections[i]).quest_id != id
            &&& forall|d: DetectionView|
                d.quest_id != id ==> after.detections.contains(d)
                    == #[trigger] world.detections.contains(d)
            &&& after.events == (if world.quests.contains_key(id) {
                world.events.push(EventView::Deleted { id })
            } else {
                world.events
            })
        }),
{
    lemma_two(world, may(ActionView::DeleteJob(id)), must(ActionView::Delete(id)));
    let keep = |d: DetectionView| d.quest_id != id;
    let after = world.detections.filter(keep);
    assert forall|i: int| 0 <= i < after.len() implies (#[trigger] after[i]).quest_id != id by {
        world.detections.lemma_filter_pred(keep, i);
    }
    assert forall|d: DetectionView| d.quest_id != id implies after.contains(d)
        == #[trigger] world.detections.contains(d) by {
        if world.detections.contains(d) {
            let i = world.detections.index_of(d);
            world.detections.lemma_filter_contains(keep, i);
        }
        if after.contains(d) {
            world.detections.lemma_filter_contains_rev(keep, d);
        }
    }
}

/// A task that the engine completes is stored as done, logged and announced, and its job
/// is disabled.
pub proof fn completions_are_logged_and_announced(
    world: World,
    mode: DetectionMode,
    quest: QuestView,
    verdict: VerdictView,
    evidence: Seq<char>,
    interval: Seq<char>,
    now: Seq<char>,
)
    requires
        outcome(mode, verdict) is Complete,
    ensures
        ({
            let done = quest.auto_completed(now);
            let after = world.after_all(
                steps_after(mode, quest, verdict, evidence, interval, now),
            );
            &&& after.quests == world.quests.insert(quest.id, done)
            &&& after.detections == world.detections.push(
                detection_of(quest, verdict, evidence, "auto_completed"@),
            )
            &&& after.events == world.events.push(EventView::Updated { quest: done }).push(
                EventView::Completed { quest: done, auto: true },
            )
            &&& after.jobs == (if quest.kind is Task {
                world.jobs.insert(quest.id, Job { title: quest.title, interval, open: false })
            } else {
                world.jobs
            })
        }),
{
    let steps = steps_after(mode, quest, verdict, evidence, interval, now);
    let done = quest.auto_completed(now);
    let last = may(ActionView::Broadcast(EventView::Completed { quest: done, auto: true }));
    let upsert = may(ActionView::Upsert(done));
    let record = may(
        ActionView::Record(detection_of(quest, verdict, evidence, "auto_completed"@)),
    );
    if quest.kind is Task {
        let before = seq![record, upsert, may(backing_job(done, interval))];
        assert(steps.drop_last() =~= before);
        lemma_three(world, before);
    } else {
        assert(steps.drop_last() =~= seq![record, upsert]);
        lemma_two(world, record, upsert);
    }
    assert(steps.last() == last);
}

/// A new suggestion is stored with the quest, logged and announced.
pub proof fn suggestions_are_logged_and_announced(
    world: World,
    mode: DetectionMode,
    quest: QuestView,
    verdict: VerdictView,
    evidence: Seq<char>,
    interval: Seq<char>,
    now: Seq<char>,
)
    requires
        outcome(mode, verdict) is Suggest,
        !quest.suggests(verdict),
    ensures
        ({
            let next = quest.suggested(verdict, snippet_of(evidence), now);
            let after = world.after_all(steps_after(mode, quest, verdict, evidence, interval, now));
            &&& after.quests == world.quests.insert(quest.id, next)
            &&& after.detections == world.detections.push(
                detection_of(quest, verdict, evidence, "suggested"@),
            )
            &&& after.events == world.events.push(EventView::Updated { quest: next }).push(
                EventView::Suggested {
                    quest: next,
                    confidence: verdict.confidence,
                    reason: verdict.reason,
                },
            )
            &&& after.jobs == world.jobs
        }),
{
    lemma_three(world, steps_after(mode, quest, verdict, evidence, interval, now));
}

/// The world after three steps.
proof fn lemma_three(world: World, steps: Seq<StepView>)
    requires
        steps.len() == 3,
    ensures
        world.after_all(steps) == world.after(steps[0].action).after(steps[1].action).after(
            steps[2].action,
        ),
{
    reveal_with_fuel(World::after_all, 4);
    assert(steps.drop_last().drop_last().drop_last() == Seq::<StepView>::empty());
}

// ---- settings --------------------------------------------------------------------------
/// Only names of modes and valid or empty intervals are ever written to the settings.
pub proof fn only_valid_settings_persist(
    mode: Option<Seq<char>>,
    model: Option<Seq<char>>,
    effort: Option<Seq<char>>,
    interval: Option<Seq<char>>,
    at: int,
)
    requires
        0 <= at < config_writes(mode, model, effort, interval).len(),
    ensures
        ({
            let write = config_writes(mode, model, effort, interval)[at];
            &&& write.key == DETECTION_MODE_PREF@ ==> exists|m: DetectionMode|
                write.value == #[trigger] mode_name(m)
            &&& write.key == DETECTION_INTERVAL_PREF@ ==> write.value.len() == 0 || is_interval(
                write.value,
            )
        }),
{
    reveal_strlit("quest-detection-mode");
    reveal_strlit("quest-judge-model");
    reveal_strlit("quest-judge-effort");
    reveal_strlit("quest-detection-interval");
    assert(DETECTION_MODE_PREF@.len() == 20);
    assert(JUDGE_MODEL_PREF@.len() == 17);
    assert(JUDGE_EFFORT_PREF@.len() == 18);
    assert(DETECTION_INTERVAL_PREF@.len() == 24);
}

/// An interval that was written to the settings is the one that is used.
pub proof fn written_interval_is_used(interval: Seq<char>, variable: Option<Seq<char>>)
    requires
        is_interval(trimmed(interval)),
        !is_blank(interval),
    ensures
        chosen_interval(Some(interval), variable) == trimmed(interval),
{
}

} // verus!
