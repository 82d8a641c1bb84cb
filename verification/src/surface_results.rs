//! What a caller gets back from the surface of the library and from its settings, in terms
//! of what was handed in.
use vstd::prelude::*;

use crate::api::{
    accept_suggestion, capture_item, complete_quest, create_quest, delete_quest, dismiss_quest,
    dismiss_suggestion, finish, first_emission, get_detection_config, get_quest, get_scratchpad,
    health, judge_context, judge_quest, list_kind, list_quests, pin_item, quest_events,
    reopen_quest, select_kind, set_detection_config, set_scratchpad, stored, update_quest,
    use_item, write_failed, writes_of, BodyView, CaptureBody, ConfigPlan, DetectionConfigBody,
    Emission, EmissionView, JudgeBody, ListQuery, PinBody, PrefWrite, PrefWriteView, QuestBody,
    Received, Reply, ScratchpadBody, UseBody,
};
use crate::auth::{
    admits, bearer_ok, ct_eq, default_model_from, gateway_token_from, gateway_url_from, port_from,
    token_from,
};
use crate::board::{board_columns, pinned_first, Board, CardView};
use crate::clock::{rfc3339_moment, snooze_elapsed, snooze_elapsed_at, snooze_reached, Moment};
use crate::detection::{mode_in, mode_name, DetectionMode};
use crate::engine::{new_quest_id, Environment, Gateway, QuestEngine};
use crate::interval::{is_duration, is_interval, spans_total, valid_interval};
use crate::laws::same_item;
use crate::operations::{change, completion, creation, rewrite};
use crate::plan::{quests_of, Plan};
use crate::prefs::{read_prefs, string_map, write_prefs, Prefs};
use crate::quest::{source_of, CompletionSource, Quest, QuestKind, QuestStatus, QuestView};
use crate::quest_laws::{
    same_completion, same_judgement, same_marks, same_suggestion, same_wording, says_something,
};
use crate::settings_laws::{
    ids_are_hexadecimal, intervals_are_chosen_in_order, is_port, knobs_are_written_as_given,
    knobs_are_written_one_by_one, models_are_chosen_in_order, ports_are_read_or_defaulted,
    tokens_are_stripped, unknown_modes_suggest, efforts_are_chosen_in_order,
};
use crate::surface_laws::{lists_are_restricted_by_name, lists_hold_the_wanted_kind};
use crate::text::{
    ascii_lower, decimal, fitting, is_white, lines, one_line, text_of, texts, trimmed,
};
use crate::text_laws::{all_white, blank_is_white_space_alone};
use crate::verdict::Verdict;

verus! {

// ---- replies ---------------------------------------------------------------------------
/// A result of storing is answered with the quest, or with its error as a failure of the
/// server.
pub proof fn stored_result(result: Result<Quest, String>, r: Reply)
    requires
        call_ensures(stored, (result,), r),
    ensures
        result is Ok ==> r.status == 200 && r.body@ == BodyView::Quest(result->Ok_0@),
        result is Err ==> r.status == 500 && r.body@ == BodyView::Error(result->Err_0@),
{
    assert(r@.status == r.status && r@.body == r.body@);
}

/// A change of status is answered with the quest, as not found, or with its error as one of
/// the request.
pub proof fn finish_result(result: Result<Option<Quest>, String>, r: Reply)
    requires
        call_ensures(finish, (result,), r),
    ensures
        result is Ok && result->Ok_0 is Some ==> r.status == 200 && r.body@ == BodyView::Quest(
            result->Ok_0->0@,
        ),
        result is Ok && result->Ok_0 is None ==> r.status == 404 && r.body@ == BodyView::Error(
            "not found"@,
        ),
        result is Err ==> r.status == 400 && r.body@ == BodyView::Error(result->Err_0@),
{
    assert(r@.status == r.status && r@.body == r.body@);
}

/// A read of a quest is answered with it, as not found, or with its error as a failure of
/// the server.
pub proof fn get_quest_result(found: Result<Option<Quest>, String>, r: Reply)
    requires
        call_ensures(get_quest, (found,), r),
    ensures
        found is Ok && found->Ok_0 is Some ==> r.status == 200 && r.body@ == BodyView::Quest(
            found->Ok_0->0@,
        ),
        found is Ok && found->Ok_0 is None ==> r.status == 404 && r.body@ == BodyView::Error(
            "not found"@,
        ),
        found is Err ==> r.status == 500 && r.body@ == BodyView::Error(found->Err_0@),
{
    assert(r@.status == r.status && r@.body == r.body@);
}

/// A deletion is answered by whether a quest was removed.
pub proof fn delete_quest_result(result: Result<bool, String>, r: Reply)
    requires
        call_ensures(delete_quest, (result,), r),
    ensures
        result is Ok && result->Ok_0 ==> r.status == 200 && r.body@ == BodyView::Done,
        result is Ok && !result->Ok_0 ==> r.status == 404 && r.body@ == BodyView::Error(
            "not found"@,
        ),
        result is Err ==> r.status == 500 && r.body@ == BodyView::Error(result->Err_0@),
{
    assert(r@.status == r.status && r@.body == r.body@);
}

/// A detection pass is answered with its verdict, as skipped, or with its error.
pub proof fn judge_quest_result(result: Result<Option<Verdict>, String>, r: Reply)
    requires
        call_ensures(judge_quest, (result,), r),
    ensures
        result is Ok && result->Ok_0 is Some ==> r.status == 200 && r.body@ == BodyView::Verdict(
            result->Ok_0->0@,
        ),
        result is Ok && result->Ok_0 is None ==> r.status == 200 && r.body@ == BodyView::Skipped(
            "not open, snoozed, detection off, or no context available"@,
        ),
        result is Err ==> r.status == 400 && r.body@ == BodyView::Error(result->Err_0@),
{
    assert(r@.status == r.status && r@.body == r.body@);
}

/// The context of a judge request is what its body supplies, and none without a body.
pub proof fn judge_context_result(body: Option<JudgeBody>, r: Option<String>)
    requires
        call_ensures(judge_context, (body,), r),
    ensures
        body is None ==> r is None,
        body is Some ==> text_of(r) == text_of(body->0.context),
{
}

/// The scratchpad is answered with its text, and a write of it as done; an error of the read
/// comes with a success, one of the write with a failure of the server.
pub proof fn scratchpad_results(
    read: Result<String, String>,
    shown: Reply,
    write: Result<(), String>,
    done: Reply,
)
    requires
        call_ensures(get_scratchpad, (read,), shown),
        call_ensures(set_scratchpad, (write,), done),
    ensures
        shown.status == 200,
        read is Ok ==> shown.body@ == BodyView::Text(read->Ok_0@),
        read is Err ==> shown.body@ == BodyView::NoText(read->Err_0@),
        write is Ok ==> done.status == 200 && done.body@ == BodyView::Done,
        write is Err ==> done.status == 500 && done.body@ == BodyView::Error(write->Err_0@),
{
    assert(shown@.status == shown.status && shown@.body == shown.body@);
    assert(done@.status == done.status && done@.body == done.body@);
}

/// A health probe counts the quests, and says that the service is unavailable where they
/// could not be listed.
pub proof fn health_result(result: Result<Vec<Quest>, String>, r: Reply)
    requires
        call_ensures(health, (result,), r),
    ensures
        result is Ok ==> r.status == 200 && r.body@ == (BodyView::Healthy {
            quest_count: result->Ok_0@.len() as usize,
        }),
        result is Err ==> r.status == 503 && r.body@ == BodyView::Unhealthy(result->Err_0@),
{
    assert(r@.status == r.status && r@.body == r.body@);
}

/// A subscriber first gets a comment, then every event; missed events are passed over, and
/// the stream ends with the subscription.
pub proof fn event_results(first: Emission, received: Received, r: Emission)
    requires
        call_ensures(first_emission, (), first),
        call_ensures(quest_events, (received,), r),
    ensures
        first@ == EmissionView::Comment("ready"@),
        received is Event ==> r@ == EmissionView::Event(received->Event_0@),
        received is Lagged ==> r@ is Nothing,
        received is Closed ==> r@ is End,
{
}

// ---- requests --------------------------------------------------------------------------
/// Whether a reply says that no quest was found, or why none could be looked up.
pub open spec fn says_missing(
    found: Result<Option<Quest>, String>,
    not_found: Seq<char>,
    failure: u16,
    reply: Reply,
) -> bool {
    if found is Err {
        reply.status == failure && reply.body@ == BodyView::Error(found->Err_0@)
    } else {
        reply.status == 404 && reply.body@ == BodyView::Error(not_found)
    }
}

/// Whether a quest was found.
pub open spec fn is_there(found: Result<Option<Quest>, String>) -> bool {
    found is Ok && found->Ok_0 is Some
}

/// A quest is created exactly where its title says something.
pub proof fn create_quest_result(engine: &QuestEngine, body: QuestBody, r: Result<Plan, Reply>)
    requires
        call_ensures(create_quest, (engine, body), r),
    ensures
        r is Err <==> all_white(body.title@),
        r is Err ==> r->Err_0.status == 400 && r->Err_0.body@ == BodyView::Error(
            "title is required"@,
        ),
        r is Ok ==> {
            let quest = r->Ok_0.quest@;
            &&& quest.title == trimmed(body.title@)
            &&& says_something(text_of(body.detail)) ==> quest.detail == text_of(body.detail)
            &&& !says_something(text_of(body.detail)) ==> quest.detail is None
            &&& quest.completion_condition == trimmed(body.completion_condition@)
            &&& quest.status is Open
            &&& quest.kind is Task
            &&& r->Ok_0@ == creation(quest, engine.interval())
        },
{
    blank_is_white_space_alone(body.title@);
    if body.detail is Some {
        blank_is_white_space_alone(body.detail->0@);
    }
    if r is Err {
        assert(r->Err_0@.status == r->Err_0.status && r->Err_0@.body == r->Err_0.body@);
    } else {
        assert(r->Ok_0@.quest == r->Ok_0.quest@);
    }
}

/// A text is captured exactly where it says something, verbatim and as the kind that is
/// named.
pub proof fn capture_item_result(engine: &QuestEngine, body: CaptureBody, r: Result<Plan, Reply>)
    requires
        call_ensures(capture_item, (engine, body), r),
    ensures
        r is Err <==> all_white(body.body@),
        r is Err ==> r->Err_0.status == 400 && r->Err_0.body@ == BodyView::Error(
            "body is required"@,
        ),
        r is Ok ==> {
            let quest = r->Ok_0.quest@;
            &&& quest.body == Some(body.body@)
            &&& quest.source == source_of(body.source)
            &&& quest.status is Open
            &&& r->Ok_0@ == creation(quest, engine.interval())
            &&& body.kind is Some ==> {
                &&& quest.kind is Note <==> body.kind->0@ == "note"@
                &&& quest.kind is Link <==> body.kind->0@ == "link"@
                &&& quest.kind is Prompt <==> body.kind->0@ == "prompt"@
                &&& quest.kind is Snippet <==> body.kind->0@ == "snippet"@
            }
            &&& body.kind is None ==> quest.kind is Link || quest.kind is Note
            &&& body.title is Some && !all_white(body.title->0@) ==> quest.title == trimmed(
                body.title->0@,
            )
        },
{
    blank_is_white_space_alone(body.body@);
    if body.title is Some {
        blank_is_white_space_alone(body.title->0@);
    }
    if body.kind is Some {
        crate::quest_laws::kinds_are_named_exactly(body.kind->0@);
    }
    if r is Err {
        assert(r->Err_0@.status == r->Err_0.status && r->Err_0@.body == r->Err_0.body@);
    } else {
        assert(r->Ok_0@.quest == r->Ok_0.quest@);
    }
}

/// A quest is edited exactly where the title says something and the quest was found; the
/// title is looked at first. Its status and the record of its completion stay.
pub proof fn update_quest_result(
    engine: &QuestEngine,
    found: Result<Option<Quest>, String>,
    body: QuestBody,
    r: Result<Plan, Reply>,
)
    requires
        call_ensures(update_quest, (engine, found, body), r),
    ensures
        r is Ok <==> !all_white(body.title@) && is_there(found),
        all_white(body.title@) ==> r->Err_0.status == 400 && r->Err_0.body@ == BodyView::Error(
            "title is required"@,
        ),
        !all_white(body.title@) && r is Err ==> says_missing(found, "not found"@, 500, r->Err_0),
        r is Ok ==> {
            let (before, after) = (found->Ok_0->0@, r->Ok_0.quest@);
            &&& r->Ok_0@ == change(after, engine.interval())
            &&& same_completion(after, before)
            &&& same_suggestion(after, before)
            &&& same_judgement(after, before)
            &&& same_marks(after, before)
            &&& same_item(after, before)
            &&& after.title == trimmed(body.title@)
            &&& after.completion_condition == trimmed(body.completion_condition@)
        },
{
    blank_is_white_space_alone(body.title@);
    if r is Err {
        assert(r->Err_0@.status == r->Err_0.status && r->Err_0@.body == r->Err_0.body@);
    } else {
        assert(r->Ok_0@.quest == r->Ok_0.quest@);
    }
}

/// An item is used exactly where it was found, and checked off exactly where the body asks
/// for it.
pub proof fn use_item_result(
    engine: &QuestEngine,
    found: Result<Option<Quest>, String>,
    body: Option<UseBody>,
    r: Result<Plan, Reply>,
)
    requires
        call_ensures(use_item, (engine, found, body), r),
    ensures
        r is Ok <==> is_there(found),
        r is Err ==> says_missing(found, "quest not found"@, 500, r->Err_0),
        r is Ok ==> {
            let (before, after) = (found->Ok_0->0@, r->Ok_0.quest@);
            let complete = body is Some && body->0.complete;
            &&& complete ==> r->Ok_0@ == completion(after, engine.interval())
            &&& !complete ==> r->Ok_0@ == rewrite(after)
            &&& after.used_at == Some(after.updated_at)
            &&& same_wording(after, before)
            &&& same_item(after, before)
            &&& same_judgement(after, before)
            &&& after.pinned == before.pinned
            &&& !complete ==> same_completion(after, before) && same_suggestion(after, before)
            &&& complete ==> after.status is Done && after.completion_source == Some(
                CompletionSource::Manual,
            )
        },
{
    if r is Err {
        assert(r->Err_0@.status == r->Err_0.status && r->Err_0@.body == r->Err_0.body@);
    } else {
        assert(r->Ok_0@.quest == r->Ok_0.quest@);
    }
}

/// An item is pinned exactly where it was found, as the body says, and without a body.
pub proof fn pin_item_result(
    engine: &QuestEngine,
    found: Result<Option<Quest>, String>,
    body: Option<PinBody>,
    r: Result<Plan, Reply>,
)
    requires
        call_ensures(pin_item, (engine, found, body), r),
    ensures
        r is Ok <==> is_there(found),
        r is Err ==> says_missing(found, "quest not found"@, 500, r->Err_0),
        r is Ok ==> {
            let (before, after) = (found->Ok_0->0@, r->Ok_0.quest@);
            &&& r->Ok_0@ == rewrite(after)
            &&& body is None ==> after.pinned
            &&& body is Some ==> after.pinned == body->0.pinned
            &&& same_wording(after, before)
            &&& same_item(after, before)
            &&& same_judgement(after, before)
            &&& after.used_at == before.used_at
            &&& same_completion(after, before)
            &&& same_suggestion(after, before)
        },
{
    if r is Err {
        assert(r->Err_0@.status == r->Err_0.status && r->Err_0@.body == r->Err_0.body@);
    } else {
        assert(r->Ok_0@.quest == r->Ok_0.quest@);
    }
}

/// Whether a change of status left what it does not concern: the wording, when the quest was
/// judged, its marks, and what it is.
pub open spec fn is_otherwise_the_same(after: QuestView, before: QuestView) -> bool {
    &&& same_wording(after, before)
    &&& same_judgement(after, before)
    &&& same_marks(after, before)
    &&& same_item(after, before)
}

/// Changes of status: each is made exactly where the quest was found. Checking a quest off
/// completes it by hand, accepting its suggestion by detection; dismissing abandons it, and
/// reopening opens it with nothing recorded of a completion.
pub proof fn status_results(
    engine: &QuestEngine,
    found: Result<Option<Quest>, String>,
    completed: Result<Plan, Reply>,
    accepted: Result<Plan, Reply>,
    dismissed: Result<Plan, Reply>,
    reopened: Result<Plan, Reply>,
)
    requires
        call_ensures(complete_quest, (engine, found), completed),
        call_ensures(accept_suggestion, (engine, found), accepted),
        call_ensures(dismiss_quest, (engine, found), dismissed),
        call_ensures(reopen_quest, (engine, found), reopened),
    ensures
        completed is Ok <==> is_there(found),
        accepted is Ok <==> is_there(found),
        dismissed is Ok <==> is_there(found),
        reopened is Ok <==> is_there(found),
        completed is Err ==> says_missing(found, "not found"@, 400, completed->Err_0),
        accepted is Err ==> says_missing(found, "not found"@, 400, accepted->Err_0),
        dismissed is Err ==> says_missing(found, "not found"@, 400, dismissed->Err_0),
        reopened is Err ==> says_missing(found, "not found"@, 400, reopened->Err_0),
        is_there(found) ==> {
            let before = found->Ok_0->0@;
            &&& completed->Ok_0@ == completion(completed->Ok_0.quest@, engine.interval())
            &&& accepted->Ok_0@ == completion(accepted->Ok_0.quest@, engine.interval())
            &&& dismissed->Ok_0@ == change(dismissed->Ok_0.quest@, engine.interval())
            &&& reopened->Ok_0@ == change(reopened->Ok_0.quest@, engine.interval())
            &&& completed->Ok_0.quest@.status is Done
            &&& completed->Ok_0.quest@.completion_source == Some(CompletionSource::Manual)
            &&& completed->Ok_0.quest@.suggestion is None
            &&& accepted->Ok_0.quest@.status is Done
            &&& accepted->Ok_0.quest@.completion_source == Some(CompletionSource::Detected)
            &&& accepted->Ok_0.quest@.suggestion is None
            &&& dismissed->Ok_0.quest@.status is Dismissed
            &&& dismissed->Ok_0.quest@.suggestion is None
            &&& reopened->Ok_0.quest@.status is Open
            &&& reopened->Ok_0.quest@.completed_at is None
            &&& reopened->Ok_0.quest@.completion_source is None
            &&& completed->Ok_0.quest@.snoozed_until is None
            &&& accepted->Ok_0.quest@.snoozed_until is None
            &&& dismissed->Ok_0.quest@.completed_at == before.completed_at
            &&& dismissed->Ok_0.quest@.completion_source == before.completion_source
            &&& dismissed->Ok_0.quest@.snoozed_until == before.snoozed_until
            &&& same_suggestion(reopened->Ok_0.quest@, before)
            &&& is_otherwise_the_same(completed->Ok_0.quest@, before)
            &&& is_otherwise_the_same(accepted->Ok_0.quest@, before)
            &&& is_otherwise_the_same(dismissed->Ok_0.quest@, before)
            &&& is_otherwise_the_same(reopened->Ok_0.quest@, before)
        },
{
    if completed is Ok {
        assert(completed->Ok_0@.quest == completed->Ok_0.quest@);
    } else {
        assert(completed->Err_0@.body == completed->Err_0.body@);
    }
    if accepted is Ok {
        assert(accepted->Ok_0@.quest == accepted->Ok_0.quest@);
    } else {
        assert(accepted->Err_0@.body == accepted->Err_0.body@);
    }
    if dismissed is Ok {
        assert(dismissed->Ok_0@.quest == dismissed->Ok_0.quest@);
    } else {
        assert(dismissed->Err_0@.body == dismissed->Err_0.body@);
    }
    if reopened is Ok {
        assert(reopened->Ok_0@.quest == reopened->Ok_0.quest@);
    } else {
        assert(reopened->Err_0@.body == reopened->Err_0.body@);
    }
}

/// A suggestion is dismissed exactly where the quest was found, and the quest then has none,
/// whatever it had before; its status and its wording stay.
pub proof fn dismiss_suggestion_result(
    engine: &QuestEngine,
    found: Result<Option<Quest>, String>,
    r: Result<Plan, Reply>,
)
    requires
        call_ensures(dismiss_suggestion, (engine, found), r),
    ensures
        r is Ok <==> is_there(found),
        r is Err ==> says_missing(found, "not found"@, 400, r->Err_0),
        r is Ok ==> {
            let (before, after) = (found->Ok_0->0@, r->Ok_0.quest@);
            &&& r->Ok_0@ == rewrite(after)
            &&& after.suggestion is None
            &&& after.snoozed_until is Some
            &&& same_wording(after, before)
            &&& same_completion(after, before)
            &&& same_judgement(after, before)
            &&& same_marks(after, before)
            &&& same_item(after, before)
        },
{
    if r is Err {
        assert(r->Err_0@.status == r->Err_0.status && r->Err_0@.body == r->Err_0.body@);
    } else {
        assert(r->Ok_0@.quest == r->Ok_0.quest@);
    }
}

// ---- lists -----------------------------------------------------------------------------
/// A list is restricted to the kind that the query names, and to none where it names
/// nothing.
pub proof fn list_kind_result(query: &ListQuery, r: Option<QuestKind>)
    requires
        call_ensures(list_kind, (query,), r),
    ensures
        r is None <==> query.kind is None || all_white(query.kind->0@),
        r is Some ==> {
            let name = trimmed(query.kind->0@);
            &&& r->0 is Note <==> name == "note"@
            &&& r->0 is Link <==> name == "link"@
            &&& r->0 is Prompt <==> name == "prompt"@
            &&& r->0 is Snippet <==> name == "snippet"@
        },
{
    if query.kind is Some {
        lists_are_restricted_by_name(query.kind->0@);
        crate::quest_laws::kinds_are_named_exactly(trimmed(query.kind->0@));
    }
}

/// Of a list all quests are picked where no kind is wanted; of a longer one the last is
/// picked exactly where it is of the wanted kind, after those of the shorter one.
pub proof fn select_kind_result(
    quests: Vec<Quest>,
    more: Vec<Quest>,
    quest: Quest,
    kind: Option<QuestKind>,
    picked: Vec<Quest>,
    picked_more: Vec<Quest>,
)
    requires
        more@ == quests@.push(quest),
        call_ensures(select_kind, (quests, kind), picked),
        call_ensures(select_kind, (more, kind), picked_more),
    ensures
        kind is None ==> quests_of(picked@) == quests_of(quests@),
        kind is None || kind->0 == quest.kind ==> quests_of(picked_more@) == quests_of(
            picked@,
        ).push(quest@),
        kind is Some && kind->0 != quest.kind ==> quests_of(picked_more@) == quests_of(picked@),
{
    assert(quests_of(more@) =~= quests_of(quests@).push(quest@));
    let wanted = if kind is Some {
        kind->0
    } else {
        QuestKind::Task
    };
    lists_hold_the_wanted_kind(quests_of(quests@), quest@, wanted);
    lists_hold_the_wanted_kind(quests_of(more@), quest@, wanted);
}

/// A list is answered with the quests of the kind that the query names, and with its error
/// where there is none; always with success.
pub proof fn list_quests_result(
    query: &ListQuery,
    listed: Result<Vec<Quest>, String>,
    kind: Option<QuestKind>,
    picked: Vec<Quest>,
    r: Reply,
)
    requires
        call_ensures(list_quests, (query, listed), r),
        call_ensures(list_kind, (query,), kind),
        listed is Ok ==> call_ensures(select_kind, (listed->Ok_0, kind), picked),
    ensures
        r.status == 200,
        listed is Ok ==> r.body@ == BodyView::Quests(quests_of(picked@)),
        listed is Err ==> r.body@ == BodyView::NoQuests(listed->Err_0@),
{
    assert(r@.status == r.status && r@.body == r.body@);
}

/// The columns of the board: one more quest adds its card at the end of the column of its
/// status, and to no other; each column counts its cards.
pub proof fn board_columns_result(
    quests: &[Quest],
    more: &[Quest],
    quest: Quest,
    before: Board,
    after: Board,
)
    requires
        more@ == quests@.push(quest),
        call_ensures(board_columns, (quests,), before),
        call_ensures(board_columns, (more,), after),
    ensures
        ({
            let card = CardView {
                id: quest@.id,
                title: quest@.title,
                source: match quest@.completion_source {
                    Some(CompletionSource::Manual) => Some("manual"@),
                    Some(CompletionSource::Detected) => Some("detected"@),
                    None => None,
                },
            };
            &&& after.open@.quests == (if quest.status is Open {
                before.open@.quests.push(card)
            } else {
                before.open@.quests
            })
            &&& after.done@.quests == (if quest.status is Done {
                before.done@.quests.push(card)
            } else {
                before.done@.quests
            })
            &&& after.dismissed@.quests == (if quest.status is Dismissed {
                before.dismissed@.quests.push(card)
            } else {
                before.dismissed@.quests
            })
            &&& after.open@.count == after.open@.quests.len()
            &&& after.done@.count == after.done@.quests.len()
            &&& after.dismissed@.count == after.dismissed@.quests.len()
            &&& after.open@.status == "open"@
            &&& after.done@.status == "done"@
            &&& after.dismissed@.status == "dismissed"@
        }),
{
    assert(quests_of(more@) =~= quests_of(quests@).push(quest@));
    let all = quests_of(quests@);
    crate::surface_laws::quests_add_their_card(all, quest@, QuestStatus::Open);
    crate::surface_laws::quests_add_their_card(all, quest@, QuestStatus::Done);
    crate::surface_laws::quests_add_their_card(all, quest@, QuestStatus::Dismissed);
}

/// The pinned quests come first, in their order, and then the others in theirs.
pub proof fn pinned_first_result(quests: Vec<Quest>, r: Vec<Quest>)
    requires
        call_ensures(pinned_first, (quests,), r),
    ensures
        quests_of(r@) == quests_of(quests@).filter(|q: QuestView| q.pinned) + quests_of(
            quests@,
        ).filter(|q: QuestView| !q.pinned),
{
}

// ---- settings --------------------------------------------------------------------------
/// Each knob that is given is written under its key, in order; an interval that is none is
/// refused after the others.
pub proof fn set_detection_config_result(
    mode: Option<String>,
    model: Option<String>,
    effort: Option<String>,
    interval: Option<String>,
    r: ConfigPlan,
)
    requires
        call_ensures(
            set_detection_config,
            (&DetectionConfigBody { mode, model, effort, interval },),
            r,
        ),
    ensures
        ({
            let refused = interval is Some && !all_white(interval->0@) && !is_interval(
                trimmed(interval->0@),
            );
            let none = Seq::<PrefWriteView>::empty();
            let first = if mode is Some {
                seq![
                    PrefWriteView {
                        key: "quest-detection-mode"@,
                        value: mode_name(mode_in(mode->0@)),
                        required: true,
                    },
                ]
            } else {
                none
            };
            let second = if model is Some {
                seq![
                    PrefWriteView {
                        key: "quest-judge-model"@,
                        value: trimmed(model->0@),
                        required: false,
                    },
                ]
            } else {
                none
            };
            let third = if effort is Some {
                seq![
                    PrefWriteView {
                        key: "quest-judge-effort"@,
                        value: trimmed(effort->0@),
                        required: false,
                    },
                ]
            } else {
                none
            };
            let last = if interval is Some && !refused {
                seq![
                    PrefWriteView {
                        key: "quest-detection-interval"@,
                        value: trimmed(interval->0@),
                        required: false,
                    },
                ]
            } else {
                none
            };
            &&& writes_of(r.writes@) == first + second + third + last
            &&& !refused ==> r.reply.status == 200 && r.reply.body@ == BodyView::Done
            &&& refused ==> r.reply.status == 400 && r.reply.body@ == BodyView::Error(
                "interval '"@ + trimmed(interval->0@) + "' is not a valid duration (e.g. 2m)"@,
            )
        }),
{
    assert(r.reply@.status == r.reply.status && r.reply@.body == r.reply.body@);
    let (a, b, c, d) = (text_of(mode), text_of(model), text_of(effort), text_of(interval));
    knobs_are_written_one_by_one(a, b, c, d);
    if mode is Some {
        knobs_are_written_as_given(mode->0@);
    }
    if model is Some {
        knobs_are_written_as_given(model->0@);
    }
    if effort is Some {
        knobs_are_written_as_given(effort->0@);
    }
    if interval is Some {
        knobs_are_written_as_given(interval->0@);
    }
}

/// A write that failed is answered, as a failure of the server, exactly where it had to
/// succeed.
pub proof fn write_failed_result(write: &PrefWrite, error: String, r: Option<Reply>)
    requires
        call_ensures(write_failed, (write, error), r),
    ensures
        r is Some <==> write.required,
        r is Some ==> r->0.status == 500 && r->0.body@ == BodyView::Error(error@),
{
    if r is Some {
        assert(r->0@.status == r->0.status && r->0@.body == r->0.body@);
    }
}

/// The knobs are answered as they are set: the mode by its name, the interval that is used,
/// and the model and the effort as they were written, empty where they were not.
pub proof fn get_detection_config_result(
    engine: &QuestEngine,
    mode: DetectionMode,
    interval: String,
    model: Option<String>,
    effort: Option<String>,
    r: Reply,
)
    requires
        call_ensures(get_detection_config, (engine,), r),
        call_ensures(QuestEngine::detection_mode, (engine,), mode),
        call_ensures(QuestEngine::resolve_interval, (engine,), interval),
        call_ensures(QuestEngine::pref_get, (engine, "quest-judge-model"), model),
        call_ensures(QuestEngine::pref_get, (engine, "quest-judge-effort"), effort),
    ensures
        r.status == 200,
        r.body@ is Config,
        r.body@->mode == mode_name(mode),
        r.body@->interval == interval@,
        model is Some ==> r.body@->model == model->0@,
        model is None ==> r.body@->model.len() == 0,
        effort is Some ==> r.body@->effort == effort->0@,
        effort is None ==> r.body@->effort.len() == 0,
{
    assert(r@.status == r.status && r@.body == r.body@);
}

/// The engine's mode is the one that its preference names, and completing on sure verdicts
/// without one.
pub proof fn detection_mode_result(
    engine: &QuestEngine,
    before: Seq<char>,
    name: Seq<char>,
    behind: Seq<char>,
    r: DetectionMode,
)
    requires
        call_ensures(QuestEngine::detection_mode, (engine,), r),
        all_white(before),
        all_white(behind),
        name.len() > 0 ==> !is_white(name[0]) && !is_white(name.last()),
    ensures
        !engine.prefs@.contains_key("quest-detection-mode"@) ==> r is AutoHigh,
        engine.prefs@.contains_key("quest-detection-mode"@)
            && engine.prefs@["quest-detection-mode"@] == before + name + behind ==> {
            let low = ascii_lower(name);
            &&& r is Off <==> low == "off"@
            &&& r is AutoHigh <==> low == "auto_high"@ || low == "auto-high"@
            &&& r is AutoAll <==> low == "auto_all"@ || low == "auto-all"@
        },
{
    unknown_modes_suggest(before, name, behind);
}

/// Modes are read from a preference in any case and with any space around it, and written by
/// their names.
pub proof fn mode_results(
    text: &str,
    before: Seq<char>,
    name: Seq<char>,
    behind: Seq<char>,
    read: DetectionMode,
    mode: DetectionMode,
    written: &'static str,
)
    requires
        call_ensures(DetectionMode::from_pref, (text,), read),
        call_ensures(DetectionMode::as_str, (mode,), written),
        text@ == before + name + behind,
        all_white(before),
        all_white(behind),
        name.len() > 0 ==> !is_white(name[0]) && !is_white(name.last()),
    ensures
        ({
            let low = ascii_lower(name);
            &&& read is Off <==> low == "off"@
            &&& read is AutoHigh <==> low == "auto_high"@ || low == "auto-high"@
            &&& read is AutoAll <==> low == "auto_all"@ || low == "auto-all"@
        }),
        written@ == (match mode {
            DetectionMode::Off => "off"@,
            DetectionMode::Suggest => "suggest"@,
            DetectionMode::AutoHigh => "auto_high"@,
            DetectionMode::AutoAll => "auto_all"@,
        }),
{
    unknown_modes_suggest(before, name, behind);
}

/// Whether a preference is set under a key to something that says something.
pub open spec fn is_set(engine: QuestEngine, key: Seq<char>) -> bool {
    engine.prefs@.contains_key(key) && !all_white(engine.prefs@[key])
}

/// The interval is the preference, else the variable, else two minutes, whichever is the
/// first that is an interval.
pub proof fn resolve_interval_result(engine: &QuestEngine, r: String)
    requires
        call_ensures(QuestEngine::resolve_interval, (engine,), r),
    ensures
        ({
            let key = "quest-detection-interval"@;
            let preferred = is_set(*engine, key) && is_interval(trimmed(engine.prefs@[key]));
            let variable = engine.environment.quest_interval;
            let named = variable is Some && is_interval(variable->0@);
            &&& preferred ==> r@ == trimmed(engine.prefs@[key])
            &&& !preferred && named ==> r@ == variable->0@
            &&& !preferred && !named ==> r@ == "2m"@
        }),
        is_interval(r@),
{
    let key = "quest-detection-interval"@;
    intervals_are_chosen_in_order(
        crate::engine::pref(engine.prefs@, key),
        text_of(engine.environment.quest_interval),
    );
}

/// The judge model is the preference, else the first variable that is not empty, else the
/// default.
pub proof fn resolve_judge_model_result(engine: &QuestEngine, r: String)
    requires
        call_ensures(QuestEngine::resolve_judge_model, (engine,), r),
    ensures
        ({
            let key = "quest-judge-model"@;
            let first = engine.environment.quest_judge_model;
            let second = engine.environment.default_llm_model;
            let one = first is Some && first->0@.len() > 0;
            let two = second is Some && second->0@.len() > 0;
            &&& is_set(*engine, key) ==> r@ == trimmed(engine.prefs@[key])
            &&& !is_set(*engine, key) && one ==> r@ == first->0@
            &&& !is_set(*engine, key) && !one && two ==> r@ == second->0@
            &&& !is_set(*engine, key) && !one && !two ==> r@ == engine.default_model@
        }),
{
    models_are_chosen_in_order(
        crate::engine::pref(engine.prefs@, "quest-judge-model"@),
        text_of(engine.environment.quest_judge_model),
        text_of(engine.environment.default_llm_model),
        engine.default_model@,
    );
}

/// The effort is the preference, else the variable, else empty.
pub proof fn resolve_judge_effort_result(engine: &QuestEngine, r: String)
    requires
        call_ensures(QuestEngine::resolve_judge_effort, (engine,), r),
    ensures
        ({
            let key = "quest-judge-effort"@;
            let variable = engine.environment.quest_judge_effort;
            &&& is_set(*engine, key) ==> r@ == trimmed(engine.prefs@[key])
            &&& !is_set(*engine, key) && variable is Some ==> r@ == variable->0@
            &&& !is_set(*engine, key) && variable is None ==> r@.len() == 0
        }),
{
    efforts_are_chosen_in_order(
        crate::engine::pref(engine.prefs@, "quest-judge-effort"@),
        text_of(engine.environment.quest_judge_effort),
    );
}

/// An engine has the settings that it was made with.
pub proof fn new_engine_result(
    prefs: Prefs,
    environment: Environment,
    default_model: String,
    gateway: Gateway,
    r: QuestEngine,
)
    requires
        call_ensures(QuestEngine::new, (prefs, environment, default_model, gateway), r),
    ensures
        r.prefs@ == prefs@,
        r.environment == environment,
        r.default_model@ == default_model@,
        r.gateway == gateway,
{
}

/// The scratchpad holds what was last written to it, and nothing before; writing it leaves
/// all other preferences.
pub proof fn engine_scratchpad_results(
    engine: &QuestEngine,
    shown: String,
    written: &mut QuestEngine,
    text: &str,
)
    requires
        call_ensures(QuestEngine::scratchpad, (engine,), shown),
        call_ensures(QuestEngine::set_scratchpad, (written, text), ()),
    ensures
        engine.prefs@.contains_key("quest-scratchpad"@) ==> shown@
            == engine.prefs@["quest-scratchpad"@],
        !engine.prefs@.contains_key("quest-scratchpad"@) ==> shown@.len() == 0,
        final(written).prefs@ == old(written).prefs@.insert("quest-scratchpad"@, text@),
        final(written).environment == old(written).environment,
        final(written).default_model == old(written).default_model,
        final(written).gateway == old(written).gateway,
{
}

/// A preference that was set has that value, and all others have theirs.
pub proof fn preference_results(
    engine: &QuestEngine,
    key: &str,
    found: Option<String>,
    prefs: Prefs,
    other: &str,
    value: &str,
    changed: Prefs,
    read: Option<String>,
    written: &mut QuestEngine,
)
    requires
        call_ensures(QuestEngine::pref_get, (engine, key), found),
        call_ensures(Prefs::set, (prefs, other, value), changed),
        call_ensures(Prefs::get, (&changed, key), read),
        call_ensures(QuestEngine::pref_set, (written, other, value), ()),
    ensures
        found is Some <==> engine.prefs@.contains_key(key@),
        found is Some ==> found->0@ == engine.prefs@[key@],
        key@ == other@ ==> read is Some && read->0@ == value@,
        key@ != other@ ==> (read is Some <==> prefs@.contains_key(key@)),
        key@ != other@ && read is Some ==> read->0@ == prefs@[key@],
        final(written).prefs@ == old(written).prefs@.insert(other@, value@),
        final(written).environment == old(written).environment,
        final(written).default_model == old(written).default_model,
        final(written).gateway == old(written).gateway,
{
    assert(text_of(found) is Some <==> found is Some);
    assert(text_of(read) is Some <==> read is Some);
}

/// Preferences that were written are read back, and bytes that hold none give none. Of a
/// list of pairs the last one with a key gives its value.
pub proof fn kept_preference_results(
    prefs: &Prefs,
    bytes: Vec<u8>,
    read: Prefs,
    other: &[u8],
    found: Prefs,
    fresh: Prefs,
    pairs: Vec<(String, String)>,
    more: Vec<(String, String)>,
    pair: (String, String),
    few: Prefs,
    many: Prefs,
)
    requires
        call_ensures(write_prefs, (prefs,), bytes),
        exists|slice: &[u8]|
            slice@ == bytes@ && #[trigger] call_ensures(read_prefs, (slice,), read),
        call_ensures(read_prefs, (other,), found),
        call_ensures(Prefs::new, (), fresh),
        more@ == pairs@.push(pair),
        call_ensures(Prefs::of_pairs, (pairs,), few),
        call_ensures(Prefs::of_pairs, (more,), many),
    ensures
        read@ == prefs@,
        string_map(other@) is Some ==> found@ == string_map(other@)->0,
        string_map(other@) is None ==> found@ == fresh@,
        fresh@ == Map::<Seq<char>, Seq<char>>::empty(),
        many@ == few@.insert(pair.0@, pair.1@),
        pairs@.len() == 0 ==> few@ == fresh@,
{
    assert(more@.drop_last() =~= pairs@);
}

/// An interval is a duration whose spans stay below 2^64 seconds.
pub proof fn valid_interval_result(text: &str, r: bool)
    requires
        call_ensures(valid_interval, (text,), r),
    ensures
        r <==> is_duration(text@) && spans_total(text@) < 0x1_0000_0000_0000_0000 * 1_000_000_000,
        text@ == "2m"@ ==> r,
{
}

/// A new id is `quest_` and 32 hexadecimal digits.
pub proof fn new_quest_id_result(r: String)
    requires
        call_ensures(new_quest_id, (), r),
    ensures
        r@.len() == 38,
        r@.take(6) == "quest_"@,
        forall|i: int|
            6 <= i < 38 ==> 48 <= (#[trigger] r@[i]) as int <= 57 || 97 <= r@[i] as int <= 102,
{
    ids_are_hexadecimal(r@);
}

// ---- the process -----------------------------------------------------------------------
/// A request is admitted exactly where a token is expected, is not empty, and its header is
/// `Bearer`, a space and that token.
pub proof fn admission_results(
    header: Option<&str>,
    expected: Option<&str>,
    admitted: bool,
    provided: Option<&str>,
    ok: bool,
    a: &[u8],
    b: &[u8],
    same: bool,
)
    requires
        call_ensures(admits, (header, expected), admitted),
        call_ensures(bearer_ok, (provided, expected), ok),
        call_ensures(ct_eq, (a, b), same),
    ensures
        admitted <==> expected is Some && expected->0@.len() > 0 && header is Some && header->0@
            == "Bearer "@ + expected->0@,
        ok <==> expected is Some && expected->0@.len() > 0 && provided is Some && provided->0@
            == expected->0@,
        same <==> a@ == b@,
{
    if expected is Some && expected->0@.len() > 0 && header is Some {
        crate::auth::only_the_token_is_admitted(header->0@, expected->0@);
    }
}

/// The token to expect is what is set, without space around it, and none where that is
/// nothing.
pub proof fn token_from_result(value: Option<&str>, r: Option<String>)
    requires
        call_ensures(token_from, (value,), r),
    ensures
        r is None <==> value is None || all_white(value->0@),
        r is Some ==> r->0@ == trimmed(value->0@),
{
    if value is Some {
        tokens_are_stripped(value->0@);
    }
    assert(text_of(r) is Some <==> r is Some);
}

/// The port is the one that is set, with or without a plus sign, and 7991 otherwise.
pub proof fn port_from_result(
    value: Option<&str>,
    before: Seq<char>,
    text: Seq<char>,
    behind: Seq<char>,
    r: u16,
)
    requires
        call_ensures(port_from, (value,), r),
        value is Some ==> value->0@ == before + text + behind,
        all_white(before),
        all_white(behind),
        text.len() > 0 ==> !is_white(text[0]) && !is_white(text.last()),
    ensures
        value is None ==> r == 7991,
        value is Some && is_port(text) ==> r == decimal(text),
        value is Some && text.len() > 0 && text[0] == '+' && is_port(text.skip(1)) ==> r
            == decimal(text.skip(1)),
        value is Some && !is_port(text) && !(text.len() > 0 && text[0] == '+' && is_port(
            text.skip(1),
        )) ==> r == 7991,
{
    ports_are_read_or_defaulted(before, text, behind);
}

/// The gateway and the model of last resort are what is set and not empty, and else the
/// local gateway, without a token, and the bundled model.
pub proof fn gateway_results(
    value: Option<&str>,
    url: String,
    token: Option<String>,
    model: String,
)
    requires
        call_ensures(gateway_url_from, (value,), url),
        call_ensures(gateway_token_from, (value,), token),
        call_ensures(default_model_from, (value,), model),
    ensures
        value is Some && value->0@.len() > 0 ==> url@ == value->0@ && text_of(token) == Some(
            value->0@,
        ) && model@ == value->0@,
        value is None || value->0@.len() == 0 ==> url@ == "http://127.0.0.1:7981"@
            && token is None && model@ == "gemma-4-E2B-it-Q4_K_M"@,
{
    assert(text_of(token) is Some <==> token is Some);
}

// ---- time and text ---------------------------------------------------------------------
/// A moment some seconds later, and whether a snooze is over at a moment.
pub proof fn time_results(
    moment: Moment,
    seconds: u32,
    later: Moment,
    until: Option<(i64, u32)>,
    over: bool,
)
    requires
        moment.in_range(),
        call_ensures(Moment::after, (moment, seconds), later),
        call_ensures(snooze_reached, (until, moment), over),
    ensures
        later.nanos == moment.nanos,
        moment.secs + seconds <= 8_210_266_876_799 ==> later.secs == moment.secs + seconds,
        moment.secs + seconds > 8_210_266_876_799 ==> later.secs == 8_210_266_876_799,
        over <==> match until {
            Some((secs, nanos)) => moment.secs > secs || (moment.secs == secs && moment.nanos
                >= nanos),
            None => true,
        },
{
}

/// A snooze whose end cannot be read never holds; any other holds exactly before its end.
/// The timestamp of a moment up to the year 9999 reads back as that moment.
pub proof fn snooze_results(
    until: &str,
    now: Moment,
    at: bool,
    over: bool,
    moment: Moment,
    stamp: String,
)
    requires
        call_ensures(snooze_elapsed_at, (until, now), at),
        call_ensures(snooze_elapsed, (until,), over),
        moment.in_range(),
        call_ensures(Moment::timestamp, (moment,), stamp),
    ensures
        rfc3339_moment(until@) is None ==> at && over,
        rfc3339_moment(until@) is Some ==> at == (match rfc3339_moment(until@)->0 {
            (secs, nanos) => now.secs > secs || (now.secs == secs && now.nanos >= nanos),
        }),
        moment.secs <= 253_402_300_799 ==> rfc3339_moment(stamp@) == Some(
            (moment.secs, moment.nanos),
        ),
{
}

/// The defaults: a task, open, detection that completes on sure verdicts, and bodies that
/// ask for nothing.
pub proof fn default_results(
    kind: QuestKind,
    status: QuestStatus,
    mode: DetectionMode,
    query: ListQuery,
    used: UseBody,
    pin: PinBody,
    pad: ScratchpadBody,
    body: JudgeBody,
)
    requires
        call_ensures(<QuestKind as Default>::default, (), kind),
        call_ensures(<QuestStatus as Default>::default, (), status),
        call_ensures(<DetectionMode as Default>::default, (), mode),
        call_ensures(<ListQuery as Default>::default, (), query),
        call_ensures(<UseBody as Default>::default, (), used),
        call_ensures(<PinBody as Default>::default, (), pin),
        call_ensures(<ScratchpadBody as Default>::default, (), pad),
        call_ensures(<JudgeBody as Default>::default, (), body),
    ensures
        kind is Task,
        status is Open,
        mode is AutoHigh,
        query.kind is None,
        !used.complete,
        !pin.pinned,
        pad.text@.len() == 0,
        body.context is None,
{
}

/// The text functions give what their models say: stripping, squeezing, lower case, lines,
/// cutting, prefixes and blankness.
pub proof fn text_results(
    s: &str,
    stripped: &str,
    squeezed: String,
    low: String,
    split: Vec<String>,
    cap: u32,
    cut: String,
    prefix: &str,
    starts: bool,
    rest: Option<String>,
    is_blank: bool,
)
    requires
        call_ensures(crate::text::trim, (s,), stripped),
        call_ensures(crate::text::squeeze, (s,), squeezed),
        call_ensures(crate::text::lower, (s,), low),
        call_ensures(crate::text::split_lines, (s,), split),
        call_ensures(crate::text::cut, (s, cap), cut),
        call_ensures(crate::text::has_prefix, (s, prefix), starts),
        call_ensures(crate::text::strip_prefix, (s, prefix), rest),
        call_ensures(crate::text::blank, (s,), is_blank),
    ensures
        stripped@ == trimmed(s@),
        squeezed@ == one_line(s@),
        low@ == ascii_lower(s@),
        texts(split@) == lines(s@),
        cut@ == fitting(s@, cap as nat),
        starts <==> prefix@.is_prefix_of(s@),
        rest is Some <==> starts,
        rest is Some ==> s@ == prefix@ + rest->0@,
        is_blank <==> all_white(s@),
{
    blank_is_white_space_alone(s@);
    assert(text_of(rest) is Some <==> rest is Some);
    if rest is Some {
        crate::text_laws::prefix_and_rest_make_up_the_text(s@, prefix@, rest->0@);
    }
}

} // verus!
