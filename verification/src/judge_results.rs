//! What a caller gets back from the judge's side of the library, in terms of what was
//! handed in.
use vstd::prelude::*;

use crate::clock::{is_stamp, Moment};
use crate::context::{
    combine, gather_context, read_tool_reply, recent_call, search_call, usable_text, Field,
    ToolCall, ToolReply,
};
use crate::detection::DetectionMode;
use crate::engine::QuestEngine;
use crate::json::{json_contents, json_document, json_text, Key, Leaf};
use crate::judge::{
    act_on, call_judge, completion_content, conclude_at, decide, open_pass, read_completion,
    GatewayReply, JudgeRequest, Opening, Outcome, Pass,
};
use crate::judge_laws::{
    completes, consequences_of_a_verdict, content_is_that_of_the_first_choice, content_path,
    evidence_is_headed, exactly_open_tasks_are_judged, is_chosen, is_pending, is_unavailable,
    is_weak, offers_nothing, quests_follow_the_verdict, replies_offer_the_chosen_text,
    requests_carry_what_was_given, rests, stands, stands_text, tool_replies_are_read_in_order,
};
use crate::laws::same_item;
use crate::plan::{steps_of, EventView, Job, Step, World};
use crate::quest::{CompletionSource, Quest};
use crate::quest_laws::{same_completion, same_marks, same_wording};
use crate::text::{
    decimal, digits, fitting, is_white, one_line, split_lines, text_of, texts, trimmed,
};
use crate::text_laws::{all_white, on_one_line};
use crate::verdict::{
    build_judge_prompt, parse_verdict, read_verdict, snippet, Verdict,
};
use crate::verdict_laws::{
    has_label, is_answered, is_labelled, last_answer_decides, last_confidence_counts,
    last_reason_counts, other_lines_do_not_count, reason_at,
    reply_is_met_as_its_last_met_line_says, says_no, says_yes, snippet_is_the_beginning,
    unanswered_replies_are_not_met,
};

verus! {

// ---- verdicts --------------------------------------------------------------------------
/// A reply is met as its last `MET:` line says, whatever its other lines say.
pub proof fn read_verdict_result(
    lines: &Vec<String>,
    at: int,
    indent: Seq<char>,
    label: Seq<char>,
    gap: Seq<char>,
    text: Seq<char>,
    r: Verdict,
)
    requires
        call_ensures(read_verdict, (lines,), r),
        0 <= at < lines@.len(),
        is_labelled(lines@[at]@, "met:"@, indent, label, gap + text),
        all_white(gap),
        text.len() > 0 ==> !is_white(text[0]),
        forall|k: int| at < k < lines@.len() ==> !has_label((#[trigger] lines@[k])@, "met:"@),
    ensures
        says_yes(text) ==> r.met,
        says_no(text) ==> !r.met,
        r.confidence <= 100,
{
    let all = texts(lines@);
    assert(all[at] == lines@[at]@);
    assert forall|k: int| at < k < all.len() implies !has_label(#[trigger] all[k], "met:"@) by {
        assert(all[k] == lines@[k]@);
    }
    reply_is_met_as_its_last_met_line_says(all, at, indent, label, gap, text);
    crate::laws::confidence_is_a_percentage(all);
}

/// A reply none of whose lines starts with `MET:` is not met, with no confidence.
pub proof fn read_verdict_without_answer(lines: &Vec<String>, r: Verdict)
    requires
        call_ensures(read_verdict, (lines,), r),
        forall|k: int| 0 <= k < lines@.len() ==> !has_label((#[trigger] lines@[k])@, "met:"@),
    ensures
        !r.met,
        r.confidence == 0,
{
    let all = texts(lines@);
    assert forall|k: int| 0 <= k < all.len() implies crate::verdict::answer_on(
        #[trigger] all[k],
    ) is None by {
        assert(all[k] == lines@[k]@);
        crate::verdict_laws::only_met_lines_answer(lines@[k]@);
    }
    unanswered_replies_are_not_met(all);
}

/// One more line of a reply: a `MET:` line that says yes or no decides; a `CONFIDENCE:` line
/// gives the number of its digits, at most 100, where the reply has an answer; and neither
/// touches what the other gives.
pub proof fn read_verdict_of_one_more_line(
    lines: &Vec<String>,
    more: &Vec<String>,
    line: String,
    indent: Seq<char>,
    label: Seq<char>,
    gap: Seq<char>,
    text: Seq<char>,
    before: Verdict,
    after: Verdict,
)
    requires
        more@ == lines@.push(line),
        call_ensures(read_verdict, (lines,), before),
        call_ensures(read_verdict, (more,), after),
        all_white(gap),
        text.len() > 0 ==> !is_white(text[0]),
    ensures
        is_labelled(line@, "met:"@, indent, label, gap + text) ==> {
            &&& says_yes(text) ==> after.met
            &&& says_no(text) ==> !after.met
            &&& !says_yes(text) && !says_no(text) ==> after@ == before@
            &&& is_answered(texts(lines@)) ==> after.confidence == before.confidence
        },
        is_labelled(line@, "confidence:"@, indent, label, gap + text) ==> {
            let number = decimal(digits(gap + text));
            let readable = digits(gap + text).len() > 0 && number <= 4294967295;
            &&& after.met == before.met
            &&& after.reason@ == before.reason@
            &&& !readable ==> after@ == before@
            &&& readable && is_answered(texts(lines@)) && number <= 100 ==> after.confidence
                == number
            &&& readable && is_answered(texts(lines@)) && number > 100 ==> after.confidence == 100
        },
{
    assert(texts(more@) =~= texts(lines@).push(line@));
    if is_labelled(line@, "met:"@, indent, label, gap + text) {
        last_answer_decides(texts(lines@), line@, indent, label, gap, text);
    }
    if is_labelled(line@, "confidence:"@, indent, label, gap + text) {
        last_confidence_counts(texts(lines@), line@, indent, label, gap + text);
    }
}

/// One more line of a reply that has neither of those labels: it gives the reason after the
/// first `reason:` in it, where something follows, and otherwise touches nothing.
pub proof fn read_verdict_of_one_more_reason(
    lines: &Vec<String>,
    more: &Vec<String>,
    line: String,
    at: int,
    before: Verdict,
    after: Verdict,
)
    requires
        more@ == lines@.push(line),
        call_ensures(read_verdict, (lines,), before),
        call_ensures(read_verdict, (more,), after),
        !has_label(line@, "met:"@),
        !has_label(line@, "confidence:"@),
    ensures
        after.met == before.met,
        after.confidence == before.confidence,
        reason_at(line@, at) && (forall|k: int| 0 <= k < at ==> !#[trigger] reason_at(line@, k))
            && !all_white(line@.skip(at + 7)) ==> after.reason@ == trimmed(line@.skip(at + 7)),
        (forall|k: int| !#[trigger] reason_at(line@, k)) ==> after.reason@ == before.reason@,
{
    assert(texts(more@) =~= texts(lines@).push(line@));
    if forall|k: int| !#[trigger] reason_at(line@, k) {
        other_lines_do_not_count(texts(lines@), line@);
    } else {
        let some = choose|k: int| #[trigger] reason_at(line@, k);
        let first = lemma_first_reason(line@, some);
        last_reason_counts(texts(lines@), line@, first);
        if reason_at(line@, at) && (forall|k: int|
            0 <= k < at ==> !#[trigger] reason_at(line@, k)) {
            assert(first == at);
            crate::text_laws::blank_is_white_space_alone(line@.skip(at + 7));
        }
    }
}

/// The first place at which the label of a reason stands.
proof fn lemma_first_reason(line: Seq<char>, some: int) -> (first: int)
    requires
        reason_at(line, some),
    ensures
        reason_at(line, first),
        forall|k: int| 0 <= k < first ==> !#[trigger] reason_at(line, k),
    decreases some,
{
    if exists|k: int| 0 <= k < some && #[trigger] reason_at(line, k) {
        let k = choose|k: int| 0 <= k < some && #[trigger] reason_at(line, k);
        lemma_first_reason(line, k)
    } else {
        some
    }
}

/// A reply is parsed by reading its lines.
pub proof fn parse_verdict_result(text: &str, lines: Vec<String>, read: Verdict, r: Verdict)
    requires
        call_ensures(parse_verdict, (text,), r),
        call_ensures(split_lines, (text,), lines),
        call_ensures(read_verdict, (&lines,), read),
    ensures
        r@ == read@,
{
}

/// A reply of one line `MET:` and some text is met exactly where the text says yes.
pub proof fn parse_verdict_of_one_line(
    text: &str,
    indent: Seq<char>,
    label: Seq<char>,
    gap: Seq<char>,
    rest: Seq<char>,
    r: Verdict,
)
    requires
        call_ensures(parse_verdict, (text,), r),
        is_labelled(text@, "met:"@, indent, label, gap + rest),
        all_white(gap),
        rest.len() > 0 ==> !is_white(rest[0]),
        on_one_line(text@),
    ensures
        r.met <==> says_yes(rest),
        says_no(rest) ==> !r.met && r.reason@ == "Not yet done."@,
{
    reveal_strlit("met:");
    assert("met:"@.len() == 4);
    assert(crate::text::ascii_lower(label).len() == label.len());
    crate::text_laws::text_without_newline_is_a_line(text@);
    let none = Seq::<Seq<char>>::empty();
    assert(none.push(text@) =~= seq![text@]);
    last_answer_decides(none, text@, indent, label, gap, rest);
    crate::verdict_laws::met_line_answers_as_it_starts(text@, indent, label, gap, rest);
    assert(seq![text@].drop_last() =~= none);
    assert(crate::verdict::read_lines(none).met is None);
}

/// The judge is given its task, and asked about the condition on the evidence.
pub proof fn build_judge_prompt_result(condition: &str, evidence: &str, r: (String, String))
    requires
        call_ensures(build_judge_prompt, (condition, evidence), r),
    ensures
        r.0@ == crate::verdict::JUDGE_SYSTEM@,
        r.1@ == "TASK: "@ + condition@ + "\n\nEVIDENCE (recent activity):\n"@ + evidence@,
{
}

/// A snippet is the evidence on one line, cut after 280 characters where that takes more
/// than 280 bytes.
pub proof fn snippet_result(evidence: &str, r: String)
    requires
        call_ensures(snippet, (evidence,), r),
    ensures
        ({
            let line = one_line(evidence@);
            &&& vstd::utf8::encode_utf8(line).len() <= 280 ==> r@ == line
            &&& vstd::utf8::encode_utf8(line).len() > 280 && line.len() <= 280 ==> r@ == line.push(
                '\u{2026}',
            )
            &&& line.len() > 280 ==> r@ == line.take(280).push('\u{2026}')
        }),
{
    snippet_is_the_beginning(evidence@);
}

// ---- evidence --------------------------------------------------------------------------
/// The tools are asked for a quarter of an hour of activity, and for five hits on the title.
pub proof fn tool_call_results(
    recent: ToolCall,
    quest: &Quest,
    search: ToolCall,
    name: &'static str,
    other: &'static str,
)
    requires
        call_ensures(recent_call, (), recent),
        call_ensures(search_call, (quest,), search),
        call_ensures(ToolCall::tool, (&recent,), name),
        call_ensures(ToolCall::tool, (&search,), other),
    ensures
        recent == (ToolCall::RecentContext { minutes: 15 }),
        search is SemanticSearch,
        search->query@ == trimmed(quest.title@),
        search->limit == 5,
        name@ == "shadow__recent_context"@,
        other@ == "shadow__semantic_search"@,
{
}

/// A reply has as its content the text of it that counts, without space around it, and none
/// exactly where it is marked unavailable or that text offers nothing.
pub proof fn usable_text_result(reply: &ToolReply, text: Seq<char>, r: Option<String>)
    requires
        call_ensures(usable_text, (reply,), r),
        is_chosen(reply@, text),
    ensures
        r is None <==> reply.available == Some(false) || offers_nothing(text),
        r is Some ==> r->0@ == trimmed(text),
{
    replies_offer_the_chosen_text(reply@, text);
}

/// A reply that is not marked `available: false` and whose summary is a string that offers
/// something has it as its content, whatever else the reply holds.
pub proof fn usable_summary_result(reply: &ToolReply, summary: String, r: Option<String>)
    requires
        call_ensures(usable_text, (reply,), r),
        reply.available != Some(false),
        reply.summary == Field::Text(summary),
        !offers_nothing(summary@),
    ensures
        r is Some,
        r->0@ == trimmed(summary@),
{
    usable_text_result(reply, summary@, r);
}

/// A tool's reply is read key by key.
pub proof fn read_tool_reply_result(value: &serde_json::Value, text: Seq<char>, r: ToolReply)
    requires
        call_ensures(read_tool_reply, (value,), r),
    ensures
        r.available == Some(false) <==> is_unavailable(json_contents(*value)),
        r.available == Some(true) <==> stands(json_contents(*value), "available"@)
            && json_contents(*value)[seq![Key::Member("available"@)]] == Leaf::Bool(true),
        r.summary@ == crate::context::FieldView::Text(text) <==> stands_text(
            json_contents(*value),
            "summary"@,
            text,
        ),
        r.text@ == crate::context::FieldView::Text(text) <==> stands_text(
            json_contents(*value),
            "text"@,
            text,
        ),
        r.context@ == crate::context::FieldView::Text(text) <==> stands_text(
            json_contents(*value),
            "context"@,
            text,
        ),
        r.summary is Absent <==> !stands(json_contents(*value), "summary"@),
        r.text is Absent <==> !stands(json_contents(*value), "text"@),
        r.context is Absent <==> !stands(json_contents(*value), "context"@),
        r.rendered@ == json_text(json_contents(*value)),
{
    assert(r.summary is Absent <==> r.summary@ is Absent);
    assert(r.text is Absent <==> r.text@ is Absent);
    assert(r.context is Absent <==> r.context@ is Absent);
}

/// Evidence is made of recent activity and related history, each under its heading, and cut
/// to 4000 bytes; there is none without both.
pub proof fn combine_result(recent: Option<String>, related: Option<String>, r: Option<String>)
    requires
        call_ensures(combine, (recent, related), r),
    ensures
        r is None <==> recent is None && related is None,
        recent is Some && related is None ==> r->0@ == fitting(
            "Recent activity:\n"@ + recent->0@,
            4000,
        ),
        recent is None && related is Some ==> r->0@ == fitting(
            "Related history:\n"@ + related->0@,
            4000,
        ),
        recent is Some && related is Some ==> r->0@ == fitting(
            "Recent activity:\n"@ + recent->0@ + "\n\n"@ + "Related history:\n"@ + related->0@,
            4000,
        ),
        r is Some ==> vstd::utf8::encode_utf8(r->0@).len() <= 4000,
{
    let (a, b) = (text_of(recent), text_of(related));
    if recent is Some || related is Some {
        crate::context::evidence_fits(a, b);
    }
    evidence_is_headed(
        if recent is Some {
            recent->0@
        } else {
            Seq::empty()
        },
        if related is Some {
            related->0@
        } else {
            Seq::empty()
        },
    );
}

/// Gathered evidence starts with the summary of recent activity, as far as it is short and
/// nothing else was found.
pub proof fn gather_context_result(
    recent: &Option<serde_json::Value>,
    semantic: &Option<serde_json::Value>,
    summary: Seq<char>,
    r: Option<String>,
)
    requires
        call_ensures(gather_context, (recent, semantic), r),
    ensures
        recent is None && semantic is None ==> r is None,
        recent is Some && semantic is None && stands_text(
            json_contents(recent->0),
            "summary"@,
            summary,
        ) ==> (r is None <==> is_unavailable(json_contents(recent->0)) || offers_nothing(summary)),
        recent is Some && semantic is None && stands_text(
            json_contents(recent->0),
            "summary"@,
            summary,
        ) && r is Some ==> r->0@ == fitting("Recent activity:\n"@ + trimmed(summary), 4000),
        recent is None && semantic is Some && stands_text(
            json_contents(semantic->0),
            "summary"@,
            summary,
        ) && r is Some ==> r->0@ == fitting("Related history:\n"@ + trimmed(summary), 4000),
{
    evidence_is_headed(trimmed(summary), trimmed(summary));
    if recent is Some && stands_text(json_contents(recent->0), "summary"@, summary) {
        tool_replies_are_read_in_order(json_contents(recent->0), summary);
    }
    if semantic is Some && stands_text(json_contents(semantic->0), "summary"@, summary) {
        tool_replies_are_read_in_order(json_contents(semantic->0), summary);
    }
}

// ---- the pass --------------------------------------------------------------------------
/// A quest is judged exactly where it is an open task that does not rest, and detection is
/// on.
pub proof fn open_pass_result(
    mode: DetectionMode,
    quest: Quest,
    external: Option<String>,
    now: Moment,
    r: Opening,
)
    requires
        call_ensures(open_pass, (mode, quest, external, now), r),
    ensures
        ({
            let judged = quest.kind is Task && quest.status is Open && !(mode is Off) && !rests(
                quest@,
                now,
            );
            let supplied = external is Some && !all_white(external->0@);
            &&& r is Skip <==> !judged
            &&& r is Judge <==> judged && supplied
            &&& r is Gather <==> judged && !supplied
            &&& r is Judge ==> r->Judge_quest@ == quest@ && r->evidence@ == external->0@
            &&& r is Gather ==> r->Gather_0@ == quest@
        }),
{
    exactly_open_tasks_are_judged(mode, quest@, text_of(external), now);
    assert(r is Skip <==> r@ is Skip);
    assert(r is Judge <==> r@ is Judge);
    assert(r is Gather <==> r@ is Gather);
}

/// A completion is asked for under the gateway's address, with all as given.
pub proof fn call_judge_result(
    gateway: &str,
    base: Seq<char>,
    slashes: Seq<char>,
    token: Option<String>,
    model: &str,
    effort: &str,
    system: &str,
    user: &str,
    r: JudgeRequest,
)
    requires
        call_ensures(call_judge, (gateway, token, model, effort, system, user), r),
        gateway@ == base + slashes,
        base.len() > 0 ==> base.last() != '/',
        forall|i: int| 0 <= i < slashes.len() ==> #[trigger] slashes[i] == '/',
    ensures
        r.url@ == base + "/v1/chat/completions"@,
        r.model@ == model@,
        r.system@ == system@,
        r.user@ == user@,
        !r.stream,
        text_of(r.bearer) == text_of(token),
        r.timeout_secs == 60,
        all_white(effort@) ==> r.reasoning_effort is None,
        !all_white(effort@) ==> text_of(r.reasoning_effort) == Some(trimmed(effort@)),
{
    requests_carry_what_was_given(
        base,
        slashes,
        text_of(token),
        model@,
        effort@,
        system@,
        user@,
    );
    assert(r@.reasoning_effort == text_of(r.reasoning_effort));
    assert(r@.bearer == text_of(r.bearer));
}

/// A completion's content is the string in the message of its first choice, and empty where
/// there is none.
pub proof fn completion_content_result(value: &serde_json::Value, text: Seq<char>, r: String)
    requires
        call_ensures(completion_content, (value,), r),
    ensures
        json_contents(*value).contains_key(content_path()) && json_contents(*value)[content_path()]
            == Leaf::Text(text) ==> r@ == text,
        !json_contents(*value).contains_key(content_path()) ==> r@.len() == 0,
        json_contents(*value).contains_key(content_path()) && !(json_contents(
            *value,
        )[content_path()] is Text) ==> r@.len() == 0,
{
    content_is_that_of_the_first_choice(json_contents(*value), text);
}

/// A gateway's reply gives a completion exactly where its status is from 200 to 299, its
/// body came whole and holds JSON.
pub proof fn read_completion_result(
    status: u16,
    status_text: &str,
    body: &Result<Vec<u8>, String>,
    r: Result<String, String>,
)
    requires
        call_ensures(read_completion, (status, status_text, body), r),
    ensures
        ({
            let success = status >= 200 && status <= 299;
            &&& r is Ok <==> success && body is Ok && json_document(body->Ok_0@) is Some
            &&& r is Ok ==> r->Ok_0@ == crate::judge::completion_text(
                json_document(body->Ok_0@)->0,
            )
            &&& !success ==> r->Err_0@ == "gateway returned HTTP "@ + status_text@
            &&& success && body is Err ==> r->Err_0@ == "response was not valid JSON: "@
                + body->Err_0@
            &&& success && body is Ok && r is Err ==> r->Err_0@ == "response was not valid JSON: "@
                + "error decoding response body"@
        }),
{
}

/// A verdict has no consequence exactly where it is not met or its confidence is below 50;
/// it completes the quest from 50 on in the mode for all and from 85 on in the mode for high
/// ones; and it is a suggestion otherwise.
pub proof fn decide_result(mode: DetectionMode, verdict: &Verdict, r: Outcome)
    requires
        call_ensures(decide, (mode, verdict), r),
    ensures
        r is Ignore <==> !verdict.met || verdict.confidence < 50,
        r is Complete <==> verdict.met && ((mode is AutoAll && verdict.confidence >= 50) || (
        mode is AutoHigh && verdict.confidence >= 85)),
        r is Suggest <==> verdict.met && verdict.confidence >= 50 && !(mode is AutoAll) && !(
        mode is AutoHigh && verdict.confidence >= 85),
{
}

/// Once the judge has spoken the quest is stored as judged, done by detection where the
/// engine completes it, with the suggestion where it suggests it, and as it was otherwise;
/// what is logged and announced follows from that, and no step has to succeed.
pub proof fn act_on_result(
    world: World,
    mode: DetectionMode,
    quest: Quest,
    verdict: &Verdict,
    evidence: &str,
    interval: String,
    now: &str,
    r: Vec<Step>,
)
    requires
        call_ensures(act_on, (mode, quest, verdict, evidence, interval, now), r),
    ensures
        ({
            let after = world.after_all(steps_of(r@));
            let next = after.quests[quest@.id];
            let completed = completes(mode, verdict@);
            let suggested = !is_weak(verdict@) && !completed;
            &&& after.quests == world.quests.insert(quest@.id, next)
            &&& next.last_judged_at == Some(now@)
            &&& next.snoozed_until is None
            &&& next.updated_at == now@
            &&& same_wording(next, quest@)
            &&& same_marks(next, quest@)
            &&& same_item(next, quest@)
            &&& completed ==> next.status is Done && next.completed_at == Some(now@)
                && next.completion_source == Some(CompletionSource::Detected)
                && next.suggestion is None
            &&& !completed ==> same_completion(next, quest@)
            &&& is_weak(verdict@) ==> next.suggestion == quest@.suggestion
            &&& suggested ==> next.suggestion is Some && next.suggestion->0.confidence
                == verdict.confidence && next.suggestion->0.reason == verdict.reason@
            &&& completed ==> after.events.last() == (EventView::Completed {
                quest: next,
                auto: true,
            }) && after.detections.last().disposition == "auto_completed"@
            &&& completed && quest@.kind is Task ==> after.jobs == world.jobs.insert(
                quest@.id,
                Job { title: quest@.title, interval: interval@, open: false },
            )
            &&& !completed ==> after.jobs == world.jobs
            &&& suggested && !is_pending(quest@, verdict@) ==> after.events.last() == (
            EventView::Suggested {
                quest: next,
                confidence: verdict.confidence,
                reason: verdict.reason@,
            }) && after.detections.last().disposition == "suggested"@
            &&& completed || (suggested && !is_pending(quest@, verdict@)) ==> {
                &&& after.events.len() == world.events.len() + 2
                &&& after.detections.len() == world.detections.len() + 1
                &&& after.detections.last().quest_id == quest@.id
                &&& after.detections.last().confidence == verdict.confidence
                &&& after.detections.last().reason == verdict.reason@
            }
            &&& !completed && !(suggested && !is_pending(quest@, verdict@)) ==> {
                &&& after.events == world.events.push(EventView::Updated { quest: next })
                &&& after.detections == world.detections
            }
        }),
        forall|i: int| 0 <= i < r@.len() ==> !(#[trigger] r@[i]).required,
{
    consequences_of_a_verdict(world, mode, quest@, verdict@, evidence@, interval@, now@);
    quests_follow_the_verdict(mode, quest@, verdict@, evidence@, now@);
    assert forall|i: int| 0 <= i < r@.len() implies !(#[trigger] r@[i]).required by {
        assert(steps_of(r@)[i] == r@[i]@);
        crate::laws::judging_never_fails_on_the_way(
            mode,
            quest@,
            verdict@,
            evidence@,
            interval@,
            now@,
            i,
        );
    }
}

/// Acting on what the judge said gives it back, with the steps that this takes.
pub proof fn conclude_at_result(
    mode: DetectionMode,
    quest: Quest,
    verdict: Verdict,
    evidence: &str,
    interval: String,
    now: &str,
    steps: Vec<Step>,
    r: Pass,
)
    requires
        call_ensures(conclude_at, (mode, quest, verdict, evidence, interval, now), r),
        call_ensures(act_on, (mode, quest, &verdict, evidence, interval, now), steps),
    ensures
        r is Over,
        r->result is Ok,
        r->result->Ok_0 is Some,
        r->result->Ok_0->0@ == verdict@,
        steps_of(r->steps@) == steps_of(steps@),
{
    assert(r@ is Over);
}

/// The judge is asked about the quest on the evidence, at the gateway, by the model that is
/// set.
pub proof fn ask_judge_result(
    engine: &QuestEngine,
    quest: Quest,
    evidence: String,
    model: String,
    condition: &str,
    r: Pass,
)
    requires
        call_ensures(QuestEngine::ask_judge, (engine, quest, evidence), r),
        call_ensures(QuestEngine::resolve_judge_model, (engine,), model),
        call_ensures(Quest::condition, (&quest,), condition),
    ensures
        r is Ask,
        r->Ask_quest@ == quest@,
        r->Ask_evidence@ == evidence@,
        r->request.model@ == model@,
        r->request.system@ == crate::verdict::JUDGE_SYSTEM@,
        r->request.user@ == "TASK: "@ + condition@ + "\n\nEVIDENCE (recent activity):\n"@
            + evidence@,
        text_of(r->request.bearer) == text_of(engine.gateway.token),
        !r->request.stream,
        r->request.timeout_secs == 60,
{
    assert(r@ is Ask);
    assert(r@->request == r->request@);
}

/// A pass over a quest that was not found fails and names the id; a pass over one that is
/// not judged ends at once and does nothing.
pub proof fn judge_quest_at_result(
    engine: &QuestEngine,
    id: &str,
    found: Option<Quest>,
    external: Option<String>,
    now: Moment,
    mode: DetectionMode,
    r: Pass,
)
    requires
        call_ensures(QuestEngine::judge_quest_at, (engine, id, found, external, now), r),
        call_ensures(QuestEngine::detection_mode, (engine,), mode),
    ensures
        found is None ==> r is Over && r->result is Err && r->result->Err_0@ == "quest '"@ + id@
            + "' not found"@ && r->steps@.len() == 0,
        found is Some ==> {
            let quest = found->0;
            let judged = quest.kind is Task && quest.status is Open && !(mode is Off) && !rests(
                quest@,
                now,
            );
            let supplied = external is Some && !all_white(external->0@);
            &&& r is Over <==> !judged
            &&& r is Over ==> r->result is Ok && r->result->Ok_0 is None && r->steps@.len() == 0
            &&& r is Gather <==> judged && !supplied
            &&& r is Gather ==> r->Gather_0@ == quest@
            &&& r is Ask <==> judged && supplied
            &&& r is Ask ==> r->Ask_quest@ == quest@ && r->Ask_evidence@ == external->0@
        },
{
    assert(r is Over <==> r@ is Over);
    assert(r is Gather <==> r@ is Gather);
    assert(r is Ask <==> r@ is Ask);
    if r is Over {
        assert(steps_of(r->steps@).len() == r->steps@.len());
    }
    if found is Some {
        exactly_open_tasks_are_judged(mode, found->0@, text_of(external), now);
    }
}

/// A pass without context never asks the judge at once; with context it does so only on an
/// open task and on that context, as it is. A captured item, a closed quest and any quest
/// with detection off is passed over at whatever time, and a missing one is an error.
pub proof fn judge_quest_result(
    engine: &QuestEngine,
    id: &str,
    found: Option<Quest>,
    external: Option<String>,
    mode: DetectionMode,
    plain: Pass,
    r: Pass,
)
    requires
        call_ensures(QuestEngine::judge_quest, (engine, id, found), plain),
        call_ensures(QuestEngine::judge_quest_with_context, (engine, id, found, external), r),
        call_ensures(QuestEngine::detection_mode, (engine,), mode),
    ensures
        !(plain is Ask),
        found is None ==> {
            &&& r is Over && r->result is Err && r->result->Err_0@ == "quest '"@ + id@
                + "' not found"@
            &&& plain is Over && plain->result is Err && plain->result->Err_0@ == "quest '"@ + id@
                + "' not found"@
        },
        found is Some && (!(found->0.kind is Task) || !(found->0.status is Open) || mode is Off)
            ==> {
            &&& r is Over && r->result is Ok && r->result->Ok_0 is None && r->steps@.len() == 0
            &&& plain is Over && plain->result is Ok && plain->result->Ok_0 is None
                && plain->steps@.len() == 0
        },
        found is Some && found->0.kind is Task && found->0.status is Open && !(mode is Off)
            && found->0.snoozed_until is None ==> {
            &&& plain is Gather && plain->Gather_0@ == found->0@
            &&& external is Some && !all_white(external->0@) ==> r is Ask && r->Ask_quest@
                == found->0@ && r->Ask_evidence@ == external->0@
            &&& external is None || all_white(external->0@) ==> r is Gather && r->Gather_0@
                == found->0@
        },
{
    assert(r is Over <==> r@ is Over);
    assert(r is Gather <==> r@ is Gather);
    assert(r is Ask <==> r@ is Ask);
    assert(plain is Over <==> plain@ is Over);
    assert(plain is Gather <==> plain@ is Gather);
    assert(plain is Ask <==> plain@ is Ask);
    if r is Over {
        assert(steps_of(r->steps@).len() == r->steps@.len());
    }
    if plain is Over {
        assert(steps_of(plain->steps@).len() == plain->steps@.len());
    }
    if external is Some {
        crate::text_laws::blank_is_white_space_alone(external->0@);
    }
}

/// Without any evidence a quest is not judged; with some the judge is asked about it on
/// what was gathered.
pub proof fn gathered_result(
    engine: &QuestEngine,
    quest: Quest,
    recent: &Option<serde_json::Value>,
    semantic: &Option<serde_json::Value>,
    evidence: Option<String>,
    r: Pass,
)
    requires
        call_ensures(QuestEngine::gathered, (engine, quest, recent, semantic), r),
        call_ensures(gather_context, (recent, semantic), evidence),
    ensures
        evidence is None ==> r is Over && r->result is Ok && r->result->Ok_0 is None
            && r->steps@.len() == 0,
        evidence is Some ==> r is Ask && r->Ask_quest@ == quest@ && r->Ask_evidence@
            == evidence->0@,
{
    assert(r is Over <==> r@ is Over);
    assert(r is Ask <==> r@ is Ask);
    if r is Over {
        assert(steps_of(r->steps@).len() == r->steps@.len());
    }
}

/// The judge's reply is parsed, and the verdict acted on in the mode and with the interval
/// that are set.
pub proof fn conclude_result(
    world: World,
    engine: &QuestEngine,
    quest: Quest,
    evidence: &str,
    reply: &str,
    verdict: Verdict,
    mode: DetectionMode,
    r: Pass,
)
    requires
        call_ensures(QuestEngine::conclude, (engine, quest, evidence, reply), r),
        call_ensures(parse_verdict, (reply,), verdict),
        call_ensures(QuestEngine::detection_mode, (engine,), mode),
    ensures
        r is Over,
        r->result is Ok,
        r->result->Ok_0 is Some,
        r->result->Ok_0->0@ == verdict@,
        ({
            let next = world.after_all(steps_of(r->steps@)).quests[quest@.id];
            &&& same_item(next, quest@)
            &&& is_weak(verdict@) ==> same_completion(next, quest@) && next.suggestion
                == quest@.suggestion
            &&& completes(mode, verdict@) ==> next.status is Done
            &&& !is_weak(verdict@) && !completes(mode, verdict@) ==> same_completion(next, quest@)
                && is_pending(next, verdict@)
        }),
{
    assert(r@ is Over);
    let now = choose|now: Seq<char>|
        {
            &&& #[trigger] is_stamp(now)
            &&& r@ == crate::judge::concluded(
                engine.mode(),
                quest@,
                crate::verdict::verdict_of(reply@),
                evidence@,
                engine.interval(),
                now,
            )
        };
    consequences_of_a_verdict(
        world,
        engine.mode(),
        quest@,
        verdict@,
        evidence@,
        engine.interval(),
        now,
    );
    quests_follow_the_verdict(engine.mode(), quest@, verdict@, evidence@, now);
}

/// Where the gateway was not reached, or its reply gives no completion, the pass fails, says
/// why, and does nothing; otherwise it comes to the verdict in the completion.
pub proof fn answered_result(
    engine: &QuestEngine,
    quest: Quest,
    evidence: &str,
    reply: Result<GatewayReply, String>,
    r: Pass,
)
    requires
        call_ensures(QuestEngine::answered, (engine, quest, evidence, reply), r),
    ensures
        r is Over,
        reply is Err ==> r->result is Err && r->result->Err_0@ == "gateway unreachable: "@
            + reply->Err_0@ && r->steps@.len() == 0,
        reply is Ok ==> {
            let got = reply->Ok_0;
            let success = got.status >= 200 && got.status <= 299;
            let document = if got.body is Ok {
                json_document(got.body->Ok_0@)
            } else {
                None
            };
            &&& r->result is Ok <==> success && document is Some
            &&& r->result is Err ==> r->steps@.len() == 0
            &&& !success ==> r->result->Err_0@ == "gateway returned HTTP "@ + got.status_text@
            &&& r->result is Ok ==> r->result->Ok_0 is Some && r->result->Ok_0->0@
                == crate::verdict::verdict_of(crate::judge::completion_text(document->0))
        },
{
    assert(r@ is Over);
    assert(steps_of(r->steps@).len() == r->steps@.len());
}

} // verus!
