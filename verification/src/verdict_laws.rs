//! What holds of a judge's reply and the verdict that is read out of it.
use vstd::prelude::*;

use crate::text::{
    ascii_lower, case_keeps_trimming, decimal, digits, find, is_white,
    lemma_find, lemma_trim_end, lines, one_line, trim_end, trim_start, trimmed,
};
use crate::text_laws::{
    all_white, digits_of_parts, find_is_first, lemma_pad_end,
    lemma_pad_start, newline_ends_a_line, none_white, on_one_line,
    stripping_ignores_space_around, stripping_takes_white_space_alone,
};
use crate::verdict::{
    answer_on, judge_question, labelled, read_lines, snippet_of, verdict_in, verdict_of,
    JUDGE_SYSTEM,
};

verus! {

// ---- the question ----------------------------------------------------------------------
/// The judge is told its task in these words, and to answer in three labelled lines.
pub proof fn judge_is_told_its_task()
    ensures
        JUDGE_SYSTEM@
            == "You are a meticulous completion judge for a personal todo app. You are given a TASK the user wants to finish and EVIDENCE of what they have recently been doing on their computer (captured screen text, app activity, and recent history). Decide whether the task has actually been completed, based ONLY on the evidence. Be conservative: if the evidence does not clearly show the task is done, answer no. Reply with EXACTLY three lines and nothing else:\nMET: yes or no\nCONFIDENCE: an integer from 0 to 100 (how certain you are it is done)\nREASON: one short sentence citing the evidence."@,
{
}

/// The judge is shown the condition as the task, then the evidence, each as it is.
pub proof fn judge_sees_condition_and_evidence(condition: Seq<char>, evidence: Seq<char>)
    ensures
        ("TASK: "@ + condition + "\n\nEVIDENCE (recent activity):\n"@).is_prefix_of(
            judge_question(condition, evidence),
        ),
        judge_question(condition, evidence).skip(
            judge_question(condition, evidence).len() - evidence.len(),
        ) == evidence,
        judge_question(condition, evidence).len() == "TASK: "@.len() + condition.len()
            + "\n\nEVIDENCE (recent activity):\n"@.len() + evidence.len(),
{
    let head = "TASK: "@ + condition + "\n\nEVIDENCE (recent activity):\n"@;
    let whole = judge_question(condition, evidence);
    assert(whole =~= head + evidence);
    assert(whole.skip(whole.len() - evidence.len()) =~= evidence);
    assert(head =~= whole.subrange(0, head.len() as int));
}

/// A snippet is the evidence on one line; where that takes more than 280 bytes it is the
/// first 280 characters of it, all of them where there are fewer, and an ellipsis.
pub proof fn snippet_is_the_beginning(evidence: Seq<char>)
    ensures
        ({
            let line = one_line(evidence);
            let snippet = snippet_of(evidence);
            &&& vstd::utf8::encode_utf8(line).len() <= 280 ==> snippet == line
            &&& vstd::utf8::encode_utf8(line).len() > 280 && line.len() <= 280 ==> snippet
                == line.push('\u{2026}')
            &&& line.len() > 280 ==> snippet == line.take(280).push('\u{2026}')
        }),
{
    let line = one_line(evidence);
    crate::text::byte_len_counts_utf8(line);
    crate::laws::lemma_bytes_cover(line);
    reveal_strlit("\u{2026}");
    assert("\u{2026}"@ =~= seq!['\u{2026}']);
    assert(line + seq!['\u{2026}'] =~= line.push('\u{2026}'));
    if line.len() > 280 {
        assert(line.take(280) + seq!['\u{2026}'] =~= line.take(280).push('\u{2026}'));
    }
}

// ---- labels ----------------------------------------------------------------------------
/// Whether a line is a label, in whatever case, however far it is indented, and a rest.
pub open spec fn is_labelled(
    line: Seq<char>,
    name: Seq<char>,
    indent: Seq<char>,
    label: Seq<char>,
    rest: Seq<char>,
) -> bool {
    &&& all_white(indent)
    &&& ascii_lower(label) == name
    &&& line == indent + label + rest
}

/// Whether a line starts with a label, in whatever case and however far it is indented.
pub open spec fn has_label(line: Seq<char>, name: Seq<char>) -> bool {
    exists|indent: Seq<char>, label: Seq<char>, rest: Seq<char>|
        #[trigger] is_labelled(line, name, indent, label, rest)
}

/// Whether the text of a label neither starts nor ends with white space.
spec fn is_name(name: Seq<char>) -> bool {
    name.len() > 0 && !is_white(name[0]) && !is_white(name.last())
}

proof fn lemma_names()
    ensures
        is_name("met:"@),
        is_name("confidence:"@),
        is_name("reason:"@),
        "met:"@[0] == 'm',
        "confidence:"@[0] == 'c',
        "reason:"@.len() == 7,
{
    reveal_strlit("met:");
    reveal_strlit("confidence:");
    reveal_strlit("reason:");
    assert("met:"@[3] == ':' && "confidence:"@[10] == ':' && "reason:"@[6] == ':');
    assert("reason:"@[0] == 'r');
}

proof fn lemma_lower_parts(a: Seq<char>, b: Seq<char>)
    ensures
        ascii_lower(a + b) == ascii_lower(a) + ascii_lower(b),
{
    assert(ascii_lower(a + b) =~= ascii_lower(a) + ascii_lower(b));
}

proof fn lemma_split_end(s: Seq<char>)
    ensures
        trim_end(s).len() <= s.len(),
        s == trim_end(s) + s.skip(trim_end(s).len() as int),
        all_white(s.skip(trim_end(s).len() as int)),
        trim_end(s).len() > 0 ==> !is_white(trim_end(s).last()),
{
    lemma_trim_end(s);
    crate::text_laws::lemma_tail_is_white(s);
    assert(s =~= trim_end(s) + s.skip(trim_end(s).len() as int));
}

/// What follows a label.
proof fn lemma_labelled(
    line: Seq<char>,
    name: Seq<char>,
    indent: Seq<char>,
    label: Seq<char>,
    rest: Seq<char>,
)
    requires
        is_name(name),
        is_labelled(line, name, indent, label, rest),
    ensures
        labelled(line, name) == Some(ascii_lower(trim_end(rest))),
        ascii_lower(trimmed(line))[0] == name[0],
{
    let n = label.len();
    assert(ascii_lower(label).len() == n);
    assert(ascii_lower(label)[0] == crate::text::ascii_lower_char(label[0]));
    assert(ascii_lower(label)[n - 1] == crate::text::ascii_lower_char(label[n - 1]));
    let inner = label + rest;
    assert(line =~= indent + inner);
    lemma_pad_start(indent, inner);
    assert(inner[0] == label[0]);
    assert(trim_start(inner) == inner);
    lemma_split_end(rest);
    let kept = label + trim_end(rest);
    let tail = rest.skip(trim_end(rest).len() as int);
    assert(inner =~= kept + tail);
    lemma_pad_end(kept, tail);
    if trim_end(rest).len() > 0 {
        assert(kept.last() == trim_end(rest).last());
    } else {
        assert(kept.last() == label[n - 1]);
    }
    assert(trim_end(kept) == kept);
    assert(trimmed(line) == kept);
    lemma_lower_parts(label, trim_end(rest));
    let low = ascii_lower(kept);
    assert(name =~= low.subrange(0, name.len() as int));
    assert(low.skip(name.len() as int) =~= ascii_lower(trim_end(rest)));
}

/// A line is read as labelled exactly where it starts with the label.
proof fn lemma_label(line: Seq<char>, name: Seq<char>)
    requires
        is_name(name),
    ensures
        labelled(line, name) is Some <==> has_label(line, name),
{
    if has_label(line, name) {
        let (indent, label, rest) = choose|
            indent: Seq<char>,
            label: Seq<char>,
            rest: Seq<char>,
        | #[trigger] is_labelled(line, name, indent, label, rest);
        lemma_labelled(line, name, indent, label, rest);
    }
    if labelled(line, name) is Some {
        stripping_takes_white_space_alone(line);
        let t = trimmed(line);
        let (before, behind) = choose|before: Seq<char>, behind: Seq<char>|
            all_white(before) && all_white(behind) && line == #[trigger] (before + t + behind);
        let n = name.len() as int;
        let low = ascii_lower(t);
        assert(name == low.subrange(0, n));
        let label = t.take(n);
        let rest = t.skip(n) + behind;
        assert(ascii_lower(label) =~= name);
        assert(line =~= before + label + rest);
        assert(is_labelled(line, name, before, label, rest));
    }
}

// ---- answers ---------------------------------------------------------------------------
/// Whether a text, in lower case, starts with a word for yes.
pub open spec fn says_yes(text: Seq<char>) -> bool {
    "yes"@.is_prefix_of(ascii_lower(text)) || "true"@.is_prefix_of(ascii_lower(text))
}

/// Whether a text, in lower case, starts with a word for no.
pub open spec fn says_no(text: Seq<char>) -> bool {
    "no"@.is_prefix_of(ascii_lower(text)) || "false"@.is_prefix_of(ascii_lower(text))
}

proof fn lemma_prefix_of_kept(p: Seq<char>, kept: Seq<char>, tail: Seq<char>)
    requires
        none_white(p),
        all_white(tail),
    ensures
        p.is_prefix_of(ascii_lower(kept)) <==> p.is_prefix_of(ascii_lower(kept + tail)),
{
    lemma_lower_parts(kept, tail);
    let low = ascii_lower(kept + tail);
    if p.is_prefix_of(ascii_lower(kept)) {
        assert(p =~= low.subrange(0, p.len() as int));
    }
    if p.is_prefix_of(low) {
        if p.len() > kept.len() {
            let at = kept.len() as int;
            assert(p[at] == low.subrange(0, p.len() as int)[at]);
            assert(low[at] == ascii_lower(tail)[0]);
            assert(is_white(tail[0]));
        }
        assert(p =~= ascii_lower(kept).subrange(0, p.len() as int));
    }
}

proof fn lemma_words_of_answers()
    ensures
        none_white("yes"@),
        none_white("true"@),
        none_white("no"@),
        none_white("false"@),
        "yes"@.len() > 0 && "yes"@[0] == 'y',
        "true"@.len() > 0 && "true"@[0] == 't',
        "no"@.len() > 0 && "no"@[0] == 'n',
        "false"@.len() > 0 && "false"@[0] == 'f',
{
    reveal_strlit("yes");
    reveal_strlit("true");
    reveal_strlit("no");
    reveal_strlit("false");
    assert("yes"@ =~= seq!['y', 'e', 's']);
    assert("true"@ =~= seq!['t', 'r', 'u', 'e']);
    assert("no"@ =~= seq!['n', 'o']);
    assert("false"@ =~= seq!['f', 'a', 'l', 's', 'e']);
}

/// No text says both.
pub proof fn yes_and_no_exclude_each_other(text: Seq<char>)
    ensures
        !(says_yes(text) && says_no(text)),
{
    lemma_words_of_answers();
    let low = ascii_lower(text);
    if says_yes(text) {
        assert(low.len() > 0 && (low[0] == 'y' || low[0] == 't'));
    }
    if says_no(text) {
        assert(low.len() > 0 && (low[0] == 'n' || low[0] == 'f'));
    }
}

/// A line `MET:` answers yes exactly where what follows it, after any white space, starts
/// with `yes` or `true`, and no exactly where it starts with `no` or `false`, whatever
/// comes after that, in whatever case, and however far the line is indented.
pub proof fn met_line_answers_as_it_starts(
    line: Seq<char>,
    indent: Seq<char>,
    label: Seq<char>,
    gap: Seq<char>,
    text: Seq<char>,
)
    requires
        is_labelled(line, "met:"@, indent, label, gap + text),
        all_white(gap),
        text.len() > 0 ==> !is_white(text[0]),
    ensures
        answer_on(line) == Some(true) <==> says_yes(text),
        answer_on(line) == Some(false) <==> says_no(text),
{
    lemma_names();
    let rest = gap + text;
    lemma_labelled(line, "met:"@, indent, label, rest);
    lemma_split_end(rest);
    let kept = trim_end(rest);
    let tail = rest.skip(kept.len() as int);
    stripping_ignores_space_around(Seq::empty(), kept, tail);
    assert(Seq::<char>::empty() + kept + tail =~= rest);
    stripping_ignores_space_around(gap, text, Seq::empty());
    assert(gap + text + Seq::<char>::empty() =~= rest);
    case_keeps_trimming(kept);
    assert(trim_start(text) == text);
    let said = trim_end(text);
    assert(trimmed(text) == said);
    assert(answer_on(line) == crate::verdict::answer(ascii_lower(said)));
    lemma_split_end(text);
    let end = text.skip(said.len() as int);
    lemma_words_of_answers();
    lemma_prefix_of_kept("yes"@, said, end);
    lemma_prefix_of_kept("true"@, said, end);
    lemma_prefix_of_kept("no"@, said, end);
    lemma_prefix_of_kept("false"@, said, end);
    yes_and_no_exclude_each_other(text);
}

/// A line without the label `MET:` answers nothing.
pub proof fn only_met_lines_answer(line: Seq<char>)
    requires
        !has_label(line, "met:"@),
    ensures
        answer_on(line) is None,
{
    lemma_names();
    lemma_label(line, "met:"@);
}

/// A last line `MET:` decides whether the task is done, whatever the lines before it say:
/// it is where the line says yes, and is not where the line says no, with the confidence
/// and the reason that were read before it. A line that says neither changes nothing of the
/// verdict.
pub proof fn last_answer_decides(
    lines: Seq<Seq<char>>,
    line: Seq<char>,
    indent: Seq<char>,
    label: Seq<char>,
    gap: Seq<char>,
    text: Seq<char>,
)
    requires
        is_labelled(line, "met:"@, indent, label, gap + text),
        all_white(gap),
        text.len() > 0 ==> !is_white(text[0]),
    ensures
        says_yes(text) ==> verdict_in(lines.push(line)).met,
        says_no(text) ==> !verdict_in(lines.push(line)).met,
        !says_yes(text) && !says_no(text) ==> verdict_in(lines.push(line)) == verdict_in(lines),
        is_answered(lines) ==> verdict_in(lines.push(line)).confidence == verdict_in(
            lines,
        ).confidence,
        says_yes(text) || says_no(text) ==> verdict_in(lines.push(line)).confidence == read_lines(
            lines,
        ).confidence,
        read_lines(lines).reason.len() > 0 ==> verdict_in(lines.push(line)).reason == read_lines(
            lines,
        ).reason,
        read_lines(lines).reason.len() > 0 ==> verdict_in(lines).reason == read_lines(
            lines,
        ).reason,
        read_lines(lines.push(line)).confidence == read_lines(lines).confidence,
        read_lines(lines.push(line)).reason == read_lines(lines).reason,
        !says_yes(text) && !says_no(text) ==> read_lines(lines.push(line)) == read_lines(lines),
{
    met_line_answers_as_it_starts(line, indent, label, gap, text);
    lemma_names();
    lemma_labelled(line, "met:"@, indent, label, gap + text);
    assert(lines.push(line).drop_last() =~= lines);
    lemma_answered(lines);
}

/// Whether some line of a reply answers.
pub open spec fn is_answered(lines: Seq<Seq<char>>) -> bool {
    exists|i: int| 0 <= i < lines.len() && answer_on(#[trigger] lines[i]) is Some
}

proof fn lemma_answered(lines: Seq<Seq<char>>)
    ensures
        read_lines(lines).met is Some <==> is_answered(lines),
    decreases lines.len(),
{
    if lines.len() > 0 {
        let init = lines.drop_last();
        let last = lines.len() - 1;
        lemma_answered(init);
        if is_answered(init) {
            let i = choose|i: int| 0 <= i < init.len() && answer_on(#[trigger] init[i]) is Some;
            assert(lines[i] == init[i]);
        }
        if is_answered(lines) {
            let i = choose|i: int| 0 <= i < lines.len() && answer_on(#[trigger] lines[i]) is Some;
            if i < last {
                assert(init[i] == lines[i]);
            }
        }
        if answer_on(lines[last]) is Some {
            assert(is_answered(lines));
        }
    }
}

proof fn lemma_last_answer(lines: Seq<Seq<char>>, at: int)
    requires
        0 <= at < lines.len(),
        answer_on(lines[at]) is Some,
        forall|k: int| at < k < lines.len() ==> answer_on(#[trigger] lines[k]) is None,
    ensures
        read_lines(lines).met == answer_on(lines[at]),
    decreases lines.len(),
{
    let last = lines.len() - 1;
    if at < last {
        let init = lines.drop_last();
        assert forall|k: int| at < k < init.len() implies answer_on(#[trigger] init[k]) is None by {
            assert(init[k] == lines[k]);
        }
        lemma_last_answer(init, at);
        assert(answer_on(lines[last]) is None);
    }
}

/// A reply whose last `MET:` line goes on with `no` or `false`, and any further text, is
/// never met; one whose last `MET:` line goes on with `yes` or `true` always is. What its
/// other lines say does not matter.
pub proof fn reply_is_met_as_its_last_met_line_says(
    lines: Seq<Seq<char>>,
    at: int,
    indent: Seq<char>,
    label: Seq<char>,
    gap: Seq<char>,
    text: Seq<char>,
)
    requires
        0 <= at < lines.len(),
        is_labelled(lines[at], "met:"@, indent, label, gap + text),
        all_white(gap),
        text.len() > 0 ==> !is_white(text[0]),
        forall|k: int| at < k < lines.len() ==> !has_label(#[trigger] lines[k], "met:"@),
    ensures
        says_no(text) ==> !verdict_in(lines).met,
        says_yes(text) ==> verdict_in(lines).met,
{
    if says_no(text) || says_yes(text) {
        met_line_answers_as_it_starts(lines[at], indent, label, gap, text);
        yes_and_no_exclude_each_other(text);
        assert forall|k: int| at < k < lines.len() implies answer_on(
            #[trigger] lines[k],
        ) is None by {
            only_met_lines_answer(lines[k]);
        }
        lemma_last_answer(lines, at);
    }
}

// ---- confidence ------------------------------------------------------------------------
proof fn lemma_digits_lower(s: Seq<char>)
    ensures
        digits(ascii_lower(s)) == digits(s),
    decreases s.len(),
{
    if s.len() > 0 {
        lemma_digits_lower(s.drop_last());
        assert(ascii_lower(s).drop_last() =~= ascii_lower(s.drop_last()));
        assert(ascii_lower(s).last() == crate::text::ascii_lower_char(s.last()));
    }
}

proof fn lemma_digits_white(s: Seq<char>)
    requires
        all_white(s),
    ensures
        digits(s) == Seq::<char>::empty(),
    decreases s.len(),
{
    if s.len() > 0 {
        assert(is_white(s[s.len() - 1]));
        lemma_digits_white(s.drop_last());
    }
}

/// A last line `CONFIDENCE:` sets the confidence of an answered reply to the number that
/// its digits make up, at most 100, whatever stands between them; it changes neither
/// whether the task is done nor the reason. Without digits, or with a number of more than
/// 32 bits, it changes nothing at all.
pub proof fn last_confidence_counts(
    lines: Seq<Seq<char>>,
    line: Seq<char>,
    indent: Seq<char>,
    label: Seq<char>,
    rest: Seq<char>,
)
    requires
        is_labelled(line, "confidence:"@, indent, label, rest),
    ensures
        ({
            let before = verdict_in(lines);
            let after = verdict_in(lines.push(line));
            let number = decimal(digits(rest));
            let readable = digits(rest).len() > 0 && number <= 4294967295;
            &&& after.met == before.met
            &&& after.reason == before.reason
            &&& !readable ==> after == before
            &&& readable && is_answered(lines) && number <= 100 ==> after.confidence == number
            &&& readable && is_answered(lines) && number > 100 ==> after.confidence == 100
            &&& !is_answered(lines) ==> after.confidence == 0
            &&& readable && number <= 100 ==> read_lines(lines.push(line)).confidence == number
            &&& readable && number > 100 ==> read_lines(lines.push(line)).confidence == 100
            &&& !readable ==> read_lines(lines.push(line)) == read_lines(lines)
            &&& read_lines(lines.push(line)).met == read_lines(lines).met
            &&& read_lines(lines.push(line)).reason == read_lines(lines).reason
        }),
{
    lemma_names();
    lemma_labelled(line, "confidence:"@, indent, label, rest);
    lemma_split_end(rest);
    let kept = trim_end(rest);
    let tail = rest.skip(kept.len() as int);
    digits_of_parts(kept, tail);
    lemma_digits_white(tail);
    assert(digits(kept) + Seq::<char>::empty() =~= digits(kept));
    lemma_digits_lower(kept);
    assert(lines.push(line).drop_last() =~= lines);
    lemma_answered(lines);
    let low = ascii_lower(trimmed(line));
    if "met:"@.is_prefix_of(low) {
        assert("met:"@[0] == low.subrange(0, "met:"@.len() as int)[0]);
    }
}

// ---- reasons ---------------------------------------------------------------------------
/// Whether the label of a reason stands at a place of a line, in whatever case.
pub open spec fn reason_at(line: Seq<char>, at: int) -> bool {
    &&& 0 <= at
    &&& at + 7 <= line.len()
    &&& ascii_lower(line).subrange(at, at + 7) == "reason:"@
}

proof fn lemma_reason_at(line: Seq<char>)
    ensures
        find(ascii_lower(line), "reason:"@) is Some <==> exists|at: int| reason_at(line, at),
        find(ascii_lower(line), "reason:"@) is Some ==> reason_at(
            line,
            find(ascii_lower(line), "reason:"@)->0 as int,
        ),
        forall|at: int|
            reason_at(line, at) ==> find(ascii_lower(line), "reason:"@) is Some && find(
                ascii_lower(line),
                "reason:"@,
            )->0 <= at,
{
    lemma_names();
    let low = ascii_lower(line);
    lemma_find(low, "reason:"@);
    if find(low, "reason:"@) is Some {
        let at = find(low, "reason:"@)->0 as int;
        assert(low.subrange(at, at + 7) =~= low.skip(at).subrange(0, 7));
        assert(reason_at(line, at));
    }
    assert forall|at: int| reason_at(line, at) implies find(low, "reason:"@) is Some && find(
        low,
        "reason:"@,
    )->0 <= at by {
        find_is_first(low, "reason:"@, at);
    }
}

/// A last line that starts neither with `MET:` nor with `CONFIDENCE:` gives the reason after
/// the first `reason:` in it, in whatever case that label stands: the text that follows,
/// in its own case and without space around it. It changes neither whether the task is done
/// nor the confidence. Where nothing follows, the reason is left to the answer.
pub proof fn last_reason_counts(lines: Seq<Seq<char>>, line: Seq<char>, at: int)
    requires
        !has_label(line, "met:"@),
        !has_label(line, "confidence:"@),
        reason_at(line, at),
        forall|k: int| 0 <= k < at ==> !#[trigger] reason_at(line, k),
    ensures
        ({
            let before = verdict_in(lines);
            let after = verdict_in(lines.push(line));
            let given = trimmed(line.skip(at + 7));
            &&& after.met == before.met
            &&& after.confidence == before.confidence
            &&& read_lines(lines.push(line)).met == read_lines(lines).met
            &&& read_lines(lines.push(line)).confidence == read_lines(lines).confidence
            &&& read_lines(lines.push(line)).reason == given
            &&& given.len() > 0 ==> after.reason == given
            &&& given.len() == 0 && !is_answered(lines) ==> after.reason
                == "No clear verdict from the judge."@
            &&& given.len() == 0 && is_answered(lines) && before.met ==> after.reason
                == "Looks done."@
            &&& given.len() == 0 && is_answered(lines) && !before.met ==> after.reason
                == "Not yet done."@
        }),
{
    lemma_names();
    lemma_label(line, "met:"@);
    lemma_label(line, "confidence:"@);
    lemma_reason_at(line);
    let found = find(ascii_lower(line), "reason:"@)->0 as int;
    assert(found <= at);
    assert(reason_at(line, found));
    assert(found == at);
    assert(lines.push(line).drop_last() =~= lines);
    lemma_answered(lines);
}

/// A line without any of the three labels changes nothing of the verdict.
pub proof fn other_lines_do_not_count(lines: Seq<Seq<char>>, line: Seq<char>)
    requires
        !has_label(line, "met:"@),
        !has_label(line, "confidence:"@),
        forall|at: int| !#[trigger] reason_at(line, at),
    ensures
        verdict_in(lines.push(line)) == verdict_in(lines),
        read_lines(lines.push(line)) == read_lines(lines),
{
    lemma_names();
    lemma_label(line, "met:"@);
    lemma_label(line, "confidence:"@);
    lemma_reason_at(line);
    assert(lines.push(line).drop_last() =~= lines);
}

/// A reply in which no line gives a reason has one by its answer alone.
pub proof fn reason_stands_in_for_none(lines: Seq<Seq<char>>)
    requires
        forall|i: int, at: int| 0 <= i < lines.len() ==> !#[trigger] reason_at(lines[i], at),
    ensures
        verdict_in(lines).met ==> verdict_in(lines).reason == "Looks done."@,
        !verdict_in(lines).met && is_answered(lines) ==> verdict_in(lines).reason
            == "Not yet done."@,
        !is_answered(lines) ==> verdict_in(lines).reason == "No clear verdict from the judge."@,
{
    lemma_no_reason(lines);
    lemma_answered(lines);
}

proof fn lemma_no_reason(lines: Seq<Seq<char>>)
    requires
        forall|i: int, at: int| 0 <= i < lines.len() ==> !#[trigger] reason_at(lines[i], at),
    ensures
        read_lines(lines).reason.len() == 0,
    decreases lines.len(),
{
    if lines.len() > 0 {
        let init = lines.drop_last();
        assert forall|i: int, at: int| 0 <= i < init.len() implies !#[trigger] reason_at(
            init[i],
            at,
        ) by {
            assert(init[i] == lines[i]);
        }
        lemma_no_reason(init);
        let last = lines[lines.len() - 1];
        lemma_reason_at(last);
        assert(forall|at: int| !#[trigger] reason_at(last, at));
    }
}

/// Before any line nothing was read: no answer, no confidence and no reason.
pub proof fn nothing_is_read_of_nothing()
    ensures
        read_lines(Seq::empty()).met is None,
        read_lines(Seq::empty()).confidence == 0,
        read_lines(Seq::empty()).reason.len() == 0,
{
}

/// Whether a reply is done is all that its answers decide: a reply without an answer is not
/// met, with no confidence, and one that is met has an answer.
pub proof fn unanswered_replies_are_not_met(lines: Seq<Seq<char>>)
    ensures
        !is_answered(lines) ==> !verdict_in(lines).met && verdict_in(lines).confidence == 0,
        verdict_in(lines).met ==> is_answered(lines),
{
    lemma_answered(lines);
}

/// A reply is read line by line, and what ends a line is not part of it.
pub proof fn replies_are_read_by_line(line: Seq<char>, rest: Seq<char>)
    requires
        on_one_line(line),
        line.len() == 0 || line.last() != '\r',
    ensures
        verdict_of(line + seq!['\n'] + rest) == verdict_in(seq![line] + lines(rest)),
        verdict_of(line + seq!['\r', '\n'] + rest) == verdict_in(seq![line] + lines(rest)),
        verdict_of(line) == (if line.len() > 0 {
            verdict_in(seq![line])
        } else {
            verdict_in(Seq::empty())
        }),
{
    newline_ends_a_line(line, rest);
    crate::text_laws::text_without_newline_is_a_line(line);
}

} // verus!
