//! What the judge is asked, and how its reply is read.
use vstd::prelude::*;

use crate::text::{
    after_prefix, ascii_lower, byte_len, chars_of, concat2, count_bytes, find, find_in,
    has_prefix, lemma_find, lines, lower, number_in, one_line, read_number, split_lines, squeeze,
    string_between, strip_prefix, text_of, texts, trim, trim_owned, trimmed,
};

verus! {

/// What one judge run produced.
#[derive(Debug, PartialEq, Eq)]
pub struct Verdict {
    pub met: bool,
    pub confidence: u8,
    pub reason: String,
}

/// A verdict, its reason as text.
pub struct VerdictView {
    pub met: bool,
    pub confidence: u8,
    pub reason: Seq<char>,
}

impl View for Verdict {
    type V = VerdictView;

    open spec fn view(&self) -> VerdictView {
        VerdictView { met: self.met, confidence: self.confidence, reason: self.reason@ }
    }
}

impl Clone for Verdict {
    fn clone(&self) -> (r: Verdict)
        ensures
            r@ == self@,
    {
        Verdict { met: self.met, confidence: self.confidence, reason: self.reason.clone() }
    }
}

// ---- asking the judge --------------------------------------------------------
/// What the judge is told about its task.
pub const JUDGE_SYSTEM: &'static str = "You are a meticulous completion judge for a personal todo app. \
You are given a TASK the user wants to finish and EVIDENCE of what they have \
recently been doing on their computer (captured screen text, app activity, and \
recent history). Decide whether the task has actually been completed, based ONLY \
on the evidence. Be conservative: if the evidence does not clearly show the task \
is done, answer no. Reply with EXACTLY three lines and nothing else:\n\
MET: yes or no\n\
CONFIDENCE: an integer from 0 to 100 (how certain you are it is done)\n\
REASON: one short sentence citing the evidence.";

/// What the judge is asked about one task and the evidence for it.
pub open spec fn judge_question(condition: Seq<char>, evidence: Seq<char>) -> Seq<char> {
    "TASK: "@ + condition + "\n\nEVIDENCE (recent activity):\n"@ + evidence
}

/// Builds the system prompt and the user prompt for the judge.
pub fn build_judge_prompt(condition: &str, evidence: &str) -> (r: (String, String))
    ensures
        r.0@ == JUDGE_SYSTEM@,
        r.1@ == judge_question(condition@, evidence@),
{
    let mut user = "TASK: ".to_owned();
    user.append(condition);
    user.append("\n\nEVIDENCE (recent activity):\n");
    user.append(evidence);
    (JUDGE_SYSTEM.to_owned(), user)
}

/// The most characters, and the most bytes without a mark of omission, that a
/// snippet of evidence has.
pub const SNIPPET_MAX: usize = 280;

/// A short form of evidence: on one line, and where that takes more than
/// `SNIPPET_MAX` bytes its first `SNIPPET_MAX` characters with an ellipsis.
pub open spec fn snippet_of(evidence: Seq<char>) -> Seq<char> {
    let line = one_line(evidence);
    if byte_len(line) > SNIPPET_MAX {
        (if line.len() > SNIPPET_MAX {
            line.take(SNIPPET_MAX as int)
        } else {
            line
        }) + "\u{2026}"@
    } else {
        line
    }
}

/// Makes the short evidence snippet that is stored with a suggestion or a detection.
pub fn snippet(evidence: &str) -> (r: String)
    ensures
        r@ == snippet_of(evidence@),
{
    let line = squeeze(evidence);
    let chars = chars_of(line.as_str());
    if count_bytes(&chars) > SNIPPET_MAX as u128 {
        let to: usize = if chars.len() > SNIPPET_MAX {
            SNIPPET_MAX
        } else {
            chars.len()
        };
        assert(line@.subrange(0, line@.len() as int) == line@);
        assert(line@.len() > SNIPPET_MAX ==> line@.subrange(0, to as int) == line@.take(to as int));
        concat2(string_between(&chars, 0, to).as_str(), "\u{2026}")
    } else {
        line
    }
}

// ---- reading a reply ---------------------------------------------------------
/// What the lines of a reply that were read so far say.
pub struct Reading {
    /// The last answer to whether the task is done, if there was one.
    pub met: Option<bool>,
    /// The last confidence, at most 100.
    pub confidence: u8,
    /// The last reason, without white space around it.
    pub reason: Seq<char>,
}

/// Nothing read yet.
pub open spec fn unread() -> Reading {
    Reading { met: None, confidence: 0, reason: Seq::empty() }
}

/// The text after a label that a line starts with, in lower case. White space before the
/// label, and its case, do not matter.
pub open spec fn labelled(line: Seq<char>, label: Seq<char>) -> Option<Seq<char>> {
    after_prefix(ascii_lower(trimmed(line)), label)
}

/// The answer that a text gives, if it is one.
pub open spec fn answer(s: Seq<char>) -> Option<bool> {
    if "yes"@.is_prefix_of(s) || "true"@.is_prefix_of(s) {
        Some(true)
    } else if "no"@.is_prefix_of(s) || "false"@.is_prefix_of(s) {
        Some(false)
    } else {
        None
    }
}

/// The answer that a line gives, if it starts with `met:` and goes on with one.
pub open spec fn answer_on(line: Seq<char>) -> Option<bool> {
    match labelled(line, "met:"@) {
        Some(rest) => answer(trimmed(rest)),
        None => None,
    }
}

/// The reason on a line: what follows the first `reason:` in it, in whatever case the
/// label stands, without white space around it.
pub open spec fn reason_on(line: Seq<char>) -> Option<Seq<char>> {
    match find(ascii_lower(line), "reason:"@) {
        Some(at) => Some(trimmed(line.skip(at as int + "reason:"@.len()))),
        None => None,
    }
}

/// What is known after one more line.
pub open spec fn read_line(known: Reading, line: Seq<char>) -> Reading {
    if labelled(line, "met:"@) is Some {
        match answer_on(line) {
            Some(met) => Reading { met: Some(met), ..known },
            None => known,
        }
    } else {
        match labelled(line, "confidence:"@) {
            Some(rest) => match number_in(rest, u32::MAX as nat) {
                Some(n) => Reading {
                    confidence: (if n <= 100 {
                        n as u8
                    } else {
                        100
                    }),
                    ..known
                },
                None => known,
            },
            None => match reason_on(line) {
                Some(reason) => Reading { reason, ..known },
                None => known,
            },
        }
    }
}

/// What is known after all the lines.
pub open spec fn read_lines(lines: Seq<Seq<char>>) -> Reading
    decreases lines.len(),
{
    if lines.len() == 0 {
        unread()
    } else {
        read_line(read_lines(lines.drop_last()), lines.last())
    }
}

/// The verdict that follows from what was read. Without an answer the task counts as not
/// done.
pub open spec fn conclude(known: Reading) -> VerdictView {
    match known.met {
        Some(met) => VerdictView {
            met,
            confidence: known.confidence,
            reason: (if known.reason.len() > 0 {
                known.reason
            } else if met {
                "Looks done."@
            } else {
                "Not yet done."@
            }),
        },
        None => VerdictView {
            met: false,
            confidence: 0,
            reason: (if known.reason.len() > 0 {
                known.reason
            } else {
                "No clear verdict from the judge."@
            }),
        },
    }
}

/// The verdict in a reply, given its lines.
pub open spec fn verdict_in(lines: Seq<Seq<char>>) -> VerdictView {
    conclude(read_lines(lines))
}

/// The verdict in a reply.
pub open spec fn verdict_of(reply: Seq<char>) -> VerdictView {
    verdict_in(lines(reply))
}

/// The state of reading a reply line by line.
struct Reader {
    met: Option<bool>,
    confidence: u8,
    reason: String,
}

impl View for Reader {
    type V = Reading;

    closed spec fn view(&self) -> Reading {
        Reading { met: self.met, confidence: self.confidence, reason: self.reason@ }
    }
}

impl Reader {
    fn new() -> (r: Reader)
        ensures
            r@ == unread(),
    {
        Reader { met: None, confidence: 0, reason: String::new() }
    }

    /// Takes in one more line.
    fn read(&mut self, line: &str)
        ensures
            final(self)@ == read_line(old(self)@, line@),
    {
        let low = lower(trim(line));
        if let Some(rest) = strip_prefix(low.as_str(), "met:") {
            let rest = trim(rest.as_str());
            if has_prefix(rest, "yes") || has_prefix(rest, "true") {
                self.met = Some(true);
            } else if has_prefix(rest, "no") || has_prefix(rest, "false") {
                self.met = Some(false);
            }
        } else if let Some(rest) = strip_prefix(low.as_str(), "confidence:") {
            if let Some(n) = read_number(rest.as_str(), u32::MAX) {
                self.confidence = if n <= 100 {
                    n as u8
                } else {
                    100
                };
            }
        } else if let Some(rest) = after_label(line, "reason:") {
            self.reason = trim_owned(rest.as_str());
        }
    }
}

/// What follows the first place at which a label stands in a line, in whatever case.
fn after_label(line: &str, label: &str) -> (r: Option<String>)
    ensures
        text_of(r) == (match find(ascii_lower(line@), label@) {
            Some(at) => Some(line@.skip(at as int + label@.len())),
            None => None,
        }),
{
    let low = lower(line);
    match find_in(low.as_str(), label) {
        Some(at) => {
            proof {
                lemma_find(low@, label@);
            }
            let chars = chars_of(line);
            let from: usize = at + chars_of(label).len();
            assert(line@.subrange(from as int, line@.len() as int) == line@.skip(from as int));
            Some(string_between(&chars, from, chars.len()))
        },
        None => None,
    }
}

/// Reads the verdict out of the lines of a reply.
pub fn read_verdict(lines: &Vec<String>) -> (r: Verdict)
    ensures
        r@ == verdict_in(texts(lines@)),
{
    let mut reader = Reader::new();
    let n: usize = lines.len();
    let mut i: usize = 0;
    while i < n
        invariant
            n == lines@.len(),
            i <= n,
            reader@ == read_lines(texts(lines@).take(i as int)),
        decreases n - i,
    {
        reader.read(lines[i].as_str());
        assert(texts(lines@).take(i + 1).drop_last() == texts(lines@).take(i as int));
        i = i + 1;
    }
    assert(texts(lines@).take(n as int) == texts(lines@));
    match reader.met {
        Some(met) => {
            let reason = if !reader.reason.as_str().is_empty() {
                reader.reason
            } else if met {
                "Looks done.".to_owned()
            } else {
                "Not yet done.".to_owned()
            };
            Verdict { met, confidence: reader.confidence, reason }
        },
        None => {
            let reason = if !reader.reason.as_str().is_empty() {
                reader.reason
            } else {
                "No clear verdict from the judge.".to_owned()
            };
            Verdict { met: false, confidence: 0, reason }
        },
    }
}

/// Parses the judge's three-line reply into a [`Verdict`]. An unreadable verdict counts as
/// not met with zero confidence. Labels and answers are read in any case. Only letters of
/// ASCII have two cases here: of all others, just the Kelvin sign and the dotted capital I
/// have a letter of ASCII in their lower-case forms, a `k` and an `i` with a dot above it,
/// and neither stands in a label or an answer.
pub fn parse_verdict(text: &str) -> (r: Verdict)
    ensures
        r@ == verdict_of(text@),
{
    read_verdict(&split_lines(text))
}

} // verus!
