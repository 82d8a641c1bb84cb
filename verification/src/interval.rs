//! Intervals between judgements: durations in words, such as `2m` or `1h 30m`.
use vstd::prelude::*;

use crate::text::{is_digit, is_white, same, white};

verus! {

/// Default detection interval when nothing is configured.
pub const DEFAULT_INTERVAL: &'static str = "2m";

/// The nanoseconds that no duration reaches: 2^64 seconds.
pub const DURATION_END: u128 = 18_446_744_073_709_551_616_000_000_000;

/// Whether a text is a duration in words.
pub uninterp spec fn is_duration(text: Seq<char>) -> bool;

/// Whether a text is an interval: a duration in words. One whose spans add up to 2^64
/// seconds or more is none, since no duration reaches them.
pub open spec fn is_interval(text: Seq<char>) -> bool {
    spans_total(text) < DURATION_END && is_duration(text)
}

// ---- spans -----------------------------------------------------------------------------
/// The nanoseconds of a unit of time.
pub open spec fn unit_nanos(unit: Seq<char>) -> Option<nat> {
    if unit == "nanos"@ || unit == "nsec"@ || unit == "ns"@ {
        Some(1)
    } else if unit == "usec"@ || unit == "us"@ || unit == "\u{b5}s"@ {
        Some(1_000)
    } else if unit == "millis"@ || unit == "msec"@ || unit == "ms"@ {
        Some(1_000_000)
    } else if unit == "seconds"@ || unit == "second"@ || unit == "secs"@ || unit == "sec"@ || unit
        == "s"@ {
        Some(1_000_000_000)
    } else if unit == "minutes"@ || unit == "minute"@ || unit == "min"@ || unit == "mins"@ || unit
        == "m"@ {
        Some(60_000_000_000)
    } else if unit == "hours"@ || unit == "hour"@ || unit == "hr"@ || unit == "hrs"@ || unit
        == "h"@ {
        Some(3_600_000_000_000)
    } else if unit == "days"@ || unit == "day"@ || unit == "d"@ {
        Some(86_400_000_000_000)
    } else if unit == "weeks"@ || unit == "week"@ || unit == "wk"@ || unit == "wks"@ || unit
        == "w"@ {
        Some(604_800_000_000_000)
    } else if unit == "months"@ || unit == "month"@ || unit == "M"@ {
        Some(2_630_016_000_000_000)
    } else if unit == "years"@ || unit == "year"@ || unit == "yr"@ || unit == "yrs"@ || unit
        == "y"@ {
        Some(31_557_600_000_000_000)
    } else {
        None
    }
}

/// Where in a text of spans a character stands.
#[derive(Debug, Clone, Copy, PartialEq, Eq, Structural)]
pub enum Part {
    /// Before a number.
    Gap,
    /// In a number, before its point.
    Whole,
    /// In a number, after its point.
    Fraction,
    /// In a unit.
    Unit,
    /// After the spans: what follows belongs to none.
    Ended,
}

/// A text of spans read up to a character: the span that is open, and what the others
/// add up to.
pub struct Spans {
    pub part: Part,
    /// The number of the open span, before its point.
    pub whole: nat,
    /// The digits after the point, over a power of ten.
    pub above: nat,
    pub below: nat,
    pub unit: Seq<char>,
    /// The nanoseconds of the spans before it.
    pub nanos: nat,
}

/// Whether a character can be part of a unit.
pub open spec fn is_unit_letter(c: char) -> bool {
    'a' <= c <= 'z' || 'A' <= c <= 'Z' || c == '\u{b5}'
}

/// The value of a decimal digit.
pub open spec fn digit_value(c: char) -> nat {
    (c as int - '0' as int) as nat
}

impl Spans {
    /// Nothing read yet.
    pub open spec fn none() -> Spans {
        Spans { part: Part::Gap, whole: 0, above: 0, below: 1, unit: Seq::empty(), nanos: 0 }
    }

    /// The spans read so far, followed by what is none.
    pub open spec fn ended(self) -> Spans {
        Spans { part: Part::Ended, ..self }
    }

    /// A digit begins the next span.
    pub open spec fn begun(self, c: char) -> Spans {
        Spans {
            part: Part::Whole,
            whole: digit_value(c),
            above: 0,
            below: 1,
            unit: Seq::empty(),
            nanos: self.nanos,
        }
    }

    /// The open span is over, and its number of units counts. The reading ends at a unit
    /// that is none, and where the spans reach more than a duration holds.
    pub open spec fn closed(self) -> Spans {
        match unit_nanos(self.unit) {
            Some(each) => {
                let nanos = self.nanos + self.whole * each + (self.above * each) / self.below;
                Spans {
                    part: if nanos >= DURATION_END {
                        Part::Ended
                    } else {
                        Part::Gap
                    },
                    nanos,
                    ..self
                }
            },
            None => self.ended(),
        }
    }

    /// One more character. White space stands between spans, and between the digits of
    /// a number; a number takes at most 64 bits.
    pub open spec fn and_then(self, c: char) -> Spans {
        match self.part {
            Part::Gap => if is_digit(c) {
                self.begun(c)
            } else if is_white(c) {
                self
            } else {
                self.ended()
            },
            Part::Whole => if is_digit(c) {
                if self.whole * 10 + digit_value(c) <= u64::MAX {
                    Spans { whole: self.whole * 10 + digit_value(c), ..self }
                } else {
                    self.ended()
                }
            } else if is_white(c) {
                self
            } else if is_unit_letter(c) {
                Spans { part: Part::Unit, unit: seq![c], ..self }
            } else if c == '.' {
                Spans { part: Part::Fraction, ..self }
            } else {
                self.ended()
            },
            Part::Fraction => if is_digit(c) {
                if self.below * 10 <= u64::MAX {
                    Spans {
                        above: self.above * 10 + digit_value(c),
                        below: self.below * 10,
                        ..self
                    }
                } else {
                    self.ended()
                }
            } else if is_white(c) {
                self
            } else if is_unit_letter(c) {
                Spans { part: Part::Unit, unit: seq![c], ..self }
            } else {
                self.ended()
            },
            Part::Unit => if is_digit(c) {
                if self.closed().part is Ended {
                    self.closed()
                } else {
                    self.closed().begun(c)
                }
            } else if is_white(c) {
                self.closed()
            } else if is_unit_letter(c) {
                Spans { unit: self.unit.push(c), ..self }
            } else {
                self.ended()
            },
            Part::Ended => self,
        }
    }

    /// The nanoseconds of all spans.
    pub open spec fn total(self) -> nat {
        if self.part is Unit {
            self.closed().nanos
        } else {
            self.nanos
        }
    }
}

/// A text read as spans.
pub open spec fn spans_in(text: Seq<char>) -> Spans
    decreases text.len(),
{
    if text.len() == 0 {
        Spans::none()
    } else {
        spans_in(text.drop_last()).and_then(text.last())
    }
}

/// The nanoseconds that the spans of a text add up to.
pub open spec fn spans_total(text: Seq<char>) -> nat {
    spans_in(text).total()
}

/// The nanoseconds of a unit of time.
fn nanos_of(unit: &str) -> (r: Option<u64>)
    ensures
        match r {
            Some(n) => unit_nanos(unit@) == Some(n as nat) && n <= 31_557_600_000_000_000,
            None => unit_nanos(unit@) is None,
        },
{
    if same(unit, "nanos") || same(unit, "nsec") || same(unit, "ns") {
        Some(1)
    } else if same(unit, "usec") || same(unit, "us") || same(unit, "\u{b5}s") {
        Some(1_000)
    } else if same(unit, "millis") || same(unit, "msec") || same(unit, "ms") {
        Some(1_000_000)
    } else if same(unit, "seconds") || same(unit, "second") || same(unit, "secs") || same(
        unit,
        "sec",
    ) || same(unit, "s") {
        Some(1_000_000_000)
    } else if same(unit, "minutes") || same(unit, "minute") || same(unit, "min") || same(
        unit,
        "mins",
    ) || same(unit, "m") {
        Some(60_000_000_000)
    } else if same(unit, "hours") || same(unit, "hour") || same(unit, "hr") || same(unit, "hrs")
        || same(unit, "h") {
        Some(3_600_000_000_000)
    } else if same(unit, "days") || same(unit, "day") || same(unit, "d") {
        Some(86_400_000_000_000)
    } else if same(unit, "weeks") || same(unit, "week") || same(unit, "wk") || same(unit, "wks")
        || same(unit, "w") {
        Some(604_800_000_000_000)
    } else if same(unit, "months") || same(unit, "month") || same(unit, "M") {
        Some(2_630_016_000_000_000)
    } else if same(unit, "years") || same(unit, "year") || same(unit, "yr") || same(unit, "yrs")
        || same(unit, "y") {
        Some(31_557_600_000_000_000)
    } else {
        None
    }
}

/// A text of spans read up to a character.
struct SpanReader {
    part: Part,
    whole: u64,
    above: u64,
    below: u64,
    unit: String,
    nanos: u128,
}

impl View for SpanReader {
    type V = Spans;

    closed spec fn view(&self) -> Spans {
        Spans {
            part: self.part,
            whole: self.whole as nat,
            above: self.above as nat,
            below: self.below as nat,
            unit: self.unit@,
            nanos: self.nanos as nat,
        }
    }
}

impl SpanReader {
    /// A fraction is below one, and the spans before an open one are a duration.
    spec fn in_bounds(self) -> bool {
        &&& self.above < self.below
        &&& !(self.part is Ended) ==> self.nanos < DURATION_END
    }

    fn new() -> (r: SpanReader)
        ensures
            r@ == Spans::none(),
            r.in_bounds(),
    {
        let unit = String::new();
        assert(unit@ == Seq::<char>::empty());
        SpanReader { part: Part::Gap, whole: 0, above: 0, below: 1, unit, nanos: 0 }
    }

    /// A digit begins the next span.
    fn begin(self, c: char) -> (r: SpanReader)
        requires
            is_digit(c),
            self.nanos < DURATION_END,
        ensures
            r@ == self@.begun(c),
            r.in_bounds(),
    {
        let unit = String::new();
        assert(unit@ == Seq::<char>::empty());
        SpanReader {
            part: Part::Whole,
            whole: c as u64 - '0' as u64,
            above: 0,
            below: 1,
            unit,
            nanos: self.nanos,
        }
    }

    /// The open span is over.
    fn close(self) -> (r: SpanReader)
        requires
            self.in_bounds(),
            !(self.part is Ended),
        ensures
            r@ == self@.closed(),
            r.in_bounds(),
    {
        match nanos_of(self.unit.as_str()) {
            Some(each) => {
                let (whole, above, below): (u128, u128, u128) = (
                    self.whole as u128,
                    self.above as u128,
                    self.below as u128,
                );
                let unit: u128 = each as u128;
                assert(whole * unit <= 0xffff_ffff_ffff_ffff * 31_557_600_000_000_000)
                    by (nonlinear_arith)
                    requires
                        0 <= whole <= 0xffff_ffff_ffff_ffff,
                        0 <= unit <= 31_557_600_000_000_000,
                ;
                assert(0 <= above * unit <= 0xffff_ffff_ffff_ffff * 31_557_600_000_000_000)
                    by (nonlinear_arith)
                    requires
                        0 <= above <= 0xffff_ffff_ffff_ffff,
                        0 <= unit <= 31_557_600_000_000_000,
                ;
                assert((above * unit) / (below as int) <= above * unit) by (nonlinear_arith)
                    requires
                        0 <= above * unit,
                        0 < below,
                ;
                let nanos: u128 = self.nanos + whole * unit + (above * unit) / below;
                SpanReader {
                    part: if nanos >= DURATION_END {
                        Part::Ended
                    } else {
                        Part::Gap
                    },
                    nanos,
                    ..self
                }
            },
            None => SpanReader { part: Part::Ended, ..self },
        }
    }

    /// One more character.
    fn read(self, c: char) -> (r: SpanReader)
        requires
            self.in_bounds(),
        ensures
            r@ == self@.and_then(c),
            r.in_bounds(),
    {
        let digit = '0' <= c && c <= '9';
        let value: u64 = if digit {
            c as u64 - '0' as u64
        } else {
            0
        };
        let letter = ('a' <= c && c <= 'z') || ('A' <= c && c <= 'Z') || c == '\u{b5}';
        match self.part {
            Part::Gap => if digit {
                self.begin(c)
            } else if white(c) {
                self
            } else {
                SpanReader { part: Part::Ended, ..self }
            },
            Part::Whole => if digit {
                let whole: u128 = self.whole as u128 * 10 + value as u128;
                if whole <= u64::MAX as u128 {
                    SpanReader { whole: whole as u64, ..self }
                } else {
                    SpanReader { part: Part::Ended, ..self }
                }
            } else if white(c) {
                self
            } else if letter {
                self.begin_unit(c)
            } else if c == '.' {
                SpanReader { part: Part::Fraction, ..self }
            } else {
                SpanReader { part: Part::Ended, ..self }
            },
            Part::Fraction => if digit {
                let below: u128 = self.below as u128 * 10;
                if below <= u64::MAX as u128 {
                    SpanReader {
                        above: self.above * 10 + value,
                        below: below as u64,
                        ..self
                    }
                } else {
                    SpanReader { part: Part::Ended, ..self }
                }
            } else if white(c) {
                self
            } else if letter {
                self.begin_unit(c)
            } else {
                SpanReader { part: Part::Ended, ..self }
            },
            Part::Unit => if digit {
                let closed = self.close();
                if closed.part == Part::Ended {
                    closed
                } else {
                    closed.begin(c)
                }
            } else if white(c) {
                self.close()
            } else if letter {
                let mut unit = self.unit.clone();
                unit.push(c);
                SpanReader { unit, ..self }
            } else {
                SpanReader { part: Part::Ended, ..self }
            },
            Part::Ended => self,
        }
    }

    /// A letter begins the unit.
    fn begin_unit(self, c: char) -> (r: SpanReader)
        requires
            self.in_bounds(),
            !(self.part is Ended),
        ensures
            r@ == (Spans { part: Part::Unit, unit: seq![c], ..self@ }),
            r.in_bounds(),
    {
        let mut unit = String::new();
        unit.push(c);
        assert(unit@ =~= seq![c]);
        SpanReader { part: Part::Unit, unit, ..self }
    }
}

/// Whether the spans of a text add up to more than a duration holds.
fn overfull(text: &str) -> (r: bool)
    ensures
        r == (spans_total(text@) >= DURATION_END),
{
    let mut reader = SpanReader::new();
    assert(text@.take(0) == Seq::<char>::empty());
    for c in it: text.chars()
        invariant
            it.seq() == text@,
            reader@ == spans_in(text@.take(it.index())),
            reader.in_bounds(),
    {
        let ghost at = it.index();
        assert(text@.take(at + 1).drop_last() == text@.take(at));
        let next = reader.read(c);
        reader = next;
    }
    assert(text@.take(text@.len() as int) == text@);
    if reader.part == Part::Unit {
        reader.close().nanos >= DURATION_END
    } else {
        reader.nanos >= DURATION_END
    }
}

/// Whether a text is an interval between judgements.
pub fn valid_interval(text: &str) -> (r: bool)
    ensures
        r == is_interval(text@),
        text@ == DEFAULT_INTERVAL@ ==> r,
{
    proof {
        if text@ == DEFAULT_INTERVAL@ {
            default_is_short();
        }
    }
    !overfull(text) && parses_as_duration(text)
}

/// The default interval adds up to two minutes.
proof fn default_is_short()
    ensures
        spans_total(DEFAULT_INTERVAL@) == 120_000_000_000,
{
    let text = DEFAULT_INTERVAL@;
    reveal_strlit("2m");
    assert(text.len() == 2 && text[0] == '2' && text[1] == 'm');
    assert(text.drop_last().drop_last() =~= Seq::<char>::empty());
    assert(text.drop_last().last() == '2' && text.last() == 'm');
    assert(spans_in(text.drop_last().drop_last()) == Spans::none());
    let number = spans_in(text.drop_last());
    assert(number == Spans::none().begun('2'));
    let whole = spans_in(text);
    assert(whole == (Spans { part: Part::Unit, unit: seq!['m'], ..number }));
    reveal_strlit("m");
    assert(seq!['m'] =~= "m"@);
    lemma_minute();
    assert((0nat * 60_000_000_000) / 1 == 0);
}

/// `m` is a minute.
proof fn lemma_minute()
    ensures
        unit_nanos("m"@) == Some(60_000_000_000nat),
{
    reveal_strlit("m");
    reveal_strlit("nanos");
    reveal_strlit("nsec");
    reveal_strlit("ns");
    reveal_strlit("usec");
    reveal_strlit("us");
    reveal_strlit("\u{b5}s");
    reveal_strlit("millis");
    reveal_strlit("msec");
    reveal_strlit("ms");
    reveal_strlit("seconds");
    reveal_strlit("second");
    reveal_strlit("secs");
    reveal_strlit("sec");
    reveal_strlit("s");
    assert("m"@.len() == 1 && "m"@[0] == 'm' && "s"@[0] == 's');
    assert("nanos"@.len() == 5 && "nsec"@.len() == 4 && "ns"@.len() == 2);
    assert("usec"@.len() == 4 && "us"@.len() == 2 && "\u{b5}s"@.len() == 2);
    assert("millis"@.len() == 6 && "msec"@.len() == 4 && "ms"@.len() == 2);
    assert("seconds"@.len() == 7 && "second"@.len() == 6 && "secs"@.len() == 4);
    assert("sec"@.len() == 3);
}

/// Whether `humantime::parse_duration` accepts the text, which depends on the text
/// alone and is here called `is_duration`; it accepts `2m`. A text whose spans add up
/// to 2^64 seconds or more it refuses, except that it does not return where they reach
/// exactly that many by a last whole second of nanoseconds.
#[verifier::external_body]
fn parses_as_duration(text: &str) -> (r: bool)
    requires
        spans_total(text@) < DURATION_END,
    ensures
        r == is_duration(text@),
        text@ == "2m"@ ==> r,
{
    humantime::parse_duration(text).is_ok()
}

} // verus!
