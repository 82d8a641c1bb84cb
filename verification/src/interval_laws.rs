//! What holds of durations in words: their units, and how their spans add up.
use vstd::prelude::*;

use crate::interval::{
    is_unit_letter, spans_in, spans_total, unit_nanos, Part, Spans, DURATION_END,
};
use crate::text::{decimal, is_digit, is_white};
use crate::text_laws::all_white;

verus! {

// ---- units -----------------------------------------------------------------------------
/// Whether a text names a nanosecond.
pub open spec fn names_nanosecond(unit: Seq<char>) -> bool {
    ||| unit == "nanos"@
    ||| unit == "nsec"@
    ||| unit == "ns"@
}

/// Whether a text names a microsecond.
pub open spec fn names_microsecond(unit: Seq<char>) -> bool {
    ||| unit == "usec"@
    ||| unit == "us"@
    ||| unit == "\u{b5}s"@
}

/// Whether a text names a millisecond.
pub open spec fn names_millisecond(unit: Seq<char>) -> bool {
    ||| unit == "millis"@
    ||| unit == "msec"@
    ||| unit == "ms"@
}

/// Whether a text names a second.
pub open spec fn names_second(unit: Seq<char>) -> bool {
    ||| unit == "seconds"@
    ||| unit == "second"@
    ||| unit == "secs"@
    ||| unit == "sec"@
    ||| unit == "s"@
}

/// Whether a text names a minute.
pub open spec fn names_minute(unit: Seq<char>) -> bool {
    ||| unit == "minutes"@
    ||| unit == "minute"@
    ||| unit == "min"@
    ||| unit == "mins"@
    ||| unit == "m"@
}

/// Whether a text names a hour.
pub open spec fn names_hour(unit: Seq<char>) -> bool {
    ||| unit == "hours"@
    ||| unit == "hour"@
    ||| unit == "hr"@
    ||| unit == "hrs"@
    ||| unit == "h"@
}

/// Whether a text names a day.
pub open spec fn names_day(unit: Seq<char>) -> bool {
    ||| unit == "days"@
    ||| unit == "day"@
    ||| unit == "d"@
}

/// Whether a text names a week.
pub open spec fn names_week(unit: Seq<char>) -> bool {
    ||| unit == "weeks"@
    ||| unit == "week"@
    ||| unit == "wk"@
    ||| unit == "wks"@
    ||| unit == "w"@
}

/// Whether a text names a month.
pub open spec fn names_month(unit: Seq<char>) -> bool {
    ||| unit == "months"@
    ||| unit == "month"@
    ||| unit == "M"@
}

/// Whether a text names a year.
pub open spec fn names_year(unit: Seq<char>) -> bool {
    ||| unit == "years"@
    ||| unit == "year"@
    ||| unit == "yr"@
    ||| unit == "yrs"@
    ||| unit == "y"@
}

/// The lengths and the first letters of the names of the units.
proof fn lemma_letters()
    ensures
        "nanos"@.len() == 5 && "nanos"@[0] == 'n' && "nanos"@[1] == 'a' && "nanos"@[2] == 'n',
        "nsec"@.len() == 4 && "nsec"@[0] == 'n' && "nsec"@[1] == 's' && "nsec"@[2] == 'e',
        "ns"@.len() == 2 && "ns"@[0] == 'n' && "ns"@[1] == 's',
        "usec"@.len() == 4 && "usec"@[0] == 'u' && "usec"@[1] == 's' && "usec"@[2] == 'e',
        "us"@.len() == 2 && "us"@[0] == 'u' && "us"@[1] == 's',
        "\u{b5}s"@.len() == 2 && "\u{b5}s"@[0] == '\u{b5}' && "\u{b5}s"@[1] == 's',
        "millis"@.len() == 6 && "millis"@[0] == 'm' && "millis"@[1] == 'i' && "millis"@[2] == 'l',
        "msec"@.len() == 4 && "msec"@[0] == 'm' && "msec"@[1] == 's' && "msec"@[2] == 'e',
        "ms"@.len() == 2 && "ms"@[0] == 'm' && "ms"@[1] == 's',
        "seconds"@.len() == 7 && "seconds"@[0] == 's' && "seconds"@[1] == 'e' && "seconds"@[2] == 'c',
        "second"@.len() == 6 && "second"@[0] == 's' && "second"@[1] == 'e' && "second"@[2] == 'c',
        "secs"@.len() == 4 && "secs"@[0] == 's' && "secs"@[1] == 'e' && "secs"@[2] == 'c',
        "sec"@.len() == 3 && "sec"@[0] == 's' && "sec"@[1] == 'e' && "sec"@[2] == 'c',
        "s"@.len() == 1 && "s"@[0] == 's',
        "minutes"@.len() == 7 && "minutes"@[0] == 'm' && "minutes"@[1] == 'i' && "minutes"@[2] == 'n',
        "minute"@.len() == 6 && "minute"@[0] == 'm' && "minute"@[1] == 'i' && "minute"@[2] == 'n',
        "min"@.len() == 3 && "min"@[0] == 'm' && "min"@[1] == 'i' && "min"@[2] == 'n',
        "mins"@.len() == 4 && "mins"@[0] == 'm' && "mins"@[1] == 'i' && "mins"@[2] == 'n',
        "m"@.len() == 1 && "m"@[0] == 'm',
        "hours"@.len() == 5 && "hours"@[0] == 'h' && "hours"@[1] == 'o' && "hours"@[2] == 'u',
        "hour"@.len() == 4 && "hour"@[0] == 'h' && "hour"@[1] == 'o' && "hour"@[2] == 'u',
        "hr"@.len() == 2 && "hr"@[0] == 'h' && "hr"@[1] == 'r',
        "hrs"@.len() == 3 && "hrs"@[0] == 'h' && "hrs"@[1] == 'r' && "hrs"@[2] == 's',
        "h"@.len() == 1 && "h"@[0] == 'h',
        "days"@.len() == 4 && "days"@[0] == 'd' && "days"@[1] == 'a' && "days"@[2] == 'y',
        "day"@.len() == 3 && "day"@[0] == 'd' && "day"@[1] == 'a' && "day"@[2] == 'y',
        "d"@.len() == 1 && "d"@[0] == 'd',
        "weeks"@.len() == 5 && "weeks"@[0] == 'w' && "weeks"@[1] == 'e' && "weeks"@[2] == 'e',
        "week"@.len() == 4 && "week"@[0] == 'w' && "week"@[1] == 'e' && "week"@[2] == 'e',
        "wk"@.len() == 2 && "wk"@[0] == 'w' && "wk"@[1] == 'k',
        "wks"@.len() == 3 && "wks"@[0] == 'w' && "wks"@[1] == 'k' && "wks"@[2] == 's',
        "w"@.len() == 1 && "w"@[0] == 'w',
        "months"@.len() == 6 && "months"@[0] == 'm' && "months"@[1] == 'o' && "months"@[2] == 'n',
        "month"@.len() == 5 && "month"@[0] == 'm' && "month"@[1] == 'o' && "month"@[2] == 'n',
        "M"@.len() == 1 && "M"@[0] == 'M',
        "years"@.len() == 5 && "years"@[0] == 'y' && "years"@[1] == 'e' && "years"@[2] == 'a',
        "year"@.len() == 4 && "year"@[0] == 'y' && "year"@[1] == 'e' && "year"@[2] == 'a',
        "yr"@.len() == 2 && "yr"@[0] == 'y' && "yr"@[1] == 'r',
        "yrs"@.len() == 3 && "yrs"@[0] == 'y' && "yrs"@[1] == 'r' && "yrs"@[2] == 's',
        "y"@.len() == 1 && "y"@[0] == 'y',
{
    reveal_strlit("nanos");
    reveal_strlit("nsec");
    reveal_strlit("ns");
    reveal_strlit("usec");
    reveal_strlit("us");
    reveal_strlit("\u{b5}s");
    reveal_strlit("millis");
    reveal_strlit("msec");
    reveal_strlit("ms");
    reveal_strlit("seconds");
    reveal_strlit("second");
    reveal_strlit("secs");
    reveal_strlit("sec");
    reveal_strlit("s");
    reveal_strlit("minutes");
    reveal_strlit("minute");
    reveal_strlit("min");
    reveal_strlit("mins");
    reveal_strlit("m");
    reveal_strlit("hours");
    reveal_strlit("hour");
    reveal_strlit("hr");
    reveal_strlit("hrs");
    reveal_strlit("h");
    reveal_strlit("days");
    reveal_strlit("day");
    reveal_strlit("d");
    reveal_strlit("weeks");
    reveal_strlit("week");
    reveal_strlit("wk");
    reveal_strlit("wks");
    reveal_strlit("w");
    reveal_strlit("months");
    reveal_strlit("month");
    reveal_strlit("M");
    reveal_strlit("years");
    reveal_strlit("year");
    reveal_strlit("yr");
    reveal_strlit("yrs");
    reveal_strlit("y");
}

/// Each name of a unit stands for its length in nanoseconds, a month for 30.44 days and a
/// year for 365.25; any other text is no unit.
pub proof fn units_have_their_length(unit: Seq<char>)
    ensures
        names_nanosecond(unit) ==> unit_nanos(unit) == Some((1) as nat),
        names_microsecond(unit) ==> unit_nanos(unit) == Some((1_000) as nat),
        names_millisecond(unit) ==> unit_nanos(unit) == Some((1_000_000) as nat),
        names_second(unit) ==> unit_nanos(unit) == Some((1_000_000_000) as nat),
        names_minute(unit) ==> unit_nanos(unit) == Some((60 * 1_000_000_000) as nat),
        names_hour(unit) ==> unit_nanos(unit) == Some((60 * 60 * 1_000_000_000) as nat),
        names_day(unit) ==> unit_nanos(unit) == Some((24 * 60 * 60 * 1_000_000_000) as nat),
        names_week(unit) ==> unit_nanos(unit) == Some((7 * 24 * 60 * 60 * 1_000_000_000) as nat),
        names_month(unit) ==> unit_nanos(unit) == Some((2_630_016 * 1_000_000_000) as nat),
        names_year(unit) ==> unit_nanos(unit) == Some((31_557_600 * 1_000_000_000) as nat),
        unit_nanos(unit) is Some ==> {
            ||| names_nanosecond(unit)
            ||| names_microsecond(unit)
            ||| names_millisecond(unit)
            ||| names_second(unit)
            ||| names_minute(unit)
            ||| names_hour(unit)
            ||| names_day(unit)
            ||| names_week(unit)
            ||| names_month(unit)
            ||| names_year(unit)
        },
{
    lemma_letters();
}

// ---- spans -----------------------------------------------------------------------------
/// Whether a text is a row of decimal digits.
pub open spec fn is_number(s: Seq<char>) -> bool {
    s.len() > 0 && forall|i: int| 0 <= i < s.len() ==> is_digit(#[trigger] s[i])
}

/// Whether a text is made of the letters that units are made of.
pub open spec fn is_word(s: Seq<char>) -> bool {
    s.len() > 0 && forall|i: int| 0 <= i < s.len() ==> is_unit_letter(#[trigger] s[i])
}

/// Ten to the given power.
pub open spec fn ten_to(n: nat) -> nat
    decreases n,
{
    if n == 0 {
        1
    } else {
        ten_to((n - 1) as nat) * 10
    }
}

proof fn lemma_drop_digit(s: Seq<char>)
    requires
        is_number(s),
    ensures
        s.len() > 1 ==> is_number(s.drop_last()),
        is_digit(s.last()),
        decimal(s) == decimal(s.drop_last()) * 10 + (s.last() as int - '0' as int),
        decimal(s.drop_last()) <= decimal(s),
{
    assert(is_digit(s[s.len() - 1]));
    assert forall|i: int| 0 <= i < s.drop_last().len() implies is_digit(
        #[trigger] s.drop_last()[i],
    ) by {
        assert(s.drop_last()[i] == s[i]);
    }
}

proof fn lemma_whole(d: Seq<char>)
    requires
        is_number(d),
        decimal(d) <= u64::MAX,
    ensures
        spans_in(d) == (Spans { part: Part::Whole, whole: decimal(d), ..Spans::none() }),
    decreases d.len(),
{
    lemma_drop_digit(d);
    let init = d.drop_last();
    if d.len() == 1 {
        assert(init =~= Seq::<char>::empty());
        assert(spans_in(init) == Spans::none());
        assert(decimal(init) == 0);
    } else {
        lemma_whole(init);
    }
}

proof fn lemma_white_in_number(d: Seq<char>, gap: Seq<char>)
    requires
        all_white(gap),
        spans_in(d).part is Whole || spans_in(d).part is Fraction || spans_in(d).part is Gap,
    ensures
        spans_in(d + gap) == spans_in(d),
    decreases gap.len(),
{
    if gap.len() == 0 {
        assert(d + gap =~= d);
    } else {
        let init = gap.drop_last();
        assert(is_white(gap[gap.len() - 1]));
        lemma_white_in_number(d, init);
        assert((d + gap).drop_last() =~= d + init);
        assert((d + gap).last() == gap.last());
    }
}

proof fn lemma_unit(d: Seq<char>, unit: Seq<char>)
    requires
        is_word(unit),
        spans_in(d).part is Whole || spans_in(d).part is Fraction,
    ensures
        spans_in(d + unit) == (Spans { part: Part::Unit, unit, ..spans_in(d) }),
    decreases unit.len(),
{
    let init = unit.drop_last();
    let c = unit[unit.len() - 1];
    assert(is_unit_letter(c));
    assert((d + unit).drop_last() =~= d + init);
    assert((d + unit).last() == c);
    if unit.len() == 1 {
        assert(d + init =~= d);
        assert(unit =~= seq![c]);
    } else {
        assert forall|i: int| 0 <= i < init.len() implies is_unit_letter(#[trigger] init[i]) by {
            assert(init[i] == unit[i]);
        }
        lemma_unit(d, init);
        assert(init.push(c) =~= unit);
    }
}

/// A number of units is that many times the length of the unit, whatever space stands
/// between the number and the unit.
pub proof fn span_is_number_times_unit(number: Seq<char>, gap: Seq<char>, unit: Seq<char>)
    requires
        is_number(number),
        decimal(number) <= 0xffff_ffff_ffff_ffff,
        all_white(gap),
        is_word(unit),
        unit_nanos(unit) is Some,
    ensures
        spans_total(number + gap + unit) == decimal(number) * unit_nanos(unit)->0,
        spans_in(number + gap + unit).part is Unit,
        spans_in(number + gap + unit).unit == unit,
{
    lemma_whole(number);
    lemma_white_in_number(number, gap);
    lemma_unit(number + gap, unit);
    let each = unit_nanos(unit)->0;
    assert(0nat * each == 0) by (nonlinear_arith);
    assert((0nat * each) / 1 == 0);
}

proof fn lemma_fraction(number: Seq<char>, places: Seq<char>)
    requires
        is_number(number),
        decimal(number) <= u64::MAX,
        is_number(places),
        ten_to(places.len()) <= u64::MAX,
    ensures
        spans_in(number + seq!['.'] + places) == (Spans {
            part: Part::Fraction,
            whole: decimal(number),
            above: decimal(places),
            below: ten_to(places.len()),
            ..Spans::none()
        }),
    decreases places.len(),
{
    lemma_drop_digit(places);
    let init = places.drop_last();
    let all = number + seq!['.'] + places;
    assert(all.drop_last() =~= number + seq!['.'] + init);
    assert(all.last() == places.last());
    if places.len() == 1 {
        lemma_whole(number);
        let point = number + seq!['.'];
        assert(all.drop_last() =~= point);
        assert(point.drop_last() =~= number);
        assert(point.last() == '.');
        assert(init =~= Seq::<char>::empty());
        assert(decimal(init) == 0);
        assert(ten_to(1) == 10) by {
            reveal_with_fuel(ten_to, 2);
        }
        assert(spans_in(point) == (Spans { part: Part::Fraction, ..spans_in(number) }));
        assert(spans_in(all) == spans_in(point).and_then(places.last()));
    } else {
        assert(ten_to(places.len()) == ten_to(init.len()) * 10);
        lemma_fraction(number, init);
        assert(spans_in(all) == spans_in(all.drop_last()).and_then(places.last()));
    }
}

/// A number with places after its point counts them as a fraction of the unit, rounded down
/// to nanoseconds.
pub proof fn fractions_count_in_part(
    number: Seq<char>,
    places: Seq<char>,
    gap: Seq<char>,
    unit: Seq<char>,
)
    requires
        is_number(number),
        decimal(number) <= 0xffff_ffff_ffff_ffff,
        is_number(places),
        ten_to(places.len()) <= 0xffff_ffff_ffff_ffff,
        all_white(gap),
        is_word(unit),
        unit_nanos(unit) is Some,
    ensures
        spans_total(number + seq!['.'] + places + gap + unit) == decimal(number)
            * unit_nanos(unit)->0 + (decimal(places) * unit_nanos(unit)->0) / ten_to(
            places.len(),
        ),
{
    lemma_fraction(number, places);
    let value = number + seq!['.'] + places;
    lemma_white_in_number(value, gap);
    lemma_unit(value + gap, unit);
}

/// Whether one state of reading is another one with some nanoseconds before it.
spec fn is_shifted(x: Spans, s: Spans, before: nat) -> bool {
    &&& x.part == s.part
    &&& x.nanos == s.nanos + before
    &&& s.part is Whole || s.part is Fraction || s.part is Unit ==> x.whole == s.whole && x.above
        == s.above && x.below == s.below && x.unit == s.unit
}

proof fn lemma_below(text: Seq<char>)
    ensures
        spans_in(text).below >= 1,
    decreases text.len(),
{
    if text.len() > 0 {
        lemma_below(text.drop_last());
    }
}

proof fn lemma_closed_grows(s: Spans)
    requires
        s.below >= 1,
    ensures
        s.nanos <= s.closed().nanos,
{
    if unit_nanos(s.unit) is Some {
        let each = unit_nanos(s.unit)->0;
        let (p, q) = (s.whole * each, s.above * each);
        let below = s.below;
        assert(q / below >= 0) by (nonlinear_arith)
            requires
                q >= 0,
                below >= 1,
        ;
    }
}

proof fn lemma_closed_shifted(x: Spans, s: Spans, before: nat)
    requires
        s.below >= 1,
        s.part is Unit,
        is_shifted(x, s, before),
    ensures
        x.closed().nanos == s.closed().nanos + before,
        s.closed().nanos + before < DURATION_END ==> x.closed().part == s.closed().part,
{
    assert(x.unit == s.unit && x.whole == s.whole && x.above == s.above && x.below == s.below);
    if unit_nanos(s.unit) is Some {
        let each = unit_nanos(s.unit)->0;
        let (part, below) = (s.above * each, s.below);
        assert(part / below >= 0) by (nonlinear_arith)
            requires
                part >= 0,
                below >= 1,
        ;
    }
}

proof fn lemma_nanos_grow(s: Spans, c: char)
    requires
        s.below >= 1,
    ensures
        s.nanos <= s.and_then(c).nanos,
{
    lemma_closed_grows(s);
}

proof fn lemma_step_shifted(x: Spans, s: Spans, before: nat, c: char)
    requires
        s.below >= 1,
        is_shifted(x, s, before),
        s.and_then(c).nanos + before < DURATION_END,
    ensures
        is_shifted(x.and_then(c), s.and_then(c), before),
{
    if s.part is Unit {
        lemma_closed_shifted(x, s, before);
        lemma_closed_grows(s);
        if is_digit(c) {
            assert(s.and_then(c).nanos == s.closed().nanos);
        } else if is_white(c) {
            assert(s.and_then(c) == s.closed());
        }
    }
}

proof fn lemma_read_shifted(a: Seq<char>, start: Seq<char>, b: Seq<char>, before: nat)
    requires
        is_shifted(spans_in(a + start), spans_in(start), before),
        spans_in(start + b).nanos + before < DURATION_END,
    ensures
        is_shifted(spans_in(a + (start + b)), spans_in(start + b), before),
    decreases b.len(),
{
    let all = start + b;
    if b.len() == 0 {
        assert(all =~= start);
    } else {
        let init = b.drop_last();
        assert(all.drop_last() =~= start + init);
        assert(all.last() == b.last());
        assert((a + all).drop_last() =~= a + (start + init));
        assert((a + all).last() == b.last());
        lemma_below(start + init);
        lemma_nanos_grow(spans_in(start + init), b.last());
        lemma_read_shifted(a, start, init, before);
        lemma_step_shifted(
            spans_in(a + (start + init)),
            spans_in(start + init),
            before,
            b.last(),
        );
    }
}

/// What was read of two texts alike is read alike of what follows.
proof fn lemma_read_on(a: Seq<char>, b: Seq<char>, rest: Seq<char>)
    requires
        spans_in(a) == spans_in(b),
    ensures
        spans_in(a + rest) == spans_in(b + rest),
    decreases rest.len(),
{
    if rest.len() == 0 {
        assert(a + rest =~= a);
        assert(b + rest =~= b);
    } else {
        let init = rest.drop_last();
        lemma_read_on(a, b, init);
        assert((a + rest).drop_last() =~= a + init);
        assert((b + rest).drop_last() =~= b + init);
    }
}

/// White space before a number, and between its digits, does not count.
pub proof fn space_in_a_number_is_nothing(a: Seq<char>, gap: Seq<char>, rest: Seq<char>)
    requires
        spans_in(a).part is Gap || spans_in(a).part is Whole || spans_in(a).part is Fraction,
        all_white(gap),
    ensures
        spans_total(a + gap + rest) == spans_total(a + rest),
{
    lemma_white_in_number(a, gap);
    lemma_read_on(a + gap, a, rest);
}

/// A span may follow another at once.
pub proof fn adjacent_spans_add_up(a: Seq<char>, b: Seq<char>)
    requires
        spans_in(a).part is Unit,
        unit_nanos(spans_in(a).unit) is Some,
        spans_total(a) < DURATION_END,
        b.len() > 0,
        is_digit(b[0]),
        spans_in(b).part is Unit,
        spans_in(b).nanos + spans_total(a) < DURATION_END,
    ensures
        spans_total(a + b) == spans_total(a) + spans_total(b),
        spans_in(a + b).part is Unit,
        spans_in(a + b).unit == spans_in(b).unit,
{
    let start = seq![b[0]];
    let rest = b.skip(1);
    assert(start + rest =~= b);
    assert(start.drop_last() =~= Seq::<char>::empty());
    assert(spans_in(start.drop_last()) == Spans::none());
    assert(spans_in(start) == Spans::none().begun(b[0]));
    assert((a + start).drop_last() =~= a);
    assert((a + start).last() == b[0]);
    assert(spans_in(a + start) == spans_in(a).closed().begun(b[0]));
    lemma_read_shifted(a, start, rest, spans_total(a));
    lemma_below(b);
    lemma_closed_shifted(spans_in(a + b), spans_in(b), spans_total(a));
}

/// Spans with white space between them add up, as long as they make up a duration.
pub proof fn spans_add_up(a: Seq<char>, gap: Seq<char>, b: Seq<char>)
    requires
        spans_in(a).part is Unit,
        unit_nanos(spans_in(a).unit) is Some,
        spans_total(a) < DURATION_END,
        all_white(gap),
        gap.len() > 0,
        spans_in(b).part is Unit,
        spans_in(b).nanos + spans_total(a) < DURATION_END,
    ensures
        spans_total(a + gap + b) == spans_total(a) + spans_total(b),
        spans_in(a + gap + b).part is Unit,
        spans_in(a + gap + b).unit == spans_in(b).unit,
{
    let first = a.push(gap[0]);
    assert(is_white(gap[0]));
    assert(first.drop_last() =~= a);
    assert(!is_digit(gap[0]));
    assert(spans_in(first) == spans_in(a).closed());
    let rest = gap.skip(1);
    assert forall|i: int| 0 <= i < rest.len() implies is_white(#[trigger] rest[i]) by {
        assert(rest[i] == gap[i + 1]);
    }
    lemma_white_in_number(first, rest);
    assert(first + rest =~= a + gap);
    let none = Seq::<char>::empty();
    assert(a + gap + none =~= a + gap);
    assert(none + b =~= b);
    lemma_read_shifted(a + gap, none, b, spans_total(a));
    lemma_below(b);
    lemma_closed_shifted(spans_in(a + gap + b), spans_in(b), spans_total(a));
}

/// White space around spans does not count.
pub proof fn space_around_spans_is_nothing(before: Seq<char>, a: Seq<char>, behind: Seq<char>)
    requires
        all_white(before),
        all_white(behind),
        spans_in(a).part is Unit,
        unit_nanos(spans_in(a).unit) is Some,
        spans_total(a) < DURATION_END,
        spans_in(a).nanos < DURATION_END,
    ensures
        spans_total(before + a) == spans_total(a),
        spans_total(a + behind) == spans_total(a),
{
    let none = Seq::<char>::empty();
    assert(spans_in(none) == Spans::none());
    lemma_white_in_number(none, before);
    assert(none + before =~= before);
    assert(before + none =~= before);
    assert(none + a =~= a);
    lemma_read_shifted(before, none, a, 0);
    lemma_below(a);
    lemma_closed_shifted(spans_in(before + a), spans_in(a), 0);
    if behind.len() > 0 {
        let first = a.push(behind[0]);
        assert(is_white(behind[0]));
        assert(first.drop_last() =~= a);
        assert(spans_in(first) == spans_in(a).closed());
        let rest = behind.skip(1);
        assert forall|i: int| 0 <= i < rest.len() implies is_white(#[trigger] rest[i]) by {
            assert(rest[i] == behind[i + 1]);
        }
        lemma_white_in_number(first, rest);
        assert(first + rest =~= a + behind);
    } else {
        assert(a + behind =~= a);
    }
}

} // verus!
