//! What holds of the operations on text.
use vstd::prelude::*;

use crate::text::{
    after_prefix, ascii_lower, ascii_upper, byte_len, decimal, digits, find, fitting, is_blank,
    is_white, lemma_trim_end, lemma_trim_start, lemma_word_end, line_end, lines, number_in,
    one_line, spaced, trim_end, trim_start, trimmed, without_slashes, word_end, words,
};

verus! {

/// Whether a text holds nothing but white space.
pub open spec fn all_white(s: Seq<char>) -> bool {
    forall|i: int| 0 <= i < s.len() ==> is_white(#[trigger] s[i])
}

/// Whether a text holds no white space.
pub open spec fn none_white(s: Seq<char>) -> bool {
    forall|i: int| 0 <= i < s.len() ==> !is_white(#[trigger] s[i])
}

// ---- white space -----------------------------------------------------------------------
/// White space is what Unicode lists as such: twenty-five characters.
pub proof fn white_space_is_as_listed(c: char)
    ensures
        is_white(c) <==> {
            let u = c as int;
            9 <= u <= 13 || u == 32 || u == 133 || u == 160 || u == 5760 || 8192 <= u <= 8202 || u
                == 8232 || u == 8233 || u == 8239 || u == 8287 || u == 12288
        },
{
}

/// Space before a text does not matter to stripping.
pub proof fn lemma_pad_start(w: Seq<char>, s: Seq<char>)
    requires
        all_white(w),
    ensures
        trim_start(w + s) == trim_start(s),
    decreases w.len(),
{
    if w.len() == 0 {
        assert(w + s =~= s);
    } else {
        assert((w + s).skip(1) =~= w.skip(1) + s);
        assert(is_white((w + s)[0]));
        assert forall|i: int| 0 <= i < w.skip(1).len() implies is_white(
            #[trigger] w.skip(1)[i],
        ) by {
            assert(w.skip(1)[i] == w[i + 1]);
        }
        lemma_pad_start(w.skip(1), s);
    }
}

/// Space behind a text does not matter to stripping.
pub proof fn lemma_pad_end(s: Seq<char>, w: Seq<char>)
    requires
        all_white(w),
    ensures
        trim_end(s + w) == trim_end(s),
    decreases w.len(),
{
    if w.len() == 0 {
        assert(s + w =~= s);
    } else {
        assert((s + w).drop_last() =~= s + w.drop_last());
        assert((s + w).last() == w[w.len() - 1]);
        lemma_pad_end(s, w.drop_last());
    }
}

/// A text of white space has nothing in it.
pub proof fn lemma_all_white(s: Seq<char>)
    requires
        all_white(s),
    ensures
        trim_start(s).len() == 0,
        trimmed(s).len() == 0,
{
    lemma_trim_start(s);
    let t = trim_start(s);
    if t.len() > 0 {
        assert(t[0] == s[s.len() - t.len()]);
    }
}

/// Space around a text does not matter to stripping.
pub proof fn stripping_ignores_space_around(before: Seq<char>, s: Seq<char>, behind: Seq<char>)
    requires
        all_white(before),
        all_white(behind),
    ensures
        trimmed(before + s + behind) == trimmed(s),
{
    assert(before + s + behind =~= before + (s + behind));
    lemma_pad_start(before, s + behind);
    lemma_trim_start(s);
    let lead = s.take(s.len() - trim_start(s).len());
    assert(s =~= lead + trim_start(s));
    assert forall|i: int| 0 <= i < lead.len() implies is_white(#[trigger] lead[i]) by {
        assert(lead[i] == s[i]);
    }
    let t = trim_start(s);
    assert(s + behind =~= lead + (t + behind));
    lemma_pad_start(lead, t + behind);
    if t.len() > 0 {
        assert((t + behind)[0] == t[0]);
        assert(trim_start(t + behind) == t + behind);
        lemma_pad_end(t, behind);
    } else {
        assert(t + behind =~= behind);
        lemma_all_white(behind);
    }
}

/// A text that neither starts nor ends with white space has none to strip.
pub proof fn nothing_to_strip(s: Seq<char>)
    requires
        s.len() > 0,
        !is_white(s[0]),
        !is_white(s[s.len() - 1]),
    ensures
        trimmed(s) == s,
{
}

/// Stripping takes white space from both ends of a text and nothing else, until there is
/// none at either.
pub proof fn stripping_takes_white_space_alone(s: Seq<char>)
    ensures
        exists|before: Seq<char>, behind: Seq<char>|
            all_white(before) && all_white(behind) && s == #[trigger] (before + trimmed(s)
                + behind),
        trimmed(s).len() > 0 ==> !is_white(trimmed(s)[0]) && !is_white(
            trimmed(s)[trimmed(s).len() - 1],
        ),
{
    lemma_trim_start(s);
    let t = trim_start(s);
    let before = s.take(s.len() - t.len());
    lemma_trim_end(t);
    lemma_tail_is_white(t);
    let behind = t.skip(trim_end(t).len() as int);
    assert forall|i: int| 0 <= i < before.len() implies is_white(#[trigger] before[i]) by {
        assert(before[i] == s[i]);
    }
    assert(t =~= trim_end(t) + behind);
    assert(s =~= before + t);
    assert(s =~= before + trimmed(s) + behind);
}

/// What is stripped from the end of a text is white space.
pub proof fn lemma_tail_is_white(s: Seq<char>)
    ensures
        trim_end(s).len() <= s.len(),
        all_white(s.skip(trim_end(s).len() as int)),
    decreases s.len(),
{
    lemma_trim_end(s);
    if s.len() > 0 && is_white(s.last()) {
        lemma_tail_is_white(s.drop_last());
        let tail = s.skip(trim_end(s).len() as int);
        let inner = s.drop_last().skip(trim_end(s).len() as int);
        assert forall|i: int| 0 <= i < tail.len() implies is_white(#[trigger] tail[i]) by {
            if i < inner.len() {
                assert(tail[i] == inner[i]);
            }
        }
    }
}

/// A text is blank exactly where it holds nothing but white space.
pub proof fn blank_is_white_space_alone(s: Seq<char>)
    ensures
        is_blank(s) <==> all_white(s),
{
    if all_white(s) {
        lemma_all_white(s);
    }
    if is_blank(s) {
        stripping_takes_white_space_alone(s);
        let (before, behind) = choose|before: Seq<char>, behind: Seq<char>|
            all_white(before) && all_white(behind) && s == #[trigger] (before + trimmed(s)
                + behind);
        assert forall|i: int| 0 <= i < s.len() implies is_white(#[trigger] s[i]) by {
            if i < before.len() {
                assert(s[i] == before[i]);
            } else {
                assert(s[i] == behind[i - before.len()]);
            }
        }
    }
}

// ---- searching -------------------------------------------------------------------------
/// A text starts with a prefix exactly where it is the prefix and something behind it,
/// which is what is left.
pub proof fn prefix_and_rest_make_up_the_text(s: Seq<char>, prefix: Seq<char>, rest: Seq<char>)
    ensures
        after_prefix(s, prefix) == Some(rest) <==> s == prefix + rest,
{
    if s == prefix + rest {
        assert(s.skip(prefix.len() as int) =~= rest);
        assert(prefix.is_prefix_of(s));
    }
    if after_prefix(s, prefix) == Some(rest) {
        assert(s =~= prefix + rest);
    }
}

/// A pattern is found at the first place at which it stands.
pub proof fn find_is_first(s: Seq<char>, pattern: Seq<char>, at: int)
    requires
        0 <= at,
        at + pattern.len() <= s.len(),
        s.subrange(at, at + pattern.len()) == pattern,
    ensures
        find(s, pattern) is Some,
        find(s, pattern)->0 <= at,
        s.subrange(find(s, pattern)->0 as int, find(s, pattern)->0 as int + pattern.len())
            == pattern,
    decreases s.len(),
{
    crate::text::lemma_find(s, pattern);
    if pattern.is_prefix_of(s) {
        assert(s.subrange(0, pattern.len() as int) =~= pattern);
    } else {
        if at == 0 {
            assert(s.subrange(0, pattern.len() as int) =~= s.take(pattern.len() as int));
            assert(pattern.is_prefix_of(s));
        }
        assert(s.skip(1).subrange(at - 1, at - 1 + pattern.len()) =~= s.subrange(
            at,
            at + pattern.len(),
        ));
        find_is_first(s.skip(1), pattern, at - 1);
        let i = find(s, pattern)->0 as int;
        assert(s.subrange(i, i + pattern.len()) =~= s.skip(1).subrange(
            i - 1,
            i - 1 + pattern.len(),
        ));
    }
}

/// Stripping slashes takes the slashes that a text ends with, all of them and nothing else.
pub proof fn slashes_are_taken_from_the_end(s: Seq<char>)
    ensures
        without_slashes(s).len() <= s.len(),
        without_slashes(s) == s.take(without_slashes(s).len() as int),
        forall|i: int| without_slashes(s).len() <= i < s.len() ==> #[trigger] s[i] == '/',
        without_slashes(s).len() > 0 ==> without_slashes(s).last() != '/',
    decreases s.len(),
{
    if s.len() > 0 && s.last() == '/' {
        let init = s.drop_last();
        slashes_are_taken_from_the_end(init);
        assert(s.take(without_slashes(s).len() as int) =~= init.take(
            without_slashes(s).len() as int,
        ));
        assert forall|i: int| without_slashes(s).len() <= i < s.len() implies #[trigger] s[i]
            == '/' by {
            if i < init.len() {
                assert(s[i] == init[i]);
            }
        }
    } else {
        assert(s.take(s.len() as int) =~= s);
    }
}

// ---- numbers and case ------------------------------------------------------------------
/// The digits of a text are those of its parts, in order.
pub proof fn digits_of_parts(a: Seq<char>, b: Seq<char>)
    ensures
        digits(a + b) == digits(a) + digits(b),
    decreases b.len(),
{
    if b.len() == 0 {
        assert(a + b =~= a);
        assert(digits(a) + digits(b) =~= digits(a));
    } else {
        digits_of_parts(a, b.drop_last());
        assert((a + b).drop_last() =~= a + b.drop_last());
        assert(digits(a + b) =~= digits(a) + digits(b));
    }
}

/// A character is a digit exactly from `0` to `9`.
pub proof fn digits_are_decimal(c: char)
    ensures
        digits(seq![c]) == (if 48 <= c as int <= 57 {
            seq![c]
        } else {
            Seq::empty()
        }),
{
    assert(seq![c].drop_last() =~= Seq::<char>::empty());
    assert(digits(seq![c].drop_last()) =~= Seq::<char>::empty());
    assert(digits(seq![c]) =~= (if 48 <= c as int <= 57 {
        seq![c]
    } else {
        Seq::empty()
    }));
}

/// A row of digits stands for its decimal value: one more digit makes ten times as much and
/// the digit.
pub proof fn decimal_value(s: Seq<char>, c: char)
    requires
        48 <= c as int <= 57,
    ensures
        decimal(Seq::<char>::empty()) == 0,
        decimal(s.push(c)) == 10 * decimal(s) + (c as int - 48),
{
    assert(s.push(c).drop_last() =~= s);
}

/// The number in a text is that of its digits, and only where there are any and it is not
/// too large.
pub proof fn numbers_are_read_from_digits(s: Seq<char>, max: nat, n: nat)
    ensures
        number_in(s, max) == Some(n) <==> digits(s).len() > 0 && decimal(digits(s)) == n && n
            <= max,
        number_in(s, max) is None <==> digits(s).len() == 0 || decimal(digits(s)) > max,
{
}

/// Changing the case of a text changes the letters of ASCII, one for one, and nothing else.
pub proof fn case_changes_letters_alone(s: Seq<char>, i: int)
    requires
        0 <= i < s.len(),
    ensures
        ascii_lower(s).len() == s.len(),
        ascii_upper(s).len() == s.len(),
        ascii_lower(s)[i] as int == (if 65 <= s[i] as int <= 90 {
            s[i] as int + 32
        } else {
            s[i] as int
        }),
        ascii_upper(s)[i] as int == (if 97 <= s[i] as int <= 122 {
            s[i] as int - 32
        } else {
            s[i] as int
        }),
{
}

// ---- lines -----------------------------------------------------------------------------
/// Whether a text holds no newline.
pub open spec fn on_one_line(s: Seq<char>) -> bool {
    forall|i: int| 0 <= i < s.len() ==> #[trigger] s[i] != '\n'
}

proof fn lemma_line_end_of(a: Seq<char>, b: Seq<char>)
    requires
        on_one_line(a),
        b.len() == 0 || b[0] == '\n',
    ensures
        line_end(a + b) == a.len(),
    decreases a.len(),
{
    if a.len() == 0 {
        assert(a + b =~= b);
    } else {
        assert((a + b).skip(1) =~= a.skip(1) + b);
        assert forall|i: int| 0 <= i < a.skip(1).len() implies #[trigger] a.skip(1)[i] != '\n' by {
            assert(a.skip(1)[i] == a[i + 1]);
        }
        lemma_line_end_of(a.skip(1), b);
    }
}

/// A text without a newline is one line, and none where it is empty.
pub proof fn text_without_newline_is_a_line(s: Seq<char>)
    requires
        on_one_line(s),
    ensures
        s.len() == 0 ==> lines(s) == Seq::<Seq<char>>::empty(),
        s.len() > 0 ==> lines(s) == seq![s],
{
    lemma_line_end_of(s, Seq::empty());
    assert(s + Seq::<char>::empty() =~= s);
}

/// A newline ends a line; a carriage return before it is not part of the line.
pub proof fn newline_ends_a_line(line: Seq<char>, rest: Seq<char>)
    requires
        on_one_line(line),
    ensures
        lines(line + seq!['\r', '\n'] + rest) == seq![line] + lines(rest),
        line.len() == 0 || line.last() != '\r' ==> lines(line + seq!['\n'] + rest) == seq![line]
            + lines(rest),
{
    let text = line + seq!['\r', '\n'] + rest;
    let first = line + seq!['\r'];
    assert(text =~= first + (seq!['\n'] + rest));
    assert forall|i: int| 0 <= i < first.len() implies #[trigger] first[i] != '\n' by {
        if i < line.len() {
            assert(first[i] == line[i]);
        }
    }
    lemma_line_end_of(first, seq!['\n'] + rest);
    assert(text.take(first.len() as int) =~= first);
    assert(first.drop_last() =~= line);
    assert(text.skip(first.len() as int + 1) =~= rest);
    if line.len() == 0 || line.last() != '\r' {
        let plain = line + seq!['\n'] + rest;
        assert(plain =~= line + (seq!['\n'] + rest));
        lemma_line_end_of(line, seq!['\n'] + rest);
        assert(plain.take(line.len() as int) =~= line);
        assert(plain.skip(line.len() as int + 1) =~= rest);
    }
}

/// The first line of a text that says something is what stands before the first newline
/// after the white space that the text starts with.
pub proof fn lemma_first_line(before: Seq<char>, line: Seq<char>, rest: Seq<char>)
    requires
        all_white(before),
        on_one_line(line),
        line.len() > 0,
        !is_white(line[0]),
        rest.len() > 0 ==> rest[0] == '\n',
    ensures
        ({
            let all = lines(trimmed(before + line + rest));
            all.len() > 0 && trimmed(all[0]) == trimmed(line)
        }),
{
    assert(before + line + rest =~= before + (line + rest));
    lemma_pad_start(before, line + rest);
    let t = line + rest;
    assert(t[0] == line[0]);
    assert(trim_start(t) == t);
    let whole = trim_end(t);
    lemma_trim_end(t);
    lemma_tail_is_white(t);
    if whole.len() > line.len() {
        let tail = whole.skip(line.len() as int);
        assert(whole =~= line + tail);
        assert(tail[0] == rest[0]);
        lemma_line_end_of(line, tail);
        assert(whole.take(line.len() as int) =~= line);
        if line.last() == '\r' {
            assert(line =~= line.drop_last() + seq!['\r']);
            stripping_ignores_space_around(Seq::empty(), line.drop_last(), seq!['\r']);
            assert(Seq::<char>::empty() + line.drop_last() + seq!['\r'] =~= line);
        }
    } else {
        assert(whole =~= line.take(whole.len() as int));
        assert forall|i: int| 0 <= i < whole.len() implies #[trigger] whole[i] != '\n' by {
            assert(whole[i] == line[i]);
        }
        text_without_newline_is_a_line(whole);
        let cut = line.skip(whole.len() as int);
        assert(line =~= whole + cut);
        assert forall|i: int| 0 <= i < cut.len() implies is_white(#[trigger] cut[i]) by {
            assert(cut[i] == t.skip(whole.len() as int)[i]);
        }
        stripping_ignores_space_around(Seq::empty(), whole, cut);
        assert(Seq::<char>::empty() + whole + cut =~= line);
    }
}

// ---- words -----------------------------------------------------------------------------
proof fn lemma_word_end_of(a: Seq<char>, b: Seq<char>)
    requires
        none_white(a),
        b.len() == 0 || is_white(b[0]),
    ensures
        word_end(a + b) == a.len(),
    decreases a.len(),
{
    if a.len() == 0 {
        assert(a + b =~= b);
    } else {
        assert((a + b).skip(1) =~= a.skip(1) + b);
        assert forall|i: int| 0 <= i < a.skip(1).len() implies !is_white(
            #[trigger] a.skip(1)[i],
        ) by {
            assert(a.skip(1)[i] == a[i + 1]);
        }
        lemma_word_end_of(a.skip(1), b);
    }
}

/// White space before a text adds no word.
proof fn lemma_words_pad(w: Seq<char>, s: Seq<char>)
    requires
        all_white(w),
    ensures
        words(w + s) == words(s),
{
    lemma_pad_start(w, s);
}

/// White space between two texts keeps their words apart.
proof fn lemma_words_apart(a: Seq<char>, w: Seq<char>, b: Seq<char>)
    requires
        all_white(w),
        w.len() > 0,
    ensures
        words(a + w + b) == words(a) + words(b),
    decreases a.len(),
{
    lemma_trim_start(a);
    let t = trim_start(a);
    let lead = a.take(a.len() - t.len());
    assert(a =~= lead + t);
    assert forall|i: int| 0 <= i < lead.len() implies is_white(#[trigger] lead[i]) by {
        assert(lead[i] == a[i]);
    }
    let all = a + w + b;
    if t.len() == 0 {
        assert(all =~= (lead + w) + b);
        assert forall|i: int| 0 <= i < (lead + w).len() implies is_white(
            #[trigger] (lead + w)[i],
        ) by {
            if i < lead.len() {
                assert((lead + w)[i] == lead[i]);
            } else {
                assert((lead + w)[i] == w[i - lead.len()]);
            }
        }
        lemma_words_pad(lead + w, b);
        assert(words(a) + words(b) =~= words(b));
    } else {
        assert(all =~= lead + (t + w + b));
        lemma_pad_start(lead, t + w + b);
        let u = t + w + b;
        assert(u[0] == t[0]);
        assert(trim_start(u) == u);
        lemma_word_end(t);
        let end = word_end(t) as int;
        let word = t.take(end);
        let rest = t.skip(end);
        assert forall|i: int| 0 <= i < word.len() implies !is_white(#[trigger] word[i]) by {
            assert(word[i] == t[i]);
        }
        let behind = rest + w + b;
        assert(u =~= word + behind);
        if rest.len() > 0 {
            assert(behind[0] == t[end]);
        } else {
            assert(behind[0] == w[0]);
        }
        lemma_word_end_of(word, behind);
        assert(u.take(end) =~= word);
        assert(u.skip(end) =~= behind);
        lemma_words_apart(rest, w, b);
        assert(words(all) =~= seq![word] + words(behind));
        assert(words(a) =~= seq![word] + words(rest));
        assert(words(all) =~= words(a) + words(b));
    }
}

proof fn lemma_spaced_parts(a: Seq<Seq<char>>, b: Seq<Seq<char>>)
    requires
        a.len() > 0,
        b.len() > 0,
    ensures
        spaced(a + b) == spaced(a) + seq![' '] + spaced(b),
    decreases a.len(),
{
    assert((a + b)[0] == a[0]);
    assert((a + b).skip(1) =~= a.skip(1) + b);
    if a.len() == 1 {
        assert(a.skip(1) + b =~= b);
    } else {
        lemma_spaced_parts(a.skip(1), b);
        assert(spaced(a + b) =~= spaced(a) + seq![' '] + spaced(b));
    }
}

proof fn lemma_words_of_blank(s: Seq<char>)
    ensures
        words(s).len() == 0 <==> all_white(s),
{
    lemma_trim_start(s);
    if all_white(s) {
        lemma_all_white(s);
    } else if trim_start(s).len() == 0 {
        assert forall|i: int| 0 <= i < s.len() implies is_white(#[trigger] s[i]) by {}
    }
}

/// A text without white space is on one line as it is.
pub proof fn word_is_on_one_line(s: Seq<char>)
    requires
        none_white(s),
    ensures
        one_line(s) == s,
{
    if s.len() > 0 {
        assert(trim_start(s) == s);
        lemma_word_end_of(s, Seq::empty());
        assert(s + Seq::<char>::empty() =~= s);
        assert(s.take(s.len() as int) =~= s);
        assert(s.skip(s.len() as int) =~= Seq::<char>::empty());
        assert(words(Seq::<char>::empty()) =~= Seq::<Seq<char>>::empty());
        assert(words(s) =~= seq![s]);
    } else {
        assert(s =~= Seq::<char>::empty());
    }
}

/// Any white space between two texts becomes one space, and none is left around them.
pub proof fn white_space_becomes_a_space(a: Seq<char>, w: Seq<char>, b: Seq<char>)
    requires
        all_white(w),
        w.len() > 0,
    ensures
        one_line(a + w + b) == (if all_white(a) {
            one_line(b)
        } else if all_white(b) {
            one_line(a)
        } else {
            one_line(a) + seq![' '] + one_line(b)
        }),
        all_white(a) ==> one_line(a) == Seq::<char>::empty(),
{
    lemma_words_apart(a, w, b);
    lemma_words_of_blank(a);
    lemma_words_of_blank(b);
    if words(a).len() == 0 {
        assert(words(a) + words(b) =~= words(b));
    } else if words(b).len() == 0 {
        assert(words(a) + words(b) =~= words(a));
    } else {
        lemma_spaced_parts(words(a), words(b));
    }
}

/// A text cut to a number of bytes is its longest beginning of no more bytes.
pub proof fn cut_is_the_longest_beginning(s: Seq<char>, cap: nat, other: nat)
    requires
        other <= s.len(),
        vstd::utf8::encode_utf8(s.take(other as int)).len() <= cap,
    ensures
        fitting(s, cap) == s.take(fitting(s, cap).len() as int),
        vstd::utf8::encode_utf8(fitting(s, cap)).len() <= cap,
        other <= fitting(s, cap).len() <= s.len(),
{
    crate::text::fitting_is_longest(s, cap);
    crate::text::byte_len_counts_utf8(fitting(s, cap));
    crate::text::byte_len_counts_utf8(s.take(other as int));
    let n = fitting(s, cap).len() as int;
    if n < other {
        lemma_bytes_grow(s, n, n + 1);
        lemma_bytes_grow(s, n + 1, other as int);
        lemma_bytes_push(s.take(n), s[n]);
        assert(s.take(n).push(s[n]) =~= s.take(n + 1));
    }
}

proof fn lemma_bytes_push(s: Seq<char>, c: char)
    ensures
        byte_len(s.push(c)) == byte_len(s) + crate::text::width(c),
    decreases s.len(),
{
    if s.len() == 0 {
        assert(s.push(c).skip(1) =~= Seq::<char>::empty());
        assert(byte_len(s.push(c).skip(1)) == 0);
    } else {
        assert(s.push(c).skip(1) =~= s.skip(1).push(c));
        assert(s.push(c)[0] == s[0]);
        lemma_bytes_push(s.skip(1), c);
    }
}

proof fn lemma_bytes_grow(s: Seq<char>, from: int, to: int)
    requires
        0 <= from <= to <= s.len(),
    ensures
        byte_len(s.take(from)) <= byte_len(s.take(to)),
    decreases to - from,
{
    if from < to {
        lemma_bytes_grow(s, from, to - 1);
        lemma_bytes_push(s.take(to - 1), s[to - 1]);
        assert(s.take(to - 1).push(s[to - 1]) =~= s.take(to));
    }
}

} // verus!
