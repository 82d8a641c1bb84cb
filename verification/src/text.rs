//! Text as sequences of characters: white space, case, lines, words, and the
//! number of bytes that a text takes in UTF-8.
use vstd::prelude::*;
use vstd::string::*;
use vstd::utf8::*;

verus! {

// ---- characters ------------------------------------------------------------
/// Whether a character has the Unicode property White_Space.
pub open spec fn is_white(c: char) -> bool {
    ||| '\u{9}' <= c <= '\u{d}'
    ||| c == ' '
    ||| c == '\u{85}'
    ||| c == '\u{a0}'
    ||| c == '\u{1680}'
    ||| '\u{2000}' <= c <= '\u{200a}'
    ||| c == '\u{2028}'
    ||| c == '\u{2029}'
    ||| c == '\u{202f}'
    ||| c == '\u{205f}'
    ||| c == '\u{3000}'
}

/// Tests a character for the Unicode property White_Space.
pub fn white(c: char) -> (r: bool)
    ensures
        r == is_white(c),
{
    ('\u{9}' <= c && c <= '\u{d}') || c == ' ' || c == '\u{85}' || c == '\u{a0}' || c == '\u{1680}'
        || ('\u{2000}' <= c && c <= '\u{200a}') || c == '\u{2028}' || c == '\u{2029}' || c
        == '\u{202f}' || c == '\u{205f}' || c == '\u{3000}'
}

/// The number of bytes of a character in UTF-8.
pub open spec fn width(c: char) -> nat {
    if (c as u32) < 0x80 {
        1
    } else if (c as u32) < 0x800 {
        2
    } else if (c as u32) < 0x10000 {
        3
    } else {
        4
    }
}

/// Counts the bytes of a character in UTF-8.
pub fn char_width(c: char) -> (r: u8)
    ensures
        r == width(c),
        1 <= r <= 4,
{
    let v: u32 = c as u32;
    if v < 0x80 {
        1
    } else if v < 0x800 {
        2
    } else if v < 0x10000 {
        3
    } else {
        4
    }
}

// ---- strings and their characters ------------------------------------------
/// `String::push` appends the character at the end of the string.
pub assume_specification[ String::push ](s: &mut String, ch: char)
    ensures
        final(s)@ == old(s)@.push(ch),
;

/// The texts that a sequence of strings holds.
pub open spec fn texts(strings: Seq<String>) -> Seq<Seq<char>> {
    strings.map_values(|s: String| s@)
}

/// The text of an optional string.
pub open spec fn text_of(s: Option<String>) -> Option<Seq<char>> {
    match s {
        Some(t) => Some(t@),
        None => None,
    }
}

/// The text of an optional string slice.
pub open spec fn str_text(s: Option<&str>) -> Option<Seq<char>> {
    match s {
        Some(t) => Some(t@),
        None => None,
    }
}

/// The characters of a string, in order.
pub fn chars_of(s: &str) -> (r: Vec<char>)
    ensures
        r@ == s@,
{
    let mut out: Vec<char> = Vec::new();
    for c in it: s.chars()
        invariant
            out@ == s@.take(it.index()),
            it.seq() == s@,
    {
        out.push(c);
    }
    assert(s@.take(s@.len() as int) == s@);
    out
}

/// The string that holds the characters `chars[from..to]`.
pub fn string_between(chars: &Vec<char>, from: usize, to: usize) -> (r: String)
    requires
        from <= to <= chars@.len(),
    ensures
        r@ == chars@.subrange(from as int, to as int),
{
    let mut out = String::new();
    let mut i: usize = from;
    while i < to
        invariant
            from <= i <= to <= chars@.len(),
            out@ == chars@.subrange(from as int, i as int),
        decreases to - i,
    {
        out.push(chars[i]);
        i = i + 1;
    }
    out
}

/// Whether two strings hold the same text.
pub fn same(a: &str, b: &str) -> (r: bool)
    ensures
        r == (a@ == b@),
{
    a.to_owned() == b.to_owned()
}

/// Clones an optional string.
pub fn copy_of(s: &Option<String>) -> (r: Option<String>)
    ensures
        text_of(r) == text_of(*s),
{
    match s {
        Some(t) => Some(t.clone()),
        None => None,
    }
}

/// The concatenation of two strings.
pub fn concat2(a: &str, b: &str) -> (r: String)
    ensures
        r@ == a@ + b@,
{
    let mut out = a.to_owned();
    out.append(b);
    out
}

/// The concatenation of three strings.
pub fn concat3(a: &str, b: &str, c: &str) -> (r: String)
    ensures
        r@ == a@ + b@ + c@,
{
    let mut out = a.to_owned();
    out.append(b);
    out.append(c);
    out
}

// ---- white space -----------------------------------------------------------
/// The text without its leading white space.
pub open spec fn trim_start(s: Seq<char>) -> Seq<char>
    decreases s.len(),
{
    if s.len() > 0 && is_white(s[0]) {
        trim_start(s.skip(1))
    } else {
        s
    }
}

/// The text without its trailing white space.
pub open spec fn trim_end(s: Seq<char>) -> Seq<char>
    decreases s.len(),
{
    if s.len() > 0 && is_white(s.last()) {
        trim_end(s.drop_last())
    } else {
        s
    }
}

/// The text without leading and trailing white space.
pub open spec fn trimmed(s: Seq<char>) -> Seq<char> {
    trim_end(trim_start(s))
}

/// Whether a text holds nothing but white space.
pub open spec fn is_blank(s: Seq<char>) -> bool {
    trimmed(s).len() == 0
}

/// Strips leading and trailing white space.
pub fn trim(s: &str) -> (r: &str)
    ensures
        r@ == trimmed(s@),
{
    let chars = chars_of(s);
    let n: usize = chars.len();
    let mut from: usize = 0;
    assert(s@.skip(0) == s@);
    while from < n && white(chars[from])
        invariant
            n == s@.len(),
            chars@ == s@,
            from <= n,
            trim_start(s@.skip(from as int)) == trim_start(s@),
        decreases n - from,
    {
        assert(s@.skip(from as int).skip(1) == s@.skip(from + 1));
        from = from + 1;
    }
    let mut to: usize = n;
    assert(s@.subrange(from as int, n as int) == s@.skip(from as int));
    while to > from && white(chars[to - 1])
        invariant
            n == s@.len(),
            chars@ == s@,
            from <= to <= n,
            trim_end(s@.subrange(from as int, to as int)) == trimmed(s@),
        decreases to,
    {
        assert(s@.subrange(from as int, to as int).drop_last() == s@.subrange(
            from as int,
            to - 1,
        ));
        to = to - 1;
    }
    s.substring_char(from, to)
}

/// Strips leading and trailing white space into a string of its own.
pub fn trim_owned(s: &str) -> (r: String)
    ensures
        r@ == trimmed(s@),
{
    trim(s).to_owned()
}

/// Whether a string holds nothing but white space.
pub fn blank(s: &str) -> (r: bool)
    ensures
        r == is_blank(s@),
{
    trim(s).is_empty()
}

/// The index of the first white-space character, or the length if there is none.
pub open spec fn word_end(s: Seq<char>) -> nat
    decreases s.len(),
{
    if s.len() == 0 || is_white(s[0]) {
        0
    } else {
        1 + word_end(s.skip(1))
    }
}

/// The words of a text: its longest runs without white space.
pub open spec fn words(s: Seq<char>) -> Seq<Seq<char>>
    decreases s.len(),
    via words_decreases
{
    let t = trim_start(s);
    if t.len() == 0 {
        Seq::empty()
    } else {
        seq![t.take(word_end(t) as int)] + words(t.skip(word_end(t) as int))
    }
}

#[via_fn]
proof fn words_decreases(s: Seq<char>) {
    lemma_trim_start(s);
    lemma_word_end(trim_start(s));
}

/// The words, one space between each two.
pub open spec fn spaced(words: Seq<Seq<char>>) -> Seq<char>
    decreases words.len(),
{
    if words.len() == 0 {
        Seq::empty()
    } else if words.len() == 1 {
        words[0]
    } else {
        words[0] + seq![' '] + spaced(words.skip(1))
    }
}

/// The text on one line: its words, one space between each two.
pub open spec fn one_line(s: Seq<char>) -> Seq<char> {
    spaced(words(s))
}

/// Stripping leading white space takes exactly the white characters before the first
/// that is not.
pub proof fn lemma_trim_start(s: Seq<char>)
    ensures
        trim_start(s).len() <= s.len(),
        trim_start(s) == s.skip(s.len() - trim_start(s).len()),
        trim_start(s).len() > 0 ==> !is_white(trim_start(s)[0]),
        forall|i: int| 0 <= i < s.len() - trim_start(s).len() ==> is_white(#[trigger] s[i]),
    decreases s.len(),
{
    if s.len() > 0 && is_white(s[0]) {
        lemma_trim_start(s.skip(1));
        assert forall|i: int| 0 <= i < s.len() - trim_start(s).len() implies is_white(
            #[trigger] s[i],
        ) by {
            if i > 0 {
                assert(s.skip(1)[i - 1] == s[i]);
            }
        }
        assert(s.skip(1).skip(s.skip(1).len() - trim_start(s).len()) == s.skip(
            s.len() - trim_start(s).len(),
        ));
    } else {
        assert(s.skip(0) == s);
    }
}

/// Stripping trailing white space keeps a beginning of the text that does not end in
/// white space, and keeps a first character that is not white.
pub proof fn lemma_trim_end(s: Seq<char>)
    ensures
        trim_end(s).is_prefix_of(s),
        trim_end(s).len() > 0 ==> !is_white(trim_end(s).last()),
        s.len() > 0 && !is_white(s[0]) ==> trim_end(s).len() > 0,
    decreases s.len(),
{
    if s.len() > 0 && is_white(s.last()) {
        lemma_trim_end(s.drop_last());
    }
}

/// A text without white space around it has none to strip.
pub proof fn trimmed_is_stable(s: Seq<char>)
    ensures
        trimmed(trimmed(s)) == trimmed(s),
{
    lemma_trim_start(s);
    lemma_trim_end(trim_start(s));
}

/// A text that starts with a character that is not white is not blank.
pub proof fn lemma_not_blank(s: Seq<char>)
    requires
        s.len() > 0,
        !is_white(s[0]),
    ensures
        !is_blank(s),
        trimmed(s)[0] == s[0],
{
    lemma_trim_end(s);
}

/// A word ends at the first white character.
pub proof fn lemma_word_end(s: Seq<char>)
    ensures
        word_end(s) <= s.len(),
        s.len() > 0 && !is_white(s[0]) ==> word_end(s) > 0,
        word_end(s) < s.len() ==> is_white(s[word_end(s) as int]),
        forall|i: int| 0 <= i < word_end(s) ==> !is_white(#[trigger] s[i]),
    decreases s.len(),
{
    if s.len() == 0 || is_white(s[0]) {
    } else {
        lemma_word_end(s.skip(1));
        assert forall|i: int| 0 <= i < word_end(s) implies !is_white(#[trigger] s[i]) by {
            if i > 0 {
                assert(s.skip(1)[i - 1] == s[i]);
            }
        }
    }
}

proof fn lemma_words_white(s: Seq<char>)
    requires
        s.len() > 0,
        is_white(s[0]),
    ensures
        words(s) == words(s.skip(1)),
{
}

proof fn lemma_words_word(s: Seq<char>)
    requires
        s.len() > 0,
        !is_white(s[0]),
    ensures
        words(s) == seq![s.take(word_end(s) as int)] + words(s.skip(word_end(s) as int)),
{
}

proof fn lemma_spaced_first(word: Seq<char>, rest: Seq<Seq<char>>)
    ensures
        spaced(seq![word] + rest) == word + (if rest.len() > 0 {
            seq![' '] + spaced(rest)
        } else {
            Seq::empty()
        }),
{
    let all = seq![word] + rest;
    assert(all.skip(1) == rest);
    if rest.len() == 0 {
        assert(spaced(all) == word + Seq::<char>::empty());
    } else {
        assert(word + seq![' '] + spaced(rest) == word + (seq![' '] + spaced(rest)));
    }
}

/// Puts a text on one line: its words, one space between each two.
pub fn squeeze(s: &str) -> (r: String)
    ensures
        r@ == one_line(s@),
{
    let chars = chars_of(s);
    let n: usize = chars.len();
    let mut out = String::new();
    let mut started: bool = false;
    let mut i: usize = 0;
    assert(s@.skip(0) == s@);
    assert(one_line(s@) == Seq::<char>::empty() + one_line(s@));
    while i < n
        invariant
            n == s@.len(),
            chars@ == s@,
            i <= n,
            one_line(s@) == out@ + (if started && words(s@.skip(i as int)).len() > 0 {
                seq![' '] + one_line(s@.skip(i as int))
            } else {
                one_line(s@.skip(i as int))
            }),
        decreases n - i,
    {
        let ghost rest = s@.skip(i as int);
        if white(chars[i]) {
            proof {
                lemma_words_white(rest);
                assert(rest.skip(1) == s@.skip(i + 1));
            }
            i = i + 1;
        } else {
            let mut j: usize = i;
            while j < n && !white(chars[j])
                invariant
                    n == s@.len(),
                    chars@ == s@,
                    i <= j <= n,
                    word_end(s@.skip(i as int)) == j - i + word_end(s@.skip(j as int)),
                decreases n - j,
            {
                assert(s@.skip(j as int).skip(1) == s@.skip(j + 1));
                j = j + 1;
            }
            let word = string_between(&chars, i, j);
            let ghost before = out@;
            proof {
                lemma_words_word(rest);
                assert(word_end(s@.skip(j as int)) == 0);
                assert(word_end(rest) == j - i);
                assert(rest.take(j - i) == word@);
                assert(rest.skip(j - i) == s@.skip(j as int));
                lemma_spaced_first(word@, words(s@.skip(j as int)));
            }
            if started {
                out.push(' ');
            }
            out.append(word.as_str());
            proof {
                lemma_word_end(rest);
                let tail = if words(s@.skip(j as int)).len() > 0 {
                    seq![' '] + one_line(s@.skip(j as int))
                } else {
                    one_line(s@.skip(j as int))
                };
                assert(one_line(rest) == word@ + tail);
                if started {
                    assert(one_line(s@) == before + (seq![' '] + (word@ + tail)));
                    assert(before + (seq![' '] + (word@ + tail)) == (before.push(' ') + word@)
                        + tail);
                } else {
                    assert(before + (word@ + tail) == (before + word@) + tail);
                }
            }
            started = true;
            i = j;
        }
    }
    assert(s@.skip(i as int) == Seq::<char>::empty());
    assert(one_line(s@) == out@ + Seq::<char>::empty());
    out
}

// ---- lines -----------------------------------------------------------------
/// The index of the first newline, or the length if there is none.
pub open spec fn line_end(s: Seq<char>) -> nat
    decreases s.len(),
{
    if s.len() == 0 || s[0] == '\n' {
        0
    } else {
        1 + line_end(s.skip(1))
    }
}

/// The text without the carriage return that it may end with.
pub open spec fn without_return(s: Seq<char>) -> Seq<char> {
    if s.len() > 0 && s.last() == '\r' {
        s.drop_last()
    } else {
        s
    }
}

/// The lines of a text. A line ends at a newline, at a carriage return followed
/// by a newline, or at the end of the text; what ends it is not part of it.
pub open spec fn lines(s: Seq<char>) -> Seq<Seq<char>>
    decreases s.len(),
    via lines_decreases
{
    if s.len() == 0 {
        Seq::empty()
    } else if line_end(s) == s.len() {
        seq![s]
    } else {
        seq![without_return(s.take(line_end(s) as int))] + lines(s.skip(line_end(s) as int + 1))
    }
}

#[via_fn]
proof fn lines_decreases(s: Seq<char>) {
    lemma_line_end(s);
}

/// A line ends at the first newline.
pub proof fn lemma_line_end(s: Seq<char>)
    ensures
        line_end(s) <= s.len(),
        line_end(s) < s.len() ==> s[line_end(s) as int] == '\n',
        forall|i: int| 0 <= i < line_end(s) ==> #[trigger] s[i] != '\n',
    decreases s.len(),
{
    if s.len() == 0 || s[0] == '\n' {
    } else {
        lemma_line_end(s.skip(1));
        assert forall|i: int| 0 <= i < line_end(s) implies #[trigger] s[i] != '\n' by {
            if i > 0 {
                assert(s.skip(1)[i - 1] == s[i]);
            }
        }
    }
}

/// Splits a text into its lines.
pub fn split_lines(s: &str) -> (r: Vec<String>)
    ensures
        texts(r@) == lines(s@),
{
    let chars = chars_of(s);
    let n: usize = chars.len();
    let mut out: Vec<String> = Vec::new();
    let mut i: usize = 0;
    assert(s@.skip(0) == s@);
    assert(texts(out@) + lines(s@) == lines(s@));
    while i < n
        invariant
            n == s@.len(),
            chars@ == s@,
            i <= n,
            lines(s@) == texts(out@) + lines(s@.skip(i as int)),
        decreases n - i,
    {
        let ghost rest = s@.skip(i as int);
        let mut j: usize = i;
        while j < n && chars[j] != '\n'
            invariant
                n == s@.len(),
                chars@ == s@,
                i <= j <= n,
                line_end(s@.skip(i as int)) == j - i + line_end(s@.skip(j as int)),
            decreases n - j,
        {
            assert(s@.skip(j as int).skip(1) == s@.skip(j + 1));
            j = j + 1;
        }
        assert(line_end(rest) == j - i);
        let ghost before = texts(out@);
        if j == n {
            out.push(string_between(&chars, i, n));
            assert(s@.subrange(i as int, n as int) == rest);
            assert(texts(out@) == before.push(rest));
            assert(before + seq![rest] == before.push(rest));
            assert(s@.skip(n as int) == Seq::<char>::empty());
            assert(texts(out@) + Seq::<Seq<char>>::empty() == texts(out@));
            i = n;
        } else {
            let to: usize = if j > i && chars[j - 1] == '\r' {
                j - 1
            } else {
                j
            };
            out.push(string_between(&chars, i, to));
            let ghost line = without_return(rest.take(j - i));
            assert(s@.subrange(i as int, to as int) == line);
            assert(texts(out@) == before.push(line));
            assert(rest.skip(j - i + 1) == s@.skip(j + 1));
            assert(before + (seq![line] + lines(s@.skip(j + 1))) == before.push(line) + lines(
                s@.skip(j + 1),
            ));
            i = j + 1;
        }
    }
    assert(s@.skip(i as int) == Seq::<char>::empty());
    assert(texts(out@) + Seq::<Seq<char>>::empty() == texts(out@));
    out
}

// ---- bytes -----------------------------------------------------------------
/// The number of bytes that a text takes in UTF-8.
pub open spec fn byte_len(s: Seq<char>) -> nat
    decreases s.len(),
{
    if s.len() == 0 {
        0
    } else {
        width(s[0]) + byte_len(s.skip(1))
    }
}

/// The longest prefix of a text that takes at most `cap` bytes.
pub open spec fn fitting(s: Seq<char>, cap: nat) -> Seq<char>
    decreases s.len(),
{
    if s.len() == 0 || cap < width(s[0]) {
        Seq::empty()
    } else {
        seq![s[0]] + fitting(s.skip(1), (cap - width(s[0])) as nat)
    }
}

/// `byte_len` is the length of the UTF-8 encoding.
pub proof fn byte_len_counts_utf8(s: Seq<char>)
    ensures
        byte_len(s) == encode_utf8(s).len(),
    decreases s.len(),
{
    if s.len() > 0 {
        byte_len_counts_utf8(s.skip(1));
        assert(s.skip(1) == s.drop_first());
        char_is_scalar(s[0]);
    }
}

/// The longest prefix within a cap is a prefix, keeps to the cap, is the whole
/// text where the text keeps to it, and cannot be extended by the next character.
pub proof fn fitting_is_longest(s: Seq<char>, cap: nat)
    ensures
        fitting(s, cap).len() <= s.len(),
        fitting(s, cap) == s.take(fitting(s, cap).len() as int),
        byte_len(fitting(s, cap)) <= cap,
        byte_len(s) <= cap ==> fitting(s, cap) == s,
        fitting(s, cap).len() < s.len() ==> byte_len(fitting(s, cap)) + width(
            s[fitting(s, cap).len() as int],
        ) > cap,
    decreases s.len(),
{
    if s.len() == 0 || cap < width(s[0]) {
        assert(s.take(0) == Seq::<char>::empty());
        if s.len() == 0 {
            assert(s == Seq::<char>::empty());
        }
    } else {
        let rest = (cap - width(s[0])) as nat;
        fitting_is_longest(s.skip(1), rest);
        let inner = fitting(s.skip(1), rest);
        let whole = fitting(s, cap);
        assert(whole.skip(1) == inner);
        assert(whole == s.take(whole.len() as int));
        if byte_len(s) <= cap {
            assert(whole == s);
        }
    }
}

/// Counts the bytes that characters take in UTF-8.
pub fn count_bytes(chars: &Vec<char>) -> (r: u128)
    ensures
        r == byte_len(chars@),
        r <= 4 * chars@.len(),
{
    let n: usize = chars.len();
    let mut total: u128 = 0;
    let mut i: usize = n;
    assert(chars@.skip(i as int) == Seq::<char>::empty());
    while i > 0
        invariant
            n == chars@.len(),
            i <= n,
            total == byte_len(chars@.skip(i as int)),
            total <= 4 * (n - i),
        decreases i,
    {
        assert(chars@.skip(i - 1).skip(1) == chars@.skip(i as int));
        total = total + char_width(chars[i - 1]) as u128;
        i = i - 1;
    }
    assert(chars@.skip(0) == chars@);
    total
}

/// Cuts a text down to at most `cap` bytes, between two characters.
pub fn cut(s: &str, cap: u32) -> (r: String)
    ensures
        r@ == fitting(s@, cap as nat),
{
    let chars = chars_of(s);
    let n: usize = chars.len();
    let mut out = String::new();
    let mut left: u32 = cap;
    let mut i: usize = 0;
    assert(s@.skip(0) == s@);
    assert(Seq::<char>::empty() + fitting(s@, cap as nat) == fitting(s@, cap as nat));
    while i < n && char_width(chars[i]) as u32 <= left
        invariant
            n == s@.len(),
            chars@ == s@,
            i <= n,
            fitting(s@, cap as nat) == out@ + fitting(s@.skip(i as int), left as nat),
        decreases n - i,
    {
        let ghost before = out@;
        let ghost rest = s@.skip(i as int);
        left = left - char_width(chars[i]) as u32;
        out.push(chars[i]);
        proof {
            assert(rest.skip(1) == s@.skip(i + 1));
            let tail = fitting(s@.skip(i + 1), left as nat);
            assert(before + (seq![rest[0]] + tail) == before.push(rest[0]) + tail);
        }
        i = i + 1;
    }
    assert(out@ + Seq::<char>::empty() == out@);
    out
}

// ---- searching -------------------------------------------------------------
/// The text after a prefix, if the text starts with it.
pub open spec fn after_prefix(s: Seq<char>, prefix: Seq<char>) -> Option<Seq<char>> {
    if prefix.is_prefix_of(s) {
        Some(s.skip(prefix.len() as int))
    } else {
        None
    }
}

/// The index of the first place at which a pattern occurs.
pub open spec fn find(s: Seq<char>, pattern: Seq<char>) -> Option<nat>
    decreases s.len(),
{
    if pattern.is_prefix_of(s) {
        Some(0)
    } else if s.len() == 0 {
        None
    } else {
        match find(s.skip(1), pattern) {
            Some(i) => Some(i + 1),
            None => None,
        }
    }
}

/// Where a pattern is found, it stands.
pub proof fn lemma_find(s: Seq<char>, pattern: Seq<char>)
    ensures
        find(s, pattern) is Some ==> find(s, pattern)->0 + pattern.len() <= s.len(),
        find(s, pattern) is Some ==> pattern.is_prefix_of(s.skip(find(s, pattern)->0 as int)),
    decreases s.len(),
{
    if pattern.is_prefix_of(s) {
        assert(s.skip(0) == s);
    } else if s.len() > 0 {
        lemma_find(s.skip(1), pattern);
        if find(s.skip(1), pattern) is Some {
            let at = find(s.skip(1), pattern)->0 as int;
            assert(s.skip(1).skip(at) == s.skip(at + 1));
        }
    }
}

/// The text without the slashes that it ends with.
pub open spec fn without_slashes(s: Seq<char>) -> Seq<char>
    decreases s.len(),
{
    if s.len() > 0 && s.last() == '/' {
        without_slashes(s.drop_last())
    } else {
        s
    }
}

/// Whether `pattern` occurs in `chars` at index `at`.
fn occurs_at(chars: &Vec<char>, at: usize, pattern: &Vec<char>) -> (r: bool)
    requires
        at <= chars@.len(),
    ensures
        r == pattern@.is_prefix_of(chars@.skip(at as int)),
{
    let size: usize = chars.len();
    let n: usize = pattern.len();
    if n > size - at {
        return false;
    }
    let ghost found = chars@.skip(at as int).subrange(0, n as int);
    let mut i: usize = 0;
    while i < n
        invariant
            size == chars@.len(),
            n == pattern@.len(),
            n <= size - at,
            i <= n,
            found == chars@.skip(at as int).subrange(0, n as int),
            forall|k: int| 0 <= k < i ==> pattern@[k] == #[trigger] found[k],
        decreases n - i,
    {
        assert(found[i as int] == chars@[at + i]);
        if chars[at + i] != pattern[i] {
            return false;
        }
        i = i + 1;
    }
    assert(found == pattern@);
    true
}

/// Whether a string starts with a prefix.
pub fn has_prefix(s: &str, prefix: &str) -> (r: bool)
    ensures
        r == prefix@.is_prefix_of(s@),
{
    assert(s@.skip(0) == s@);
    occurs_at(&chars_of(s), 0, &chars_of(prefix))
}

/// The text after a prefix, if the string starts with it.
pub fn strip_prefix(s: &str, prefix: &str) -> (r: Option<String>)
    ensures
        text_of(r) == after_prefix(s@, prefix@),
{
    let chars = chars_of(s);
    let start = chars_of(prefix);
    assert(s@.skip(0) == s@);
    if occurs_at(&chars, 0, &start) {
        assert(s@.subrange(prefix@.len() as int, s@.len() as int) == s@.skip(prefix@.len() as int));
        Some(string_between(&chars, start.len(), chars.len()))
    } else {
        None
    }
}

/// The index of the first place at which a pattern occurs.
pub fn find_in(s: &str, pattern: &str) -> (r: Option<usize>)
    ensures
        match r {
            Some(i) => i <= s@.len() && find(s@, pattern@) == Some(i as nat),
            None => find(s@, pattern@) is None,
        },
{
    let chars = chars_of(s);
    let wanted = chars_of(pattern);
    let n: usize = chars.len();
    let mut i: usize = 0;
    assert(s@.skip(0) == s@);
    loop
        invariant
            n == s@.len(),
            chars@ == s@,
            wanted@ == pattern@,
            i <= n,
            find(s@, pattern@) == (match find(s@.skip(i as int), pattern@) {
                Some(k) => Some(k + i as nat),
                None => None,
            }),
        decreases n - i,
    {
        if occurs_at(&chars, i, &wanted) {
            return Some(i);
        }
        if i == n {
            return None;
        }
        assert(s@.skip(i as int).skip(1) == s@.skip(i + 1));
        i = i + 1;
    }
}

/// Strips the slashes that a string ends with.
pub fn strip_slashes(s: &str) -> (r: &str)
    ensures
        r@ == without_slashes(s@),
{
    let chars = chars_of(s);
    let mut to: usize = chars.len();
    assert(s@.take(to as int) == s@);
    while to > 0 && chars[to - 1] == '/'
        invariant
            chars@ == s@,
            to <= s@.len(),
            without_slashes(s@.take(to as int)) == without_slashes(s@),
        decreases to,
    {
        assert(s@.take(to as int).drop_last() == s@.take(to - 1));
        to = to - 1;
    }
    s.substring_char(0, to)
}

// ---- numbers ---------------------------------------------------------------
/// Whether a character is a decimal digit of ASCII.
pub open spec fn is_digit(c: char) -> bool {
    '0' <= c <= '9'
}

/// The decimal digits of a text, in order, without what stands between them.
pub open spec fn digits(s: Seq<char>) -> Seq<char>
    decreases s.len(),
{
    if s.len() == 0 {
        Seq::empty()
    } else if is_digit(s.last()) {
        digits(s.drop_last()).push(s.last())
    } else {
        digits(s.drop_last())
    }
}

/// The number that a row of decimal digits stands for.
pub open spec fn decimal(s: Seq<char>) -> nat
    decreases s.len(),
{
    if s.len() == 0 {
        0
    } else {
        (decimal(s.drop_last()) * 10 + (s.last() as int - '0' as int)) as nat
    }
}

/// The number that the decimal digits of a text make up, if there is a digit and
/// the number is at most `max`.
pub open spec fn number_in(s: Seq<char>, max: nat) -> Option<nat> {
    if digits(s).len() > 0 && decimal(digits(s)) <= max {
        Some(decimal(digits(s)))
    } else {
        None
    }
}

/// The number that the decimal digits of a text make up, if there is a digit and
/// the number is at most `max`.
pub fn read_number(s: &str, max: u32) -> (r: Option<u32>)
    ensures
        match r {
            Some(n) => number_in(s@, max as nat) == Some(n as nat),
            None => number_in(s@, max as nat) is None,
        },
{
    let chars = chars_of(s);
    let mut seen: bool = false;
    let mut over: bool = false;
    let mut value: u64 = 0;
    let mut i: usize = 0;
    while i < chars.len()
        invariant
            chars@ == s@,
            i <= s@.len(),
            seen == (digits(s@.take(i as int)).len() > 0),
            over ==> decimal(digits(s@.take(i as int))) > max,
            !over ==> value == decimal(digits(s@.take(i as int))),
            !over ==> value <= max,
        decreases s@.len() - i,
    {
        let c: char = chars[i];
        assert(s@.take(i + 1).drop_last() == s@.take(i as int));
        if '0' <= c && c <= '9' {
            let ghost before = digits(s@.take(i as int));
            assert(before.push(c).drop_last() == before);
            seen = true;
            if !over {
                value = value * 10 + (c as u64 - '0' as u64);
                if value > max as u64 {
                    over = true;
                }
            }
        }
        i = i + 1;
    }
    assert(s@.take(s@.len() as int) == s@);
    if seen && !over {
        Some(value as u32)
    } else {
        None
    }
}

// ---- case ------------------------------------------------------------------
/// The lower-case form of a letter of ASCII, and any other character itself.
pub open spec fn ascii_lower_char(c: char) -> char {
    if 'A' <= c <= 'Z' {
        ((c as u8) + 32) as u8 as char
    } else {
        c
    }
}

/// The upper-case form of a letter of ASCII, and any other character itself.
pub open spec fn ascii_upper_char(c: char) -> char {
    if 'a' <= c <= 'z' {
        ((c as u8) - 32) as u8 as char
    } else {
        c
    }
}

/// A text with its letters of ASCII in lower case.
pub open spec fn ascii_lower(s: Seq<char>) -> Seq<char> {
    s.map_values(|c: char| ascii_lower_char(c))
}

/// A text with its letters of ASCII in upper case.
pub open spec fn ascii_upper(s: Seq<char>) -> Seq<char> {
    s.map_values(|c: char| ascii_upper_char(c))
}

/// Puts the letters of ASCII into lower case.
pub fn lower(s: &str) -> (r: String)
    ensures
        r@ == ascii_lower(s@),
{
    let mut out = String::new();
    assert(out@ == Seq::<char>::empty());
    for c in it: s.chars()
        invariant
            it.seq() == s@,
            out@ == ascii_lower(s@.take(it.index())),
    {
        let ghost at = it.index();
        let ghost before = out@;
        let low: char = if 'A' <= c && c <= 'Z' {
            (c as u8 + 32) as char
        } else {
            c
        };
        out.push(low);
        assert(ascii_lower(s@.take(at + 1)) =~= before.push(ascii_lower_char(s@[at])));
    }
    assert(s@.take(s@.len() as int) == s@);
    out
}

/// White space is the same in either case.
pub proof fn case_keeps_trimming(s: Seq<char>)
    ensures
        trimmed(ascii_lower(s)) == ascii_lower(trimmed(s)),
        trimmed(ascii_upper(s)) == ascii_upper(trimmed(s)),
{
    lemma_case_start(s);
    lemma_case_end(trim_start(s));
}

proof fn lemma_case_start(s: Seq<char>)
    ensures
        trim_start(ascii_lower(s)) == ascii_lower(trim_start(s)),
        trim_start(ascii_upper(s)) == ascii_upper(trim_start(s)),
    decreases s.len(),
{
    if s.len() > 0 && is_white(s[0]) {
        lemma_case_start(s.skip(1));
        assert(ascii_lower(s).skip(1) =~= ascii_lower(s.skip(1)));
        assert(ascii_upper(s).skip(1) =~= ascii_upper(s.skip(1)));
    }
}

proof fn lemma_case_end(s: Seq<char>)
    ensures
        trim_end(ascii_lower(s)) == ascii_lower(trim_end(s)),
        trim_end(ascii_upper(s)) == ascii_upper(trim_end(s)),
    decreases s.len(),
{
    if s.len() > 0 && is_white(s.last()) {
        lemma_case_end(s.drop_last());
        assert(ascii_lower(s).drop_last() =~= ascii_lower(s.drop_last()));
        assert(ascii_upper(s).drop_last() =~= ascii_upper(s.drop_last()));
    }
}

} // verus!
