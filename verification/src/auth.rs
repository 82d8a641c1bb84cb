//! Admission by a shared secret, and the settings of the process.
use vstd::prelude::*;
use vstd::utf8::encode_utf8_decode_utf8;

use crate::detection::{DEFAULT_GATEWAY_URL, DEFAULT_JUDGE_MODEL};
use crate::engine::filled;
use crate::text::{
    after_prefix, chars_of, digits, is_digit, number_in, read_number, str_text, string_between,
    strip_prefix, text_of, trim, trimmed,
};

verus! {

/// The port listened on where none is set.
pub const DEFAULT_PORT: u16 = 7991;

// ---- admission -------------------------------------------------------------------------
/// Whether two slices hold the same bytes. Every byte is looked at, whether or not an
/// earlier one differs, so that the time taken tells nothing of where they differ.
pub fn ct_eq(a: &[u8], b: &[u8]) -> (r: bool)
    ensures
        r == (a@ == b@),
{
    if a.len() != b.len() {
        return false;
    }
    let n: usize = a.len();
    let mut diff: u8 = 0;
    let mut i: usize = 0;
    assert(a@.take(0) == b@.take(0));
    while i < n
        invariant
            n == a@.len(),
            n == b@.len(),
            i <= n,
            diff == 0 <==> a@.take(i as int) == b@.take(i as int),
        decreases n - i,
    {
        let x: u8 = a[i];
        let y: u8 = b[i];
        let known: u8 = diff;
        diff = known | (x ^ y);
        assert((known | (x ^ y)) == 0 <==> known == 0 && x == y) by (bit_vector);
        proof {
            let (before_a, before_b) = (a@.take(i as int), b@.take(i as int));
            let (after_a, after_b) = (a@.take(i + 1), b@.take(i + 1));
            assert(after_a == before_a.push(x));
            assert(after_b == before_b.push(y));
            if after_a == after_b {
                assert(before_a == after_a.drop_last());
                assert(before_b == after_b.drop_last());
                assert(after_a.last() == x && after_b.last() == y);
            }
        }
        i = i + 1;
    }
    assert(a@.take(n as int) == a@);
    assert(b@.take(n as int) == b@);
    diff == 0
}

/// Whether a token is admitted: one is expected, it is not empty, and it is the one
/// provided.
pub open spec fn is_admitted(provided: Option<Seq<char>>, expected: Option<Seq<char>>) -> bool {
    expected is Some && expected->0.len() > 0 && provided == expected
}

/// Whether the provided token is the expected one. Without an expected token, or with
/// an empty one, nothing is admitted.
pub fn bearer_ok(provided: Option<&str>, expected: Option<&str>) -> (r: bool)
    ensures
        r == is_admitted(str_text(provided), str_text(expected)),
{
    match expected {
        Some(token) => {
            if token.is_empty() {
                return false;
            }
            let given: &str = match provided {
                Some(p) => p,
                None => "",
            };
            proof {
                encode_utf8_decode_utf8(given@);
                encode_utf8_decode_utf8(token@);
                reveal_strlit("");
            }
            ct_eq(given.as_bytes(), token.as_bytes())
        },
        None => false,
    }
}

/// The token of an `Authorization` header.
pub open spec fn bearer_token(header: Option<Seq<char>>) -> Option<Seq<char>> {
    match header {
        Some(h) => after_prefix(h, "Bearer "@),
        None => None,
    }
}

/// Whether a request with the given `Authorization` header may pass.
pub fn admits(header: Option<&str>, expected: Option<&str>) -> (r: bool)
    ensures
        r == is_admitted(bearer_token(str_text(header)), str_text(expected)),
{
    match header {
        Some(h) => match strip_prefix(h, "Bearer ") {
            Some(token) => bearer_ok(Some(token.as_str()), expected),
            None => bearer_ok(None, expected),
        },
        None => bearer_ok(None, expected),
    }
}

/// Without a token to expect, no request passes.
pub proof fn nothing_is_admitted_without_a_token(header: Option<Seq<char>>, expected: Option<Seq<char>>)
    requires
        expected is None || expected->0.len() == 0,
    ensures
        !is_admitted(bearer_token(header), expected),
{
}

/// With a token to expect, exactly the header that presents it passes.
pub proof fn only_the_token_is_admitted(header: Seq<char>, token: Seq<char>)
    requires
        token.len() > 0,
    ensures
        is_admitted(bearer_token(Some(header)), Some(token)) <==> header == "Bearer "@ + token,
{
    let prefix = "Bearer "@;
    if prefix.is_prefix_of(header) {
        assert(header == prefix + header.skip(prefix.len() as int));
    }
    if header == prefix + token {
        assert(header.skip(prefix.len() as int) == token);
    }
}

// ---- settings --------------------------------------------------------------------------
/// The token to expect: what is set, without space around it, where something is left.
pub open spec fn expected_token(value: Option<Seq<char>>) -> Option<Seq<char>> {
    match value {
        Some(v) => filled(Some(trimmed(v))),
        None => None,
    }
}

/// The token to expect.
pub fn token_from(value: Option<&str>) -> (r: Option<String>)
    ensures
        text_of(r) == expected_token(str_text(value)),
{
    match value {
        Some(v) => {
            let token = trim(v);
            if token.is_empty() {
                None
            } else {
                Some(token.to_owned())
            }
        },
        None => None,
    }
}

/// The digits of a number that may start with a plus sign.
pub open spec fn unsigned_part(s: Seq<char>) -> Seq<char> {
    if s.len() > 0 && s[0] == '+' {
        s.skip(1)
    } else {
        s
    }
}

/// Whether a text is made of digits alone.
pub open spec fn all_digits(s: Seq<char>) -> bool {
    forall|i: int| 0 <= i < s.len() ==> is_digit(#[trigger] s[i])
}

/// The port that a text names: decimal digits, with or without a plus sign before
/// them, and no more than a port can be.
pub open spec fn port_in(s: Seq<char>) -> Option<nat> {
    let number = unsigned_part(s);
    if all_digits(number) {
        number_in(number, 65535)
    } else {
        None
    }
}

/// The port to listen on: the one that is set, where that is a port, else the default.
pub open spec fn chosen_port(value: Option<Seq<char>>) -> nat {
    match value {
        Some(v) => match port_in(trimmed(v)) {
            Some(port) => port,
            None => DEFAULT_PORT as nat,
        },
        None => DEFAULT_PORT as nat,
    }
}

/// Whether a text is made of digits alone.
fn only_digits(text: &str) -> (r: bool)
    ensures
        r == all_digits(text@),
{
    for c in it: text.chars()
        invariant
            it.seq() == text@,
            forall|i: int| 0 <= i < it.index() ==> is_digit(#[trigger] text@[i]),
    {
        if c < '0' || '9' < c {
            assert(!is_digit(text@[it.index()]));
            return false;
        }
    }
    true
}

/// The port to listen on.
pub fn port_from(value: Option<&str>) -> (r: u16)
    ensures
        r == chosen_port(str_text(value)),
{
    match value {
        Some(v) => {
            let text = trim(v);
            let chars = chars_of(text);
            let from: usize = if chars.len() > 0 && chars[0] == '+' {
                1
            } else {
                0
            };
            let number = string_between(&chars, from, chars.len());
            assert(number@ == unsigned_part(text@));
            if only_digits(number.as_str()) {
                match read_number(number.as_str(), 65535) {
                    Some(port) => port as u16,
                    None => DEFAULT_PORT,
                }
            } else {
                DEFAULT_PORT
            }
        },
        None => DEFAULT_PORT,
    }
}

/// A value that is set and not empty, else the given one.
pub open spec fn set_or(value: Option<Seq<char>>, fallback: Seq<char>) -> Seq<char> {
    match filled(value) {
        Some(v) => v,
        None => fallback,
    }
}

/// The gateway's address: what `RYU_GATEWAY_URL` names, else the local gateway.
pub fn gateway_url_from(value: Option<&str>) -> (r: String)
    ensures
        r@ == set_or(str_text(value), DEFAULT_GATEWAY_URL@),
{
    match value {
        Some(v) => if v.is_empty() {
            DEFAULT_GATEWAY_URL.to_owned()
        } else {
            v.to_owned()
        },
        None => DEFAULT_GATEWAY_URL.to_owned(),
    }
}

/// The gateway's token: what `RYU_GATEWAY_TOKEN` holds, and none where it holds nothing.
pub fn gateway_token_from(value: Option<&str>) -> (r: Option<String>)
    ensures
        text_of(r) == filled(str_text(value)),
{
    match value {
        Some(v) => if v.is_empty() {
            None
        } else {
            Some(v.to_owned())
        },
        None => None,
    }
}

/// The judge model of last resort: what `RYU_DEFAULT_LLM_MODEL` names, else the
/// bundled one.
pub fn default_model_from(value: Option<&str>) -> (r: String)
    ensures
        r@ == set_or(str_text(value), DEFAULT_JUDGE_MODEL@),
{
    match value {
        Some(v) => if v.is_empty() {
            DEFAULT_JUDGE_MODEL.to_owned()
        } else {
            v.to_owned()
        },
        None => DEFAULT_JUDGE_MODEL.to_owned(),
    }
}

} // verus!
