//! What holds of the settings: where they come from, and which of them wins.
use vstd::prelude::*;

use crate::api::{
    bad_interval, config_reply, config_writes, BodyView, PrefWriteView, ReplyView,
};
use crate::auth::{
    bearer_token, chosen_port, expected_token, is_admitted, set_or, DEFAULT_PORT,
};
use crate::clock::{snooze_over, Moment};
use crate::context::{CONTEXT_MINUTES, MAX_EVIDENCE_BYTES, SEARCH_LIMIT};
use crate::detection::{
    mode_in, mode_name, DetectionMode, DEFAULT_GATEWAY_URL, DEFAULT_JUDGE_MODEL,
    DETECTION_INTERVAL_PREF, DETECTION_MODE_PREF, JUDGE_EFFORT_PREF, JUDGE_MODEL_PREF,
};
use crate::engine::{
    chosen_effort, chosen_interval, chosen_model, filled, is_quest_id, pref, QuestEngine,
    SCRATCHPAD_PREF,
};
use crate::interval::{is_duration, is_interval, spans_total, DEFAULT_INTERVAL, DURATION_END};
use crate::judge::{CONFIDENCE_FLOOR, HIGH_CONFIDENCE, JUDGE_TIMEOUT_SECS};
use crate::operations::DISMISS_SNOOZE_SECS;
use crate::prefs::{pairs_map, prefs_in, string_map};
use crate::text::{ascii_lower, decimal, digits, is_digit, is_white, text_of, trimmed};
use crate::text_laws::{
    all_white, blank_is_white_space_alone, nothing_to_strip, stripping_ignores_space_around,
};
use crate::verdict::SNIPPET_MAX;

verus! {

// ---- bounds and names ------------------------------------------------------------------
/// The bounds of the library, and the names under which its settings are kept.
pub proof fn bounds_and_names_are_fixed()
    ensures
        CONFIDENCE_FLOOR == 50,
        HIGH_CONFIDENCE == 85,
        JUDGE_TIMEOUT_SECS == 60,
        DISMISS_SNOOZE_SECS == 3600,
        SNIPPET_MAX == 280,
        MAX_EVIDENCE_BYTES == 4000,
        CONTEXT_MINUTES == 15,
        SEARCH_LIMIT == 5,
        DEFAULT_PORT == 7991,
        DURATION_END == 0x1_0000_0000_0000_0000 * 1_000_000_000,
        DEFAULT_INTERVAL@ == "2m"@,
        DETECTION_MODE_PREF@ == "quest-detection-mode"@,
        JUDGE_MODEL_PREF@ == "quest-judge-model"@,
        JUDGE_EFFORT_PREF@ == "quest-judge-effort"@,
        DETECTION_INTERVAL_PREF@ == "quest-detection-interval"@,
        SCRATCHPAD_PREF@ == "quest-scratchpad"@,
        DEFAULT_JUDGE_MODEL@ == "gemma-4-E2B-it-Q4_K_M"@,
        DEFAULT_GATEWAY_URL@ == "http://127.0.0.1:7981"@,
{
}

/// Modes are written by these names.
pub proof fn modes_have_names()
    ensures
        mode_name(DetectionMode::Off) == "off"@,
        mode_name(DetectionMode::Suggest) == "suggest"@,
        mode_name(DetectionMode::AutoHigh) == "auto_high"@,
        mode_name(DetectionMode::AutoAll) == "auto_all"@,
{
}

/// A preference names a mode whatever its case and the space around it, and one that names
/// none stands for suggesting.
pub proof fn unknown_modes_suggest(before: Seq<char>, name: Seq<char>, behind: Seq<char>)
    requires
        all_white(before),
        all_white(behind),
        name.len() > 0 ==> !is_white(name[0]) && !is_white(name.last()),
    ensures
        ({
            let mode = mode_in(before + name + behind);
            let low = ascii_lower(name);
            &&& mode is Off <==> low == "off"@
            &&& mode is AutoHigh <==> low == "auto_high"@ || low == "auto-high"@
            &&& mode is AutoAll <==> low == "auto_all"@ || low == "auto-all"@
            &&& mode is Suggest <==> low != "off"@ && low != "auto_high"@ && low != "auto-high"@
                && low != "auto_all"@ && low != "auto-all"@
        }),
{
    stripping_ignores_space_around(before, name, behind);
    if name.len() > 0 {
        nothing_to_strip(name);
    }
    crate::detection::modes_are_named_exactly(before + name + behind);
}

// ---- which setting wins ----------------------------------------------------------------
/// A text is an interval exactly where it is a duration whose spans stay below 2^64 seconds.
pub proof fn intervals_are_durations(text: Seq<char>)
    ensures
        is_interval(text) <==> is_duration(text) && spans_total(text)
            < 0x1_0000_0000_0000_0000 * 1_000_000_000,
{
}

/// The interval is the preference, without space around it, where that is one; else the
/// variable as it is, where that is one; else two minutes.
pub proof fn intervals_are_chosen_in_order(
    preference: Option<Seq<char>>,
    variable: Option<Seq<char>>,
)
    ensures
        ({
            let preferred = preference is Some && !all_white(preference->0) && is_interval(
                trimmed(preference->0),
            );
            let named = variable is Some && is_interval(variable->0);
            &&& preferred ==> chosen_interval(preference, variable) == trimmed(preference->0)
            &&& !preferred && named ==> chosen_interval(preference, variable) == variable->0
            &&& !preferred && !named ==> chosen_interval(preference, variable) == "2m"@
        }),
{
    if preference is Some {
        blank_is_white_space_alone(preference->0);
    }
}

/// The judge model is the preference, without space around it, where that says something;
/// else the first of two variables that is not empty, as it is; else the default.
pub proof fn models_are_chosen_in_order(
    preference: Option<Seq<char>>,
    first: Option<Seq<char>>,
    second: Option<Seq<char>>,
    default_model: Seq<char>,
)
    ensures
        ({
            let model = chosen_model(preference, first, second, default_model);
            let preferred = preference is Some && !all_white(preference->0);
            let one = first is Some && first->0.len() > 0;
            let two = second is Some && second->0.len() > 0;
            &&& preferred ==> model == trimmed(preference->0)
            &&& !preferred && one ==> model == first->0
            &&& !preferred && !one && two ==> model == second->0
            &&& !preferred && !one && !two ==> model == default_model
        }),
{
    if preference is Some {
        blank_is_white_space_alone(preference->0);
    }
}

/// The effort is the preference, without space around it, where that says something; else
/// the variable as it is; else empty.
pub proof fn efforts_are_chosen_in_order(
    preference: Option<Seq<char>>,
    variable: Option<Seq<char>>,
)
    ensures
        ({
            let preferred = preference is Some && !all_white(preference->0);
            &&& preferred ==> chosen_effort(preference, variable) == trimmed(preference->0)
            &&& !preferred && variable is Some ==> chosen_effort(preference, variable)
                == variable->0
            &&& !preferred && variable is None ==> chosen_effort(preference, variable)
                == Seq::<char>::empty()
        }),
{
    if preference is Some {
        blank_is_white_space_alone(preference->0);
    }
}

/// The engine goes by the preference of each name, and by the variables of its environment;
/// without a mode it completes on sure verdicts.
pub proof fn engine_goes_by_its_settings(engine: QuestEngine)
    ensures
        ({
            let prefs = engine.prefs@;
            let environment = engine.environment;
            &&& prefs.contains_key("quest-detection-mode"@) ==> engine.mode() == mode_in(
                prefs["quest-detection-mode"@],
            )
            &&& !prefs.contains_key("quest-detection-mode"@) ==> engine.mode() is AutoHigh
            &&& engine.interval() == chosen_interval(
                pref(prefs, "quest-detection-interval"@),
                text_of(environment.quest_interval),
            )
            &&& engine.judge_model() == chosen_model(
                pref(prefs, "quest-judge-model"@),
                text_of(environment.quest_judge_model),
                text_of(environment.default_llm_model),
                engine.default_model@,
            )
            &&& engine.judge_effort() == chosen_effort(
                pref(prefs, "quest-judge-effort"@),
                text_of(environment.quest_judge_effort),
            )
            &&& prefs.contains_key("quest-scratchpad"@) ==> engine.scratch()
                == prefs["quest-scratchpad"@]
            &&& !prefs.contains_key("quest-scratchpad"@) ==> engine.scratch()
                == Seq::<char>::empty()
        }),
{
}

/// A preference has the value that it was last given, and giving one a value leaves the
/// others.
pub proof fn preferences_are_read_back(
    prefs: Map<Seq<char>, Seq<char>>,
    key: Seq<char>,
    value: Seq<char>,
    other: Seq<char>,
)
    ensures
        pref(prefs.insert(key, value), key) == Some(value),
        other != key ==> pref(prefs.insert(key, value), other) == pref(prefs, other),
        pref(prefs, key) is Some <==> prefs.contains_key(key),
        pref(Map::empty(), key) is None,
{
}

/// Of a list of pairs the last one with a key gives its value.
pub proof fn last_pair_gives_the_value(pairs: Seq<(String, String)>, pair: (String, String))
    ensures
        pairs_map(Seq::empty()) == Map::<Seq<char>, Seq<char>>::empty(),
        pairs_map(pairs.push(pair)) == pairs_map(pairs).insert(pair.0@, pair.1@),
{
    assert(pairs.push(pair).drop_last() =~= pairs);
}

/// Bytes that hold no map of strings hold no preferences, and others hold that map.
pub proof fn preferences_are_a_map_of_strings(bytes: Seq<u8>)
    ensures
        string_map(bytes) is None ==> prefs_in(bytes) == Map::<Seq<char>, Seq<char>>::empty(),
        string_map(bytes) is Some ==> string_map(bytes) == Some(prefs_in(bytes)),
{
}

// ---- setting the knobs -----------------------------------------------------------------
/// Each knob is written by itself, in this order: the mode, the model, the effort and the
/// interval. What is written for one does not depend on the others.
pub proof fn knobs_are_written_one_by_one(
    mode: Option<Seq<char>>,
    model: Option<Seq<char>>,
    effort: Option<Seq<char>>,
    interval: Option<Seq<char>>,
)
    ensures
        config_writes(mode, model, effort, interval) == config_writes(mode, None, None, None)
            + config_writes(None, model, None, None) + config_writes(None, None, effort, None)
            + config_writes(None, None, None, interval),
        config_writes(None, None, None, None) == Seq::<PrefWriteView>::empty(),
{
    let none = Seq::<PrefWriteView>::empty();
    assert(config_writes(mode, model, effort, interval) =~= config_writes(mode, None, None, None)
        + config_writes(None, model, None, None) + config_writes(None, None, effort, None)
        + config_writes(None, None, None, interval));
    assert(config_writes(None, None, None, None) =~= none);
}

/// A knob that is given is written under its key: a mode by its name, and it must be
/// written; anything else without space around it, as well as can be. An interval is
/// written exactly where it is empty but for white space or an interval, and is refused
/// otherwise, with what was given.
pub proof fn knobs_are_written_as_given(value: Seq<char>)
    ensures
        config_writes(Some(value), None, None, None) == seq![
            PrefWriteView {
                key: "quest-detection-mode"@,
                value: mode_name(mode_in(value)),
                required: true,
            },
        ],
        config_writes(None, Some(value), None, None) == seq![
            PrefWriteView { key: "quest-judge-model"@, value: trimmed(value), required: false },
        ],
        config_writes(None, None, Some(value), None) == seq![
            PrefWriteView { key: "quest-judge-effort"@, value: trimmed(value), required: false },
        ],
        all_white(value) || is_interval(trimmed(value)) ==> config_writes(
            None,
            None,
            None,
            Some(value),
        ) == seq![
            PrefWriteView {
                key: "quest-detection-interval"@,
                value: trimmed(value),
                required: false,
            },
        ] && config_reply(Some(value)) == (ReplyView { status: 200, body: BodyView::Done }),
        !all_white(value) && !is_interval(trimmed(value)) ==> config_writes(
            None,
            None,
            None,
            Some(value),
        ) == Seq::<PrefWriteView>::empty() && config_reply(Some(value)) == (ReplyView {
            status: 400,
            body: BodyView::Error(
                "interval '"@ + trimmed(value) + "' is not a valid duration (e.g. 2m)"@,
            ),
        }),
        config_reply(None) == (ReplyView { status: 200, body: BodyView::Done }),
        bad_interval(value) == "interval '"@ + trimmed(value)
            + "' is not a valid duration (e.g. 2m)"@,
{
    blank_is_white_space_alone(value);
    let mode = PrefWriteView {
        key: "quest-detection-mode"@,
        value: mode_name(mode_in(value)),
        required: true,
    };
    let model = PrefWriteView {
        key: "quest-judge-model"@,
        value: trimmed(value),
        required: false,
    };
    let effort = PrefWriteView {
        key: "quest-judge-effort"@,
        value: trimmed(value),
        required: false,
    };
    let interval = PrefWriteView {
        key: "quest-detection-interval"@,
        value: trimmed(value),
        required: false,
    };
    assert(config_writes(Some(value), None, None, None) =~= seq![mode]);
    assert(config_writes(None, Some(value), None, None) =~= seq![model]);
    assert(config_writes(None, None, Some(value), None) =~= seq![effort]);
    if all_white(value) || is_interval(trimmed(value)) {
        assert(config_writes(None, None, None, Some(value)) =~= seq![interval]);
    } else {
        assert(config_writes(None, None, None, Some(value)) =~= Seq::empty());
    }
}

// ---- the process -----------------------------------------------------------------------
/// The token to expect is what is set, without space around it, and there is none where
/// nothing but white space is.
pub proof fn tokens_are_stripped(value: Seq<char>)
    ensures
        expected_token(None) is None,
        all_white(value) ==> expected_token(Some(value)) is None,
        !all_white(value) ==> expected_token(Some(value)) == Some(trimmed(value)),
{
    blank_is_white_space_alone(value);
}

/// A request without a header, or whose header does not start with `Bearer` and a space, is
/// never admitted, whatever token is expected.
pub proof fn only_bearers_are_admitted(header: Seq<char>, expected: Option<Seq<char>>)
    ensures
        !is_admitted(bearer_token(None), expected),
        !"Bearer "@.is_prefix_of(header) ==> !is_admitted(bearer_token(Some(header)), expected),
{
}

/// A provided token is admitted exactly where one is expected, is not empty, and is the
/// same.
pub proof fn tokens_are_admitted_if_equal(provided: Seq<char>, expected: Seq<char>)
    ensures
        is_admitted(Some(provided), Some(expected)) <==> provided == expected && provided.len() > 0,
        !is_admitted(None, Some(expected)),
        !is_admitted(Some(provided), None),
        !is_admitted(None, None),
{
}

/// Whether a text is the number of a port: decimal digits that make up no more than 65535.
pub open spec fn is_port(number: Seq<char>) -> bool {
    &&& number.len() > 0
    &&& forall|i: int| 0 <= i < number.len() ==> '0' <= #[trigger] number[i] <= '9'
    &&& decimal(number) <= 65535
}

/// The port is the one that is set, with or without a plus sign before it and with any space
/// around it, and 7991 where none is set or what is set is none.
pub proof fn ports_are_read_or_defaulted(
    before: Seq<char>,
    text: Seq<char>,
    behind: Seq<char>,
)
    requires
        all_white(before),
        all_white(behind),
        text.len() > 0 ==> !is_white(text[0]) && !is_white(text.last()),
    ensures
        chosen_port(None) == 7991,
        is_port(text) ==> chosen_port(Some(before + text + behind)) == decimal(text),
        text.len() > 0 && text[0] == '+' && is_port(text.skip(1)) ==> chosen_port(
            Some(before + text + behind),
        ) == decimal(text.skip(1)),
        !is_port(text) && !(text.len() > 0 && text[0] == '+' && is_port(text.skip(1)))
            ==> chosen_port(Some(before + text + behind)) == 7991,
{
    stripping_ignores_space_around(before, text, behind);
    if text.len() > 0 {
        nothing_to_strip(text);
        lemma_only_digits(text);
        lemma_only_digits(text.skip(1));
        if text[0] == '+' {
            assert(!is_port(text));
        }
    } else {
        assert(text =~= Seq::<char>::empty());
    }
}

proof fn lemma_only_digits(s: Seq<char>)
    ensures
        (forall|i: int| 0 <= i < s.len() ==> is_digit(#[trigger] s[i])) ==> digits(s) == s,
    decreases s.len(),
{
    if s.len() == 0 {
        assert(s =~= Seq::<char>::empty());
    } else if forall|i: int| 0 <= i < s.len() ==> is_digit(#[trigger] s[i]) {
        let init = s.drop_last();
        assert forall|i: int| 0 <= i < init.len() implies is_digit(#[trigger] init[i]) by {
            assert(init[i] == s[i]);
        }
        lemma_only_digits(init);
        assert(is_digit(s[s.len() - 1]));
        assert(digits(s) =~= s);
    }
}

/// A variable that is set and not empty counts as it is, and gives way to the fallback
/// otherwise.
pub proof fn empty_variables_give_way(value: Seq<char>, fallback: Seq<char>)
    ensures
        set_or(None, fallback) == fallback,
        value.len() > 0 ==> set_or(Some(value), fallback) == value,
        value.len() == 0 ==> set_or(Some(value), fallback) == fallback,
        filled(None) is None,
        value.len() > 0 ==> filled(Some(value)) == Some(value),
        value.len() == 0 ==> filled(Some(value)) is None,
{
}

/// The id of a quest is `quest_` and 32 hexadecimal digits, its letters in lower case.
pub proof fn ids_are_hexadecimal(id: Seq<char>)
    ensures
        is_quest_id(id) <==> {
            &&& id.len() == 38
            &&& id.take(6) == "quest_"@
            &&& forall|i: int|
                6 <= i < 38 ==> 48 <= (#[trigger] id[i]) as int <= 57 || 97 <= id[i] as int <= 102
        },
{
    reveal_strlit("quest_");
    assert("quest_"@.len() == 6);
    if is_quest_id(id) {
        let tail = choose|tail: Seq<char>|
            tail.len() == 32 && (forall|i: int|
                0 <= i < 32 ==> crate::engine::is_hex(#[trigger] tail[i])) && id == #[trigger] (
            "quest_"@ + tail);
        assert(id.take(6) =~= "quest_"@);
        assert forall|i: int| 6 <= i < 38 implies 48 <= (#[trigger] id[i]) as int <= 57 || 97
            <= id[i] as int <= 102 by {
            assert(crate::engine::is_hex(tail[i - 6]));
        }
    }
    if id.len() == 38 && id.take(6) == "quest_"@ && (forall|i: int|
        6 <= i < 38 ==> 48 <= (#[trigger] id[i]) as int <= 57 || 97 <= id[i] as int <= 102) {
        let tail = id.skip(6);
        assert(id =~= "quest_"@ + tail);
        assert forall|i: int| 0 <= i < 32 implies crate::engine::is_hex(#[trigger] tail[i]) by {
            assert(tail[i] == id[i + 6]);
        }
    }
}

// ---- time ------------------------------------------------------------------------------
/// A moment some seconds later has the same fraction, and is no later than the last that a
/// timestamp can name.
pub proof fn later_moments_are_bounded(moment: Moment, seconds: u32)
    requires
        moment.in_range(),
    ensures
        ({
            let later = moment.later(seconds as int);
            &&& later.in_range()
            &&& later.nanos == moment.nanos
            &&& moment.secs + seconds <= 8_210_266_876_799 ==> later.secs == moment.secs + seconds
            &&& moment.secs + seconds > 8_210_266_876_799 ==> later.secs == 8_210_266_876_799
        }),
{
}

/// A snooze is over from the moment at which it ends on, and at once where its end is
/// unknown; once over it stays over.
pub proof fn snoozes_end_for_good(until: (i64, u32), now: Moment, later: Moment)
    ensures
        snooze_over(None, now),
        snooze_over(Some(until), now) <==> now.secs > until.0 || (now.secs == until.0 && now.nanos
            >= until.1),
        snooze_over(Some(until), now) && (later.secs > now.secs || (later.secs == now.secs
            && later.nanos >= now.nanos)) ==> snooze_over(Some(until), later),
{
}

} // verus!
