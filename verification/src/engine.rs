//! The quest runtime: its settings, and the ids it gives out.
use vstd::prelude::*;

use crate::detection::{
    mode_in, DetectionMode, DETECTION_INTERVAL_PREF, DETECTION_MODE_PREF, JUDGE_EFFORT_PREF,
    JUDGE_MODEL_PREF,
};
use crate::interval::{is_interval, valid_interval, DEFAULT_INTERVAL};
use crate::prefs::Prefs;
use crate::text::{concat2, text_of, trim_owned, trimmed};

verus! {

/// Preference key: the scratchpad.
pub const SCRATCHPAD_PREF: &'static str = "quest-scratchpad";

/// The variables of the environment that the settings fall back to.
#[derive(Debug, PartialEq, Eq)]
pub struct Environment {
    /// `RYU_QUEST_INTERVAL`.
    pub quest_interval: Option<String>,
    /// `RYU_QUEST_JUDGE_MODEL`.
    pub quest_judge_model: Option<String>,
    /// `RYU_DEFAULT_LLM_MODEL`.
    pub default_llm_model: Option<String>,
    /// `RYU_QUEST_JUDGE_EFFORT`.
    pub quest_judge_effort: Option<String>,
}

/// Where the judge is asked.
#[derive(Debug, PartialEq, Eq)]
pub struct Gateway {
    /// The base address.
    pub url: String,
    /// The bearer token, if one is configured.
    pub token: Option<String>,
}

/// The quest runtime: the preferences, the environment and the gateway that it acts on.
#[derive(Debug)]
pub struct QuestEngine {
    pub prefs: Prefs,
    pub environment: Environment,
    /// The judge model where neither names one.
    pub default_model: String,
    pub gateway: Gateway,
}

// ---- settings ----------------------------------------------------------------------
/// The value of a preference.
pub open spec fn pref(prefs: Map<Seq<char>, Seq<char>>, key: Seq<char>) -> Option<Seq<char>> {
    if prefs.contains_key(key) {
        Some(prefs[key])
    } else {
        None
    }
}

/// A value that is not empty.
pub open spec fn filled(value: Option<Seq<char>>) -> Option<Seq<char>> {
    match value {
        Some(v) if v.len() > 0 => Some(v),
        _ => None,
    }
}

/// A preference without space around it, where something is left of it.
pub open spec fn set_pref(value: Option<Seq<char>>) -> Option<Seq<char>> {
    match value {
        Some(v) => filled(Some(trimmed(v))),
        None => None,
    }
}

/// The interval: the preference where it is one, else the variable where it is one,
/// else the default.
pub open spec fn chosen_interval(
    preference: Option<Seq<char>>,
    variable: Option<Seq<char>>,
) -> Seq<char> {
    match set_pref(preference) {
        Some(t) if is_interval(t) => t,
        _ => match variable {
            Some(v) if is_interval(v) => v,
            _ => DEFAULT_INTERVAL@,
        },
    }
}

/// The judge model: the preference, else the first variable that is not empty, else
/// the default.
pub open spec fn chosen_model(
    preference: Option<Seq<char>>,
    first: Option<Seq<char>>,
    second: Option<Seq<char>>,
    default_model: Seq<char>,
) -> Seq<char> {
    match set_pref(preference) {
        Some(t) => t,
        None => match filled(first) {
            Some(v) => v,
            None => match filled(second) {
                Some(v) => v,
                None => default_model,
            },
        },
    }
}

/// The reasoning effort: the preference, else the variable, else empty.
pub open spec fn chosen_effort(
    preference: Option<Seq<char>>,
    variable: Option<Seq<char>>,
) -> Seq<char> {
    match set_pref(preference) {
        Some(t) => t,
        None => match variable {
            Some(v) => v,
            None => Seq::empty(),
        },
    }
}

/// A preference without space around it, where something is left of it.
fn trimmed_pref(value: Option<String>) -> (r: Option<String>)
    ensures
        text_of(r) == set_pref(text_of(value)),
{
    match value {
        Some(v) => {
            let t = trim_owned(v.as_str());
            if t.as_str().is_empty() {
                None
            } else {
                Some(t)
            }
        },
        None => None,
    }
}

/// The default interval, which is one like any other.
fn default_interval() -> (r: String)
    ensures
        r@ == DEFAULT_INTERVAL@,
        is_interval(r@),
{
    let known = valid_interval(DEFAULT_INTERVAL);
    assert(known);
    DEFAULT_INTERVAL.to_owned()
}

/// A variable that is not empty.
fn filled_variable(value: &Option<String>) -> (r: Option<String>)
    ensures
        text_of(r) == filled(text_of(*value)),
{
    match value {
        Some(v) => if v.as_str().is_empty() {
            None
        } else {
            Some(v.clone())
        },
        None => None,
    }
}

impl QuestEngine {
    /// An engine with the given settings.
    pub fn new(
        prefs: Prefs,
        environment: Environment,
        default_model: String,
        gateway: Gateway,
    ) -> (r: QuestEngine)
        ensures
            r.prefs@ == prefs@,
            r.environment == environment,
            r.default_model == default_model,
            r.gateway == gateway,
    {
        QuestEngine { prefs, environment, default_model, gateway }
    }

    /// The mode that the settings name.
    pub open spec fn mode(self) -> DetectionMode {
        match pref(self.prefs@, DETECTION_MODE_PREF@) {
            Some(v) => mode_in(v),
            None => DetectionMode::AutoHigh,
        }
    }

    /// The interval that the settings name.
    pub open spec fn interval(self) -> Seq<char> {
        chosen_interval(
            pref(self.prefs@, DETECTION_INTERVAL_PREF@),
            text_of(self.environment.quest_interval),
        )
    }

    /// The judge model that the settings name.
    pub open spec fn judge_model(self) -> Seq<char> {
        chosen_model(
            pref(self.prefs@, JUDGE_MODEL_PREF@),
            text_of(self.environment.quest_judge_model),
            text_of(self.environment.default_llm_model),
            self.default_model@,
        )
    }

    /// The reasoning effort that the settings name.
    pub open spec fn judge_effort(self) -> Seq<char> {
        chosen_effort(
            pref(self.prefs@, JUDGE_EFFORT_PREF@),
            text_of(self.environment.quest_judge_effort),
        )
    }

    /// Reads a preference.
    pub fn pref_get(&self, key: &str) -> (r: Option<String>)
        ensures
            text_of(r) == pref(self.prefs@, key@),
    {
        self.prefs.get(key)
    }

    /// Writes a preference.
    pub fn pref_set(&mut self, key: &str, value: &str)
        ensures
            final(self).prefs@ == old(self).prefs@.insert(key@, value@),
            final(self).environment == old(self).environment,
            final(self).default_model == old(self).default_model,
            final(self).gateway == old(self).gateway,
    {
        self.prefs = self.prefs.clone().set(key, value);
    }

    /// The active detection mode (preference, else the default).
    pub fn detection_mode(&self) -> (r: DetectionMode)
        ensures
            r == self.mode(),
    {
        match self.pref_get(DETECTION_MODE_PREF) {
            Some(v) => DetectionMode::from_pref(v.as_str()),
            None => DetectionMode::default(),
        }
    }

    /// The detection interval: preference, else `RYU_QUEST_INTERVAL`, else default.
    pub fn resolve_interval(&self) -> (r: String)
        ensures
            r@ == self.interval(),
            is_interval(r@),
    {
        if let Some(t) = trimmed_pref(self.pref_get(DETECTION_INTERVAL_PREF)) {
            if valid_interval(t.as_str()) {
                return t;
            }
        }
        match &self.environment.quest_interval {
            Some(v) => if valid_interval(v.as_str()) {
                v.clone()
            } else {
                default_interval()
            },
            None => default_interval(),
        }
    }

    /// The judge model: preference, else `RYU_QUEST_JUDGE_MODEL`, else
    /// `RYU_DEFAULT_LLM_MODEL`, else the bundled local default.
    pub fn resolve_judge_model(&self) -> (r: String)
        ensures
            r@ == self.judge_model(),
    {
        if let Some(t) = trimmed_pref(self.pref_get(JUDGE_MODEL_PREF)) {
            return t;
        }
        if let Some(v) = filled_variable(&self.environment.quest_judge_model) {
            return v;
        }
        if let Some(v) = filled_variable(&self.environment.default_llm_model) {
            return v;
        }
        self.default_model.clone()
    }

    /// The reasoning effort: preference, else `RYU_QUEST_JUDGE_EFFORT`, else empty.
    pub fn resolve_judge_effort(&self) -> (r: String)
        ensures
            r@ == self.judge_effort(),
    {
        if let Some(t) = trimmed_pref(self.pref_get(JUDGE_EFFORT_PREF)) {
            return t;
        }
        match &self.environment.quest_judge_effort {
            Some(v) => v.clone(),
            None => {
                let empty = String::new();
                assert(empty@ == Seq::<char>::empty());
                empty
            },
        }
    }
}

impl QuestEngine {
    /// The text of the scratchpad.
    pub open spec fn scratch(self) -> Seq<char> {
        match pref(self.prefs@, SCRATCHPAD_PREF@) {
            Some(text) => text,
            None => Seq::empty(),
        }
    }

    /// The freeform brain-dump buffer.
    pub fn scratchpad(&self) -> (r: String)
        ensures
            r@ == self.scratch(),
    {
        match self.pref_get(SCRATCHPAD_PREF) {
            Some(text) => text,
            None => {
                let empty = String::new();
                assert(empty@ == Seq::<char>::empty());
                empty
            },
        }
    }

    /// Overwrites the brain-dump buffer.
    pub fn set_scratchpad(&mut self, text: &str)
        ensures
            final(self).scratch() == text@,
            final(self).prefs@ == old(self).prefs@.insert(SCRATCHPAD_PREF@, text@),
            final(self).environment == old(self).environment,
            final(self).default_model == old(self).default_model,
            final(self).gateway == old(self).gateway,
    {
        self.pref_set(SCRATCHPAD_PREF, text);
    }
}

// ---- ids ---------------------------------------------------------------------------
/// Whether a character is a hexadecimal digit, its letters in lower case.
pub open spec fn is_hex(c: char) -> bool {
    '0' <= c <= '9' || 'a' <= c <= 'f'
}

/// Whether a text is the id of a quest: `quest_` and 32 hexadecimal digits.
pub open spec fn is_quest_id(id: Seq<char>) -> bool {
    exists|tail: Seq<char>|
        tail.len() == 32 && (forall|i: int| 0 <= i < 32 ==> is_hex(#[trigger] tail[i])) && id
            == #[trigger] ("quest_"@ + tail)
}

/// A new id for a quest.
pub fn new_quest_id() -> (r: String)
    ensures
        is_quest_id(r@),
{
    let tail = random_hex();
    let id = concat2("quest_", tail.as_str());
    assert(id@ == "quest_"@ + tail@);
    id
}

/// `uuid::Uuid::new_v4`, written by `uuid::Uuid::simple` as 32 hexadecimal digits in
/// lower case. Which digits they are is left to chance.
#[verifier::external_body]
fn random_hex() -> (r: String)
    ensures
        r@.len() == 32,
        forall|i: int| 0 <= i < 32 ==> is_hex(#[trigger] r@[i]),
{
    uuid::Uuid::new_v4().simple().to_string()
}

} // verus!
