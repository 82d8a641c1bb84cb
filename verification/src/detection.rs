//! How aggressively the engine acts, and where its settings come from.
use vstd::prelude::*;

use crate::text::{ascii_lower, ascii_upper, lower, same, trim, trimmed};

verus! {

/// Preference key: how aggressive auto-detection is
/// (`off`/`suggest`/`auto_high`/`auto_all`).
pub const DETECTION_MODE_PREF: &'static str = "quest-detection-mode";

/// Preference key: the judge model id (swappable, never hardcoded to a provider).
pub const JUDGE_MODEL_PREF: &'static str = "quest-judge-model";

/// Preference key: the judge reasoning effort.
pub const JUDGE_EFFORT_PREF: &'static str = "quest-judge-effort";

/// Preference key: the detection interval (how often each quest is judged).
pub const DETECTION_INTERVAL_PREF: &'static str = "quest-detection-interval";

/// The bundled local judge model.
pub const DEFAULT_JUDGE_MODEL: &'static str = "gemma-4-E2B-it-Q4_K_M";

/// The address of the local gateway.
pub const DEFAULT_GATEWAY_URL: &'static str = "http://127.0.0.1:7981";

/// How aggressively the engine acts on a "done" verdict.
#[derive(Debug, Clone, Copy, PartialEq, Eq, Structural)]
pub enum DetectionMode {
    /// No auto-detection at all; quests are a plain manual todo list.
    Off,
    /// Suggest completion (a chip the user confirms); never auto-complete.
    Suggest,
    /// Auto-complete only on a high-confidence verdict; otherwise suggest. The
    /// default.
    AutoHigh,
    /// Auto-complete on any verdict above the confidence floor.
    AutoAll,
}

impl Default for DetectionMode {
    fn default() -> (r: DetectionMode)
        ensures
            r == DetectionMode::AutoHigh,
    {
        DetectionMode::AutoHigh
    }
}

/// The mode that a preference names, in lower case and without space around it.
/// Anything unknown stands for `Suggest`.
pub open spec fn mode_named(name: Seq<char>) -> DetectionMode {
    if name == "off"@ {
        DetectionMode::Off
    } else if name == "auto_high"@ || name == "auto-high"@ {
        DetectionMode::AutoHigh
    } else if name == "auto_all"@ || name == "auto-all"@ {
        DetectionMode::AutoAll
    } else {
        DetectionMode::Suggest
    }
}

/// The mode that a preference names, in any case and with any space around it.
pub open spec fn mode_in(preference: Seq<char>) -> DetectionMode {
    mode_named(ascii_lower(trimmed(preference)))
}

/// The name of a mode.
pub open spec fn mode_name(mode: DetectionMode) -> Seq<char> {
    match mode {
        DetectionMode::Off => "off"@,
        DetectionMode::Suggest => "suggest"@,
        DetectionMode::AutoHigh => "auto_high"@,
        DetectionMode::AutoAll => "auto_all"@,
    }
}

impl DetectionMode {
    /// The mode with the given name, in lower case and without space around it.
    pub fn named(name: &str) -> (r: DetectionMode)
        ensures
            r == mode_named(name@),
    {
        if same(name, "off") {
            DetectionMode::Off
        } else if same(name, "auto_high") || same(name, "auto-high") {
            DetectionMode::AutoHigh
        } else if same(name, "auto_all") || same(name, "auto-all") {
            DetectionMode::AutoAll
        } else {
            DetectionMode::Suggest
        }
    }

    /// The mode that a preference names, in any case and with any space around it. Only
    /// letters of ASCII have two cases here: of all others, just the Kelvin sign and the
    /// dotted capital I have a letter of ASCII in their lower-case forms, a `k` and an
    /// `i` with a dot above it, and neither stands in a mode's name.
    pub fn from_pref(s: &str) -> (r: DetectionMode)
        ensures
            r == mode_in(s@),
    {
        let name = lower(trim(s));
        DetectionMode::named(name.as_str())
    }

    /// The name of the mode.
    pub fn as_str(self) -> (r: &'static str)
        ensures
            r@ == mode_name(self),
    {
        match self {
            DetectionMode::Off => "off",
            DetectionMode::Suggest => "suggest",
            DetectionMode::AutoHigh => "auto_high",
            DetectionMode::AutoAll => "auto_all",
        }
    }
}

/// Reading a mode's name gives the mode back.
pub proof fn mode_names_read_back(mode: DetectionMode)
    ensures
        mode_in(mode_name(mode)) == mode,
{
    reveal_strlit("off");
    reveal_strlit("suggest");
    reveal_strlit("auto_high");
    reveal_strlit("auto-high");
    reveal_strlit("auto_all");
    reveal_strlit("auto-all");
    let name = mode_name(mode);
    assert(trimmed(name) == name);
    assert(ascii_lower(name) == name);
    assert("off"@.len() == 3);
    assert("auto_high"@.len() == 9);
    assert("auto-high"@.len() == 9);
    assert("auto_all"@.len() == 8);
    assert("auto-all"@.len() == 8);
    assert("suggest"@.len() == 7);
}

/// Neither space around a preference nor the case of its letters matters to the mode
/// that it names.
pub proof fn mode_ignores_space_and_case(preference: Seq<char>)
    ensures
        mode_in(trimmed(preference)) == mode_in(preference),
        mode_in(ascii_upper(preference)) == mode_in(preference),
        mode_in(ascii_lower(preference)) == mode_in(preference),
{
    crate::text::trimmed_is_stable(preference);
    crate::text::case_keeps_trimming(preference);
    let name = trimmed(preference);
    assert(ascii_lower(ascii_upper(name)) =~= ascii_lower(name));
    assert(ascii_lower(ascii_lower(name)) =~= ascii_lower(name));
}

/// A preference names a mode other than `Suggest` only by one of that mode's names.
pub proof fn modes_are_named_exactly(preference: Seq<char>)
    ensures
        ({
            let name = ascii_lower(trimmed(preference));
            &&& mode_in(preference) is Off <==> name == "off"@
            &&& mode_in(preference) is AutoHigh <==> name == "auto_high"@ || name == "auto-high"@
            &&& mode_in(preference) is AutoAll <==> name == "auto_all"@ || name == "auto-all"@
        }),
{
    reveal_strlit("off");
    reveal_strlit("auto_high");
    reveal_strlit("auto-high");
    reveal_strlit("auto_all");
    reveal_strlit("auto-all");
    assert("off"@.len() == 3);
    assert("auto_high"@.len() == 9);
    assert("auto-high"@.len() == 9);
    assert("auto_all"@.len() == 8);
    assert("auto-all"@.len() == 8);
}

} // verus!
