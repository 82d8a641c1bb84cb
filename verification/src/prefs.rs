//! Preferences: a map from keys to values, and the JSON they are kept as.
use vstd::prelude::*;

use crate::text::{same, text_of};

verus! {

/// A map of preferences, each key with one value.
#[derive(Debug)]
pub struct Prefs {
    entries: Vec<(String, String)>,
}

/// Whether some pair has the given key.
pub open spec fn has_key(pairs: Seq<(String, String)>, key: Seq<char>) -> bool {
    exists|i: int| 0 <= i < pairs.len() && (#[trigger] pairs[i]).0@ == key
}

/// Whether no two pairs have the same key.
pub open spec fn keys_differ(pairs: Seq<(String, String)>) -> bool {
    forall|i: int, j: int|
        0 <= i < j < pairs.len() ==> (#[trigger] pairs[i]).0@ != (#[trigger] pairs[j]).0@
}

/// The map of a list of pairs, in which a later pair replaces an earlier one with
/// the same key.
pub open spec fn pairs_map(pairs: Seq<(String, String)>) -> Map<Seq<char>, Seq<char>>
    decreases pairs.len(),
{
    if pairs.len() == 0 {
        Map::empty()
    } else {
        pairs_map(pairs.drop_last()).insert(pairs.last().0@, pairs.last().1@)
    }
}

/// What a list of pairs with differing keys maps a key to.
proof fn lemma_pairs(pairs: Seq<(String, String)>, key: Seq<char>)
    requires
        keys_differ(pairs),
    ensures
        pairs_map(pairs).contains_key(key) == has_key(pairs, key),
        forall|i: int|
            0 <= i < pairs.len() && (#[trigger] pairs[i]).0@ == key ==> pairs_map(pairs)[key]
                == pairs[i].1@,
    decreases pairs.len(),
{
    if pairs.len() > 0 {
        let init = pairs.drop_last();
        let last = pairs.len() - 1;
        lemma_pairs(init, key);
        if has_key(init, key) {
            let i = choose|i: int| 0 <= i < init.len() && (#[trigger] init[i]).0@ == key;
            assert(pairs[i].0@ == key);
        }
        if has_key(pairs, key) {
            let i = choose|i: int| 0 <= i < pairs.len() && (#[trigger] pairs[i]).0@ == key;
            if i < last {
                assert(init[i].0@ == key);
            }
        }
        assert forall|i: int| 0 <= i < pairs.len() && (#[trigger] pairs[i]).0@ == key implies
            pairs_map(pairs)[key] == pairs[i].1@ by {
            if i < last {
                assert(init[i].0@ == key);
                assert(pairs[i].0@ != pairs[last].0@);
            }
        }
    }
}

/// Replacing the value of one pair, where the keys differ, replaces it in the map.
proof fn lemma_pairs_update(pairs: Seq<(String, String)>, at: int, pair: (String, String))
    requires
        keys_differ(pairs),
        0 <= at < pairs.len(),
        pairs[at].0@ == pair.0@,
    ensures
        keys_differ(pairs.update(at, pair)),
        pairs_map(pairs.update(at, pair)) == pairs_map(pairs).insert(pair.0@, pair.1@),
    decreases pairs.len(),
{
    let init = pairs.drop_last();
    let last = pairs.len() - 1;
    let updated = pairs.update(at, pair);
    if at < last {
        lemma_pairs_update(init, at, pair);
        assert(updated.drop_last() == init.update(at, pair));
        assert(pairs[at].0@ != pairs[last].0@);
        assert(pairs_map(updated) =~= pairs_map(pairs).insert(pair.0@, pair.1@));
    } else {
        assert(updated.drop_last() == init);
        assert(pairs_map(updated) =~= pairs_map(pairs).insert(pair.0@, pair.1@));
    }
}

impl View for Prefs {
    type V = Map<Seq<char>, Seq<char>>;

    closed spec fn view(&self) -> Map<Seq<char>, Seq<char>> {
        pairs_map(self.entries@)
    }
}

impl Prefs {
    #[verifier::type_invariant]
    spec fn one_value_each(self) -> bool {
        keys_differ(self.entries@)
    }

    /// No preferences.
    pub fn new() -> (r: Prefs)
        ensures
            r@ == Map::<Seq<char>, Seq<char>>::empty(),
    {
        Prefs { entries: Vec::new() }
    }

    /// The place of a key among the entries.
    fn position(&self, key: &str) -> (r: Option<usize>)
        ensures
            match r {
                Some(i) => i < self.entries@.len() && self.entries@[i as int].0@ == key@,
                None => !has_key(self.entries@, key@),
            },
    {
        let n: usize = self.entries.len();
        let mut i: usize = 0;
        while i < n
            invariant
                n == self.entries@.len(),
                i <= n,
                forall|k: int| 0 <= k < i ==> (#[trigger] self.entries@[k]).0@ != key@,
            decreases n - i,
        {
            if same(self.entries[i].0.as_str(), key) {
                return Some(i);
            }
            i = i + 1;
        }
        None
    }

    /// The value of a preference.
    pub fn get(&self, key: &str) -> (r: Option<String>)
        ensures
            text_of(r) == (if self@.contains_key(key@) {
                Some(self@[key@])
            } else {
                None
            }),
    {
        proof {
            use_type_invariant(self);
            lemma_pairs(self.entries@, key@);
        }
        match self.position(key) {
            Some(i) => {
                let value = self.entries[i].1.clone();
                assert(has_key(self.entries@, key@)) by {
                    assert(self.entries@[i as int].0@ == key@);
                }
                Some(value)
            },
            None => None,
        }
    }

    /// Gives a preference a value.
    pub fn set(self, key: &str, value: &str) -> (r: Prefs)
        ensures
            r@ == self@.insert(key@, value@),
    {
        proof {
            use_type_invariant(&self);
        }
        let place = self.position(key);
        let mut entries = self.entries;
        let pair = (key.to_owned(), value.to_owned());
        match place {
            Some(i) => {
                proof {
                    lemma_pairs_update(entries@, i as int, pair);
                }
                entries.set(i, pair);
            },
            None => {
                let ghost before = entries@;
                entries.push(pair);
                assert(entries@.drop_last() == before);
            },
        }
        Prefs { entries }
    }

    /// The preferences of a list of pairs, in which a later pair replaces an earlier
    /// one with the same key.
    pub fn of_pairs(pairs: Vec<(String, String)>) -> (r: Prefs)
        ensures
            r@ == pairs_map(pairs@),
    {
        let mut prefs = Prefs::new();
        let n: usize = pairs.len();
        let mut i: usize = 0;
        while i < n
            invariant
                n == pairs@.len(),
                i <= n,
                prefs@ == pairs_map(pairs@.take(i as int)),
            decreases n - i,
        {
            let next = prefs.set(pairs[i].0.as_str(), pairs[i].1.as_str());
            prefs = next;
            assert(pairs@.take(i + 1).drop_last() == pairs@.take(i as int));
            i = i + 1;
        }
        assert(pairs@.take(n as int) == pairs@);
        prefs
    }

    /// The preferences as a list of pairs.
    pub fn into_pairs(self) -> (r: Vec<(String, String)>)
        ensures
            keys_differ(r@),
            pairs_map(r@) == self@,
    {
        proof {
            use_type_invariant(&self);
        }
        self.entries
    }
}

impl Clone for Prefs {
    fn clone(&self) -> (r: Prefs)
        ensures
            r@ == self@,
    {
        proof {
            use_type_invariant(self);
        }
        let n: usize = self.entries.len();
        let mut entries: Vec<(String, String)> = Vec::new();
        let mut i: usize = 0;
        while i < n
            invariant
                n == self.entries@.len(),
                i <= n,
                entries@.len() == i,
                forall|k: int|
                    0 <= k < i ==> (#[trigger] entries@[k]).0@ == self.entries@[k].0@
                        && entries@[k].1@ == self.entries@[k].1@,
            decreases n - i,
        {
            entries.push((self.entries[i].0.clone(), self.entries[i].1.clone()));
            i = i + 1;
        }
        proof {
            lemma_same_pairs(self.entries@, entries@);
        }
        Prefs { entries }
    }
}

/// Pairs with the same texts give the same map.
proof fn lemma_same_pairs(a: Seq<(String, String)>, b: Seq<(String, String)>)
    requires
        a.len() == b.len(),
        forall|k: int|
            0 <= k < a.len() ==> (#[trigger] b[k]).0@ == a[k].0@ && b[k].1@ == a[k].1@,
    ensures
        pairs_map(a) == pairs_map(b),
        keys_differ(a) ==> keys_differ(b),
    decreases a.len(),
{
    if a.len() > 0 {
        assert forall|k: int| 0 <= k < a.drop_last().len() implies (
        #[trigger] b.drop_last()[k]).0@ == a.drop_last()[k].0@ && b.drop_last()[k].1@
            == a.drop_last()[k].1@ by {
            assert(b[k].0@ == a[k].0@);
        }
        lemma_same_pairs(a.drop_last(), b.drop_last());
        assert(b[b.len() - 1].0@ == a[a.len() - 1].0@);
    }
    assert forall|i: int, j: int| 0 <= i < j < b.len() && keys_differ(a) implies (
    #[trigger] b[i]).0@ != (#[trigger] b[j]).0@ by {
        assert(a[i].0@ != a[j].0@);
    }
}

// ---- kept as JSON ----------------------------------------------------------------------
/// The map of strings that bytes hold as a JSON object; nothing where they hold none.
pub uninterp spec fn string_map(bytes: Seq<u8>) -> Option<Map<Seq<char>, Seq<char>>>;

/// The indented JSON of a map of strings.
pub uninterp spec fn pretty_json(map: Map<Seq<char>, Seq<char>>) -> Seq<u8>;

/// The preferences that bytes hold: a JSON object whose values are all strings. Anything
/// else holds none.
pub open spec fn prefs_in(bytes: Seq<u8>) -> Map<Seq<char>, Seq<char>> {
    match string_map(bytes) {
        Some(map) => map,
        None => Map::empty(),
    }
}

/// Reads preferences that were kept as JSON. Bytes that hold none give none: a fresh
/// start falls back to the defaults.
pub fn read_prefs(bytes: &[u8]) -> (r: Prefs)
    ensures
        r@ == prefs_in(bytes@),
{
    match read_string_map(bytes) {
        Some(pairs) => Prefs::of_pairs(pairs),
        None => Prefs::new(),
    }
}

/// Writes preferences as JSON. Reading what was written gives the preferences back.
pub fn write_prefs(prefs: &Prefs) -> (r: Vec<u8>)
    ensures
        prefs_in(r@) == prefs@,
        r@ == pretty_json(prefs@),
{
    to_pretty_json(&prefs.entries)
}

/// `serde_json::from_slice` into a map of strings, of which the entries are handed out:
/// no two have the same key, and their map is a function of the bytes alone, here called
/// `string_map`.
#[verifier::external_body]
fn read_string_map(bytes: &[u8]) -> (r: Option<Vec<(String, String)>>)
    ensures
        match r {
            Some(pairs) => keys_differ(pairs@) && string_map(bytes@) == Some(pairs_map(pairs@)),
            None => string_map(bytes@) is None,
        },
{
    let map: std::collections::BTreeMap<String, String> = serde_json::from_slice(bytes).ok()?;
    Some(map.into_iter().collect())
}

/// `serde_json::to_vec_pretty` of a sorted map of the pairs, in which a later pair
/// replaces an earlier one: a function of that map alone, here called `pretty_json`. What
/// it writes `serde_json` reads back as the same map of strings.
#[verifier::external_body]
fn to_pretty_json(pairs: &Vec<(String, String)>) -> (r: Vec<u8>)
    ensures
        r@ == pretty_json(pairs_map(pairs@)),
        string_map(r@) == Some(pairs_map(pairs@)),
{
    let map: std::collections::BTreeMap<&String, &String> =
        pairs.iter().map(|pair| (&pair.0, &pair.1)).collect();
    serde_json::to_vec_pretty(&map).unwrap()
}

} // verus!
