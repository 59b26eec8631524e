//! The policy that steers flattening: separator, depth limit, folded,
//! ignored and allowed keys, and defaults for null values.
use vstd::prelude::*;

use crate::json::{Json, JsonValue};

verus! {

/// The mathematical model of the options.
pub struct Options {
    pub sep: Seq<char>,
    pub max_depth: int,
    pub fold: Set<Seq<char>>,
    pub ignore: Set<Seq<char>>,
    pub default_value: Map<Seq<char>, Json>,
    pub strict: bool,
    pub keys: Set<Seq<char>>,
}

/// The set of strings that a list holds.
pub open spec fn set_of(s: Seq<String>) -> Set<Seq<char>> {
    Set::new(|k: Seq<char>| exists|i: int| 0 <= i < s.len() && #[trigger] s[i]@ == k)
}

/// The mapping that a list of key-value pairs describes; an earlier pair wins.
pub open spec fn defaults_of(s: Seq<(String, JsonValue)>) -> Map<Seq<char>, Json>
    decreases s.len(),
{
    if s.len() == 0 {
        Map::empty()
    } else {
        defaults_of(s.drop_first()).insert(s[0].0@, s[0].1@)
    }
}

proof fn lemma_defaults_first(s: Seq<(String, JsonValue)>, i: int, k: Seq<char>)
    requires
        0 <= i <= s.len(),
        forall|j: int| 0 <= j < i ==> s[j].0@ != k,
    ensures
        i < s.len() && s[i].0@ == k ==> defaults_of(s).contains_key(k) && defaults_of(s)[k]
            == s[i].1@,
        i == s.len() ==> !defaults_of(s).contains_key(k),
    decreases i,
{
    if s.len() > 0 {
        if i > 0 {
            lemma_defaults_first(s.drop_first(), i - 1, k);
        } else if s.len() > 0 && s[0].0@ != k {
        }
    }
}

proof fn lemma_defaults_absent(s: Seq<(String, JsonValue)>, k: Seq<char>)
    requires
        forall|j: int| 0 <= j < s.len() ==> s[j].0@ != k,
    ensures
        !defaults_of(s).contains_key(k),
    decreases s.len(),
{
    if s.len() > 0 {
        lemma_defaults_absent(s.drop_first(), k);
    }
}

/// How a document is flattened.
#[derive(Debug)]
pub struct ParserOptions {
    sep: String,
    max_depth: i32,
    fold: Vec<String>,
    ignore: Vec<String>,
    default_value: Vec<(String, JsonValue)>,
    strict: bool,
    keys: Vec<String>,
}

impl View for ParserOptions {
    type V = Options;

    closed spec fn view(&self) -> Options {
        Options {
            sep: self.sep@,
            max_depth: self.max_depth as int,
            fold: set_of(self.fold@),
            ignore: set_of(self.ignore@),
            default_value: defaults_of(self.default_value@),
            strict: self.strict,
            keys: set_of(self.keys@),
        }
    }
}

fn list_contains(list: &Vec<String>, key: &String) -> (r: bool)
    ensures
        r == set_of(list@).contains(key@),
{
    let mut i: usize = 0;
    while i < list.len()
        invariant
            i <= list@.len(),
            forall|j: int| 0 <= j < i ==> list@[j]@ != key@,
        decreases list@.len() - i,
    {
        if list[i] == *key {
            assert(list@[i as int]@ == key@);
            return true;
        }
        i += 1;
    }
    false
}

impl ParserOptions {
    /// The default options: empty separator, no depth limit, nothing folded,
    /// ignored or allowed, no defaults, not strict.
    pub fn fmt() -> (r: ParserOptions)
        ensures
            r@.sep == Seq::<char>::empty(),
            r@.max_depth == 0,
            r@.fold == Set::<Seq<char>>::empty(),
            r@.ignore == Set::<Seq<char>>::empty(),
            r@.default_value == Map::<Seq<char>, Json>::empty(),
            !r@.strict,
            r@.keys == Set::<Seq<char>>::empty(),
    {
        let r = ParserOptions {
            sep: String::new(),
            max_depth: 0,
            fold: Vec::new(),
            ignore: Vec::new(),
            default_value: Vec::new(),
            strict: false,
            keys: Vec::new(),
        };
        assert(r@.fold =~= Set::<Seq<char>>::empty());
        assert(r@.ignore =~= Set::<Seq<char>>::empty());
        assert(r@.keys =~= Set::<Seq<char>>::empty());
        r
    }

    /// Sets the separator that joins a parent key and a child key.
    pub fn with_sep(self, sep: &str) -> (r: ParserOptions)
        ensures
            r@ == (Options { sep: sep@, ..self@ }),
    {
        ParserOptions { sep: sep.to_owned(), ..self }
    }

    /// Sets the joined keys whose values are kept whole.
    pub fn with_fold(self, fold: Vec<String>) -> (r: ParserOptions)
        ensures
            r@ == (Options { fold: set_of(fold@), ..self@ }),
    {
        ParserOptions { fold, ..self }
    }

    /// Sets the joined keys that are dropped.
    pub fn with_ignore(self, ignore: Vec<String>) -> (r: ParserOptions)
        ensures
            r@ == (Options { ignore: set_of(ignore@), ..self@ }),
    {
        ParserOptions { ignore, ..self }
    }

    /// Sets the depth limit; zero or less means no limit.
    pub fn with_max_depth(self, max_depth: i32) -> (r: ParserOptions)
        ensures
            r@ == (Options { max_depth: max_depth as int, ..self@ }),
    {
        ParserOptions { max_depth, ..self }
    }

    /// Sets strict mode, in which only allowed keys are kept.
    pub fn with_strict_mode(self, mode: bool) -> (r: ParserOptions)
        ensures
            r@ == (Options { strict: mode, ..self@ }),
    {
        ParserOptions { strict: mode, ..self }
    }

    /// Sets the values that stand in for null; for a key given twice the first pair counts.
    pub fn with_default_value(self, default_value: Vec<(String, JsonValue)>) -> (r: ParserOptions)
        ensures
            r@ == (Options { default_value: defaults_of(default_value@), ..self@ }),
    {
        ParserOptions { default_value, ..self }
    }

    /// Sets the allowed keys of strict mode.
    pub fn with_keys(self, keys: Vec<String>) -> (r: ParserOptions)
        ensures
            r@ == (Options { keys: set_of(keys@), ..self@ }),
    {
        ParserOptions { keys, ..self }
    }

    /// The allowed keys of strict mode.
    pub fn get_keys(&self) -> (r: &Vec<String>)
        ensures
            set_of(r@) == self@.keys,
    {
        &self.keys
    }

    /// The keys whose values are kept whole.
    pub fn get_fold(&self) -> (r: &Vec<String>)
        ensures
            set_of(r@) == self@.fold,
    {
        &self.fold
    }

    /// The keys that are dropped.
    pub fn get_ignore(&self) -> (r: &Vec<String>)
        ensures
            set_of(r@) == self@.ignore,
    {
        &self.ignore
    }

    /// The depth limit.
    pub fn get_max_depth(&self) -> (r: i32)
        ensures
            r as int == self@.max_depth,
    {
        self.max_depth
    }

    /// Whether `key` is dropped.
    pub fn contains_ignore(&self, key: &str) -> (r: bool)
        ensures
            r == self@.ignore.contains(key@),
    {
        list_contains(&self.ignore, &key.to_owned())
    }

    /// Whether the value under `key` is kept whole.
    pub fn contains_fold(&self, key: &str) -> (r: bool)
        ensures
            r == self@.fold.contains(key@),
    {
        list_contains(&self.fold, &key.to_owned())
    }

    /// The value that stands in for a null under `key`.
    pub fn get_default(&self, key: &str) -> (r: Option<&JsonValue>)
        ensures
            match r {
                Some(v) => self@.default_value.contains_key(key@) && self@.default_value[key@]
                    == v@,
                None => !self@.default_value.contains_key(key@),
            },
    {
        let k = key.to_owned();
        let mut i: usize = 0;
        while i < self.default_value.len()
            invariant
                i <= self.default_value@.len(),
                k@ == key@,
                forall|j: int| 0 <= j < i ==> self.default_value@[j].0@ != key@,
            decreases self.default_value@.len() - i,
        {
            if self.default_value[i].0 == k {
                proof {
                    lemma_defaults_first(self.default_value@, i as int, key@);
                }
                return Some(&self.default_value[i].1);
            }
            i += 1;
        }
        proof {
            lemma_defaults_absent(self.default_value@, key@);
        }
        None
    }

    /// Whether `key` is among the allowed keys of strict mode.
    pub fn contain_key(&self, key: &str) -> (r: bool)
        ensures
            r == self@.keys.contains(key@),
    {
        list_contains(&self.keys, &key.to_owned())
    }

    /// Whether strict mode is on.
    pub fn strict_mode(&self) -> (r: bool)
        ensures
            r == self@.strict,
    {
        self.strict
    }

    /// The separator.
    pub fn get_sep(&self) -> (r: &str)
        ensures
            r@ == self@.sep,
    {
        self.sep.as_str()
    }
}

} // verus!
