//! The variable source: environment-like key/value state with legacy-alias
//! fallback.
//!
//! A logical setting has one current key and possibly a deprecated alias
//! still honoured when the current key is unset; a lookup reports both the
//! resolved value and which key actually supplied it, for diagnostics.

use vstd::prelude::*;
use crate::strings::str_eq;

verus! {

/// The first pair of `pairs` whose key reads `key`.
pub open spec fn var_pair(pairs: Seq<(String, String)>, key: Seq<char>) -> Option<
    (String, String),
>
    decreases pairs.len(),
{
    if pairs.len() == 0 {
        None
    } else if pairs.first().0@ == key {
        Some(pairs.first())
    } else {
        var_pair(pairs.drop_first(), key)
    }
}

/// The value stored under `key`, if any.
pub open spec fn var_value(pairs: Seq<(String, String)>, key: Seq<char>) -> Option<String> {
    match var_pair(pairs, key) {
        Some(p) => Some(p.1),
        None => None,
    }
}

/// The value stored under `primary`, or, failing that, under `fallback`.
pub open spec fn fallback_value(
    pairs: Seq<(String, String)>,
    primary: Seq<char>,
    fallback: Seq<char>,
) -> Option<String> {
    if var_value(pairs, primary) is Some {
        var_value(pairs, primary)
    } else {
        var_value(pairs, fallback)
    }
}

/// Which stored key would supply the value of a fallback lookup.
pub open spec fn fallback_source(
    pairs: Seq<(String, String)>,
    primary: Seq<char>,
    fallback: Seq<char>,
) -> Option<String> {
    if var_pair(pairs, primary) is Some {
        Some(var_pair(pairs, primary).unwrap().0)
    } else if var_pair(pairs, fallback) is Some {
        Some(var_pair(pairs, fallback).unwrap().0)
    } else {
        None
    }
}

/// An immutable snapshot of environment-like key/value state.
///
/// Lookups are side-effect-free and repeatable; when several pairs share a
/// key, the first one wins.
#[derive(Debug, PartialEq, Eq)]
pub struct Vars {
    pairs: Vec<(String, String)>,
}

impl View for Vars {
    type V = Seq<(String, String)>;

    closed spec fn view(&self) -> Seq<(String, String)> {
        self.pairs@
    }
}

impl Vars {
    /// Takes a snapshot of the given key/value pairs.
    pub fn from_pairs(pairs: Vec<(String, String)>) -> (v: Self)
        ensures
            v@ == pairs@,
    {
        Vars { pairs }
    }

    /// The stored pair whose key reads `name`, if any.
    fn get_pair(&self, name: &str) -> (r: Option<(String, String)>)
        ensures
            r == var_pair(self@, name@),
    {
        let n = self.pairs.len();
        assert(self@.skip(0) =~= self@);
        let mut i: usize = 0;
        while i < n
            invariant
                i <= n,
                n == self@.len(),
                var_pair(self@, name@) == var_pair(self@.skip(i as int), name@),
            decreases n - i,
        {
            proof {
                assert(self@.skip(i as int).first() == self@[i as int]);
                assert(self@.skip(i as int).drop_first() =~= self@.skip(i + 1));
            }
            let entry = &self.pairs[i];
            if str_eq(entry.0.as_str(), name) {
                let pair = (entry.0.clone(), entry.1.clone());
                assert(pair == self@[i as int]);
                return Some(pair);
            }
            i += 1;
        }
        None
    }

    /// The value of the variable named `name`, if it is set.
    pub fn get(&self, name: &str) -> (r: Option<String>)
        ensures
            r == var_value(self@, name@),
    {
        match self.get_pair(name) {
            Some(p) => Some(p.1),
            None => None,
        }
    }

    /// The value of `primary`, or, when `primary` is unset, of the legacy
    /// alias `fallback`.
    pub fn get_with_fallback(&self, primary: &str, fallback: &str) -> (r: Option<String>)
        ensures
            r == fallback_value(self@, primary@, fallback@),
    {
        match self.get(primary) {
            Some(v) => Some(v),
            None => self.get(fallback),
        }
    }

    /// Which key a fallback lookup would answer from: `primary` when it is
    /// set, else `fallback` when that is set, else nothing.
    pub fn source(&self, primary: &str, fallback: &str) -> (r: Option<String>)
        ensures
            r == fallback_source(self@, primary@, fallback@),
    {
        match self.get_pair(primary) {
            Some(p) => Some(p.0),
            None => match self.get_pair(fallback) {
                Some(p) => Some(p.0),
                None => None,
            },
        }
    }
}

} // verus!
