//! The flag source: a queryable snapshot of a pre-tokenized command line.

use vstd::prelude::*;

verus! {

/// A command-line option that the deducers consult.
#[derive(Debug, Clone, Copy, PartialEq, Eq, Structural)]
pub enum Flag {
    /// Append file-type indicator suffixes to names.
    Classify,
    /// Show icons before names, with an optional mode token.
    Icons,
    /// Quote file names, with a style token.
    Quotes,
    /// Embed hyperlinks in file names.
    Hyperlink,
}

/// Does some occurrence of `flag` stand in `entries`?
pub open spec fn has_flag(entries: Seq<(Flag, Option<String>)>, flag: Flag) -> bool {
    exists|i: int| 0 <= i < entries.len() && (#[trigger] entries[i]).0 == flag
}

/// The value of the last occurrence of `flag` that carries one.
pub open spec fn flag_value(entries: Seq<(Flag, Option<String>)>, flag: Flag) -> Option<
    String,
>
    decreases entries.len(),
{
    if entries.len() == 0 {
        None
    } else if entries.last().0 == flag && entries.last().1 is Some {
        entries.last().1
    } else {
        flag_value(entries.drop_last(), flag)
    }
}

/// An immutable snapshot of which options were present on the command line
/// and what raw string value, if any, accompanied each.
///
/// Presence and value are independent facts: an occurrence without a value
/// is legal for boolean-style flags. Querying is side-effect-free and
/// repeatable.
#[derive(Debug, PartialEq, Eq)]
pub struct MatchedFlags {
    entries: Vec<(Flag, Option<String>)>,
}

impl View for MatchedFlags {
    type V = Seq<(Flag, Option<String>)>;

    closed spec fn view(&self) -> Seq<(Flag, Option<String>)> {
        self.entries@
    }
}

impl MatchedFlags {
    /// Takes a snapshot of the given occurrences, in command-line order.
    pub fn from_entries(entries: Vec<(Flag, Option<String>)>) -> (m: Self)
        ensures
            m@ == entries@,
    {
        MatchedFlags { entries }
    }

    /// Was `flag` given at all, with or without a value?
    pub fn has(&self, flag: Flag) -> (r: bool)
        ensures
            r == has_flag(self@, flag),
    {
        let n = self.entries.len();
        let mut i: usize = 0;
        while i < n
            invariant
                i <= n,
                n == self@.len(),
                forall|j: int| 0 <= j < i ==> (#[trigger] self@[j]).0 != flag,
            decreases n - i,
        {
            if self.entries[i].0 == flag {
                return true;
            }
            i += 1;
        }
        false
    }

    /// The value given to `flag`, if any occurrence carried one; the last
    /// occurrence wins.
    pub fn get(&self, flag: Flag) -> (r: Option<String>)
        ensures
            r == flag_value(self@, flag),
    {
        let n = self.entries.len();
        assert(self@.take(n as int) =~= self@);
        let mut i: usize = n;
        while i > 0
            invariant
                i <= n,
                n == self@.len(),
                flag_value(self@, flag) == flag_value(self@.take(i as int), flag),
            decreases i,
        {
            let idx = i - 1;
            proof {
                assert(self@.take(i as int).last() == self@[idx as int]);
                assert(self@.take(i as int).drop_last() =~= self@.take(idx as int));
            }
            let entry = &self.entries[idx];
            if entry.0 == flag {
                if let Some(v) = &entry.1 {
                    return Some(v.clone());
                }
            }
            i = idx;
        }
        assert(self@.take(0) =~= Seq::<(Flag, Option<String>)>::empty());
        None
    }
}

} // verus!
