//! The immutable set of suppressed actor identities.
//!
//! Built once at process start, then shared read-only by every request
//! handler; membership is an exact, case-sensitive string match.

use vstd::prelude::*;
use vstd::string::StringExecFns;

verus! {

/// A denylist of actor identities. Viewed as the sequence of its
/// entries' character strings; membership means some entry matches
/// exactly.
pub struct Denylist {
    entries: Vec<String>,
}

impl View for Denylist {
    type V = Seq<Seq<char>>;

    closed spec fn view(&self) -> Seq<Seq<char>> {
        self.entries@.map_values(|s: String| s@)
    }
}

impl Denylist {
    /// An empty denylist.
    pub fn new() -> (r: Denylist)
        ensures
            r@ == Seq::<Seq<char>>::empty(),
    {
        let r = Denylist { entries: Vec::new() };
        proof {
            assert(r@ =~= Seq::<Seq<char>>::empty());
        }
        r
    }

    /// Add one identity. Duplicates are harmless: membership only asks
    /// whether some entry matches.
    pub fn insert(&mut self, name: String)
        ensures
            final(self)@ == old(self)@.push(name@),
    {
        self.entries.push(name);
        proof {
            assert(self@ =~= old(self)@.push(name@));
        }
    }

    /// Exact-match membership test: true only if `name` is one of the
    /// entries, character for character.
    pub fn contains(&self, name: &String) -> (r: bool)
        ensures
            r == self@.contains(name@),
    {
        let n = self.entries.len();
        let mut i: usize = 0;
        while i < n
            invariant
                n == self.entries@.len(),
                i <= n,
                forall|j: int| 0 <= j < i ==> self@[j] != name@,
            decreases n - i,
        {
            if self.entries[i] == *name {
                proof {
                    assert(self@[i as int] == name@);
                }
                return true;
            }
            i = i + 1;
        }
        proof {
            assert(forall|j: int| 0 <= j < self@.len() ==> self@[j] != name@);
        }
        false
    }

    /// The denylist the proxy ships with: the sole suppressed actor is
    /// the dependency-update bot.
    pub fn banned_set() -> (r: Denylist)
        ensures
            r@ == seq!["dependabot[bot]"@],
    {
        let mut r = Denylist::new();
        r.insert(String::from_str("dependabot[bot]"));
        proof {
            assert(r@ =~= seq!["dependabot[bot]"@]);
        }
        r
    }
}

} // verus!
