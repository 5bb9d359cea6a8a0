use crate::sqlite_regex::native::compile;
use crate::sqlite_regex::native::compiles;
use crate::sqlite_regex::native::share;
use crate::text::same_text;
use regex::Error as RegexError;
use regex::Regex;
use vstd::prelude::*;

verus! {

/// Compiled patterns, kept under their source text so that no pattern is compiled twice.
pub struct RegexCache {
    entries: Vec<(String, Regex)>,
}

/// Whether a pattern stands among the entries.
pub open spec fn holds(entries: Seq<(String, Regex)>, pattern: Seq<char>) -> bool {
    exists|i: int| 0 <= i < entries.len() && (#[trigger] entries[i]).0@ == pattern
}

/// Whether every pattern among the entries is one that compiles.
pub open spec fn all_compile(entries: Seq<(String, Regex)>) -> bool {
    forall|i: int| 0 <= i < entries.len() ==> compiles((#[trigger] entries[i]).0@)
}

/// Finds the compiled form of a pattern among the entries, or compiles the pattern and
/// adds it to them.
fn find_or_compile(entries: &mut Vec<(String, Regex)>, pattern: &str) -> (r: Result<
    Regex,
    RegexError,
>)
    requires
        all_compile(old(entries)@),
    ensures
        all_compile(final(entries)@),
        r is Ok <==> compiles(pattern@),
        r is Ok ==> forall|p: Seq<char>|
            holds(final(entries)@, p) <==> (holds(old(entries)@, p) || p == pattern@),
        r is Err ==> final(entries)@ == old(entries)@,
{
    let mut i: usize = 0;
    while i < entries.len()
        invariant
            i <= entries.len(),
            entries@ == old(entries)@,
            all_compile(entries@),
            forall|k: int| 0 <= k < i ==> (#[trigger] entries@[k]).0@ != pattern@,
        decreases entries.len() - i,
    {
        if same_text(entries[i].0.as_str(), pattern) {
            assert(holds(entries@, pattern@));
            return Ok(share(&entries[i].1));
        }
        i += 1;
    }
    match compile(pattern) {
        Ok(regex) => {
            let kept = share(&regex);
            let ghost before = entries@;
            entries.push((pattern.to_owned(), kept));
            proof {
                let after = entries@;
                assert(after[after.len() - 1].0@ == pattern@);
                assert forall|p: Seq<char>| holds(after, p) <==> (holds(before, p) || p
                    == pattern@) by {
                    if holds(after, p) {
                        let k = choose|k: int| 0 <= k < after.len() && (#[trigger] after[k]).0@ == p;
                        if k < before.len() {
                            assert(before[k].0@ == p);
                        }
                    }
                    if holds(before, p) {
                        let k = choose|k: int|
                            0 <= k < before.len() && (#[trigger] before[k]).0@ == p;
                        assert(after[k].0@ == p);
                    }
                }
                assert forall|k: int| 0 <= k < after.len() implies compiles(
                    (#[trigger] after[k]).0@,
                ) by {
                    if k < before.len() {
                        assert(after[k] == before[k]);
                    }
                }
            }
            Ok(regex)
        },
        Err(e) => Err(e),
    }
}

impl RegexCache {
    /// The patterns that are kept.
    pub closed spec fn patterns(&self) -> Set<Seq<char>> {
        Set::new(|pattern: Seq<char>| holds(self.entries@, pattern))
    }

    /// Every pattern kept is one that compiles.
    #[verifier::type_invariant]
    spec fn kept_compile(&self) -> bool {
        all_compile(self.entries@)
    }

    /// A cache that keeps nothing.
    pub fn new() -> (cache: Self)
        ensures
            cache.patterns() == Set::<Seq<char>>::empty(),
    {
        let cache = RegexCache { entries: Vec::new() };
        assert(cache.patterns() =~= Set::<Seq<char>>::empty());
        cache
    }

    /// Hands out the compiled form of a pattern: the one kept, or where none is kept, a
    /// newly compiled one, which is then kept. A pattern that does not compile is an error,
    /// and nothing is kept for it.
    pub fn get_or_insert(&mut self, pattern: &str) -> (r: Result<Regex, RegexError>)
        ensures
            r is Ok <==> compiles(pattern@),
            r is Ok ==> final(self).patterns() == old(self).patterns().insert(pattern@),
            r is Err ==> final(self).patterns() == old(self).patterns(),
    {
        proof {
            use_type_invariant(&*self);
        }
        let mut entries: Vec<(String, Regex)> = Vec::new();
        core::mem::swap(&mut self.entries, &mut entries);
        let r = find_or_compile(&mut entries, pattern);
        self.entries = entries;
        proof {
            if r is Ok {
                assert(self.patterns() =~= old(self).patterns().insert(pattern@));
            }
        }
        r
    }

    /// Tells how many patterns are kept.
    pub fn len(&self) -> (n: usize)
        ensures
            n == 0 <==> self.patterns() == Set::<Seq<char>>::empty(),
    {
        let n = self.entries.len();
        proof {
            if n == 0 {
                assert(self.patterns() =~= Set::<Seq<char>>::empty());
            } else {
                assert(holds(self.entries@, self.entries@[0].0@));
                assert(self.patterns().contains(self.entries@[0].0@));
            }
        }
        n
    }
}

} // verus!
