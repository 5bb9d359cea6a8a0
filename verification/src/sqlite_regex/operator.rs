use crate::sqlite_regex::cache::RegexCache;
use crate::sqlite_regex::native::compiles;
use crate::sqlite_regex::native::is_match;
use regex::Error as RegexError;
use vstd::prelude::*;

verus! {

/// The `REGEXP` operator: it tests a text against a pattern, compiling every pattern once.
pub struct RegexpOperator {
    cache: RegexCache,
}

impl RegexpOperator {
    /// The patterns that the operator has compiled and keeps.
    pub closed spec fn patterns(&self) -> Set<Seq<char>> {
        self.cache.patterns()
    }

    pub fn new(cache: RegexCache) -> (operator: Self)
        ensures
            operator.patterns() == cache.patterns(),
    {
        RegexpOperator { cache }
    }

    /// Tells whether the pattern matches anywhere in the text. A pattern that does not
    /// compile is an error; one that compiles is kept for the next time.
    pub fn is_match(&mut self, pattern: &str, text: &str) -> (r: Result<bool, RegexError>)
        ensures
            r is Ok <==> compiles(pattern@),
            r is Ok ==> final(self).patterns() == old(self).patterns().insert(pattern@),
            r is Err ==> final(self).patterns() == old(self).patterns(),
    {
        match self.cache.get_or_insert(pattern) {
            Ok(regex) => Ok(is_match(&regex, text)),
            Err(e) => Err(e),
        }
    }
}

} // verus!
