use vstd::prelude::*;

verus! {

/// The name and the number of arguments under which the operator is registered.
pub struct SQLiteRegexWrapper;

impl SQLiteRegexWrapper {
    /// The name of the SQL function behind the `REGEXP` operator.
    pub fn function_name() -> (name: &'static str)
        ensures
            name@ == "regexp"@,
    {
        "regexp"
    }

    /// The number of arguments that the SQL function takes: the pattern and the text.
    pub fn argument_count() -> (n: i32)
        ensures
            n == 2,
    {
        2
    }
}

} // verus!
