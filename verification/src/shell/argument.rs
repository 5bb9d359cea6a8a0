use vstd::prelude::*;

verus! {

/// A named argument.
pub struct Argument {
    name: String,
    value: String,
}

impl Argument {
    /// The argument's name.
    pub closed spec fn name_view(&self) -> Seq<char> {
        self.name@
    }

    /// The argument's value.
    pub closed spec fn value_view(&self) -> Seq<char> {
        self.value@
    }

    pub fn new(name: &str, value: &str) -> (argument: Self)
        ensures
            argument.name_view() == name@,
            argument.value_view() == value@,
    {
        Argument { name: name.to_owned(), value: value.to_owned() }
    }

    pub fn name(&self) -> (name: &str)
        ensures
            name@ == self.name_view(),
    {
        self.name.as_str()
    }

    pub fn value(&self) -> (value: &str)
        ensures
            value@ == self.value_view(),
    {
        self.value.as_str()
    }
}

} // verus!
