use vstd::prelude::*;

verus! {

/// A name and value pair of strings, as used by user properties
#[derive(Debug, PartialEq, Eq, Clone, Copy)]
pub struct StringPair<'a> {
    name: &'a str,
    value: &'a str,
}

impl<'a> StringPair<'a> {
    /// The name
    pub closed spec fn spec_name(&self) -> &'a str {
        self.name
    }

    /// The value
    pub closed spec fn spec_value(&self) -> &'a str {
        self.value
    }

    /// Create a pair from a name and a value
    pub fn new(name: &'a str, value: &'a str) -> (r: StringPair<'a>)
        ensures
            r.spec_name() == name,
            r.spec_value() == value,
    {
        StringPair { name, value }
    }

    /// The name
    pub fn name(&self) -> (r: &'a str)
        ensures
            r == self.spec_name(),
    {
        self.name
    }

    /// The value
    pub fn value(&self) -> (r: &'a str)
        ensures
            r == self.spec_value(),
    {
        self.value
    }
}

} // verus!
