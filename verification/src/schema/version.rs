//! The version label of a schema.

use vstd::prelude::*;

verus! {

/// The version of a schema, as free text.
#[derive(Debug, Clone, PartialEq, Eq)]
pub struct SchemaVersion(pub String);

impl View for SchemaVersion {
    type V = Seq<char>;

    open spec fn view(&self) -> Seq<char> {
        self.0@
    }
}

impl SchemaVersion {
    /// The version with the given text.
    pub fn new(version: &str) -> (made: Self)
        ensures
            made@ == version@,
    {
        SchemaVersion(version.to_owned())
    }

    /// The version's text.
    #[must_use]
    pub fn as_str(&self) -> (text: &str)
        ensures
            text@ == self@,
    {
        self.0.as_str()
    }

    /// The version's text, as a new string.
    pub fn to_string(&self) -> (text: String)
        ensures
            text@ == self@,
    {
        self.0.clone()
    }

    /// The version's text, owned.
    #[must_use]
    pub fn into_string(self) -> (text: String)
        ensures
            text@ == self@,
    {
        self.0
    }
}

} // verus!
