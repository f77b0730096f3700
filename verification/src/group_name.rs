//! The name of a group: what tells one group of tests from another.

use vstd::prelude::*;
use vstd::std_specs::cmp::PartialEqSpecImpl;
use vstd::std_specs::convert::FromSpecImpl;

verus! {

/// The name of a group. Two names are the same where their text is.
#[derive(Debug, Clone, Eq, Hash)]
pub struct GroupName(pub String);

impl GroupName {
    /// The text of the name.
    pub fn as_str(&self) -> (r: &str)
        ensures
            r@ == self.0@,
    {
        self.0.as_str()
    }

    /// A copy of the name.
    pub fn duplicate(&self) -> (r: GroupName)
        ensures
            r.0@ == self.0@,
    {
        GroupName(self.0.clone())
    }
}

impl PartialEq for GroupName {
    fn eq(&self, other: &Self) -> (r: bool) {
        self.0 == other.0
    }
}

impl PartialEqSpecImpl for GroupName {
    open spec fn obeys_eq_spec() -> bool {
        true
    }

    open spec fn eq_spec(&self, other: &Self) -> bool {
        self.0@ == other.0@
    }
}

impl From<String> for GroupName {
    fn from(name: String) -> (r: Self) {
        GroupName(name)
    }
}

impl FromSpecImpl<String> for GroupName {
    open spec fn obeys_from_spec() -> bool {
        true
    }

    open spec fn from_spec(name: String) -> Self {
        GroupName(name)
    }
}

impl From<GroupName> for String {
    fn from(name: GroupName) -> (r: Self) {
        name.0
    }
}

impl FromSpecImpl<GroupName> for String {
    open spec fn obeys_from_spec() -> bool {
        true
    }

    open spec fn from_spec(name: GroupName) -> Self {
        name.0
    }
}

} // verus!
