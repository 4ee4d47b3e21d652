//! What the service is to do when a new item collides with an existing one.

use vstd::prelude::*;

verus! {

/// The conflict resolution behavior for actions that create a new item.
#[derive(Clone, Copy, Debug, PartialEq, Eq, Structural)]
pub enum ConflictBehavior {
    /// Make the request fail.
    Fail,
    /// **DANGER**: Replace the existing item.
    Replace,
    /// Rename the newly created item to another name.
    ///
    /// The new name is not specified and usually can be retrieved from the
    /// response.
    Rename,
}

impl ConflictBehavior {
    /// The value that names this behavior in a write request.
    pub open spec fn wire_value(self) -> Seq<char> {
        match self {
            ConflictBehavior::Fail => "fail"@,
            ConflictBehavior::Replace => "replace"@,
            ConflictBehavior::Rename => "rename"@,
        }
    }

    /// The value that names this behavior in a write request: exactly
    /// `fail`, `replace` or `rename`.
    pub fn as_str(&self) -> (s: &'static str)
        ensures
            s@ == self.wire_value(),
    {
        match self {
            ConflictBehavior::Fail => "fail",
            ConflictBehavior::Replace => "replace",
            ConflictBehavior::Rename => "rename",
        }
    }
}

/// Two behaviors with the same wire value are the same behavior.
pub proof fn lemma_wire_value_names_one_behavior(a: ConflictBehavior, b: ConflictBehavior)
    requires
        a.wire_value() == b.wire_value(),
    ensures
        a == b,
{
    reveal_strlit("fail");
    reveal_strlit("replace");
    reveal_strlit("rename");
    assert("fail"@.len() == 4 && "replace"@.len() == 7 && "rename"@.len() == 6);
}

} // verus!
