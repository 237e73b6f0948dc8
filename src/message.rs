use vstd::prelude::*;

verus! {

/// One turn of a conversation: who speaks (`system`, `user` or `assistant`)
/// and what is said.
#[derive(Debug, Clone)]
pub struct Message {
    pub role: String,
    pub content: String,
}

/// The role of the instruction message that opens every request.
pub open spec fn system_role() -> Seq<char> {
    "system"@
}

/// The role of a turn written by the person asking.
pub open spec fn user_role() -> Seq<char> {
    "user"@
}

/// The role of a turn written by the completion service.
pub open spec fn assistant_role() -> Seq<char> {
    "assistant"@
}

impl Message {
    /// A message with the given role and content.
    pub fn new(role: &str, content: &str) -> (r: Message)
        ensures
            r.role@ == role@,
            r.content@ == content@,
    {
        Message { role: String::from_str(role), content: String::from_str(content) }
    }

    /// A field-for-field copy of this message.
    pub fn copy(&self) -> (r: Message)
        ensures
            r == *self,
    {
        Message { role: self.role.clone(), content: self.content.clone() }
    }

    /// Whether this is the system message.
    pub fn is_system(&self) -> (r: bool)
        ensures
            r == (self.role@ == system_role()),
    {
        let system = String::from_str("system");
        self.role == system
    }
}

} // verus!
