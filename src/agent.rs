//! The conversation history of the coding assistant, and its placeholder
//! test generator and validator.
use vstd::prelude::*;

verus! {

#[derive(Debug)]
pub struct AgentMessage {
    pub id: String,
    /// `user` or `assistant`.
    pub role: String,
    pub content: String,
    pub timestamp: String,
}

impl Clone for AgentMessage {
    fn clone(&self) -> (r: Self)
        ensures
            r == *self,
    {
        AgentMessage {
            id: self.id.clone(),
            role: self.role.clone(),
            content: self.content.clone(),
            timestamp: self.timestamp.clone(),
        }
    }
}

/// The messages exchanged so far, oldest first.
#[derive(Debug)]
pub struct AgentHistory {
    pub messages: Vec<AgentMessage>,
}

impl AgentHistory {
    pub fn new() -> (r: Self)
        ensures
            r.messages@.len() == 0,
    {
        AgentHistory { messages: Vec::new() }
    }

    /// Appends a message.
    pub fn add_message(&mut self, message: AgentMessage)
        ensures
            final(self).messages@ == old(self).messages@.push(message),
    {
        self.messages.push(message);
    }

    /// A copy of the history.
    pub fn get_history(&self) -> (r: AgentHistory)
        ensures
            r.messages@ == self.messages@,
    {
        let messages = self.messages.clone();
        proof {
            assert(messages@ =~= self.messages@);
        }
        AgentHistory { messages }
    }
}

/// Test generation is not offered yet; the answer says so.
pub fn generate_tests() -> (r: Result<String, String>)
    ensures
        match r {
            Ok(t) => t@ == "Test generation not yet implemented"@,
            Err(_) => false,
        },
{
    Ok("Test generation not yet implemented".to_owned())
}

/// Code validation is not offered yet; every text is accepted.
pub fn validate_code(code: &str) -> (r: Result<bool, String>)
    ensures
        r == Ok::<bool, String>(true),
{
    Ok(true)
}

} // verus!
