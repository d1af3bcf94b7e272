//! A greeting and a prioritized message.

use vstd::prelude::*;

verus! {

pub struct Greeting {
    pub text: String,
}

impl Greeting {
    /// A greeting with the given text.
    pub fn new(text: String) -> (g: Self)
        ensures
            g.text == text,
    {
        Greeting { text }
    }
}

pub struct Message {
    pub content: String,
    pub sender: String,
    pub priority: i32,
}

impl Message {
    /// A message at the default priority, zero.
    pub fn new(content: String, sender: String) -> (m: Self)
        ensures
            m.content == content,
            m.sender == sender,
            m.priority == 0,
    {
        Message { content, sender, priority: 0 }
    }

    /// A message at the given priority.
    pub fn with_priority(content: String, sender: String, priority: i32) -> (m: Self)
        ensures
            m.content == content,
            m.sender == sender,
            m.priority == priority,
    {
        Message { content, sender, priority }
    }
}

} // verus!
