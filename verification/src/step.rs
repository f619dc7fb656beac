//! How a handler's decision reads: a reply, or what has to be done for one.
//!
//! A question is a type of its own, whose method takes the answer and makes the
//! reply. A question about a node gives the node's handle.

use vstd::prelude::*;

verus! {

/// What a handler has come to.
#[derive(Debug, PartialEq)]
pub enum Step<Q, R> {
    /// This has to be asked; the reply is made from the answer.
    Ask(Q),
    /// This is the reply.
    Reply(R),
}

impl<Q, T> Step<Q, Result<T, ()>> {
    /// Asks `question` where there is one; where there is none, refuses without
    /// asking anything.
    pub open spec fn asks_else_refuses(self, question: Option<Q>) -> bool {
        match question {
            Some(question) => self == Step::<Q, Result<T, ()>>::Ask(question),
            None => self == Step::<Q, Result<T, ()>>::Reply(Err(())),
        }
    }
}

/// What a handler has come to when its reply waits for no answer.
#[derive(Debug, PartialEq)]
pub struct Outcome<A, R> {
    /// What is done before the reply is sent.
    pub action: Option<A>,
    pub reply: R,
}

} // verus!
