//! One in-flight asynchronous host operation: it identifies the requesting
//! script task and the native action being performed, and holds a
//! single-writer slot for exactly one terminal outcome. The slot is
//! write-once by contract: a settled operation cannot be settled again, so
//! no two native completions can write to the same slot.

use vstd::prelude::*;
use crate::ops::HostOp;

verus! {

/// The terminal outcome of one host operation as script sees it: a
/// marshalled value, or one generic error carrying a human-readable
/// message.
#[derive(Debug, PartialEq, Eq, Clone)]
pub enum OpResult {
    /// The operation's marshalled result.
    Value(String),
    /// The one script-visible error kind, with the native failure's text.
    Error(String),
}

/// One in-flight asynchronous operation.
#[derive(Debug, Clone)]
pub struct PendingOperation {
    task: u64,
    op: HostOp,
    outcome: Option<OpResult>,
}

impl PendingOperation {
    /// The requesting script task.
    pub closed spec fn task_spec(&self) -> u64 {
        self.task
    }

    /// The native action being performed.
    pub closed spec fn op_spec(&self) -> HostOp {
        self.op
    }

    /// Whether the terminal outcome has been written.
    pub closed spec fn is_settled(&self) -> bool {
        self.outcome is Some
    }

    /// The outcome written, if any.
    pub closed spec fn outcome_spec(&self) -> Option<OpResult> {
        self.outcome
    }

    /// Registers one asynchronous call of `op` by script task `task`; the
    /// outcome slot starts empty.
    pub fn register(task: u64, op: HostOp) -> (p: Self)
        ensures
            p.task_spec() == task,
            p.op_spec() == op,
            !p.is_settled(),
            p.outcome_spec() is None,
    {
        PendingOperation { task, op, outcome: None }
    }

    /// Writes the one terminal outcome. The slot is single-writer: only an
    /// unsettled operation can be settled, so at most one outcome is ever
    /// written.
    pub fn settle(&mut self, outcome: OpResult)
        requires
            !old(self).is_settled(),
        ensures
            final(self).is_settled(),
            final(self).outcome_spec() == Some(outcome),
            final(self).task_spec() == old(self).task_spec(),
            final(self).op_spec() == old(self).op_spec(),
    {
        self.outcome = Some(outcome);
    }

    /// Whether the outcome has been written, for the scheduler to test.
    pub fn settled(&self) -> (b: bool)
        ensures
            b == self.is_settled(),
    {
        match &self.outcome {
            Some(_) => true,
            None => false,
        }
    }

    /// Hands the outcome over to the engine's task representation,
    /// destroying the operation; `None` where it has not settled yet.
    pub fn deliver(self) -> (r: Option<OpResult>)
        ensures
            r == self.outcome_spec(),
    {
        self.outcome
    }
}

} // verus!
