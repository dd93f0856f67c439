//! The rules by which one stream is drained: which record is handled next,
//! and what follows from how that went.
//!
//! The consumer decides and keeps the cursor; whoever runs it reads the
//! batches, calls the handler, inserts the row, writes the log line and
//! sends the acknowledgement that a verdict asks for.

use vstd::prelude::*;
use crate::handlers::HandleError;

verus! {

/// What to do with the stream when the row of a well-formed record could not
/// be stored.
#[derive(Debug, Clone, Copy, PartialEq, Eq, Structural)]
pub enum FailurePolicy {
    /// Try the same record again after a pause.
    Retry,
    /// Give the stream up; the other streams go on.
    Stop,
}

/// How the handling of one record went.
#[derive(Debug, Clone, Copy, PartialEq, Eq, Structural)]
pub enum Outcome {
    /// The record is no event of the stream's kind.
    Undecodable,
    /// The row was inserted.
    Stored,
    /// The store refused the row or could not be reached.
    StoreFailed,
}

/// What the consumer does after a record.
#[derive(Debug, Clone, Copy, PartialEq, Eq, Structural)]
pub enum Next {
    /// Go on with the record that follows.
    Advance,
    /// Handle the same record again.
    Repeat,
    /// Handle no more records of this stream.
    Stop,
}

/// What follows from the outcome of one record.
#[derive(Debug, Clone, Copy, PartialEq, Eq, Structural)]
pub struct Verdict {
    /// Write one log line about the failure, before anything else.
    pub log: bool,
    /// Acknowledge the record.
    pub acknowledge: bool,
    /// Where the cursor goes.
    pub next: Next,
}

/// What the consumer wants done now.
#[derive(Debug, Clone, Copy, PartialEq, Eq, Structural)]
pub enum Action {
    /// Read the next batch.
    Fetch,
    /// Handle the record at this place of the batch.
    Handle(usize),
    /// Nothing more: the stream was given up.
    Halt,
}

/// What to do with what a handler returned.
#[derive(Debug, Clone, Copy, PartialEq, Eq, Structural)]
pub enum Step {
    /// There is a row: insert it and report how that went.
    Insert,
    /// The record is a poison pill: its outcome is `Undecodable`.
    Discard,
    /// The decimal formats disagree: end the process.
    Abort,
}

/// The verdict on an outcome under a policy: a record is acknowledged exactly
/// where it was stored or can never be decoded, and every failure is logged.
pub open spec fn verdict_of(policy: FailurePolicy, outcome: Outcome) -> Verdict {
    match outcome {
        Outcome::Undecodable => Verdict { log: true, acknowledge: true, next: Next::Advance },
        Outcome::Stored => Verdict { log: false, acknowledge: true, next: Next::Advance },
        Outcome::StoreFailed => Verdict {
            log: true,
            acknowledge: false,
            next: match policy {
                FailurePolicy::Retry => Next::Repeat,
                FailurePolicy::Stop => Next::Stop,
            },
        },
    }
}

/// Decides what follows from an outcome.
pub fn verdict(policy: FailurePolicy, outcome: Outcome) -> (r: Verdict)
    ensures
        r == verdict_of(policy, outcome),
{
    match outcome {
        Outcome::Undecodable => Verdict { log: true, acknowledge: true, next: Next::Advance },
        Outcome::Stored => Verdict { log: false, acknowledge: true, next: Next::Advance },
        Outcome::StoreFailed => Verdict {
            log: true,
            acknowledge: false,
            next: match policy {
                FailurePolicy::Retry => Next::Repeat,
                FailurePolicy::Stop => Next::Stop,
            },
        },
    }
}

/// Decides what to do with what a handler returned.
pub fn step_for<R>(handled: &Result<R, HandleError>) -> (r: Step)
    ensures
        r == match *handled {
            Ok(_) => Step::Insert,
            Err(HandleError::Decode(_)) => Step::Discard,
            Err(HandleError::Precision) => Step::Abort,
        },
{
    match handled {
        Ok(_) => Step::Insert,
        Err(HandleError::Decode(_)) => Step::Discard,
        Err(HandleError::Precision) => Step::Abort,
    }
}

/// The consumer of one stream: its policy, the length of the batch at hand
/// and the place of the record that is handled next.
#[derive(Debug, Clone, Copy, PartialEq, Eq, Structural)]
pub struct Consumer {
    pub policy: FailurePolicy,
    pub len: usize,
    pub cursor: usize,
    pub stopped: bool,
}

impl Consumer {
    /// The cursor is within the batch or just behind it.
    pub open spec fn wf(self) -> bool {
        self.cursor <= self.len
    }

    /// What the consumer wants done now.
    pub open spec fn action(self) -> Action {
        if self.stopped {
            Action::Halt
        } else if self.cursor < self.len {
            Action::Handle(self.cursor)
        } else {
            Action::Fetch
        }
    }

    /// The consumer after the record under the cursor had `outcome`. A
    /// consumer that is not handling a record stays as it is.
    pub open spec fn after(self, outcome: Outcome) -> Consumer {
        if self.action() is Handle {
            match verdict_of(self.policy, outcome).next {
                Next::Advance => Consumer { cursor: (self.cursor + 1) as usize, ..self },
                Next::Repeat => self,
                Next::Stop => Consumer { stopped: true, ..self },
            }
        } else {
            self
        }
    }

    /// The consumer after the first `k` of a run of outcomes.
    pub open spec fn after_run(self, outcomes: Seq<Outcome>, k: nat) -> Consumer
        decreases k,
    {
        if k == 0 || k > outcomes.len() {
            self
        } else {
            self.after_run(outcomes, (k - 1) as nat).after(outcomes[k - 1])
        }
    }

    /// A consumer that has no batch yet.
    pub fn new(policy: FailurePolicy) -> (r: Consumer)
        ensures
            r == (Consumer { policy, len: 0, cursor: 0, stopped: false }),
            r.wf(),
            r.action() == Action::Fetch,
    {
        Consumer { policy, len: 0, cursor: 0, stopped: false }
    }

    /// What to do now.
    pub fn next(&self) -> (r: Action)
        ensures
            r == self.action(),
    {
        if self.stopped {
            Action::Halt
        } else if self.cursor < self.len {
            Action::Handle(self.cursor)
        } else {
            Action::Fetch
        }
    }

    /// Takes a batch of `len` records in. A consumer that did not ask for one
    /// stays as it is and says so.
    pub fn begin_batch(&mut self, len: usize) -> (taken: bool)
        ensures
            taken == (old(self).action() == Action::Fetch),
            taken ==> *final(self) == (Consumer { len, cursor: 0, ..*old(self) }),
            !taken ==> *final(self) == *old(self),
            old(self).wf() ==> final(self).wf(),
    {
        if !self.stopped && self.cursor >= self.len {
            self.len = len;
            self.cursor = 0;
            true
        } else {
            false
        }
    }

    /// Takes the outcome of the record under the cursor in and says what
    /// follows from it. There is no verdict where no record is being
    /// handled.
    pub fn settle(&mut self, outcome: Outcome) -> (r: Option<Verdict>)
        ensures
            old(self).wf() ==> final(self).wf(),
            *final(self) == old(self).after(outcome),
            r == (if old(self).action() is Handle {
                Some(verdict_of(old(self).policy, outcome))
            } else {
                None
            }),
    {
        if self.stopped || self.cursor >= self.len {
            return None;
        }
        let v = verdict(self.policy, outcome);
        match v.next {
            Next::Advance => {
                self.cursor = self.cursor + 1;
            },
            Next::Repeat => {},
            Next::Stop => {
                self.stopped = true;
            },
        }
        Some(v)
    }
}

/// A record that cannot be decoded is logged once and acknowledged, and the
/// consumer goes on with the record that follows it.
pub proof fn lemma_poison_pill_is_discarded(c: Consumer, i: usize)
    requires
        c.wf(),
        c.action() == Action::Handle(i),
    ensures
        verdict_of(c.policy, Outcome::Undecodable) == (Verdict {
            log: true,
            acknowledge: true,
            next: Next::Advance,
        }),
        c.after(Outcome::Undecodable).wf(),
        c.after(Outcome::Undecodable).cursor == i + 1,
        !c.after(Outcome::Undecodable).stopped,
        i + 1 < c.len ==> c.after(Outcome::Undecodable).action() == Action::Handle((i + 1) as usize),
        i + 1 == c.len ==> c.after(Outcome::Undecodable).action() == Action::Fetch,
{
}

/// A record whose row could not be stored is never acknowledged, whatever
/// the policy: it is logged, and the cursor stays on it.
pub proof fn lemma_failed_store_is_not_acknowledged(c: Consumer)
    requires
        c.wf(),
    ensures
        !verdict_of(c.policy, Outcome::StoreFailed).acknowledge,
        verdict_of(c.policy, Outcome::StoreFailed).log,
        c.after(Outcome::StoreFailed).cursor == c.cursor,
{
}

/// A record is acknowledged exactly where the consumer moves past it, and
/// that is exactly where it was stored or cannot be decoded.
pub proof fn lemma_acknowledged_iff_done(policy: FailurePolicy, outcome: Outcome)
    ensures
        verdict_of(policy, outcome).acknowledge <==> verdict_of(policy, outcome).next
            == Next::Advance,
        verdict_of(policy, outcome).acknowledge <==> outcome != Outcome::StoreFailed,
        verdict_of(policy, outcome).log <==> outcome != Outcome::Stored,
{
}

/// Over any run of outcomes the cursor never moves back, moves by one record
/// at most, and moves exactly where the record under it was acknowledged.
pub proof fn lemma_cursor_moves_in_order(c: Consumer, outcomes: Seq<Outcome>, k: nat)
    requires
        c.wf(),
        k < outcomes.len(),
    ensures
        c.after_run(outcomes, k).wf(),
        c.after_run(outcomes, k).len == c.len,
        c.after_run(outcomes, k + 1) == c.after_run(outcomes, k).after(outcomes[k as int]),
        c.after_run(outcomes, k).cursor <= c.after_run(outcomes, k + 1).cursor <= c.after_run(
            outcomes,
            k,
        ).cursor + 1,
        c.after_run(outcomes, k + 1).cursor == c.after_run(outcomes, k).cursor + 1 <==> (
        c.after_run(outcomes, k).action() is Handle && verdict_of(
            c.policy,
            outcomes[k as int],
        ).acknowledge),
    decreases k,
{
    if k > 0 {
        lemma_cursor_moves_in_order(c, outcomes, (k - 1) as nat);
    }
    lemma_policy_is_kept(c, outcomes, k);
}

/// No run of outcomes changes the policy.
pub proof fn lemma_policy_is_kept(c: Consumer, outcomes: Seq<Outcome>, k: nat)
    ensures
        c.after_run(outcomes, k).policy == c.policy,
    decreases k,
{
    if k > 0 && k <= outcomes.len() {
        lemma_policy_is_kept(c, outcomes, (k - 1) as nat);
    }
}

/// Over any run of outcomes the cursor never moves back.
pub proof fn lemma_cursor_never_moves_back(c: Consumer, outcomes: Seq<Outcome>, j: nat, k: nat)
    requires
        c.wf(),
        j <= k <= outcomes.len(),
    ensures
        c.after_run(outcomes, j).cursor <= c.after_run(outcomes, k).cursor,
    decreases k - j,
{
    if j < k {
        lemma_cursor_moves_in_order(c, outcomes, (k - 1) as nat);
        lemma_cursor_never_moves_back(c, outcomes, j, (k - 1) as nat);
    }
}

/// Within a batch a record is acknowledged once at most: after the step that
/// acknowledged it, the consumer never asks for it again.
pub proof fn lemma_acknowledged_once(c: Consumer, outcomes: Seq<Outcome>, j: nat, k: nat, a: usize)
    requires
        c.wf(),
        j < k <= outcomes.len(),
        c.after_run(outcomes, j).action() == Action::Handle(a),
        verdict_of(c.policy, outcomes[j as int]).acknowledge,
    ensures
        c.after_run(outcomes, k).action() != Action::Handle(a),
{
    lemma_cursor_moves_in_order(c, outcomes, j);
    lemma_cursor_never_moves_back(c, outcomes, j + 1, k);
}

/// Records are handled in the order of the batch: when the cursor stands on
/// a record, every record between the start and that one has been handled
/// before, at a step that ended with its acknowledgement.
pub proof fn lemma_handled_in_arrival_order(c: Consumer, outcomes: Seq<Outcome>, k: nat, a: nat)
    requires
        c.wf(),
        k <= outcomes.len(),
        c.cursor <= a < c.after_run(outcomes, k).cursor,
    ensures
        exists|j: nat|
            j < k && (#[trigger] c.after_run(outcomes, j)).action() == Action::Handle(a as usize)
                && verdict_of(c.policy, outcomes[j as int]).acknowledge,
    decreases k,
{
    if k == 0 {
    } else {
        let j = (k - 1) as nat;
        lemma_cursor_moves_in_order(c, outcomes, j);
        let before = c.after_run(outcomes, j);
        if a < before.cursor {
            lemma_handled_in_arrival_order(c, outcomes, j, a);
        } else {
            assert(before.cursor == a);
            assert(before.action() == Action::Handle(a as usize));
        }
    }
}

} // verus!
