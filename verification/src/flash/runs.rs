//! Whole commands: the operations that a command issues as the replies come
//! in, the outcome it ends with, and what the operations do to the control
//! register.

use vstd::prelude::*;
use crate::flash::protocol::{Error, Op, Reply, Security, Status, FLASH_KEY1, FLASH_KEY2};
use crate::flash::state::{Command, Phase, Sequencer};

verus! {

/// The bits of a control register that the commands set and clear.
pub struct Control {
    /// The lock bit is set: the controller takes no command.
    pub locked: bool,
    /// The program-enable bit is set.
    pub program: bool,
    /// The page-erase bit is set.
    pub page_erase: bool,
}

impl Op {
    /// Whether the operation goes to the registers of `domain`, or to memory.
    pub open spec fn targets(self, domain: Option<Security>) -> bool {
        match self {
            Op::WriteKey { domain: to, .. } => to == domain,
            Op::ReadLock { domain: to } => to == domain,
            Op::ReadStatus { domain: to } => to == domain,
            Op::SetLock { domain: to } => to == domain,
            Op::SelectPage { domain: to, .. } => to == domain,
            Op::ClearPageErase { domain: to } => to == domain,
            Op::SelectBank { domain: to, .. } => to == domain,
            Op::Start { domain: to } => to == domain,
            Op::SetProgram { domain: to } => to == domain,
            Op::ClearProgram { domain: to } => to == domain,
            Op::ClearCompletion { domain: to } => to == domain,
            Op::WriteWord { .. } => true,
        }
    }

    /// The control register after the operation. A key may open the lock,
    /// so after one the register no longer counts as locked.
    pub open spec fn effect(self, control: Control) -> Control {
        match self {
            Op::WriteKey { .. } => Control { locked: false, ..control },
            Op::SetLock { .. } => Control { locked: true, ..control },
            Op::SetProgram { .. } => Control { program: true, ..control },
            Op::ClearProgram { .. } => Control { program: false, ..control },
            Op::SelectPage { .. } => Control { page_erase: true, ..control },
            Op::ClearPageErase { .. } => Control { page_erase: false, ..control },
            _ => control,
        }
    }
}

/// The control register after `ops`, in order.
pub open spec fn control_after(control: Control, ops: Seq<Op>) -> Control
    decreases ops.len(),
{
    if ops.len() == 0 {
        control
    } else {
        control_after(ops[0].effect(control), ops.drop_first())
    }
}

impl Sequencer {
    /// The operations of a run: the one that is pending in this state, and
    /// each one that the sequencer asks for as `replies` come in.
    pub open spec fn trace(self, replies: Seq<Reply>) -> Seq<Op>
        decreases replies.len(),
    {
        match self.pending() {
            None => Seq::empty(),
            Some(op) => if replies.len() == 0 {
                seq![op]
            } else {
                seq![op] + self.advance(replies[0]).trace(replies.drop_first())
            },
        }
    }

    /// The outcome of a run, if `replies` answer the operations one by one
    /// and the last of them ends the command.
    pub open spec fn finish(self, replies: Seq<Reply>) -> Option<Result<(), Error>>
        decreases replies.len(),
    {
        if replies.len() == 0 || !self.accepts(replies[0]) {
            None
        } else if self.advance(replies[0]).phase is Idle {
            if replies.len() == 1 {
                Some(self.outcome(replies[0]))
            } else {
                None
            }
        } else {
            self.advance(replies[0]).finish(replies.drop_first())
        }
    }
}

/// Every operation of a command goes to the command's own domain: no key,
/// bit or flag of one domain is written to the other's registers.
pub proof fn lemma_trace_keeps_domain(state: Sequencer, replies: Seq<Reply>, i: int)
    requires
        0 <= i < state.trace(replies).len(),
    ensures
        state.trace(replies)[i].targets(state.domain),
    decreases replies.len(),
{
    if replies.len() > 0 && i > 0 {
        lemma_trace_keeps_domain(state.advance(replies[0]), replies.drop_first(), i - 1);
    }
}

/// The control register after a run is the register after the run's first
/// operation and then the rest of the run.
proof fn lemma_control_unfolds(state: Sequencer, replies: Seq<Reply>, control: Control)
    requires
        replies.len() > 0,
        state.pending() is Some,
    ensures
        control_after(control, state.trace(replies)) == control_after(
            state.pending()->0.effect(control),
            state.advance(replies[0]).trace(replies.drop_first()),
        ),
{
    let op = state.pending()->0;
    let rest = state.advance(replies[0]).trace(replies.drop_first());
    assert(state.trace(replies) == seq![op] + rest);
    assert((seq![op] + rest).drop_first() =~= rest);
}

impl Sequencer {
    /// Whether the command has reached the write that sets its enable bit,
    /// and not yet completed the write that clears it.
    pub open spec fn enabling(self) -> bool {
        self.phase is Select || self.phase is SelectSecond || self.phase is Start
            || self.programming() || self.phase is Disable
    }
}

/// A command other than `unlock` that runs to its end leaves the lock bit
/// set, whatever its outcome and whatever the register held before.
pub proof fn lemma_finished_run_is_locked(state: Sequencer, replies: Seq<Reply>, control: Control)
    requires
        state.wf(),
        !(state.command is Unlock),
        state.finish(replies) is Some,
    ensures
        control_after(control, state.trace(replies)).locked,
    decreases replies.len(),
{
    let next = state.advance(replies[0]);
    let after = state.pending()->0.effect(control);
    lemma_control_unfolds(state, replies, control);
    if !(next.phase is Idle) {
        lemma_finished_run_is_locked(next, replies.drop_first(), after);
    }
}

/// A command that runs to its end leaves no enable bit set that it set
/// itself. The program-enable bit is set afterwards only if it was set
/// before and the command failed before it began to write; the same holds of
/// the page-erase bit on hardware with one set of registers, where software
/// clears it.
pub proof fn lemma_finished_run_clears_enables(state: Sequencer, replies: Seq<Reply>, control: Control)
    requires
        state.wf(),
        state.finish(replies) is Some,
    ensures
        ({
            let end = control_after(control, state.trace(replies));
            let ok = state.finish(replies) == Some(Ok::<(), Error>(()));
            &&& end.program ==> control.program
            &&& state.command is WritePage && (state.enabling() || (state.entering() && ok))
                ==> !end.program
            &&& !(state.command is ErasePage) ==> end.page_erase == control.page_erase
            &&& state.domain is None ==> {
                &&& end.page_erase ==> control.page_erase
                &&& state.command is ErasePage && (state.enabling() || (state.entering() && ok))
                    ==> !end.page_erase
            }
        }),
    decreases replies.len(),
{
    let next = state.advance(replies[0]);
    let after = state.pending()->0.effect(control);
    lemma_control_unfolds(state, replies, control);
    if !(next.phase is Idle) {
        lemma_finished_run_clears_enables(next, replies.drop_first(), after);
        if next.phase is Relock {
            let last = replies.drop_first();
            assert(next.advance(last[0]).phase is Idle);
            assert(next.finish(last) == Some(next.outcome(last[0])));
        }
    }
}

/// A run on a first reply and the replies after it is one step and then
/// the run on the replies after it.
pub proof fn lemma_run_unfolds(state: Sequencer, first: Reply, rest: Seq<Reply>)
    requires
        state.accepts(first),
    ensures
        state.trace(seq![first] + rest) == seq![state.pending()->0] + state.advance(first).trace(rest),
        !(state.advance(first).phase is Idle) ==> state.finish(seq![first] + rest) == state.advance(
            first,
        ).finish(rest),
        state.advance(first).phase is Idle ==> state.finish(seq![first] + rest) == if rest.len() == 0 {
            Some(state.outcome(first))
        } else {
            None
        },
{
    let replies = seq![first] + rest;
    assert(replies[0] == first);
    assert(replies.drop_first() =~= rest);
}

/// The replies of a run that passes the keys and then finds the status
/// register as `status`.
pub open spec fn replies_until_status(status: Status) -> Seq<Reply> {
    seq![Reply::Written, Reply::Written, Reply::Lock(false), Reply::Status(status)]
}

/// The operations with which every command but `lock` begins: both keys,
/// then a read of the lock bit.
pub open spec fn key_sequence(domain: Option<Security>) -> Seq<Op> {
    seq![
        Op::WriteKey { domain, key: FLASH_KEY1 },
        Op::WriteKey { domain, key: FLASH_KEY2 },
        Op::ReadLock { domain },
    ]
}

/// `unlock` writes the first key, then the second, and reads the lock bit
/// once. It succeeds if the bit is clear, and fails with `Failure` if the
/// bit is still set.
pub proof fn lemma_unlock_run(domain: Option<Security>, locked: bool)
    ensures
        ({
            let state = Sequencer::begin(domain, Command::Unlock, Seq::empty());
            let replies = seq![Reply::Written, Reply::Written, Reply::Lock(locked)];
            &&& state.trace(replies) == key_sequence(domain)
            &&& state.finish(replies) == Some(
                if locked {
                    Err::<(), Error>(Error::Failure)
                } else {
                    Ok::<(), Error>(())
                },
            )
        }),
{
    let state = Sequencer::begin(domain, Command::Unlock, Seq::empty());
    let second = state.advance(Reply::Written);
    let third = second.advance(Reply::Written);
    let last = Reply::Lock(locked);
    let replies = seq![Reply::Written, Reply::Written, last];
    assert(replies =~= seq![Reply::Written] + seq![Reply::Written, last]);
    assert(seq![Reply::Written, last] =~= seq![Reply::Written] + seq![last]);
    assert(seq![last] =~= seq![last] + Seq::<Reply>::empty());
    lemma_run_unfolds(state, Reply::Written, seq![Reply::Written, last]);
    lemma_run_unfolds(second, Reply::Written, seq![last]);
    lemma_run_unfolds(third, last, Seq::empty());
    assert(state.trace(replies) =~= key_sequence(domain));
}

/// `lock` is one write, which sets the lock bit, and cannot fail.
pub proof fn lemma_lock_run(domain: Option<Security>)
    ensures
        ({
            let state = Sequencer::begin(domain, Command::Lock, Seq::empty());
            &&& state.trace(seq![Reply::Written]) == seq![Op::SetLock { domain }]
            &&& state.finish(seq![Reply::Written]) == Some(Ok::<(), Error>(()))
        }),
{
    let state = Sequencer::begin(domain, Command::Lock, Seq::empty());
    assert(seq![Reply::Written] =~= seq![Reply::Written] + Seq::<Reply>::empty());
    lemma_run_unfolds(state, Reply::Written, Seq::empty());
    assert(state.trace(seq![Reply::Written]) =~= seq![Op::SetLock { domain }]);
}

/// After `unlock` and then `lock`, the lock bit is set: whether or not the
/// keys were taken, and whatever the register held before.
pub proof fn lemma_unlock_then_lock(domain: Option<Security>, control: Control)
    ensures
        control_after(control, key_sequence(domain) + seq![Op::SetLock { domain }]).locked,
{
    let ops = key_sequence(domain) + seq![Op::SetLock { domain }];
    reveal_with_fuel(control_after, 5);
    let first = ops.drop_first();
    let second = first.drop_first();
    let third = second.drop_first();
    assert(third.drop_first().len() == 0);
}

/// The outcome that the first replies of an erase or a write decide: the
/// third says whether the keys were taken, the fourth whether the
/// controller is busy, the fifth whether an earlier error is pending.
pub open spec fn entry_outcome(replies: Seq<Reply>) -> Result<(), Error> {
    if replies[2].locked() {
        Err(Error::Failure)
    } else if replies[3].busy() {
        Err(Error::Busy)
    } else if replies[4].has_error() {
        Err(Error::Illegal)
    } else {
        Ok(())
    }
}

/// Once an erase or a write has passed its entry checks, it can only succeed.
pub proof fn lemma_no_failure_after_entry(state: Sequencer, replies: Seq<Reply>)
    requires
        state.wf(),
        state.mutating(),
        state.enabling() || state.phase == Phase::Relock(Ok(())),
        state.finish(replies) is Some,
    ensures
        state.finish(replies) == Some(Ok::<(), Error>(())),
    decreases replies.len(),
{
    let next = state.advance(replies[0]);
    if !(next.phase is Idle) {
        lemma_no_failure_after_entry(next, replies.drop_first());
    }
}

/// An erase or a write fails only at its entry, and for one of three
/// reasons: with `Failure` if the lock bit is still set after the keys,
/// else with `Busy` if the controller is busy, else with `Illegal` if an
/// error flag is set. Every other run that ends, ends in success.
pub proof fn lemma_outcome_decided_at_entry(
    domain: Option<Security>,
    command: Command,
    data: Seq<u64>,
    replies: Seq<Reply>,
)
    requires
        Sequencer::begin(domain, command, data).wf(),
        Sequencer::begin(domain, command, data).mutating(),
        Sequencer::begin(domain, command, data).finish(replies) is Some,
    ensures
        replies.len() >= 4,
        Sequencer::begin(domain, command, data).finish(replies) == Some(entry_outcome(replies)),
{
    let state = Sequencer::begin(domain, command, data);
    let rest1 = replies.drop_first();
    let rest2 = rest1.drop_first();
    let rest3 = rest2.drop_first();
    let rest4 = rest3.drop_first();
    let second = state.advance(replies[0]);
    let third = second.advance(rest1[0]);
    let fourth = third.advance(rest2[0]);
    assert(state.finish(replies) == second.finish(rest1));
    assert(second.finish(rest1) == third.finish(rest2));
    assert(third.finish(rest2) == fourth.finish(rest3));
    let fifth = fourth.advance(rest3[0]);
    if replies[2].locked() {
        assert(fifth.phase is Idle);
    } else {
        assert(fourth.finish(rest3) == fifth.finish(rest4));
        let sixth = fifth.advance(rest4[0]);
        if replies[3].busy() {
            assert(sixth.phase is Idle);
        } else {
            let rest5 = rest4.drop_first();
            assert(fifth.finish(rest4) == sixth.finish(rest5));
            if replies[4].has_error() {
                assert(sixth.advance(rest5[0]).phase is Idle);
            } else {
                lemma_no_failure_after_entry(sixth, rest5);
            }
        }
    }
}

/// If the lock bit is still set after the keys, an erase or a write sets
/// the lock bit and fails with `Failure`, having touched nothing else.
pub proof fn lemma_keys_refused(domain: Option<Security>, command: Command, data: Seq<u64>)
    requires
        Sequencer::begin(domain, command, data).wf(),
        Sequencer::begin(domain, command, data).mutating(),
    ensures
        ({
            let state = Sequencer::begin(domain, command, data);
            let replies = seq![Reply::Written, Reply::Written, Reply::Lock(true), Reply::Written];
            &&& state.trace(replies) == key_sequence(domain) + seq![Op::SetLock { domain }]
            &&& state.finish(replies) == Some(Err::<(), Error>(Error::Failure))
        }),
{
    let state = Sequencer::begin(domain, command, data);
    let replies = seq![Reply::Written, Reply::Written, Reply::Lock(true), Reply::Written];
    let tail1 = seq![Reply::Written, Reply::Lock(true), Reply::Written];
    let tail2 = seq![Reply::Lock(true), Reply::Written];
    let tail3 = seq![Reply::Written];
    assert(replies =~= seq![Reply::Written] + tail1);
    assert(tail1 =~= seq![Reply::Written] + tail2);
    assert(tail2 =~= seq![Reply::Lock(true)] + tail3);
    assert(tail3 =~= seq![Reply::Written] + Seq::<Reply>::empty());
    let second = state.advance(Reply::Written);
    let third = second.advance(Reply::Written);
    let fourth = third.advance(Reply::Lock(true));
    lemma_run_unfolds(state, Reply::Written, tail1);
    lemma_run_unfolds(second, Reply::Written, tail2);
    lemma_run_unfolds(third, Reply::Lock(true), tail3);
    lemma_run_unfolds(fourth, Reply::Written, Seq::empty());
    assert(state.trace(replies) =~= key_sequence(domain) + seq![Op::SetLock { domain }]);
}

/// If the controller is busy when an erase or a write begins, the command
/// sets the lock bit and fails with `Busy`: after the keys it reads the
/// status once and writes nothing but the lock bit.
pub proof fn lemma_busy_at_entry(
    domain: Option<Security>,
    command: Command,
    data: Seq<u64>,
    status: Status,
)
    requires
        Sequencer::begin(domain, command, data).wf(),
        Sequencer::begin(domain, command, data).mutating(),
        status.busy,
    ensures
        ({
            let state = Sequencer::begin(domain, command, data);
            let replies = replies_until_status(status) + seq![Reply::Written];
            &&& state.trace(replies) == key_sequence(domain) + seq![
                Op::ReadStatus { domain },
                Op::SetLock { domain },
            ]
            &&& state.finish(replies) == Some(Err::<(), Error>(Error::Busy))
        }),
{
    let state = Sequencer::begin(domain, command, data);
    let found = Reply::Status(status);
    let replies = replies_until_status(status) + seq![Reply::Written];
    let tail1 = seq![Reply::Written, Reply::Lock(false), found, Reply::Written];
    let tail2 = seq![Reply::Lock(false), found, Reply::Written];
    let tail3 = seq![found, Reply::Written];
    let tail4 = seq![Reply::Written];
    assert(replies =~= seq![Reply::Written] + tail1);
    assert(tail1 =~= seq![Reply::Written] + tail2);
    assert(tail2 =~= seq![Reply::Lock(false)] + tail3);
    assert(tail3 =~= seq![found] + tail4);
    assert(tail4 =~= seq![Reply::Written] + Seq::<Reply>::empty());
    let second = state.advance(Reply::Written);
    let third = second.advance(Reply::Written);
    let fourth = third.advance(Reply::Lock(false));
    let fifth = fourth.advance(found);
    lemma_run_unfolds(state, Reply::Written, tail1);
    lemma_run_unfolds(second, Reply::Written, tail2);
    lemma_run_unfolds(third, Reply::Lock(false), tail3);
    lemma_run_unfolds(fourth, found, tail4);
    lemma_run_unfolds(fifth, Reply::Written, Seq::empty());
    assert(state.trace(replies) =~= key_sequence(domain) + seq![
        Op::ReadStatus { domain },
        Op::SetLock { domain },
    ]);
}

/// If an earlier command left an error flag set, an erase or a write sets
/// the lock bit and fails with `Illegal`: after the keys it reads the status
/// twice and writes nothing but the lock bit. The flag stays as it is.
pub proof fn lemma_error_at_entry(
    domain: Option<Security>,
    command: Command,
    data: Seq<u64>,
    free: Status,
    failed: Status,
)
    requires
        Sequencer::begin(domain, command, data).wf(),
        Sequencer::begin(domain, command, data).mutating(),
        !free.busy,
        failed.has_error(),
    ensures
        ({
            let state = Sequencer::begin(domain, command, data);
            let replies = replies_until_status(free) + seq![Reply::Status(failed), Reply::Written];
            &&& state.trace(replies) == key_sequence(domain) + seq![
                Op::ReadStatus { domain },
                Op::ReadStatus { domain },
                Op::SetLock { domain },
            ]
            &&& state.finish(replies) == Some(Err::<(), Error>(Error::Illegal))
        }),
{
    let state = Sequencer::begin(domain, command, data);
    let found = Reply::Status(free);
    let error = Reply::Status(failed);
    let replies = replies_until_status(free) + seq![error, Reply::Written];
    let tail1 = seq![Reply::Written, Reply::Lock(false), found, error, Reply::Written];
    let tail2 = seq![Reply::Lock(false), found, error, Reply::Written];
    let tail3 = seq![found, error, Reply::Written];
    let tail4 = seq![error, Reply::Written];
    let tail5 = seq![Reply::Written];
    assert(replies =~= seq![Reply::Written] + tail1);
    assert(tail1 =~= seq![Reply::Written] + tail2);
    assert(tail2 =~= seq![Reply::Lock(false)] + tail3);
    assert(tail3 =~= seq![found] + tail4);
    assert(tail4 =~= seq![error] + tail5);
    assert(tail5 =~= seq![Reply::Written] + Seq::<Reply>::empty());
    let second = state.advance(Reply::Written);
    let third = second.advance(Reply::Written);
    let fourth = third.advance(Reply::Lock(false));
    let fifth = fourth.advance(found);
    let sixth = fifth.advance(error);
    lemma_run_unfolds(state, Reply::Written, tail1);
    lemma_run_unfolds(second, Reply::Written, tail2);
    lemma_run_unfolds(third, Reply::Lock(false), tail3);
    lemma_run_unfolds(fourth, found, tail4);
    lemma_run_unfolds(fifth, error, tail5);
    lemma_run_unfolds(sixth, Reply::Written, Seq::empty());
    assert(state.trace(replies) =~= key_sequence(domain) + seq![
        Op::ReadStatus { domain },
        Op::ReadStatus { domain },
        Op::SetLock { domain },
    ]);
}

/// A write that runs to its end leaves the lock bit set and the
/// program-enable bit as it found it or clear: on success, and on each of
/// the three failures. After a success the bit is clear; after a failure
/// it is set only if it was set before.
pub proof fn lemma_write_page_restores_control(
    domain: Option<Security>,
    address: usize,
    data: Seq<u64>,
    replies: Seq<Reply>,
    control: Control,
)
    requires
        Sequencer::begin(domain, Command::WritePage { address }, data).wf(),
        Sequencer::begin(domain, Command::WritePage { address }, data).finish(replies) is Some,
    ensures
        ({
            let state = Sequencer::begin(domain, Command::WritePage { address }, data);
            let end = control_after(control, state.trace(replies));
            &&& end.locked
            &&& end.program ==> control.program
            &&& state.finish(replies) == Some(Ok::<(), Error>(())) ==> !end.program
            &&& end.page_erase == control.page_erase
        }),
{
    let state = Sequencer::begin(domain, Command::WritePage { address }, data);
    lemma_finished_run_is_locked(state, replies, control);
    lemma_finished_run_clears_enables(state, replies, control);
}

} // verus!
