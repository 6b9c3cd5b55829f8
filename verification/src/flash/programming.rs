//! What a command writes: the words that `write_page` puts into memory, and
//! the register writes of a mass erase and of a command that fails.

use vstd::prelude::*;
use crate::flash::address::Bank;
use crate::flash::protocol::{BanksToErase, Error, Op, Reply, Security, FLASH_KEY1, FLASH_KEY2};
use crate::flash::runs::lemma_no_failure_after_entry;
use crate::flash::state::{Command, Phase, Sequencer};
use crate::flash::words::{high_word, low_word};

verus! {

/// The writes to memory among `ops`, in order: each as its address and its word.
pub open spec fn memory_writes(ops: Seq<Op>) -> Seq<(int, u32)>
    decreases ops.len(),
{
    if ops.len() == 0 {
        Seq::empty()
    } else {
        let rest = memory_writes(ops.drop_first());
        match ops[0] {
            Op::WriteWord { address, value } => seq![(address as int, value)] + rest,
            _ => rest,
        }
    }
}

/// The words that program `data` from `address` on: word `k` goes to the
/// `k`-th word after `address`, and the low half of each double word comes
/// before its high half.
pub open spec fn programmed_words(address: int, data: Seq<u64>) -> Seq<(int, u32)> {
    Seq::new(
        2 * data.len(),
        |k: int|
            (
                address + 4 * k,
                if k % 2 == 0 {
                    low_word(data[k / 2])
                } else {
                    high_word(data[k / 2])
                },
            ),
    )
}

impl Sequencer {
    /// How many words of the data a write has written before the pending
    /// operation, if it goes on to succeed (`ok`) or fails at its entry.
    pub open spec fn words_written(self, ok: bool) -> int {
        match self.phase {
            Phase::LowWord => 2 * self.cursor as int,
            Phase::HighWord => 2 * self.cursor as int + 1,
            Phase::Wait | Phase::Completion | Phase::Acknowledge => 2 * self.cursor as int + 2,
            Phase::Disable | Phase::Relock(_) | Phase::Idle => 2 * self.data.len() as int,
            Phase::Select => 0,
            _ => if ok {
                0
            } else {
                2 * self.data.len() as int
            },
        }
    }
}

/// The memory writes of an operation and then others.
proof fn lemma_memory_writes_unfold(op: Op, rest: Seq<Op>)
    ensures
        memory_writes(seq![op] + rest) == match op {
            Op::WriteWord { address, value } => seq![(address as int, value)] + memory_writes(rest),
            _ => memory_writes(rest),
        },
{
    assert((seq![op] + rest).drop_first() =~= rest);
}

/// From any point of a write that runs to its end, the words that are
/// still written are the words of the data that were not written before.
proof fn lemma_write_page_writes_rest(state: Sequencer, replies: Seq<Reply>)
    requires
        state.wf(),
        state.command is WritePage,
        state.finish(replies) is Some,
    ensures
        ({
            let ok = state.finish(replies) == Some(Ok::<(), Error>(()));
            let words = programmed_words(state.command->address as int, state.data);
            &&& 0 <= state.words_written(ok) <= words.len()
            &&& memory_writes(state.trace(replies)) == words.skip(state.words_written(ok))
        }),
    decreases replies.len(),
{
    let ok = state.finish(replies) == Some(Ok::<(), Error>(()));
    let words = programmed_words(state.command->address as int, state.data);
    let written = state.words_written(ok);
    let next = state.advance(replies[0]);
    let op = state.pending()->0;
    let rest = next.trace(replies.drop_first());
    assert(state.trace(replies) == seq![op] + rest);
    lemma_memory_writes_unfold(op, rest);
    if next.phase is Idle {
        assert(rest =~= Seq::<Op>::empty());
        assert(memory_writes(rest) =~= Seq::<(int, u32)>::empty());
        assert(words.skip(written) =~= Seq::<(int, u32)>::empty());
    } else {
        lemma_write_page_writes_rest(next, replies.drop_first());
        if next.enabling() {
            lemma_no_failure_after_entry(next, replies.drop_first());
        }
        if next.phase is Relock {
            let last = replies.drop_first();
            assert(next.advance(last[0]).phase is Idle);
            assert(next.finish(last) == Some(next.outcome(last[0])));
        }
        let then = next.words_written(ok);
        assert(memory_writes(rest) == words.skip(then));
        if state.phase is LowWord || state.phase is HighWord {
            assert(then == written + 1);
            assert(op matches Op::WriteWord { address, value } && (address as int, value)
                == words[written]);
            assert(seq![words[written]] + words.skip(written + 1) =~= words.skip(written));
        } else {
            assert(then == written);
        }
    }
}

/// A write that succeeds writes the words of the data to consecutive word
/// addresses from the start of the page, each once and in order, and no
/// other word. A write that fails writes nothing to memory.
pub proof fn lemma_write_page_programs_data(
    domain: Option<Security>,
    address: usize,
    data: Seq<u64>,
    replies: Seq<Reply>,
)
    requires
        Sequencer::begin(domain, Command::WritePage { address }, data).wf(),
        Sequencer::begin(domain, Command::WritePage { address }, data).finish(replies) is Some,
    ensures
        ({
            let state = Sequencer::begin(domain, Command::WritePage { address }, data);
            memory_writes(state.trace(replies)) == if state.finish(replies) == Some(
                Ok::<(), Error>(()),
            ) {
                programmed_words(address as int, data)
            } else {
                Seq::empty()
            }
        }),
{
    let state = Sequencer::begin(domain, Command::WritePage { address }, data);
    let words = programmed_words(address as int, data);
    lemma_write_page_writes_rest(state, replies);
    assert(words.skip(0) =~= words);
    assert(words.skip(words.len() as int) =~= Seq::<(int, u32)>::empty());
}

impl Op {
    /// Whether the operation writes a key register or a control register.
    pub open spec fn writes_control(self) -> bool {
        !(self is ReadLock || self is ReadStatus || self is ClearCompletion || self is WriteWord)
    }
}

/// The writes to the key and control registers among `ops`, in order.
pub open spec fn control_writes(ops: Seq<Op>) -> Seq<Op>
    decreases ops.len(),
{
    if ops.len() == 0 {
        Seq::empty()
    } else if ops[0].writes_control() {
        seq![ops[0]] + control_writes(ops.drop_first())
    } else {
        control_writes(ops.drop_first())
    }
}

/// The writes that select one bank for a mass erase, or both: one write of
/// a mass-erase bit for each bank.
pub open spec fn bank_selects(domain: Option<Security>, banks: BanksToErase) -> Seq<Op> {
    match banks {
        BanksToErase::Bank1 => seq![Op::SelectBank { domain, bank: Bank::Bank0 }],
        BanksToErase::Bank2 => seq![Op::SelectBank { domain, bank: Bank::Bank1 }],
        BanksToErase::Both => seq![
            Op::SelectBank { domain, bank: Bank::Bank0 },
            Op::SelectBank { domain, bank: Bank::Bank1 },
        ],
    }
}

/// The control writes that set a command going, once its entry checks have passed.
pub open spec fn opening(domain: Option<Security>, command: Command) -> Seq<Op> {
    match command {
        Command::ErasePage { bank, index } => seq![
            Op::SelectPage { domain, bank, index },
            Op::Start { domain },
        ],
        Command::EraseBank { banks } => bank_selects(domain, banks) + seq![Op::Start { domain }],
        Command::WritePage { .. } => seq![Op::SetProgram { domain }],
        _ => Seq::empty(),
    }
}

/// The control writes that end a command: the enable bit is cleared where
/// software has to clear it, and the lock bit is set.
pub open spec fn closing(domain: Option<Security>, command: Command) -> Seq<Op> {
    match command {
        Command::ErasePage { .. } => if domain is None {
            seq![Op::ClearPageErase { domain }, Op::SetLock { domain }]
        } else {
            seq![Op::SetLock { domain }]
        },
        Command::WritePage { .. } => seq![Op::ClearProgram { domain }, Op::SetLock { domain }],
        _ => seq![Op::SetLock { domain }],
    }
}

/// The control writes of a whole erase or write: the keys, and then either
/// the command's writes and the lock, or on a failure the lock alone.
pub open spec fn script(domain: Option<Security>, command: Command, ok: bool) -> Seq<Op> {
    seq![Op::WriteKey { domain, key: FLASH_KEY1 }, Op::WriteKey { domain, key: FLASH_KEY2 }] + if ok {
        opening(domain, command) + closing(domain, command)
    } else {
        seq![Op::SetLock { domain }]
    }
}

impl Sequencer {
    /// How many writes of the command's script have been made before the
    /// pending operation, if the command goes on to succeed (`ok`) or fails
    /// at its entry.
    pub open spec fn script_done(self, ok: bool) -> int {
        let total = script(self.domain, self.command, ok).len() as int;
        match self.phase {
            Phase::FirstKey => 0,
            Phase::SecondKey => 1,
            Phase::LockCheck | Phase::BusyCheck | Phase::ErrorCheck | Phase::Select => 2,
            Phase::SelectSecond => 3,
            Phase::Start => 2 + opening(self.domain, self.command).len() - 1,
            Phase::Disable => total - 2,
            Phase::Relock(_) => total - 1,
            Phase::Idle => total,
            _ => 2 + opening(self.domain, self.command).len() as int,
        }
    }
}

/// The control writes of an operation and then others.
proof fn lemma_control_writes_unfold(op: Op, rest: Seq<Op>)
    ensures
        control_writes(seq![op] + rest) == if op.writes_control() {
            seq![op] + control_writes(rest)
        } else {
            control_writes(rest)
        },
{
    assert((seq![op] + rest).drop_first() =~= rest);
}

/// From any point of an erase or a write that runs to its end, the control
/// writes that are still made are the rest of the command's script.
proof fn lemma_run_follows_script(state: Sequencer, replies: Seq<Reply>)
    requires
        state.wf(),
        state.mutating(),
        state.finish(replies) is Some,
    ensures
        ({
            let ok = state.finish(replies) == Some(Ok::<(), Error>(()));
            let writes = script(state.domain, state.command, ok);
            &&& 0 <= state.script_done(ok) <= writes.len()
            &&& control_writes(state.trace(replies)) == writes.skip(state.script_done(ok))
        }),
    decreases replies.len(),
{
    let ok = state.finish(replies) == Some(Ok::<(), Error>(()));
    let writes = script(state.domain, state.command, ok);
    let done = state.script_done(ok);
    let next = state.advance(replies[0]);
    let op = state.pending()->0;
    let rest = next.trace(replies.drop_first());
    assert(state.trace(replies) == seq![op] + rest);
    lemma_control_writes_unfold(op, rest);
    if state.enabling() || state.phase == Phase::Relock(Ok(())) {
        lemma_no_failure_after_entry(state, replies);
    }
    if next.phase is Idle {
        assert(rest =~= Seq::<Op>::empty());
        assert(control_writes(rest) =~= Seq::<Op>::empty());
        assert(seq![op] + Seq::<Op>::empty() =~= writes.skip(done));
    } else {
        lemma_run_follows_script(next, replies.drop_first());
        if next.enabling() {
            lemma_no_failure_after_entry(next, replies.drop_first());
        }
        if next.phase is Relock {
            let last = replies.drop_first();
            assert(next.advance(last[0]).phase is Idle);
            assert(next.finish(last) == Some(next.outcome(last[0])));
        }
        let then = next.script_done(ok);
        assert(control_writes(rest) == writes.skip(then));
        if op.writes_control() {
            assert(then == done + 1);
            assert(op == writes[done]);
            assert(seq![writes[done]] + writes.skip(done + 1) =~= writes.skip(done));
        } else {
            assert(then == done);
        }
    }
}

/// The writes that an erase or a write makes to the key and control
/// registers are those of its script, in order, and no others. A command
/// that fails writes the keys and the lock bit, and nothing else; a mass
/// erase of both banks writes the two mass-erase bits one after the other,
/// each in a write of its own.
pub proof fn lemma_command_follows_script(
    domain: Option<Security>,
    command: Command,
    data: Seq<u64>,
    replies: Seq<Reply>,
)
    requires
        Sequencer::begin(domain, command, data).wf(),
        Sequencer::begin(domain, command, data).mutating(),
        Sequencer::begin(domain, command, data).finish(replies) is Some,
    ensures
        ({
            let state = Sequencer::begin(domain, command, data);
            control_writes(state.trace(replies)) == script(
                domain,
                command,
                state.finish(replies) == Some(Ok::<(), Error>(())),
            )
        }),
{
    let state = Sequencer::begin(domain, command, data);
    let writes = script(domain, command, state.finish(replies) == Some(Ok::<(), Error>(())));
    lemma_run_follows_script(state, replies);
    assert(writes.skip(0) =~= writes);
}

} // verus!
