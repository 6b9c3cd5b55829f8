//! The sequencer as a state machine: where a command stands, which operation
//! it waits on, and where each reply takes it.

use vstd::prelude::*;
use crate::flash::address::Bank;
use crate::flash::protocol::{BanksToErase, Error, Op, Reply, Security, Status, Step, FLASH_KEY1, FLASH_KEY2};
use crate::flash::words::{high_word, low_word};

verus! {

/// The command that the sequencer is carrying out.
#[derive(Clone, Copy, Debug, PartialEq, Eq)]
pub enum Command {
    /// Write the keys and see whether the lock bit cleared.
    Unlock,
    /// Set the lock bit.
    Lock,
    /// Erase the page with this index in this bank.
    ErasePage { bank: Bank, index: u8 },
    /// Erase one bank or both.
    EraseBank { banks: BanksToErase },
    /// Program double words from this address on.
    WritePage { address: usize },
}

/// Where a command stands. Each phase but `Idle` waits on the reply to one operation.
#[derive(Clone, Copy, Debug, PartialEq, Eq)]
pub enum Phase {
    /// No command is under way.
    Idle,
    /// The first key is being written.
    FirstKey,
    /// The second key is being written.
    SecondKey,
    /// The lock bit is being read, to see whether the keys were taken.
    LockCheck,
    /// The status is being read, to see whether the controller is free.
    BusyCheck,
    /// The status is being read, to see whether an earlier error is pending.
    ErrorCheck,
    /// The command's enable bit is being written: page select, the first
    /// bank's mass erase, or program enable.
    Select,
    /// The second bank's mass-erase bit is being written.
    SelectSecond,
    /// The start bit is being set.
    Start,
    /// The low word of the current double word is being written.
    LowWord,
    /// The high word of the current double word is being written.
    HighWord,
    /// The status is being read until the busy flag is clear.
    Wait,
    /// The status is being read, to see whether the completion flag is set.
    Completion,
    /// The completion flag is being cleared.
    Acknowledge,
    /// The command's enable bit is being cleared.
    Disable,
    /// The lock bit is being set; the command then ends with this outcome.
    Relock(Result<(), Error>),
}

/// The sequencer's state.
pub struct Sequencer {
    /// The register set that the command goes to.
    pub domain: Option<Security>,
    pub command: Command,
    pub phase: Phase,
    /// The double words to program, for `WritePage`.
    pub data: Seq<u64>,
    /// How many of them have been programmed.
    pub cursor: nat,
}

impl Reply {
    /// The reply says that the lock bit is set.
    pub open spec fn locked(self) -> bool {
        self == Reply::Lock(true)
    }

    /// The reply says that the controller is busy.
    pub open spec fn busy(self) -> bool {
        self matches Reply::Status(status) && status.busy
    }

    /// The reply says that an error flag is set.
    pub open spec fn has_error(self) -> bool {
        self matches Reply::Status(status) && status.has_error()
    }

    /// The reply says that the completion flag is set.
    pub open spec fn complete(self) -> bool {
        self matches Reply::Status(status) && status.end_of_operation
    }
}

impl BanksToErase {
    /// The bank whose mass-erase bit is written first.
    pub open spec fn first(self) -> Bank {
        match self {
            BanksToErase::Bank2 => Bank::Bank1,
            _ => Bank::Bank0,
        }
    }
}

impl Sequencer {
    /// The state between commands.
    pub open spec fn idle() -> Sequencer {
        Sequencer { domain: None, command: Command::Lock, phase: Phase::Idle, data: Seq::empty(), cursor: 0 }
    }

    /// The state in which `command` has just begun on `domain`.
    pub open spec fn begin(domain: Option<Security>, command: Command, data: Seq<u64>) -> Sequencer {
        Sequencer {
            domain,
            command,
            phase: if command is Lock { Phase::Relock(Ok(())) } else { Phase::FirstKey },
            data,
            cursor: 0,
        }
    }

    /// The same command in another phase.
    pub open spec fn at(self, phase: Phase) -> Sequencer {
        Sequencer { phase, ..self }
    }

    /// Whether the command changes flash memory.
    pub open spec fn mutating(self) -> bool {
        self.command is ErasePage || self.command is EraseBank || self.command is WritePage
    }

    /// The address of the double word that is being programmed.
    pub open spec fn word_address(self) -> int {
        self.command->address as int + 8 * self.cursor
    }

    /// Whether the phase is one that the command passes through, and the
    /// data fits below the end of the address space.
    pub open spec fn wf(self) -> bool {
        &&& match self.phase {
            Phase::Idle => true,
            Phase::FirstKey | Phase::SecondKey | Phase::LockCheck => !(self.command is Lock),
            Phase::BusyCheck | Phase::ErrorCheck | Phase::Select => self.mutating(),
            Phase::SelectSecond => self.command == (Command::EraseBank { banks: BanksToErase::Both }),
            Phase::Start => self.command is ErasePage || self.command is EraseBank,
            Phase::LowWord | Phase::HighWord => self.command is WritePage,
            Phase::Wait => self.mutating(),
            Phase::Completion | Phase::Acknowledge => self.command is ErasePage || self.command is WritePage,
            Phase::Disable => self.command is WritePage || (self.command is ErasePage && self.domain is None),
            Phase::Relock(outcome) => !(self.command is Unlock) && (self.command is Lock ==> outcome is Ok),
        }
        &&& self.command is WritePage && !(self.phase is Idle) ==> {
            &&& self.command->address as int + 8 * self.data.len() <= usize::MAX
            &&& self.entering() ==> self.cursor == 0
            &&& self.programming() ==> self.cursor < self.data.len()
        }
    }

    /// Whether the command is still in the steps that come before its first write.
    pub open spec fn entering(self) -> bool {
        self.phase is FirstKey || self.phase is SecondKey || self.phase is LockCheck
            || self.phase is BusyCheck || self.phase is ErrorCheck || self.phase is Select
    }

    /// Whether a double word is being programmed.
    pub open spec fn programming(self) -> bool {
        self.phase is LowWord || self.phase is HighWord || self.phase is Wait
            || self.phase is Completion || self.phase is Acknowledge
    }

    /// The operation whose reply the sequencer waits for. `None` between commands.
    pub open spec fn pending(self) -> Option<Op> {
        let domain = self.domain;
        match self.phase {
            Phase::Idle => None,
            Phase::FirstKey => Some(Op::WriteKey { domain, key: FLASH_KEY1 }),
            Phase::SecondKey => Some(Op::WriteKey { domain, key: FLASH_KEY2 }),
            Phase::LockCheck => Some(Op::ReadLock { domain }),
            Phase::BusyCheck | Phase::ErrorCheck | Phase::Wait | Phase::Completion => Some(
                Op::ReadStatus { domain },
            ),
            Phase::Select => Some(
                match self.command {
                    Command::ErasePage { bank, index } => Op::SelectPage { domain, bank, index },
                    Command::EraseBank { banks } => Op::SelectBank { domain, bank: banks.first() },
                    _ => Op::SetProgram { domain },
                },
            ),
            Phase::SelectSecond => Some(Op::SelectBank { domain, bank: Bank::Bank1 }),
            Phase::Start => Some(Op::Start { domain }),
            Phase::LowWord => Some(
                Op::WriteWord {
                    address: self.word_address() as usize,
                    value: low_word(self.data[self.cursor as int]),
                },
            ),
            Phase::HighWord => Some(
                Op::WriteWord {
                    address: (self.word_address() + 4) as usize,
                    value: high_word(self.data[self.cursor as int]),
                },
            ),
            Phase::Acknowledge => Some(Op::ClearCompletion { domain }),
            Phase::Disable => Some(
                if self.command is ErasePage {
                    Op::ClearPageErase { domain }
                } else {
                    Op::ClearProgram { domain }
                },
            ),
            Phase::Relock(_) => Some(Op::SetLock { domain }),
        }
    }

    /// Whether `reply` answers the pending operation.
    pub open spec fn accepts(self, reply: Reply) -> bool {
        self.pending() matches Some(op) && op.answered_by(reply)
    }

    /// The state once the current operation is complete and its flag dealt
    /// with: the next double word, or the end of the command.
    pub open spec fn settle(self) -> Sequencer {
        if self.command is WritePage {
            if self.cursor + 1 < self.data.len() {
                Sequencer { phase: Phase::LowWord, cursor: self.cursor + 1, ..self }
            } else {
                self.at(Phase::Disable)
            }
        } else if self.domain is None {
            self.at(Phase::Disable)
        } else {
            self.at(Phase::Relock(Ok(())))
        }
    }

    /// The state after `reply` to the pending operation.
    pub open spec fn advance(self, reply: Reply) -> Sequencer {
        match self.phase {
            Phase::Idle => self,
            Phase::FirstKey => self.at(Phase::SecondKey),
            Phase::SecondKey => self.at(Phase::LockCheck),
            Phase::LockCheck => if self.command is Unlock {
                self.at(Phase::Idle)
            } else if reply.locked() {
                self.at(Phase::Relock(Err(Error::Failure)))
            } else {
                self.at(Phase::BusyCheck)
            },
            Phase::BusyCheck => if reply.busy() {
                self.at(Phase::Relock(Err(Error::Busy)))
            } else {
                self.at(Phase::ErrorCheck)
            },
            Phase::ErrorCheck => if reply.has_error() {
                self.at(Phase::Relock(Err(Error::Illegal)))
            } else {
                self.at(Phase::Select)
            },
            Phase::Select => match self.command {
                Command::EraseBank { banks: BanksToErase::Both } => self.at(Phase::SelectSecond),
                Command::WritePage { .. } => if self.data.len() == 0 {
                    self.at(Phase::Disable)
                } else {
                    self.at(Phase::LowWord)
                },
                _ => self.at(Phase::Start),
            },
            Phase::SelectSecond => self.at(Phase::Start),
            Phase::Start => self.at(Phase::Wait),
            Phase::LowWord => self.at(Phase::HighWord),
            Phase::HighWord => self.at(Phase::Wait),
            Phase::Wait => if reply.busy() {
                self
            } else if self.command is EraseBank {
                self.at(Phase::Relock(Ok(())))
            } else {
                self.at(Phase::Completion)
            },
            Phase::Completion => if reply.complete() {
                self.at(Phase::Acknowledge)
            } else {
                self.settle()
            },
            Phase::Acknowledge => self.settle(),
            Phase::Disable => self.at(Phase::Relock(Ok(()))),
            Phase::Relock(_) => self.at(Phase::Idle),
        }
    }

    /// The outcome of the command, if `reply` ends it.
    pub open spec fn outcome(self, reply: Reply) -> Result<(), Error> {
        match self.phase {
            Phase::Relock(outcome) => outcome,
            Phase::LockCheck => if reply.locked() {
                Err(Error::Failure)
            } else {
                Ok(())
            },
            _ => Ok(()),
        }
    }

    /// What the sequencer asks for after `reply`: the next operation, or
    /// nothing more.
    pub open spec fn respond(self, reply: Reply) -> Step {
        match self.advance(reply).pending() {
            Some(op) => Step::Perform(op),
            None => Step::Finished(self.outcome(reply)),
        }
    }
}

/// A reply that the sequencer accepts takes a well-formed state to a well-formed state.
pub proof fn lemma_advance_wf(state: Sequencer, reply: Reply)
    requires
        state.wf(),
    ensures
        state.advance(reply).wf(),
        state.advance(reply).domain == state.domain,
        state.advance(reply).command == state.command,
        state.advance(reply).data == state.data,
{
}

} // verus!
