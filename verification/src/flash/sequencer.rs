//! The flash controller's handle: it starts commands and takes each through
//! its operations, one reply at a time.

use vstd::prelude::*;
use vstd::slice::slice_to_vec;
use crate::flash::address::{page_address, page_bank, page_in_range, page_to_address, page_to_bank, Bank};
use crate::flash::protocol::{BanksToErase, Error, Op, Reply, Security, Status, Step, FLASH_KEY1, FLASH_KEY2};
use crate::flash::state::{Command, Phase, Sequencer};
use crate::flash::status::{check_illegal, clear_completion, is_busy};
use crate::flash::words::split_double_word;

verus! {

/// The Flash memory is organized as 72-bit wide memory cells (64 bits plus 8 ECC bits) that
/// can be used for storing both code and data constants.
///
/// A `Flash` sequences the commands of one controller. A command starts
/// with one of `unlock`, `lock`, `erase_page`, `erase_bank` and `write_page`,
/// each of which hands out the first operation; `step` takes the reply to
/// an operation and hands out the next, until the command is finished.
pub struct Flash {
    domain: Option<Security>,
    command: Command,
    phase: Phase,
    data: Vec<u64>,
    cursor: usize,
}

impl View for Flash {
    type V = Sequencer;

    closed spec fn view(&self) -> Sequencer {
        Sequencer {
            domain: self.domain,
            command: self.command,
            phase: self.phase,
            data: self.data@,
            cursor: self.cursor as nat,
        }
    }
}

impl Flash {
    /// A sequencer with no command under way.
    pub fn new() -> (flash: Flash)
        ensures
            flash@ == Sequencer::idle(),
            flash@.wf(),
    {
        Flash { domain: None, command: Command::Lock, phase: Phase::Idle, data: Vec::new(), cursor: 0 }
    }

    /// Whether no command is under way.
    pub fn is_idle(&self) -> (idle: bool)
        ensures
            idle == (self@.phase is Idle),
    {
        match self.phase {
            Phase::Idle => true,
            _ => false,
        }
    }

    /// The operation whose reply `step` waits for.
    pub fn pending(&self) -> (op: Option<Op>)
        requires
            self@.wf(),
        ensures
            op == self@.pending(),
    {
        let domain = self.domain;
        match self.phase {
            Phase::Idle => None,
            Phase::FirstKey => Some(Op::WriteKey { domain, key: FLASH_KEY1 }),
            Phase::SecondKey => Some(Op::WriteKey { domain, key: FLASH_KEY2 }),
            Phase::LockCheck => Some(Op::ReadLock { domain }),
            Phase::BusyCheck | Phase::ErrorCheck | Phase::Wait | Phase::Completion => Some(
                Op::ReadStatus { domain },
            ),
            Phase::Select => match self.command {
                Command::ErasePage { bank, index } => Some(Op::SelectPage { domain, bank, index }),
                Command::EraseBank { banks } => match banks {
                    BanksToErase::Bank2 => Some(Op::SelectBank { domain, bank: Bank::Bank1 }),
                    _ => Some(Op::SelectBank { domain, bank: Bank::Bank0 }),
                },
                _ => Some(Op::SetProgram { domain }),
            },
            Phase::SelectSecond => Some(Op::SelectBank { domain, bank: Bank::Bank1 }),
            Phase::Start => Some(Op::Start { domain }),
            Phase::LowWord => match self.command {
                Command::WritePage { address } => {
                    let words = split_double_word(self.data[self.cursor]);
                    Some(Op::WriteWord { address: address + 8 * self.cursor, value: words.0 })
                },
                _ => None,
            },
            Phase::HighWord => match self.command {
                Command::WritePage { address } => {
                    let words = split_double_word(self.data[self.cursor]);
                    Some(Op::WriteWord { address: address + 8 * self.cursor + 4, value: words.1 })
                },
                _ => None,
            },
            Phase::Acknowledge => Some(Op::ClearCompletion { domain }),
            Phase::Disable => match self.command {
                Command::ErasePage { .. } => Some(Op::ClearPageErase { domain }),
                _ => Some(Op::ClearProgram { domain }),
            },
            Phase::Relock(_) => Some(Op::SetLock { domain }),
        }
    }

    /// Start `command` on `domain`, and hand out its first operation.
    fn start(&mut self, domain: Option<Security>, command: Command, data: Vec<u64>) -> (step: Step)
        requires
            Sequencer::begin(domain, command, data@).wf(),
        ensures
            final(self)@ == Sequencer::begin(domain, command, data@),
            step == Step::Perform(final(self)@.pending()->0),
    {
        self.domain = domain;
        self.command = command;
        self.data = data;
        self.cursor = 0;
        match command {
            Command::Lock => {
                self.phase = Phase::Relock(Ok(()));
                Step::Perform(Op::SetLock { domain })
            },
            _ => {
                self.phase = Phase::FirstKey;
                Step::Perform(Op::WriteKey { domain, key: FLASH_KEY1 })
            },
        }
    }

    /// Unlock the flash memory, allowing writes. See L4 Reference manual, section 3.3.5.
    ///
    /// Writes the two keys in order and reads the lock bit: the command
    /// finishes with `Failure` if the bit is still set.
    pub fn unlock(&mut self, domain: Option<Security>) -> (step: Step)
        requires
            old(self)@.phase is Idle,
        ensures
            final(self)@ == Sequencer::begin(domain, Command::Unlock, Seq::empty()),
            final(self)@.wf(),
            step == Step::Perform(Op::WriteKey { domain, key: FLASH_KEY1 }),
    {
        self.start(domain, Command::Unlock, Vec::new())
    }

    /// Lock the flash memory: set the lock bit, whatever it was.
    pub fn lock(&mut self, domain: Option<Security>) -> (step: Step)
        requires
            old(self)@.phase is Idle,
        ensures
            final(self)@ == Sequencer::begin(domain, Command::Lock, Seq::empty()),
            final(self)@.wf(),
            step == Step::Perform(Op::SetLock { domain }),
    {
        self.start(domain, Command::Lock, Vec::new())
    }

    /// Erase an entire page. See L4 Reference manual, section 3.3.5.
    /// For why this is required, reference L4 RM, section 3.3.7:
    /// "Programming in a previously programmed address is not allowed except if the data to write
    /// is full zero, and any attempt will set PROGERR flag in the Flash status register
    /// (FLASH_SR)."
    ///
    /// A page beyond the second bank is refused at once, before any operation.
    pub fn erase_page(&mut self, page: usize, domain: Option<Security>) -> (step: Step)
        requires
            old(self)@.phase is Idle,
        ensures
            final(self)@.wf(),
            !page_in_range(page as int) ==> {
                &&& step == Step::Finished(Err(Error::PageOutOfRange))
                &&& final(self)@ == old(self)@
            },
            page_in_range(page as int) ==> {
                &&& step == Step::Perform(Op::WriteKey { domain, key: FLASH_KEY1 })
                &&& final(self)@ == Sequencer::begin(
                    domain,
                    Command::ErasePage {
                        bank: page_bank(page as int).0,
                        index: page_bank(page as int).1 as u8,
                    },
                    Seq::empty(),
                )
            },
    {
        match page_to_bank(page) {
            Some((bank, index)) => self.start(domain, Command::ErasePage { bank, index }, Vec::new()),
            None => Step::Finished(Err(Error::PageOutOfRange)),
        }
    }

    /// Mass erase: clear one bank, or both with one write of a mass-erase
    /// bit for each.
    pub fn erase_bank(&mut self, banks: BanksToErase, domain: Option<Security>) -> (step: Step)
        requires
            old(self)@.phase is Idle,
        ensures
            final(self)@ == Sequencer::begin(domain, Command::EraseBank { banks }, Seq::empty()),
            final(self)@.wf(),
            step == Step::Perform(Op::WriteKey { domain, key: FLASH_KEY1 }),
    {
        self.start(domain, Command::EraseBank { banks }, Vec::new())
    }

    /// Write the contents of a page. Must be erased first. See L4 RM, section 3.3.7.
    ///
    /// The double words of `data` go to consecutive addresses from the start
    /// of `page`, the low word of each before the high word. A page beyond
    /// the second bank is refused at once, before any operation.
    pub fn write_page(&mut self, page: usize, data: &[u64], domain: Option<Security>) -> (step: Step)
        requires
            old(self)@.phase is Idle,
            page_in_range(page as int) ==> page_address(page as int) + 8 * data@.len() <= usize::MAX,
        ensures
            final(self)@.wf(),
            !page_in_range(page as int) ==> {
                &&& step == Step::Finished(Err(Error::PageOutOfRange))
                &&& final(self)@ == old(self)@
            },
            page_in_range(page as int) ==> {
                &&& step == Step::Perform(Op::WriteKey { domain, key: FLASH_KEY1 })
                &&& final(self)@ == Sequencer::begin(
                    domain,
                    Command::WritePage { address: page_address(page as int) as usize },
                    data@,
                )
            },
    {
        match page_to_bank(page) {
            Some(_) => {
                let address = page_to_address(page);
                self.start(domain, Command::WritePage { address }, slice_to_vec(data))
            },
            None => Step::Finished(Err(Error::PageOutOfRange)),
        }
    }

    /// Where the command goes once the current operation is complete and
    /// its flag dealt with.
    fn settle(&mut self)
        requires
            old(self)@.wf(),
            old(self)@.phase is Completion || old(self)@.phase is Acknowledge,
        ensures
            final(self)@ == old(self)@.settle(),
    {
        match self.command {
            Command::WritePage { .. } => {
                if self.cursor + 1 < self.data.len() {
                    self.cursor = self.cursor + 1;
                    self.phase = Phase::LowWord;
                } else {
                    self.phase = Phase::Disable;
                }
            },
            _ => {
                self.phase = match self.domain {
                    None => Phase::Disable,
                    Some(_) => Phase::Relock(Ok(())),
                };
            },
        }
    }

    /// Take the reply to the pending operation, and hand out the next
    /// operation or the command's outcome.
    ///
    /// Whatever fails after the keys were written, the lock bit is set
    /// before the command finishes.
    pub fn step(&mut self, reply: Reply) -> (step: Step)
        requires
            old(self)@.wf(),
            old(self)@.accepts(reply),
        ensures
            final(self)@ == old(self)@.advance(reply),
            final(self)@.wf(),
            step == old(self)@.respond(reply),
    {
        let mut outcome: Result<(), Error> = Ok(());
        match (self.phase, reply) {
            (Phase::FirstKey, _) => {
                self.phase = Phase::SecondKey;
            },
            (Phase::SecondKey, _) => {
                self.phase = Phase::LockCheck;
            },
            (Phase::LockCheck, Reply::Lock(locked)) => {
                match self.command {
                    Command::Unlock => {
                        if locked {
                            outcome = Err(Error::Failure);
                        }
                        self.phase = Phase::Idle;
                    },
                    _ => {
                        self.phase = if locked {
                            Phase::Relock(Err(Error::Failure))
                        } else {
                            Phase::BusyCheck
                        };
                    },
                }
            },
            (Phase::BusyCheck, Reply::Status(status)) => {
                self.phase = if is_busy(status) {
                    Phase::Relock(Err(Error::Busy))
                } else {
                    Phase::ErrorCheck
                };
            },
            (Phase::ErrorCheck, Reply::Status(status)) => {
                self.phase = match check_illegal(status) {
                    Err(error) => Phase::Relock(Err(error)),
                    Ok(()) => Phase::Select,
                };
            },
            (Phase::Select, _) => {
                self.phase = match self.command {
                    Command::EraseBank { banks: BanksToErase::Both } => Phase::SelectSecond,
                    Command::WritePage { .. } => if self.data.len() == 0 {
                        Phase::Disable
                    } else {
                        Phase::LowWord
                    },
                    _ => Phase::Start,
                };
            },
            (Phase::SelectSecond, _) => {
                self.phase = Phase::Start;
            },
            (Phase::Start, _) => {
                self.phase = Phase::Wait;
            },
            (Phase::LowWord, _) => {
                self.phase = Phase::HighWord;
            },
            (Phase::HighWord, _) => {
                self.phase = Phase::Wait;
            },
            (Phase::Wait, Reply::Status(status)) => {
                if !is_busy(status) {
                    self.phase = match self.command {
                        Command::EraseBank { .. } => Phase::Relock(Ok(())),
                        _ => Phase::Completion,
                    };
                }
            },
            (Phase::Completion, Reply::Status(status)) => {
                match clear_completion(status, self.domain) {
                    Some(_) => {
                        self.phase = Phase::Acknowledge;
                    },
                    None => {
                        self.settle();
                    },
                }
            },
            (Phase::Acknowledge, _) => {
                self.settle();
            },
            (Phase::Disable, _) => {
                self.phase = Phase::Relock(Ok(()));
            },
            (Phase::Relock(result), _) => {
                outcome = result;
                self.phase = Phase::Idle;
            },
            _ => {},
        }
        match self.pending() {
            Some(op) => Step::Perform(op),
            None => Step::Finished(outcome),
        }
    }
}

} // verus!
