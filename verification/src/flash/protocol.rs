//! What passes between the sequencer and the register interface: the
//! operations that the sequencer asks for, and what the hardware answers.

use vstd::prelude::*;
use crate::flash::address::Bank;

verus! {

/// First word of the unlock sequence.
pub const FLASH_KEY1: u32 = 0x4567_0123;

/// Second word of the unlock sequence.
pub const FLASH_KEY2: u32 = 0xCDEF_89AB;

/// Cortex-M33 secure programming, or nonsecure. Each domain has a key,
/// a control and a status register of its own.
#[derive(Clone, Copy, Debug, PartialEq, Eq, Structural)]
pub enum Security {
    NonSecure,
    Secure,
}

/// The banks that a mass erase clears.
#[derive(Clone, Copy, Debug, PartialEq, Eq, Structural)]
pub enum BanksToErase {
    Bank1,
    Bank2,
    Both,
}

#[derive(Clone, Copy, Debug, PartialEq, Eq, Structural)]
pub enum Error {
    /// Flash controller is not done yet
    Busy,
    /// Error detected (by command execution, or because no command could be executed)
    Illegal,
    /// Set during read if ECC decoding logic detects correctable or uncorrectable error
    EccError,
    /// Page number is out of range
    PageOutOfRange,
    /// (Legal) command failed
    Failure,
}

/// The flags of a status register, as one read of it found them.
#[derive(Clone, Copy, Debug, PartialEq, Eq)]
pub struct Status {
    /// A command is in progress.
    pub busy: bool,
    /// The last command has completed. Stays set until software clears it.
    pub end_of_operation: bool,
    /// A write was not aligned to a double word.
    pub alignment_error: bool,
    /// A write went to a cell that was not erased.
    pub programming_error: bool,
    /// A write or an erase went to a protected page.
    pub write_protection_error: bool,
}

/// One access to the register interface or to flash memory. The domain is
/// `None` on hardware with a single set of registers, and names the set on
/// hardware with two.
#[derive(Clone, Copy, Debug, PartialEq, Eq)]
pub enum Op {
    /// Write `key` to the key register.
    WriteKey { domain: Option<Security>, key: u32 },
    /// Read the lock bit of the control register.
    ReadLock { domain: Option<Security> },
    /// Read the status register.
    ReadStatus { domain: Option<Security> },
    /// Set the lock bit.
    SetLock { domain: Option<Security> },
    /// In one write, set the page-erase bit, the bank-select bit and the page number.
    SelectPage { domain: Option<Security>, bank: Bank, index: u8 },
    /// Clear the page-erase bit.
    ClearPageErase { domain: Option<Security> },
    /// Write the mass-erase bit of one bank.
    SelectBank { domain: Option<Security>, bank: Bank },
    /// Set the start bit.
    Start { domain: Option<Security> },
    /// Set the program-enable bit.
    SetProgram { domain: Option<Security> },
    /// Clear the program-enable bit.
    ClearProgram { domain: Option<Security> },
    /// Clear the end-of-operation flag by writing it back.
    ClearCompletion { domain: Option<Security> },
    /// Write one word to flash memory.
    WriteWord { address: usize, value: u32 },
}

/// What the hardware answered to an operation.
#[derive(Clone, Copy, Debug, PartialEq, Eq)]
pub enum Reply {
    /// A write was made.
    Written,
    /// The lock bit, as read.
    Lock(bool),
    /// The status register, as read.
    Status(Status),
}

/// What the sequencer wants next.
#[derive(Clone, Copy, Debug, PartialEq, Eq)]
pub enum Step {
    /// Perform this operation and report the reply.
    Perform(Op),
    /// The command is over, with this outcome.
    Finished(Result<(), Error>),
}

impl Op {
    /// Whether `reply` is of the kind that answers this operation.
    pub open spec fn answered_by(self, reply: Reply) -> bool {
        match self {
            Op::ReadLock { .. } => reply is Lock,
            Op::ReadStatus { .. } => reply is Status,
            _ => reply is Written,
        }
    }
}

} // verus!
