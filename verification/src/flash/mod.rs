//! The flash controller's command protocol: unlock, status and error checks,
//! page erase, mass erase, double-word programming, and reading back.

pub mod address;
pub mod programming;
pub mod protocol;
pub mod reading;
pub mod runs;
pub mod sequencer;
pub mod state;
pub mod status;
pub mod words;

pub use address::{page_to_address, page_to_bank, Bank, BANK_SPLIT, FLASH_BASE, PAGE_COUNT, PAGE_SIZE};
pub use protocol::{BanksToErase, Error, Op, Reply, Security, Status, Step, FLASH_KEY1, FLASH_KEY2};
pub use sequencer::Flash;
pub use state::{Command, Phase, Sequencer};
pub use status::{check_illegal, clear_completion, is_busy};
pub use words::{join_words, split_double_word};
