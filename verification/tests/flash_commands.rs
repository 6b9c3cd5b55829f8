use stm32_hal::flash::{
    Bank, BanksToErase, Error, Flash, Op, Reply, Security, Status, Step, FLASH_BASE, FLASH_KEY1,
    FLASH_KEY2,
};

/// A controller that answers as the hardware would, and records every operation.
struct Controller {
    locked: bool,
    program: bool,
    page_erase: bool,
    keys_taken: usize,
    accepts_keys: bool,
    busy_at_entry: bool,
    busy_polls: usize,
    pending_polls: usize,
    end_of_operation: bool,
    sets_completion: bool,
    alignment_error: bool,
    programming_error: bool,
    write_protection_error: bool,
    words: Vec<u32>,
    log: Vec<Op>,
}

impl Controller {
    fn new() -> Controller {
        Controller {
            locked: true,
            program: false,
            page_erase: false,
            keys_taken: 0,
            accepts_keys: true,
            busy_at_entry: false,
            busy_polls: 0,
            pending_polls: 0,
            end_of_operation: false,
            sets_completion: true,
            alignment_error: false,
            programming_error: false,
            write_protection_error: false,
            words: vec![0xFFFF_FFFF; 4096],
            log: Vec::new(),
        }
    }

    fn status(&mut self) -> Status {
        let busy = if self.pending_polls > 0 {
            self.pending_polls -= 1;
            true
        } else {
            self.busy_at_entry
        };
        Status {
            busy,
            end_of_operation: self.end_of_operation,
            alignment_error: self.alignment_error,
            programming_error: self.programming_error,
            write_protection_error: self.write_protection_error,
        }
    }

    fn begin_operation(&mut self) {
        self.pending_polls = self.busy_polls;
        if self.sets_completion {
            self.end_of_operation = true;
        }
    }

    fn perform(&mut self, op: Op) -> Reply {
        self.log.push(op);
        match op {
            Op::WriteKey { key, .. } => {
                if self.keys_taken == 0 && key == FLASH_KEY1 {
                    self.keys_taken = 1;
                } else if self.keys_taken == 1 && key == FLASH_KEY2 {
                    self.keys_taken = 0;
                    if self.accepts_keys {
                        self.locked = false;
                    }
                } else {
                    self.keys_taken = 0;
                }
                Reply::Written
            }
            Op::ReadLock { .. } => Reply::Lock(self.locked),
            Op::ReadStatus { .. } => Reply::Status(self.status()),
            Op::SetLock { .. } => {
                self.locked = true;
                Reply::Written
            }
            Op::SelectPage { .. } => {
                self.page_erase = true;
                Reply::Written
            }
            Op::ClearPageErase { .. } => {
                self.page_erase = false;
                Reply::Written
            }
            Op::SelectBank { .. } => Reply::Written,
            Op::Start { .. } => {
                self.begin_operation();
                Reply::Written
            }
            Op::SetProgram { .. } => {
                self.program = true;
                Reply::Written
            }
            Op::ClearProgram { .. } => {
                self.program = false;
                Reply::Written
            }
            Op::ClearCompletion { .. } => {
                self.end_of_operation = false;
                Reply::Written
            }
            Op::WriteWord { address, value } => {
                let index = (address - FLASH_BASE) / 4;
                self.words[index] = value;
                if index % 2 == 1 {
                    self.begin_operation();
                }
                Reply::Written
            }
        }
    }

    fn run(&mut self, flash: &mut Flash, first: Step) -> Result<(), Error> {
        let mut step = first;
        loop {
            match step {
                Step::Finished(outcome) => return outcome,
                Step::Perform(op) => {
                    let reply = self.perform(op);
                    step = flash.step(reply);
                }
            }
        }
    }

    fn double_words(&self) -> Vec<u64> {
        let mut cells = Vec::new();
        let mut index = 0;
        while index + 1 < self.words.len() {
            cells.push(((self.words[index + 1] as u64) << 32) | self.words[index] as u64);
            index += 2;
        }
        cells
    }
}

fn keys(domain: Option<Security>) -> Vec<Op> {
    vec![
        Op::WriteKey { domain, key: 0x4567_0123 },
        Op::WriteKey { domain, key: 0xCDEF_89AB },
        Op::ReadLock { domain },
    ]
}

fn begin(flash: &mut Flash, command: usize, domain: Option<Security>) -> Step {
    match command {
        0 => flash.erase_page(3, domain),
        1 => flash.erase_bank(BanksToErase::Bank1, domain),
        _ => flash.write_page(3, &[1, 2], domain),
    }
}

#[test]
fn key_constants() {
    assert_eq!(FLASH_KEY1, 0x4567_0123);
    assert_eq!(FLASH_KEY2, 0xCDEF_89AB);
}

#[test]
fn unlock_writes_both_keys_in_order() {
    let mut flash = Flash::new();
    let mut controller = Controller::new();
    let first = flash.unlock(None);
    assert_eq!(first, Step::Perform(Op::WriteKey { domain: None, key: 0x4567_0123 }));
    let outcome = controller.run(&mut flash, first);
    assert_eq!(outcome, Ok(()));
    assert_eq!(controller.log, keys(None));
    assert!(!controller.locked);
    assert!(flash.is_idle());
}

#[test]
fn unlock_fails_when_the_lock_bit_stays_set() {
    let mut flash = Flash::new();
    let mut controller = Controller::new();
    controller.accepts_keys = false;
    let first = flash.unlock(Some(Security::Secure));
    let outcome = controller.run(&mut flash, first);
    assert_eq!(outcome, Err(Error::Failure));
    assert_eq!(controller.log, keys(Some(Security::Secure)));
    assert!(flash.is_idle());
}

#[test]
fn unlock_then_lock_leaves_the_lock_bit_set() {
    let mut flash = Flash::new();
    let mut controller = Controller::new();
    let first = flash.unlock(Some(Security::NonSecure));
    assert_eq!(controller.run(&mut flash, first), Ok(()));
    assert!(!controller.locked);
    let first = flash.lock(Some(Security::NonSecure));
    assert_eq!(first, Step::Perform(Op::SetLock { domain: Some(Security::NonSecure) }));
    assert_eq!(controller.run(&mut flash, first), Ok(()));
    assert!(controller.locked);
    assert_eq!(controller.log.len(), 4);
}

#[test]
fn lock_is_idempotent() {
    let mut flash = Flash::new();
    let mut controller = Controller::new();
    for _ in 0..2 {
        let first = flash.lock(None);
        assert_eq!(controller.run(&mut flash, first), Ok(()));
        assert!(controller.locked);
    }
    assert_eq!(controller.log, vec![Op::SetLock { domain: None }, Op::SetLock { domain: None }]);
}

#[test]
fn erase_page_out_of_range_touches_nothing() {
    for page in [512usize, 513, 100_000, usize::MAX] {
        let mut flash = Flash::new();
        let step = flash.erase_page(page, None);
        assert_eq!(step, Step::Finished(Err(Error::PageOutOfRange)));
        assert!(flash.is_idle());
        assert_eq!(flash.pending(), None);
    }
}

#[test]
fn write_page_out_of_range_touches_nothing() {
    let mut flash = Flash::new();
    let step = flash.write_page(512, &[7], Some(Security::Secure));
    assert_eq!(step, Step::Finished(Err(Error::PageOutOfRange)));
    assert!(flash.is_idle());
    assert_eq!(flash.pending(), None);
}

#[test]
fn last_page_is_in_range() {
    let mut flash = Flash::new();
    let step = flash.erase_page(511, None);
    assert_eq!(step, Step::Perform(Op::WriteKey { domain: None, key: 0x4567_0123 }));
}

#[test]
fn busy_at_entry_fails_and_locks() {
    for command in 0..3 {
        for domain in [None, Some(Security::NonSecure), Some(Security::Secure)] {
            let mut flash = Flash::new();
            let mut controller = Controller::new();
            controller.busy_at_entry = true;
            let first = begin(&mut flash, command, domain);
            let outcome = controller.run(&mut flash, first);
            assert_eq!(outcome, Err(Error::Busy));
            assert!(controller.locked);
            assert!(!controller.program);
            assert!(!controller.page_erase);
            let mut expected = keys(domain);
            expected.push(Op::ReadStatus { domain });
            expected.push(Op::SetLock { domain });
            assert_eq!(controller.log, expected);
            assert!(flash.is_idle());
        }
    }
}

#[test]
fn pending_error_fails_and_locks() {
    for command in 0..3 {
        for flag in 0..3 {
            let mut flash = Flash::new();
            let mut controller = Controller::new();
            controller.alignment_error = flag == 0;
            controller.programming_error = flag == 1;
            controller.write_protection_error = flag == 2;
            let first = begin(&mut flash, command, None);
            let outcome = controller.run(&mut flash, first);
            assert_eq!(outcome, Err(Error::Illegal));
            assert!(controller.locked);
            let mut expected = keys(None);
            expected.push(Op::ReadStatus { domain: None });
            expected.push(Op::ReadStatus { domain: None });
            expected.push(Op::SetLock { domain: None });
            assert_eq!(controller.log, expected);
            // The flag is left for the caller to clear.
            assert!(
                controller.alignment_error
                    || controller.programming_error
                    || controller.write_protection_error
            );
        }
    }
}

#[test]
fn refused_keys_fail_and_lock() {
    for command in 0..3 {
        let mut flash = Flash::new();
        let mut controller = Controller::new();
        controller.accepts_keys = false;
        let first = begin(&mut flash, command, None);
        let outcome = controller.run(&mut flash, first);
        assert_eq!(outcome, Err(Error::Failure));
        assert!(controller.locked);
        let mut expected = keys(None);
        expected.push(Op::SetLock { domain: None });
        assert_eq!(controller.log, expected);
    }
}

#[test]
fn erase_page_in_first_bank() {
    let mut flash = Flash::new();
    let mut controller = Controller::new();
    controller.sets_completion = false;
    let first = flash.erase_page(255, None);
    assert_eq!(controller.run(&mut flash, first), Ok(()));
    let mut expected = keys(None);
    expected.extend([
        Op::ReadStatus { domain: None },
        Op::ReadStatus { domain: None },
        Op::SelectPage { domain: None, bank: Bank::Bank0, index: 255 },
        Op::Start { domain: None },
        Op::ReadStatus { domain: None },
        Op::ReadStatus { domain: None },
        Op::ClearPageErase { domain: None },
        Op::SetLock { domain: None },
    ]);
    assert_eq!(controller.log, expected);
    assert!(controller.locked);
    assert!(!controller.page_erase);
}

#[test]
fn erase_page_in_second_bank() {
    let mut flash = Flash::new();
    let mut controller = Controller::new();
    let first = flash.erase_page(256, None);
    assert_eq!(controller.run(&mut flash, first), Ok(()));
    assert!(controller
        .log
        .contains(&Op::SelectPage { domain: None, bank: Bank::Bank1, index: 0 }));
    let mut flash = Flash::new();
    let mut controller = Controller::new();
    let first = flash.erase_page(511, None);
    assert_eq!(controller.run(&mut flash, first), Ok(()));
    assert!(controller
        .log
        .contains(&Op::SelectPage { domain: None, bank: Bank::Bank1, index: 255 }));
}

#[test]
fn erase_page_clears_the_completion_flag() {
    let mut flash = Flash::new();
    let mut controller = Controller::new();
    let first = flash.erase_page(1, None);
    assert_eq!(controller.run(&mut flash, first), Ok(()));
    let tail = &controller.log[controller.log.len() - 4..];
    assert_eq!(
        tail,
        &[
            Op::ReadStatus { domain: None },
            Op::ClearCompletion { domain: None },
            Op::ClearPageErase { domain: None },
            Op::SetLock { domain: None },
        ]
    );
    assert!(!controller.end_of_operation);
}

#[test]
fn erase_page_on_two_domains_goes_straight_to_lock() {
    for domain in [Security::NonSecure, Security::Secure] {
        let domain = Some(domain);
        let mut flash = Flash::new();
        let mut controller = Controller::new();
        controller.sets_completion = false;
        let first = flash.erase_page(300, domain);
        assert_eq!(controller.run(&mut flash, first), Ok(()));
        let mut expected = keys(domain);
        expected.extend([
            Op::ReadStatus { domain },
            Op::ReadStatus { domain },
            Op::SelectPage { domain, bank: Bank::Bank1, index: 44 },
            Op::Start { domain },
            Op::ReadStatus { domain },
            Op::ReadStatus { domain },
            Op::SetLock { domain },
        ]);
        assert_eq!(controller.log, expected);
        assert!(controller.locked);
    }
}

#[test]
fn erase_waits_while_busy() {
    let mut flash = Flash::new();
    let mut controller = Controller::new();
    controller.busy_polls = 3;
    controller.sets_completion = false;
    let first = flash.erase_bank(BanksToErase::Bank2, None);
    assert_eq!(controller.run(&mut flash, first), Ok(()));
    let mut expected = keys(None);
    expected.extend([
        Op::ReadStatus { domain: None },
        Op::ReadStatus { domain: None },
        Op::SelectBank { domain: None, bank: Bank::Bank1 },
        Op::Start { domain: None },
        Op::ReadStatus { domain: None },
        Op::ReadStatus { domain: None },
        Op::ReadStatus { domain: None },
        Op::ReadStatus { domain: None },
        Op::SetLock { domain: None },
    ]);
    assert_eq!(controller.log, expected);
}

#[test]
fn erase_bank_both_selects_each_bank_in_its_own_write() {
    for domain in [None, Some(Security::NonSecure), Some(Security::Secure)] {
        let mut flash = Flash::new();
        let mut controller = Controller::new();
        let first = flash.erase_bank(BanksToErase::Both, domain);
        assert_eq!(controller.run(&mut flash, first), Ok(()));
        let mut expected = keys(domain);
        expected.extend([
            Op::ReadStatus { domain },
            Op::ReadStatus { domain },
            Op::SelectBank { domain, bank: Bank::Bank0 },
            Op::SelectBank { domain, bank: Bank::Bank1 },
            Op::Start { domain },
            Op::ReadStatus { domain },
            Op::SetLock { domain },
        ]);
        assert_eq!(controller.log, expected);
        let selects = controller.log.iter().filter(|op| matches!(op, Op::SelectBank { .. })).count();
        assert_eq!(selects, 2);
        assert!(controller.locked);
    }
}

#[test]
fn erase_bank_one_bank() {
    let mut flash = Flash::new();
    let mut controller = Controller::new();
    let first = flash.erase_bank(BanksToErase::Bank1, None);
    assert_eq!(controller.run(&mut flash, first), Ok(()));
    let selects: Vec<&Op> =
        controller.log.iter().filter(|op| matches!(op, Op::SelectBank { .. })).collect();
    assert_eq!(selects, vec![&Op::SelectBank { domain: None, bank: Bank::Bank0 }]);
}

#[test]
fn write_page_then_read() {
    let mut flash = Flash::new();
    let mut controller = Controller::new();
    let first = flash.write_page(0, &[0x1122_3344_5566_7788], None);
    assert_eq!(controller.run(&mut flash, first), Ok(()));
    let writes: Vec<&Op> =
        controller.log.iter().filter(|op| matches!(op, Op::WriteWord { .. })).collect();
    assert_eq!(
        writes,
        vec![
            &Op::WriteWord { address: 0x0800_0000, value: 0x5566_7788 },
            &Op::WriteWord { address: 0x0800_0004, value: 0x1122_3344 },
        ]
    );
    assert_eq!(controller.words[0], 0x5566_7788);
    assert_eq!(controller.words[1], 0x1122_3344);
    let memory = controller.double_words();
    assert_eq!(flash.read(&memory, 0, 0), 0x1122_3344_5566_7788);
    assert!(controller.locked);
    assert!(!controller.program);
}

#[test]
fn write_page_whole_sequence() {
    let mut flash = Flash::new();
    let mut controller = Controller::new();
    let domain = Some(Security::Secure);
    let first = flash.write_page(0, &[0x0000_0002_0000_0001, 0xFFFF_FFFF_0000_0000], domain);
    assert_eq!(controller.run(&mut flash, first), Ok(()));
    let mut expected = keys(domain);
    expected.extend([
        Op::ReadStatus { domain },
        Op::ReadStatus { domain },
        Op::SetProgram { domain },
        Op::WriteWord { address: 0x0800_0000, value: 1 },
        Op::WriteWord { address: 0x0800_0004, value: 2 },
        Op::ReadStatus { domain },
        Op::ReadStatus { domain },
        Op::ClearCompletion { domain },
        Op::WriteWord { address: 0x0800_0008, value: 0 },
        Op::WriteWord { address: 0x0800_000C, value: 0xFFFF_FFFF },
        Op::ReadStatus { domain },
        Op::ReadStatus { domain },
        Op::ClearCompletion { domain },
        Op::ClearProgram { domain },
        Op::SetLock { domain },
    ]);
    assert_eq!(controller.log, expected);
    assert!(controller.locked);
    assert!(!controller.program);
}

#[test]
fn write_page_tolerates_a_missing_completion_flag() {
    let mut flash = Flash::new();
    let mut controller = Controller::new();
    controller.sets_completion = false;
    controller.busy_polls = 2;
    let first = flash.write_page(2, &[5], None);
    assert_eq!(controller.run(&mut flash, first), Ok(()));
    let mut expected = keys(None);
    expected.extend([
        Op::ReadStatus { domain: None },
        Op::ReadStatus { domain: None },
        Op::SetProgram { domain: None },
        Op::WriteWord { address: 0x0800_1000, value: 5 },
        Op::WriteWord { address: 0x0800_1004, value: 0 },
        Op::ReadStatus { domain: None },
        Op::ReadStatus { domain: None },
        Op::ReadStatus { domain: None },
        Op::ReadStatus { domain: None },
        Op::ClearProgram { domain: None },
        Op::SetLock { domain: None },
    ]);
    assert_eq!(controller.log, expected);
}

#[test]
fn write_page_without_data() {
    let mut flash = Flash::new();
    let mut controller = Controller::new();
    let first = flash.write_page(7, &[], None);
    assert_eq!(controller.run(&mut flash, first), Ok(()));
    let mut expected = keys(None);
    expected.extend([
        Op::ReadStatus { domain: None },
        Op::ReadStatus { domain: None },
        Op::SetProgram { domain: None },
        Op::ClearProgram { domain: None },
        Op::SetLock { domain: None },
    ]);
    assert_eq!(controller.log, expected);
    assert!(controller.locked);
    assert!(!controller.program);
}

#[test]
fn write_page_ends_locked_on_every_path() {
    for path in 0..4 {
        let mut flash = Flash::new();
        let mut controller = Controller::new();
        controller.accepts_keys = path != 1;
        controller.busy_at_entry = path == 2;
        controller.programming_error = path == 3;
        let first = flash.write_page(1, &[9, 10, 11], None);
        let outcome = controller.run(&mut flash, first);
        let expected = match path {
            0 => Ok(()),
            1 => Err(Error::Failure),
            2 => Err(Error::Busy),
            _ => Err(Error::Illegal),
        };
        assert_eq!(outcome, expected);
        assert!(controller.locked);
        assert!(!controller.program);
        let written = controller.log.iter().filter(|op| matches!(op, Op::WriteWord { .. })).count();
        assert_eq!(written, if path == 0 { 6 } else { 0 });
    }
}

#[test]
fn every_operation_goes_to_the_commands_domain() {
    for command in 0..3 {
        for domain in [None, Some(Security::NonSecure), Some(Security::Secure)] {
            let mut flash = Flash::new();
            let mut controller = Controller::new();
            let first = begin(&mut flash, command, domain);
            assert_eq!(controller.run(&mut flash, first), Ok(()));
            for op in &controller.log {
                let to = match *op {
                    Op::WriteKey { domain, .. }
                    | Op::ReadLock { domain }
                    | Op::ReadStatus { domain }
                    | Op::SetLock { domain }
                    | Op::SelectPage { domain, .. }
                    | Op::ClearPageErase { domain }
                    | Op::SelectBank { domain, .. }
                    | Op::Start { domain }
                    | Op::SetProgram { domain }
                    | Op::ClearProgram { domain }
                    | Op::ClearCompletion { domain } => domain,
                    Op::WriteWord { .. } => domain,
                };
                assert_eq!(to, domain);
            }
        }
    }
}

#[test]
fn pending_names_the_operation_in_flight() {
    let mut flash = Flash::new();
    assert_eq!(flash.pending(), None);
    let first = flash.erase_bank(BanksToErase::Both, None);
    assert_eq!(flash.pending(), Some(Op::WriteKey { domain: None, key: 0x4567_0123 }));
    assert_eq!(first, Step::Perform(Op::WriteKey { domain: None, key: 0x4567_0123 }));
    assert!(!flash.is_idle());
    let second = flash.step(Reply::Written);
    assert_eq!(second, Step::Perform(Op::WriteKey { domain: None, key: 0xCDEF_89AB }));
    assert_eq!(flash.pending(), Some(Op::WriteKey { domain: None, key: 0xCDEF_89AB }));
}

#[test]
fn a_second_command_starts_from_the_locked_state() {
    let mut flash = Flash::new();
    let mut controller = Controller::new();
    controller.busy_at_entry = true;
    let first = flash.write_page(0, &[1], None);
    assert_eq!(controller.run(&mut flash, first), Err(Error::Busy));
    controller.busy_at_entry = false;
    controller.log.clear();
    let first = flash.erase_page(0, None);
    assert_eq!(controller.run(&mut flash, first), Ok(()));
    assert_eq!(controller.log[0], Op::WriteKey { domain: None, key: 0x4567_0123 });
    assert!(controller.locked);
}
