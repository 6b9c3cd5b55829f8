//! Page addressing: where a page starts in memory, and which bank holds it.

use vstd::prelude::*;

verus! {

/// Address of the first byte of flash memory.
pub const FLASH_BASE: usize = 0x0800_0000;

/// Bytes in one page, the unit of erasure.
pub const PAGE_SIZE: usize = 2048;

/// Pages in one bank: pages below this index lie in the first bank.
pub const BANK_SPLIT: usize = 256;

/// Pages in both banks together. A page index is valid if it is below this.
pub const PAGE_COUNT: usize = 512;

/// One of the two banks of flash memory, as the bank-select bit counts them.
#[derive(Clone, Copy, Debug, PartialEq, Eq, Structural)]
pub enum Bank {
    Bank0,
    Bank1,
}

/// The address at which `page` starts.
pub open spec fn page_address(page: int) -> int {
    FLASH_BASE as int + page * (PAGE_SIZE as int)
}

/// Whether `page` is a page that the controller can address.
pub open spec fn page_in_range(page: int) -> bool {
    0 <= page < PAGE_COUNT as int
}

/// The bank that holds a valid `page`, and the page's index within that bank.
pub open spec fn page_bank(page: int) -> (Bank, int) {
    if page < BANK_SPLIT as int {
        (Bank::Bank0, page)
    } else {
        (Bank::Bank1, page - BANK_SPLIT as int)
    }
}

/// Calculate the address of the start of a given page.
pub fn page_to_address(page: usize) -> (address: usize)
    requires
        page_address(page as int) <= usize::MAX,
    ensures
        address as int == page_address(page as int),
{
    FLASH_BASE + page * PAGE_SIZE
}

/// Split a page index into its bank and its index within the bank.
/// `None` for a page beyond the second bank.
pub fn page_to_bank(page: usize) -> (location: Option<(Bank, u8)>)
    ensures
        page_in_range(page as int) <==> location is Some,
        location matches Some((bank, index)) ==> (bank, index as int) == page_bank(page as int),
{
    if page < BANK_SPLIT {
        Some((Bank::Bank0, page as u8))
    } else if page < PAGE_COUNT {
        Some((Bank::Bank1, (page - BANK_SPLIT) as u8))
    } else {
        None
    }
}

/// Consecutive pages start one page size apart.
pub proof fn lemma_page_stride(page: int)
    ensures
        page_address(page + 1) - page_address(page) == PAGE_SIZE as int,
        page_address(page + 1) - page_address(page) == 2048,
{
}

/// Every valid page starts on a page boundary, inside the 32-bit address space.
pub proof fn lemma_page_aligned(page: int)
    requires
        page_in_range(page),
    ensures
        page_address(page) % (PAGE_SIZE as int) == 0,
        FLASH_BASE as int <= page_address(page) < 0x0810_0000,
{
}

/// A later page starts at a higher address.
pub proof fn lemma_page_monotonic(first: int, second: int)
    requires
        first < second,
    ensures
        page_address(first) < page_address(second),
{
}

} // verus!
