//! Reading flash memory back. Reads need no command: the memory is handed
//! in as it is mapped, from the flash base address on.

use vstd::prelude::*;
use crate::flash::address::{page_address, FLASH_BASE};
use crate::flash::sequencer::Flash;

verus! {

/// Double words in one page.
pub const PAGE_DOUBLE_WORDS: usize = 256;

/// The index, counted from the start of `page` in units of `per_page` to
/// the page, of the unit that lies `offset` units after the page's start.
pub open spec fn cell_index(page: int, per_page: int, offset: int) -> int {
    page * per_page + offset
}

/// The double word that `read` returns lies `offset` double words after
/// the address at which `page` starts, and the byte that `read_to_buffer`
/// copies lies `offset` bytes after it.
pub proof fn lemma_cell_address(page: int, offset: int)
    ensures
        FLASH_BASE as int + 8 * cell_index(page, PAGE_DOUBLE_WORDS as int, offset) == page_address(page)
            + 8 * offset,
        FLASH_BASE as int + cell_index(page, 2048, offset) == page_address(page) + offset,
{
}

/// The index of the cell `offset` cells after the start of `page`.
fn locate(page: usize, per_page: usize, offset: isize, cells: usize) -> (index: usize)
    requires
        per_page <= 2048,
        page_address(page as int) <= usize::MAX,
        0 <= cell_index(page as int, per_page as int, offset as int) < cells,
    ensures
        index as int == cell_index(page as int, per_page as int, offset as int),
{
    assert(page * per_page <= page * 2048) by (nonlinear_arith)
        requires
            per_page <= 2048,
    ;
    let start: usize = page * per_page;
    if offset >= 0 {
        start + offset as usize
    } else {
        let back: usize = (-(offset + 1)) as usize;
        start - back - 1
    }
}

impl Flash {
    /// Read a single 64-bit memory cell, indexed by its page, and an offset from the page.
    ///
    /// `memory` is flash memory in double words. The offset counts double
    /// words, and may be negative.
    pub fn read(&self, memory: &[u64], page: usize, offset: isize) -> (value: u64)
        requires
            page_address(page as int) <= usize::MAX,
            0 <= cell_index(page as int, PAGE_DOUBLE_WORDS as int, offset as int) < memory@.len(),
        ensures
            value == memory@[cell_index(page as int, PAGE_DOUBLE_WORDS as int, offset as int)],
    {
        let index = locate(page, PAGE_DOUBLE_WORDS, offset, memory.len());
        memory[index]
    }

    /// Read flash memory at a given page and offset into a buffer.
    ///
    /// `memory` is flash memory in bytes, and the offset counts bytes. Every
    /// element of the buffer receives the one byte at that offset: the
    /// address does not move on from one element to the next.
    pub fn read_to_buffer(&self, memory: &[u8], page: usize, offset: isize, buff: &mut [u8])
        requires
            page_address(page as int) <= usize::MAX,
            0 <= cell_index(page as int, 2048, offset as int) < memory@.len(),
        ensures
            final(buff)@ == Seq::new(
                old(buff)@.len(),
                |i: int| memory@[cell_index(page as int, 2048, offset as int)],
            ),
    {
        let index = locate(page, 2048, offset, memory.len());
        let value: u8 = memory[index];
        let length: usize = buff.len();
        let mut filled: usize = 0;
        while filled < length
            invariant
                filled <= length,
                buff@.len() == length,
                forall|i: int| 0 <= i < filled ==> buff@[i] == value,
            decreases length - filled,
        {
            buff[filled] = value;
            filled = filled + 1;
        }
        assert(buff@ =~= Seq::new(length as nat, |i: int| value));
    }
}

} // verus!
