use vstd::prelude::*;

use crate::cursor::Cursor;
use crate::elf_locate::{cursor_from_elf, located_in_elf};
use crate::error::SMParserResult;
use crate::macho::{cursor_from_maco, located_in_maco, MacOFile};

verus! {

/// A container of one of the two supported formats, borrowed for a lookup.
pub enum BinaryContainer<'a> {
    /// A flat section table, already parsed.
    Flat(&'a elf::File),
    /// The raw bytes of a segmented container.
    Segmented(&'a MacOFile),
}

/// Locates the stack map section of `container` and returns a cursor over it
/// at `start_pos`. For a segmented container `start_pos` counts from the
/// matching segment's file offset unless `is_abs_pos` holds; a flat
/// container's section is always addressed from its own start.
pub fn locate<'a>(container: BinaryContainer<'a>, start_pos: u64, is_abs_pos: bool) -> (r:
    SMParserResult<Cursor<'a>>)
    ensures
        r is Ok ==> r->Ok_0.wf() && start_pos <= r->Ok_0.pos(),
        r is Ok && (container is Flat || is_abs_pos) ==> r->Ok_0.pos() == start_pos,
        container is Flat ==> located_in_elf(r, *container->Flat_0, start_pos),
        container is Segmented ==> located_in_maco(
            r,
            container->Segmented_0.buf@,
            start_pos,
            is_abs_pos,
        ),
        container is Segmented && r is Ok ==> r->Ok_0.bytes() == container->Segmented_0.buf@,
{
    match container {
        BinaryContainer::Flat(f) => cursor_from_elf(f, start_pos),
        BinaryContainer::Segmented(m) => cursor_from_maco(m, start_pos, is_abs_pos),
    }
}

} // verus!
