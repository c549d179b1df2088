use vstd::prelude::*;

use crate::cursor::Cursor;
use crate::error::{SMParserError, SMParserResult};

verus! {

/// The name of the stack map section in a flat container.
pub const STACKMAP_SECTION_NAME: &'static str = ".llvm_stackmaps";

#[verifier::external_type_specification]
#[verifier::external_body]
pub struct ExElfFile(elf::File);

/// The data of the first section named `name` in `f`, as
/// `elf::File::get_section` finds it.
pub uninterp spec fn elf_section_data(f: elf::File, name: Seq<char>) -> Option<Seq<u8>>;

/// Relies on elf::File::get_section, which returns the first section whose
/// header name equals `name`, for that section's data.
#[verifier::external_body]
fn section_data<'a>(file: &'a elf::File, name: &str) -> (r: Option<&'a Vec<u8>>)
    ensures
        r is None <==> elf_section_data(*file, name@) is None,
        r is Some ==> elf_section_data(*file, name@) == Some(r->0@),
{
    file.get_section(name).map(|s| &s.data)
}

/// What locating the stack map section of `f` gives: `SectionNotFound`
/// where `f` has no section of that name, else a cursor over its data at
/// `start_pos`, or `Seek` where that lies past the end.
pub open spec fn located_in_elf<'a>(r: SMParserResult<Cursor<'a>>, f: elf::File, start_pos: u64) -> bool {
    let d = elf_section_data(f, STACKMAP_SECTION_NAME@);
    &&& d is None ==> r == Err::<Cursor<'a>, SMParserError>(SMParserError::SectionNotFound)
    &&& d is Some && start_pos <= d->0.len() ==> r is Ok && r->Ok_0.bytes() == d->0
        && r->Ok_0.pos() == start_pos && r->Ok_0.wf()
    &&& d is Some && start_pos > d->0.len() ==> r == Err::<Cursor<'a>, SMParserError>(
        SMParserError::Seek,
    )
}

/// A cursor at `start_pos` over `data`, the stack map section's bytes as
/// looked up in a flat container, or `SectionNotFound` where there were none.
pub fn cursor_over_section<'a>(data: Option<&'a Vec<u8>>, start_pos: u64) -> (r: SMParserResult<
    Cursor<'a>,
>)
    ensures
        data is None ==> r == Err::<Cursor<'a>, SMParserError>(SMParserError::SectionNotFound),
        data is Some && start_pos <= data->0@.len() ==> r is Ok && r->Ok_0.bytes() == data->0@
            && r->Ok_0.pos() == start_pos && r->Ok_0.wf(),
        data is Some && start_pos > data->0@.len() ==> r == Err::<Cursor<'a>, SMParserError>(
            SMParserError::Seek,
        ),
{
    match data {
        None => Err(SMParserError::SectionNotFound),
        Some(d) => {
            let mut cursor = Cursor::new(d);
            match cursor.seek_to(start_pos) {
                Ok(_) => Ok(cursor),
                Err(e) => Err(e),
            }
        },
    }
}

/// Looks up the stack map section of `elf_file` and returns a cursor over its
/// data at `start_pos`.
pub fn cursor_from_elf<'a>(elf_file: &'a elf::File, start_pos: u64) -> (r: SMParserResult<
    Cursor<'a>,
>)
    ensures
        located_in_elf(r, *elf_file, start_pos),
{
    cursor_over_section(section_data(elf_file, STACKMAP_SECTION_NAME), start_pos)
}

} // verus!
