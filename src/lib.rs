//! Locating the stack map section of a compiled binary and walking it with a
//! bounded byte cursor.

mod cursor;
mod elf_locate;
mod error;
mod locate;
mod macho;
mod macho_check;

pub use cursor::{
    align8_target, cursor_align8, cursor_skip, lemma_align8_forward, lemma_align8_idempotent,
    lemma_skip_round_trip, skip_target, Cursor,
};
pub use elf_locate::{
    cursor_from_elf, cursor_over_section, elf_section_data, located_in_elf, STACKMAP_SECTION_NAME,
};
pub use error::{SMParserError, SMParserResult};
pub use locate::{locate, BinaryContainer};
pub use macho::{
    cursor_from_maco, first_match, header_ok, holds_stackmaps, is_stackmap_section, locate_segmented,
    located_in, located_in_maco, mach_image_of, start_position, LoadCmd, LoadCmdView, MacOFile,
    MachImage, MachImageView, SectionEntry, SectionView, CPU_TYPE_X86_64, STACKMAP_SECTION_NAME_MACO,
};
pub use macho_check::{check_mach64_commands, mach64_commands_in_range};
