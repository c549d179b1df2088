use vstd::prelude::*;

use crate::cursor::Cursor;
use crate::error::{SMParserError, SMParserResult};
use crate::macho_check::{check_mach64_commands, mach64_commands_in_range};
use mach_object::{LoadCommand, MachCommand, OFile};

verus! {

/// The name of the stack map section in a segmented container.
pub const STACKMAP_SECTION_NAME_MACO: &'static str = "__llvm_stackmaps";

/// The header's CPU type for 64-bit x86, the one architecture supported.
pub const CPU_TYPE_X86_64: i32 = 0x0100_0007;

/// The raw bytes of a segmented container.
#[derive(Clone, Debug)]
pub struct MacOFile {
    pub buf: Vec<u8>,
}

/// A section of a segment: its name and its file offset.
pub struct SectionEntry {
    pub sectname: String,
    pub offset: u32,
}

/// A load command: a 64-bit segment, or any other command.
pub enum LoadCmd {
    Segment64 { segname: String, fileoff: u64, sections: Vec<SectionEntry> },
    Other,
}

/// What the locator reads of a parsed segmented container: the header's CPU
/// type and declared command count, and the load commands in file order.
pub struct MachImage {
    pub cputype: i32,
    pub ncmds: u32,
    pub commands: Vec<LoadCmd>,
}

/// The value of a `SectionEntry`.
pub struct SectionView {
    pub sectname: Seq<char>,
    pub offset: u32,
}

/// The value of a `LoadCmd`.
pub enum LoadCmdView {
    Segment64 { segname: Seq<char>, fileoff: u64, sections: Seq<SectionView> },
    Other,
}

/// The value of a `MachImage`.
pub struct MachImageView {
    pub cputype: i32,
    pub ncmds: u32,
    pub commands: Seq<LoadCmdView>,
}

impl View for SectionEntry {
    type V = SectionView;

    open spec fn view(&self) -> SectionView {
        SectionView { sectname: self.sectname@, offset: self.offset }
    }
}

impl View for LoadCmd {
    type V = LoadCmdView;

    open spec fn view(&self) -> LoadCmdView {
        match self {
            LoadCmd::Segment64 { segname, fileoff, sections } => LoadCmdView::Segment64 {
                segname: segname@,
                fileoff: *fileoff,
                sections: sections@.map_values(|s: SectionEntry| s@),
            },
            LoadCmd::Other => LoadCmdView::Other,
        }
    }
}

impl View for MachImage {
    type V = MachImageView;

    open spec fn view(&self) -> MachImageView {
        MachImageView {
            cputype: self.cputype,
            ncmds: self.ncmds,
            commands: self.commands@.map_values(|c: LoadCmd| c@),
        }
    }
}

/// The section carries the stack map name.
pub open spec fn is_stackmap_section(s: SectionView) -> bool {
    s.sectname == STACKMAP_SECTION_NAME_MACO@
}

/// The command is a 64-bit segment holding a stack map section.
pub open spec fn holds_stackmaps(c: LoadCmdView) -> bool {
    match c {
        LoadCmdView::Segment64 { sections, .. } => exists|j: int|
            0 <= j < sections.len() && #[trigger] is_stackmap_section(sections[j]),
        LoadCmdView::Other => false,
    }
}

/// The header names the supported architecture and counts the commands
/// that were parsed.
pub open spec fn header_ok(img: MachImageView) -> bool {
    img.cputype == CPU_TYPE_X86_64 && img.ncmds as int == img.commands.len()
}

/// Command `i` is the first that holds a stack map section.
pub open spec fn first_match(cmds: Seq<LoadCmdView>, i: int) -> bool {
    &&& 0 <= i < cmds.len()
    &&& holds_stackmaps(cmds[i])
    &&& forall|k: int| 0 <= k < i ==> !#[trigger] holds_stackmaps(cmds[k])
}

/// Where the cursor starts for a match in command `c`: the segment's file
/// offset plus `start`, or `start` alone in absolute mode.
pub open spec fn start_position(c: LoadCmdView, start: u64, is_abs_pos: bool) -> int {
    match c {
        LoadCmdView::Segment64 { fileoff, .. } => if is_abs_pos {
            start as int
        } else {
            fileoff + start
        },
        LoadCmdView::Other => start as int,
    }
}

/// What locating the stack map section in `img` gives for a cursor over
/// `buf`: `HeaderMismatch` or `SectionNotFound` where the header or the
/// commands rule it out, else a cursor at the start position of the first
/// match, or `Seek` where that lies past the end of `buf`.
pub open spec fn located_in<'a>(
    r: SMParserResult<Cursor<'a>>,
    buf: Seq<u8>,
    img: MachImageView,
    start_pos: u64,
    is_abs_pos: bool,
) -> bool {
    &&& !header_ok(img) ==> r == Err::<Cursor<'a>, SMParserError>(SMParserError::HeaderMismatch)
    &&& header_ok(img) && (forall|i: int|
        0 <= i < img.commands.len() ==> !#[trigger] holds_stackmaps(img.commands[i])) ==> r
        == Err::<Cursor<'a>, SMParserError>(SMParserError::SectionNotFound)
    &&& forall|i: int|
        header_ok(img) && #[trigger] first_match(img.commands, i) ==> {
            let p = start_position(img.commands[i], start_pos, is_abs_pos);
            &&& p <= buf.len() ==> r is Ok && r->Ok_0.bytes() == buf && r->Ok_0.pos() == p
                && r->Ok_0.wf()
            &&& p > buf.len() ==> r == Err::<Cursor<'a>, SMParserError>(SMParserError::Seek)
        }
}

/// Whether `sections` holds a section named like the stack map section.
fn has_stackmap_section(sections: &Vec<SectionEntry>, target: &String) -> (r: bool)
    requires
        target@ == STACKMAP_SECTION_NAME_MACO@,
    ensures
        r == exists|j: int|
            0 <= j < sections@.len() && #[trigger] is_stackmap_section(sections@[j]@),
{
    let mut j: usize = 0;
    while j < sections.len()
        invariant
            j <= sections@.len(),
            target@ == STACKMAP_SECTION_NAME_MACO@,
            forall|m: int| 0 <= m < j ==> !#[trigger] is_stackmap_section(sections@[m]@),
        decreases sections@.len() - j,
    {
        if sections[j].sectname == *target {
            assert(is_stackmap_section(sections@[j as int]@));
            return true;
        }
        j = j + 1;
    }
    false
}

/// Locates the stack map section in a parsed segmented container and returns
/// a cursor over `buf`, the container's bytes, at the start position of the
/// first segment that holds it.
pub fn locate_segmented<'a>(
    buf: &'a Vec<u8>,
    img: &MachImage,
    start_pos: u64,
    is_abs_pos: bool,
) -> (r: SMParserResult<Cursor<'a>>)
    ensures
        r is Ok ==> r->Ok_0.bytes() == buf@ && r->Ok_0.wf() && start_pos <= r->Ok_0.pos() && (
        is_abs_pos ==> r->Ok_0.pos() == start_pos),
        located_in(r, buf@, img@, start_pos, is_abs_pos),
{
    if img.cputype != CPU_TYPE_X86_64 || img.ncmds as usize != img.commands.len() {
        return Err(SMParserError::HeaderMismatch);
    }
    let target = STACKMAP_SECTION_NAME_MACO.to_owned();
    let mut i: usize = 0;
    while i < img.commands.len()
        invariant
            i <= img.commands@.len(),
            header_ok(img@),
            target@ == STACKMAP_SECTION_NAME_MACO@,
            forall|k: int| 0 <= k < i ==> !#[trigger] holds_stackmaps(img@.commands[k]),
        decreases img.commands@.len() - i,
    {
        match &img.commands[i] {
            LoadCmd::Segment64 { segname, fileoff, sections } => {
                let found = has_stackmap_section(sections, &target);
                let ghost sv = sections@.map_values(|s: SectionEntry| s@);
                assert(img@.commands[i as int] == (LoadCmdView::Segment64 {
                    segname: segname@,
                    fileoff: *fileoff,
                    sections: sv,
                }));
                assert(forall|j: int| 0 <= j < sv.len() ==> #[trigger] sv[j] == sections@[j]@);
                if found {
                    let ghost j = choose|j: int|
                        0 <= j < sections@.len() && #[trigger] is_stackmap_section(sections@[j]@);
                    assert(is_stackmap_section(img@.commands[i as int]->Segment64_sections[j]));
                    assert(first_match(img@.commands, i as int));
                    let len: u64 = buf.len() as u64;
                    let mut cursor = Cursor::new(buf);
                    if is_abs_pos {
                        return match cursor.seek_to(start_pos) {
                            Ok(_) => Ok(cursor),
                            Err(e) => Err(e),
                        };
                    } else if *fileoff > len || start_pos > len - *fileoff {
                        return Err(SMParserError::Seek);
                    } else {
                        return match cursor.seek_to(*fileoff + start_pos) {
                            Ok(_) => Ok(cursor),
                            Err(e) => Err(e),
                        };
                    }
                } else {
                    assert(!holds_stackmaps(img@.commands[i as int])) by {
                        if holds_stackmaps(img@.commands[i as int]) {
                            let j = choose|j: int|
                                0 <= j < sv.len() && #[trigger] is_stackmap_section(sv[j]);
                            assert(is_stackmap_section(sections@[j]@));
                        }
                    }
                }
            },
            LoadCmd::Other => {},
        }
        i = i + 1;
    }
    Err(SMParserError::SectionNotFound)
}

#[verifier::external_type_specification]
#[verifier::external_body]
pub struct ExOFile(OFile);

/// What `mach_object::OFile::parse` makes of a container's bytes: `None`
/// where it fails, `Some(None)` where the bytes hold something other than a
/// single-architecture file, else the header fields and load commands read.
pub uninterp spec fn mach_image_of(buf: Seq<u8>) -> Option<Option<MachImageView>>;

/// Relies on mach_object::OFile::parse to read a container from the start of
/// `buf`, and on the fields of its `MachFile` variant, `MachHeader` and
/// `LoadCommand::Segment64`. The parser subtracts string offsets read from
/// the file, so `buf` must pass the check on load commands.
#[verifier::external_body]
fn parse_mach_image(buf: &Vec<u8>) -> (r: Option<Option<MachImage>>)
    requires
        mach64_commands_in_range(buf@),
    ensures
        r is None <==> mach_image_of(buf@) is None,
        r == Some(None::<MachImage>) <==> mach_image_of(buf@) == Some(None::<MachImageView>),
        r matches Some(Some(img)) ==> mach_image_of(buf@) == Some(Some(img@)),
{
    let cmd_of = |c: &MachCommand| match &c.0 {
        LoadCommand::Segment64 { segname, fileoff, sections, .. } => LoadCmd::Segment64 {
            segname: segname.clone(),
            fileoff: *fileoff as u64,
            sections: sections.iter().map(|s| SectionEntry { sectname: s.sectname.clone(), offset: s.offset }).collect(),
        },
        _ => LoadCmd::Other,
    };
    match OFile::parse(&mut std::io::Cursor::new(buf)) {
        Err(_) => None,
        Ok(OFile::MachFile { header, commands }) => Some(Some(
            MachImage { cputype: header.cputype, ncmds: header.ncmds, commands: commands.iter().map(cmd_of).collect() },
        )),
        Ok(_) => Some(None),
    }
}

/// What locating the stack map section of the container bytes `buf` gives:
/// `Malformed` where they fail the check on load commands or the parser
/// rejects them, `SectionNotFound` where they hold something other than a
/// single-architecture file, else what `located_in` says of the image read.
pub open spec fn located_in_maco<'a>(
    r: SMParserResult<Cursor<'a>>,
    buf: Seq<u8>,
    start_pos: u64,
    is_abs_pos: bool,
) -> bool {
    &&& !mach64_commands_in_range(buf) ==> r == Err::<Cursor<'a>, SMParserError>(
        SMParserError::Malformed,
    )
    &&& mach64_commands_in_range(buf) && mach_image_of(buf) is None ==> r == Err::<
        Cursor<'a>,
        SMParserError,
    >(SMParserError::Malformed)
    &&& mach64_commands_in_range(buf) && mach_image_of(buf) == Some(None::<MachImageView>) ==> r
        == Err::<Cursor<'a>, SMParserError>(SMParserError::SectionNotFound)
    &&& forall|img: MachImageView|
        mach64_commands_in_range(buf) && #[trigger] mach_image_of(buf) == Some(Some(img))
            ==> located_in(r, buf, img, start_pos, is_abs_pos)
}

/// Parses `maco_file` and locates its stack map section as
/// `locate_segmented` does. Bytes that fail the check on load commands, or
/// that the parser rejects, give `Malformed`; bytes that hold something other
/// than a single-architecture file have no section to find.
pub fn cursor_from_maco<'a>(maco_file: &'a MacOFile, start_pos: u64, is_abs_pos: bool) -> (r:
    SMParserResult<Cursor<'a>>)
    ensures
        located_in_maco(r, maco_file.buf@, start_pos, is_abs_pos),
        r is Ok ==> r->Ok_0.bytes() == maco_file.buf@ && r->Ok_0.wf() && start_pos
            <= r->Ok_0.pos() && (is_abs_pos ==> r->Ok_0.pos() == start_pos),
{
    if !check_mach64_commands(&maco_file.buf) {
        return Err(SMParserError::Malformed);
    }
    match parse_mach_image(&maco_file.buf) {
        None => Err(SMParserError::Malformed),
        Some(None) => Err(SMParserError::SectionNotFound),
        Some(Some(img)) => locate_segmented(&maco_file.buf, &img, start_pos, is_abs_pos),
    }
}

} // verus!
