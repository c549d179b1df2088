use vstd::prelude::*;

verus! {

/// Load commands whose string offset the parser reduces by 12.
pub const LC_LOAD_DYLINKER: u32 = 0xe;
pub const LC_ID_DYLINKER: u32 = 0xf;
pub const LC_SUB_FRAMEWORK: u32 = 0x12;
pub const LC_SUB_UMBRELLA: u32 = 0x13;
pub const LC_SUB_CLIENT: u32 = 0x14;
pub const LC_SUB_LIBRARY: u32 = 0x15;
pub const LC_DYLD_ENVIRONMENT: u32 = 0x27;
pub const LC_RPATH: u32 = 0x8000_001c;

/// Load commands whose string offset the parser reduces by 20.
pub const LC_LOADFVMLIB: u32 = 0x6;
pub const LC_IDFVMLIB: u32 = 0x7;

/// Load commands whose string offset the parser reduces by 24.
pub const LC_LOAD_DYLIB: u32 = 0xc;
pub const LC_ID_DYLIB: u32 = 0xd;
pub const LC_LOAD_WEAK_DYLIB: u32 = 0x8000_0018;
pub const LC_REEXPORT_DYLIB: u32 = 0x8000_001f;
pub const LC_LAZY_LOAD_DYLIB: u32 = 0x20;
pub const LC_LOAD_UPWARD_DYLIB: u32 = 0x8000_0023;

/// The load command whose string count the parser reads strings for.
pub const LC_LINKER_OPTION: u32 = 0x2d;

/// The little-endian 32-bit integer at `at`.
pub open spec fn u32_le(b: Seq<u8>, at: int) -> int {
    b[at] as int + b[at + 1] as int * 256 + b[at + 2] as int * 65536 + b[at + 3] as int
        * 16777216
}

/// The fixed size of a command that carries a string offset, which the
/// offset must reach; 0 for any other command.
pub open spec fn string_offset_floor(cmd: int) -> int {
    if cmd == LC_LOAD_DYLINKER || cmd == LC_ID_DYLINKER || cmd == LC_SUB_FRAMEWORK || cmd
        == LC_SUB_UMBRELLA || cmd == LC_SUB_CLIENT || cmd == LC_SUB_LIBRARY || cmd
        == LC_DYLD_ENVIRONMENT || cmd == LC_RPATH {
        12
    } else if cmd == LC_LOADFVMLIB || cmd == LC_IDFVMLIB {
        20
    } else if cmd == LC_LOAD_DYLIB || cmd == LC_ID_DYLIB || cmd == LC_LOAD_WEAK_DYLIB || cmd
        == LC_REEXPORT_DYLIB || cmd == LC_LAZY_LOAD_DYLIB || cmd == LC_LOAD_UPWARD_DYLIB {
        24
    } else {
        0
    }
}

/// The command at `begin` carries, right after its header, a field (a string
/// offset or a string count) that the parser trusts.
pub open spec fn has_checked_field(cmd: int) -> bool {
    string_offset_floor(cmd) > 0 || cmd == LC_LINKER_OPTION
}

/// The command at `begin`, of `cmdsize` bytes, has its checked field, if any,
/// between the command's fixed size and `cmdsize`.
pub open spec fn command_in_range(b: Seq<u8>, begin: int, cmdsize: int) -> bool {
    let cmd = u32_le(b, begin);
    has_checked_field(cmd) ==> begin + 12 <= b.len() && string_offset_floor(cmd) <= u32_le(
        b,
        begin + 8,
    ) <= cmdsize
}

/// The `n` load commands from `begin` on pass `command_in_range`, up to the
/// first whose header the parser rejects (it stops there with an error).
pub open spec fn commands_in_range(b: Seq<u8>, begin: int, n: nat) -> bool
    decreases n,
{
    if n == 0 || begin + 8 > b.len() {
        true
    } else {
        let cmdsize = u32_le(b, begin + 4);
        if cmdsize < 8 || begin + cmdsize > b.len() {
            true
        } else {
            command_in_range(b, begin, cmdsize) && commands_in_range(
                b,
                begin + cmdsize,
                (n - 1) as nat,
            )
        }
    }
}

/// `b` starts with a little-endian 64-bit Mach-O header, and each load
/// command that carries a string offset or count holds it within the command.
pub open spec fn mach64_commands_in_range(b: Seq<u8>) -> bool {
    &&& b.len() >= 32
    &&& b[0] == 0xcf && b[1] == 0xfa && b[2] == 0xed && b[3] == 0xfe
    &&& commands_in_range(b, 32, u32_le(b, 16) as nat)
}

fn read_u32_le(buf: &Vec<u8>, at: usize) -> (r: u32)
    requires
        at + 4 <= buf@.len(),
    ensures
        r as int == u32_le(buf@, at as int),
{
    let _ = buf.len();
    buf[at] as u32 + buf[at + 1] as u32 * 256 + buf[at + 2] as u32 * 65536 + buf[at + 3] as u32
        * 16777216
}

fn offset_floor(cmd: u32) -> (r: u32)
    ensures
        r as int == string_offset_floor(cmd as int),
{
    if cmd == LC_LOAD_DYLINKER || cmd == LC_ID_DYLINKER || cmd == LC_SUB_FRAMEWORK || cmd
        == LC_SUB_UMBRELLA || cmd == LC_SUB_CLIENT || cmd == LC_SUB_LIBRARY || cmd
        == LC_DYLD_ENVIRONMENT || cmd == LC_RPATH {
        12
    } else if cmd == LC_LOADFVMLIB || cmd == LC_IDFVMLIB {
        20
    } else if cmd == LC_LOAD_DYLIB || cmd == LC_ID_DYLIB || cmd == LC_LOAD_WEAK_DYLIB || cmd
        == LC_REEXPORT_DYLIB || cmd == LC_LAZY_LOAD_DYLIB || cmd == LC_LOAD_UPWARD_DYLIB {
        24
    } else {
        0
    }
}

fn check_command(buf: &Vec<u8>, begin: usize, cmdsize: usize) -> (r: bool)
    requires
        begin + 8 <= buf@.len(),
    ensures
        r == command_in_range(buf@, begin as int, cmdsize as int),
{
    let cmd = read_u32_le(buf, begin);
    let floor = offset_floor(cmd);
    if floor > 0 || cmd == LC_LINKER_OPTION {
        if buf.len() - begin < 12 {
            return false;
        }
        let v = read_u32_le(buf, begin + 8) as usize;
        floor as usize <= v && v <= cmdsize
    } else {
        true
    }
}

/// Whether `buf` passes `mach64_commands_in_range`, the condition on which
/// the Mach-O parser reads it without failing on a string offset or count.
pub fn check_mach64_commands(buf: &Vec<u8>) -> (r: bool)
    ensures
        r == mach64_commands_in_range(buf@),
{
    let len = buf.len();
    if len < 32 {
        return false;
    }
    if buf[0] != 0xcf || buf[1] != 0xfa || buf[2] != 0xed || buf[3] != 0xfe {
        return false;
    }
    let n = read_u32_le(buf, 16);
    let mut begin: usize = 32;
    let mut left: u32 = n;
    while left > 0
        invariant
            begin <= len,
            len == buf@.len(),
            mach64_commands_in_range(buf@) == commands_in_range(buf@, begin as int, left as nat),
        decreases left,
    {
        if len - begin < 8 {
            return true;
        }
        let cmdsize = read_u32_le(buf, begin + 4) as usize;
        if cmdsize < 8 || cmdsize > len - begin {
            return true;
        }
        if !check_command(buf, begin, cmdsize) {
            return false;
        }
        begin = begin + cmdsize;
        left = left - 1;
    }
    true
}

} // verus!
