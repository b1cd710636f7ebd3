//! Host-side ELF allowlist. Coarse on purpose: refuse anything that is not a
//! static RV64 executable loadable at the playground DDR base.
use vstd::prelude::*;

verus! {

/// Largest upload that is accepted, in bytes (4 MiB).
pub const MAX_ELF_BYTES: usize = 4194304;

/// Where the playground expects firmware to be loaded (DDR base).
pub const PLAYGROUND_LOAD_ADDR: u64 = 0x8000_0000;

/// `e_machine` of RISC-V.
pub const EM_RISCV: u16 = 243;

/// `EI_CLASS` value of a 64-bit ELF.
pub const ELFCLASS64: u8 = 2;

/// `EI_DATA` value of a little-endian ELF.
pub const ELFDATA2LSB: u8 = 1;

/// `e_type` of an executable.
pub const ET_EXEC: u16 = 2;

/// `e_type` of a shared object / position-independent executable.
pub const ET_DYN: u16 = 3;

/// `p_type` of a loadable segment.
pub const PT_LOAD: u32 = 1;

/// `p_type` of a program interpreter request.
pub const PT_INTERP: u32 = 3;

/// Size of the ELF64 file header.
pub const EHSIZE: usize = 64;

/// Size of one ELF64 program header.
pub const PHDR64: usize = 56;

/// Most program headers an upload may declare.
pub const MAX_PHNUM: u64 = 128;

/// Why an upload was refused.
#[derive(Debug, Clone, Copy, PartialEq, Eq, Structural)]
pub enum ElfError {
    Empty,
    TooLarge,
    NotElf,
    Not64,
    NotLe,
    NotRiscv,
    NotExec,
    HasInterpreter,
    NoPlaygroundLoad,
    Truncated,
}

impl ElfError {
    /// The human-readable text of the refusal.
    pub fn message(&self) -> (s: &'static str)
        ensures
            s@ == elf_error_text(*self),
    {
        match self {
            ElfError::Empty => "file is empty",
            ElfError::TooLarge => "larger than 4194304 bytes",
            ElfError::NotElf => "not an ELF file",
            ElfError::Not64 => "only ELFCLASS64 is accepted",
            ElfError::NotLe => "only little-endian ELF is accepted",
            ElfError::NotRiscv => "machine is not RISC-V (EM_RISCV=243)",
            ElfError::NotExec => "ELF type is not ET_EXEC",
            ElfError::HasInterpreter => "dynamic interpreter present; Linux userspace ELFs are rejected",
            ElfError::NoPlaygroundLoad => "no PT_LOAD segment covers 0x80000000",
            ElfError::Truncated => "truncated ELF headers",
        }
    }
}

/// The text that `ElfError::message` gives for each refusal.
pub open spec fn elf_error_text(e: ElfError) -> Seq<char> {
    match e {
        ElfError::Empty => "file is empty"@,
        ElfError::TooLarge => "larger than 4194304 bytes"@,
        ElfError::NotElf => "not an ELF file"@,
        ElfError::Not64 => "only ELFCLASS64 is accepted"@,
        ElfError::NotLe => "only little-endian ELF is accepted"@,
        ElfError::NotRiscv => "machine is not RISC-V (EM_RISCV=243)"@,
        ElfError::NotExec => "ELF type is not ET_EXEC"@,
        ElfError::HasInterpreter => "dynamic interpreter present; Linux userspace ELFs are rejected"@,
        ElfError::NoPlaygroundLoad => "no PT_LOAD segment covers 0x80000000"@,
        ElfError::Truncated => "truncated ELF headers"@,
    }
}

// ---------------------------------------------------------------------------
// The format, stated over the bytes of the file.
// ---------------------------------------------------------------------------

/// Little-endian 16-bit value at `off`.
pub open spec fn le16(b: Seq<u8>, off: int) -> int {
    b[off] + 256 * b[off + 1]
}

/// Little-endian 32-bit value at `off`.
pub open spec fn le32(b: Seq<u8>, off: int) -> int {
    le16(b, off) + 65536 * le16(b, off + 2)
}

/// Little-endian 64-bit value at `off`.
pub open spec fn le64(b: Seq<u8>, off: int) -> int {
    le32(b, off) + 4294967296 * le32(b, off + 4)
}

/// `a + b`, held at `u64::MAX` when it does not fit.
pub open spec fn saturating_sum_u64(a: int, b: int) -> int {
    if a + b > u64::MAX {
        u64::MAX as int
    } else {
        a + b
    }
}

/// The file starts with `\x7fELF`.
pub open spec fn has_elf_magic(b: Seq<u8>) -> bool {
    &&& b[0] == 0x7f
    &&& b[1] == 0x45
    &&& b[2] == 0x4c
    &&& b[3] == 0x46
}

/// `e_type`.
pub open spec fn e_type(b: Seq<u8>) -> int {
    le16(b, 16)
}

/// `e_machine`.
pub open spec fn e_machine(b: Seq<u8>) -> int {
    le16(b, 18)
}

/// `e_phoff`: where the program header table starts.
pub open spec fn e_phoff(b: Seq<u8>) -> int {
    le64(b, 32)
}

/// `e_phentsize`: the size of one program header.
pub open spec fn e_phentsize(b: Seq<u8>) -> int {
    le16(b, 54)
}

/// `e_phnum`: how many program headers there are.
pub open spec fn e_phnum(b: Seq<u8>) -> int {
    le16(b, 56)
}

/// Where program header `i` starts.
pub open spec fn ph_offset(b: Seq<u8>, i: int) -> int {
    e_phoff(b) + i * e_phentsize(b)
}

/// The program header at `off` asks for a dynamic interpreter.
pub open spec fn ph_is_interp(b: Seq<u8>, off: int) -> bool {
    le32(b, off) == PT_INTERP
}

/// The program header at `off` is a loadable segment whose memory range
/// `[p_vaddr, p_vaddr + p_memsz)` (the end held at `u64::MAX`) contains the
/// playground load address.
pub open spec fn ph_covers_playground(b: Seq<u8>, off: int) -> bool {
    let vaddr = le64(b, off + 16);
    let memsz = le64(b, off + 40);
    &&& le32(b, off) == PT_LOAD
    &&& vaddr <= PLAYGROUND_LOAD_ADDR
    &&& PLAYGROUND_LOAD_ADDR < saturating_sum_u64(vaddr, memsz)
}

/// The declared program header table is plausible and lies inside the file.
pub open spec fn ph_table_fits(b: Seq<u8>) -> bool {
    &&& e_phentsize(b) >= PHDR64
    &&& 1 <= e_phnum(b) <= MAX_PHNUM
    &&& e_phoff(b) + e_phnum(b) * e_phentsize(b) <= b.len()
}

/// Some program header asks for an interpreter.
pub open spec fn some_interp(b: Seq<u8>) -> bool {
    exists|i: int| 0 <= i < e_phnum(b) && #[trigger] ph_is_interp(b, ph_offset(b, i))
}

/// Some loadable segment covers the playground load address.
pub open spec fn some_playground_load(b: Seq<u8>) -> bool {
    exists|i: int| 0 <= i < e_phnum(b) && #[trigger] ph_covers_playground(b, ph_offset(b, i))
}

/// The verdict on an upload: the first rule that it breaks, in this order.
pub open spec fn elf_verdict(b: Seq<u8>) -> Result<(), ElfError> {
    if b.len() == 0 {
        Err(ElfError::Empty)
    } else if b.len() > MAX_ELF_BYTES {
        Err(ElfError::TooLarge)
    } else if b.len() < EHSIZE {
        Err(ElfError::Truncated)
    } else if !has_elf_magic(b) {
        Err(ElfError::NotElf)
    } else if b[4] != ELFCLASS64 {
        Err(ElfError::Not64)
    } else if b[5] != ELFDATA2LSB {
        Err(ElfError::NotLe)
    } else if e_machine(b) != EM_RISCV {
        Err(ElfError::NotRiscv)
    } else if e_type(b) != ET_EXEC {
        Err(ElfError::NotExec)
    } else if !ph_table_fits(b) {
        Err(ElfError::Truncated)
    } else if some_interp(b) {
        Err(ElfError::HasInterpreter)
    } else if !some_playground_load(b) {
        Err(ElfError::NoPlaygroundLoad)
    } else {
        Ok(())
    }
}

// ---------------------------------------------------------------------------
// Readers.
// ---------------------------------------------------------------------------

/// Little-endian `u16` at `off`, or `Truncated` when it does not fit in the file.
pub fn u16_at(bytes: &[u8], off: usize) -> (r: Result<u16, ElfError>)
    requires
        off + 2 <= usize::MAX,
    ensures
        off + 2 <= bytes@.len() ==> r == Ok::<u16, ElfError>(le16(bytes@, off as int) as u16),
        off + 2 > bytes@.len() ==> r == Err::<u16, ElfError>(ElfError::Truncated),
        r is Ok ==> r->Ok_0 == le16(bytes@, off as int),
{
    if off + 2 > bytes.len() {
        return Err(ElfError::Truncated);
    }
    Ok(read_u16(bytes, off))
}

/// Little-endian `u64` at `off`, or `Truncated` when it does not fit in the file.
pub fn u64_at(bytes: &[u8], off: usize) -> (r: Result<u64, ElfError>)
    requires
        off + 8 <= usize::MAX,
    ensures
        off + 8 <= bytes@.len() ==> r == Ok::<u64, ElfError>(le64(bytes@, off as int) as u64),
        off + 8 > bytes@.len() ==> r == Err::<u64, ElfError>(ElfError::Truncated),
        r is Ok ==> r->Ok_0 == le64(bytes@, off as int),
{
    if off + 8 > bytes.len() {
        return Err(ElfError::Truncated);
    }
    Ok(read_u64(bytes, off))
}

fn read_u16(bytes: &[u8], off: usize) -> (v: u16)
    requires
        off + 2 <= bytes@.len(),
    ensures
        v == le16(bytes@, off as int),
{
    (bytes[off] as u16) + (bytes[off + 1] as u16) * 256
}

fn read_u32(bytes: &[u8], off: usize) -> (v: u32)
    requires
        off + 4 <= bytes.len(),
    ensures
        v == le32(bytes@, off as int),
{
    let lo = read_u16(bytes, off);
    let hi = read_u16(bytes, off + 2);
    (lo as u32) + (hi as u32) * 65536
}

fn read_u64(bytes: &[u8], off: usize) -> (v: u64)
    requires
        off + 8 <= bytes.len(),
    ensures
        v == le64(bytes@, off as int),
{
    let lo = read_u32(bytes, off);
    let hi = read_u32(bytes, off + 4);
    (lo as u64) + (hi as u64) * 4294967296
}

proof fn lemma_next_header(phoff: int, p: int, i: int, n: int)
    requires
        0 <= i < n,
        0 <= p,
    ensures
        phoff + i * p + p == phoff + (i + 1) * p,
        (i + 1) * p <= n * p,
        0 <= i * p,
{
    assert((i + 1) * p == i * p + p) by (nonlinear_arith);
    assert((i + 1) * p <= n * p) by (nonlinear_arith)
        requires
            i + 1 <= n,
            0 <= p,
    ;
    assert(0 <= i * p) by (nonlinear_arith)
        requires
            0 <= i,
            0 <= p,
    ;
}

/// Call before bind-mounting an upload into a session.
///
/// The result is exactly `elf_verdict(bytes@)`; in particular an accepted
/// upload is a 64-bit little-endian RISC-V executable with no interpreter
/// and a loadable segment over the playground load address.
pub fn validate_elf(bytes: &[u8]) -> (r: Result<(), ElfError>)
    ensures
        r == elf_verdict(bytes@),
        r is Ok ==> {
            &&& EHSIZE <= bytes@.len() <= MAX_ELF_BYTES
            &&& has_elf_magic(bytes@)
            &&& bytes@[4] == ELFCLASS64
            &&& bytes@[5] == ELFDATA2LSB
            &&& e_machine(bytes@) == EM_RISCV
            &&& e_type(bytes@) == ET_EXEC
            &&& !some_interp(bytes@)
            &&& some_playground_load(bytes@)
        },
{
    let ghost b = bytes@;
    if bytes.len() == 0 {
        return Err(ElfError::Empty);
    }
    if bytes.len() > MAX_ELF_BYTES {
        return Err(ElfError::TooLarge);
    }
    if bytes.len() < EHSIZE {
        return Err(ElfError::Truncated);
    }
    if !(bytes[0] == 0x7f && bytes[1] == 0x45 && bytes[2] == 0x4c && bytes[3] == 0x46) {
        return Err(ElfError::NotElf);
    }
    if bytes[4] != ELFCLASS64 {
        return Err(ElfError::Not64);
    }
    if bytes[5] != ELFDATA2LSB {
        return Err(ElfError::NotLe);
    }
    let e_type_v = read_u16(bytes, 16);
    let e_machine_v = read_u16(bytes, 18);
    if e_machine_v != EM_RISCV {
        return Err(ElfError::NotRiscv);
    }
    if e_type_v == ET_DYN || e_type_v != ET_EXEC {
        return Err(ElfError::NotExec);
    }

    let phoff: u64 = u64_at(bytes, 32)?;
    let phentsize: u64 = u16_at(bytes, 54)? as u64;
    let phnum: u64 = u16_at(bytes, 56)? as u64;
    if phentsize < PHDR64 as u64 || phnum == 0 || phnum > MAX_PHNUM {
        return Err(ElfError::Truncated);
    }
    assert(phnum * phentsize <= 128 * 65535) by (nonlinear_arith)
        requires
            phnum <= 128,
            phentsize <= 65535,
    ;
    let table_size: u64 = phnum * phentsize;
    let table_end: u64 = match phoff.checked_add(table_size) {
        Some(t) => t,
        None => return Err(ElfError::Truncated),
    };
    if table_end > bytes.len() as u64 {
        return Err(ElfError::Truncated);
    }
    assert(ph_table_fits(b));

    let mut covers_load = false;
    let mut i: u64 = 0;
    let mut off: u64 = phoff;
    while i < phnum
        invariant
            b == bytes@,
            EHSIZE <= b.len() <= MAX_ELF_BYTES,
            has_elf_magic(b),
            b[4] == ELFCLASS64,
            b[5] == ELFDATA2LSB,
            e_machine(b) == EM_RISCV,
            e_type(b) == ET_EXEC,
            phoff == e_phoff(b),
            phentsize == e_phentsize(b),
            phnum == e_phnum(b),
            ph_table_fits(b),
            i <= phnum,
            off == ph_offset(b, i as int),
            off <= b.len(),
            forall|j: int| 0 <= j < i ==> !#[trigger] ph_is_interp(b, ph_offset(b, j)),
            covers_load == exists|j: int|
                0 <= j < i && #[trigger] ph_covers_playground(b, ph_offset(b, j)),
        decreases phnum - i,
    {
        proof {
            lemma_next_header(phoff as int, phentsize as int, i as int, phnum as int);
        }
        let o: usize = off as usize;
        if o + PHDR64 > bytes.len() {
            return Err(ElfError::Truncated);
        }
        let p_type = read_u32(bytes, o);
        if p_type == PT_INTERP {
            assert(ph_is_interp(b, ph_offset(b, i as int)));
            assert(some_interp(b));
            return Err(ElfError::HasInterpreter);
        }
        if p_type == PT_LOAD {
            let vaddr = read_u64(bytes, o + 16);
            let memsz = read_u64(bytes, o + 40);
            let end = vaddr.saturating_add(memsz);
            if vaddr <= PLAYGROUND_LOAD_ADDR && PLAYGROUND_LOAD_ADDR < end {
                assert(ph_covers_playground(b, ph_offset(b, i as int)));
                covers_load = true;
            }
        }
        let ghost old_i = i;
        off = off + phentsize;
        i = i + 1;
        assert(covers_load == exists|j: int|
            0 <= j < i && #[trigger] ph_covers_playground(b, ph_offset(b, j))) by {
            if covers_load {
                if !ph_covers_playground(b, ph_offset(b, old_i as int)) {
                    let j = choose|j: int|
                        0 <= j < old_i && #[trigger] ph_covers_playground(b, ph_offset(b, j));
                    assert(0 <= j < i);
                }
            } else {
                assert forall|j: int| 0 <= j < i implies !#[trigger] ph_covers_playground(
                    b,
                    ph_offset(b, j),
                ) by {
                    if j == old_i {
                    }
                }
            }
        }
    }
    if !covers_load {
        return Err(ElfError::NoPlaygroundLoad);
    }
    Ok(())
}

// ---------------------------------------------------------------------------
// Laws, stated over the raw bytes of the upload.
// ---------------------------------------------------------------------------

/// The unsigned little-endian number held by the `n` bytes at `off`.
pub open spec fn bytes_le(b: Seq<u8>, off: int, n: nat) -> int
    decreases n,
{
    if n == 0 {
        0
    } else {
        b[off] + 256 * bytes_le(b, off + 1, (n - 1) as nat)
    }
}

/// An upload is accepted when it is 64 bytes to 4 MiB long, starts with
/// `\x7fELF`, is ELFCLASS64 (2) and little-endian (1), has `e_type` 2
/// (`ET_EXEC`) and `e_machine` 243 (RISC-V), declares 1 to 128 program
/// headers of at least 56 bytes that lie inside the file, none of them of
/// type 3 (`PT_INTERP`), and at least one of type 1 (`PT_LOAD`) whose range
/// `[p_vaddr, p_vaddr + p_memsz)` contains `0x8000_0000`. Nothing else is
/// looked at: other loadable segments, before or after, and every other
/// header field (such as `e_flags`) leave the upload accepted.
pub proof fn lemma_elf_accepted_when(b: Seq<u8>)
    requires
        64 <= b.len() <= 4194304,
        b[0] == 0x7f && b[1] == 0x45 && b[2] == 0x4c && b[3] == 0x46,
        b[4] == 2,
        b[5] == 1,
        bytes_le(b, 16, 2) == 2,
        bytes_le(b, 18, 2) == 243,
        bytes_le(b, 54, 2) >= 56,
        1 <= bytes_le(b, 56, 2) <= 128,
        bytes_le(b, 32, 8) + bytes_le(b, 56, 2) * bytes_le(b, 54, 2) <= b.len(),
        forall|i: int|
            0 <= i < bytes_le(b, 56, 2) ==> bytes_le(
                b,
                #[trigger] (bytes_le(b, 32, 8) + i * bytes_le(b, 54, 2)),
                4,
            ) != 3,
        exists|i: int|
            0 <= i < bytes_le(b, 56, 2) && {
                let o = #[trigger] (bytes_le(b, 32, 8) + i * bytes_le(b, 54, 2));
                &&& bytes_le(b, o, 4) == 1
                &&& bytes_le(b, o + 16, 8) <= 0x8000_0000
                &&& 0x8000_0000 < bytes_le(b, o + 16, 8) + bytes_le(b, o + 40, 8)
            },
    ensures
        elf_verdict(b) == Ok::<(), ElfError>(()),
{
    lemma_bytes_le_fields(b);
    assert(!some_interp(b)) by {
        assert forall|i: int| 0 <= i < e_phnum(b) implies !#[trigger] ph_is_interp(
            b,
            ph_offset(b, i),
        ) by {
            lemma_bytes_le_word(b, ph_offset(b, i));
            assert(bytes_le(b, bytes_le(b, 32, 8) + i * bytes_le(b, 54, 2), 4) != 3);
        }
    }
    let i = choose|i: int|
        0 <= i < bytes_le(b, 56, 2) && {
            let o = #[trigger] (bytes_le(b, 32, 8) + i * bytes_le(b, 54, 2));
            &&& bytes_le(b, o, 4) == 1
            &&& bytes_le(b, o + 16, 8) <= 0x8000_0000
            &&& 0x8000_0000 < bytes_le(b, o + 16, 8) + bytes_le(b, o + 40, 8)
        };
    let o = ph_offset(b, i);
    lemma_bytes_le_word(b, o);
    lemma_bytes_le_long(b, o + 16);
    lemma_bytes_le_long(b, o + 40);
    assert(ph_covers_playground(b, o));
    assert(some_playground_load(b));
}

/// An accepted upload meets every rule of `lemma_elf_accepted_when`, read
/// from its raw bytes.
pub proof fn lemma_elf_accepted_only_when(b: Seq<u8>)
    requires
        elf_verdict(b) is Ok,
    ensures
        64 <= b.len() <= 4194304,
        b[0] == 0x7f && b[1] == 0x45 && b[2] == 0x4c && b[3] == 0x46,
        b[4] == 2,
        b[5] == 1,
        bytes_le(b, 16, 2) == 2,
        bytes_le(b, 18, 2) == 243,
        bytes_le(b, 54, 2) >= 56,
        1 <= bytes_le(b, 56, 2) <= 128,
        bytes_le(b, 32, 8) + bytes_le(b, 56, 2) * bytes_le(b, 54, 2) <= b.len(),
        forall|i: int|
            0 <= i < bytes_le(b, 56, 2) ==> bytes_le(
                b,
                #[trigger] (bytes_le(b, 32, 8) + i * bytes_le(b, 54, 2)),
                4,
            ) != 3,
        exists|i: int|
            0 <= i < bytes_le(b, 56, 2) && {
                let o = #[trigger] (bytes_le(b, 32, 8) + i * bytes_le(b, 54, 2));
                &&& bytes_le(b, o, 4) == 1
                &&& bytes_le(b, o + 16, 8) <= 0x8000_0000
                &&& 0x8000_0000 < bytes_le(b, o + 16, 8) + bytes_le(b, o + 40, 8)
            },
{
    lemma_bytes_le_fields(b);
    assert forall|i: int| 0 <= i < bytes_le(b, 56, 2) implies bytes_le(
        b,
        #[trigger] (bytes_le(b, 32, 8) + i * bytes_le(b, 54, 2)),
        4,
    ) != 3 by {
        lemma_bytes_le_word(b, ph_offset(b, i));
        assert(!ph_is_interp(b, ph_offset(b, i)));
    }
    let i = choose|i: int| 0 <= i < e_phnum(b) && #[trigger] ph_covers_playground(b, ph_offset(b, i));
    let o = ph_offset(b, i);
    lemma_bytes_le_word(b, o);
    lemma_bytes_le_long(b, o + 16);
    lemma_bytes_le_long(b, o + 40);
    assert(o == bytes_le(b, 32, 8) + i * bytes_le(b, 54, 2));
}

proof fn lemma_bytes_le_word(b: Seq<u8>, o: int)
    ensures
        bytes_le(b, o, 4) == le32(b, o),
{
    reveal_with_fuel(bytes_le, 5);
}

proof fn lemma_bytes_le_long(b: Seq<u8>, o: int)
    ensures
        bytes_le(b, o, 8) == le64(b, o),
{
    reveal_with_fuel(bytes_le, 9);
}

proof fn lemma_bytes_le_fields(b: Seq<u8>)
    ensures
        bytes_le(b, 16, 2) == e_type(b),
        bytes_le(b, 18, 2) == e_machine(b),
        bytes_le(b, 54, 2) == e_phentsize(b),
        bytes_le(b, 56, 2) == e_phnum(b),
        bytes_le(b, 32, 8) == e_phoff(b),
{
    reveal_with_fuel(bytes_le, 3);
    lemma_bytes_le_long(b, 32);
}

} // verus!
