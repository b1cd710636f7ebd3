use hartlab_protocol::elf::{
    ELFCLASS64, ELFDATA2LSB, EM_RISCV, ET_DYN, ET_EXEC, PHDR64, PT_INTERP, PT_LOAD,
};
use hartlab_protocol::{validate_elf, ElfError, MAX_ELF_BYTES, PLAYGROUND_LOAD_ADDR};

const ELF_MAGIC: [u8; 4] = [0x7f, b'E', b'L', b'F'];

fn minimal_rv64_exec(vaddr: u64, with_interp: bool, phnum: u16) -> Vec<u8> {
    let phoff = 64usize;
    let need = phoff + phnum as usize * PHDR64;
    let mut b = vec![0u8; need.max(128)];
    b[0..4].copy_from_slice(&ELF_MAGIC);
    b[4] = ELFCLASS64;
    b[5] = ELFDATA2LSB;
    b[6] = 1;
    b[16..18].copy_from_slice(&ET_EXEC.to_le_bytes());
    b[18..20].copy_from_slice(&EM_RISCV.to_le_bytes());
    b[32..40].copy_from_slice(&(phoff as u64).to_le_bytes());
    b[54..56].copy_from_slice(&(PHDR64 as u16).to_le_bytes());
    b[56..58].copy_from_slice(&phnum.to_le_bytes());
    if phnum >= 1 {
        let off = phoff;
        b[off..off + 4].copy_from_slice(&PT_LOAD.to_le_bytes());
        b[off + 16..off + 24].copy_from_slice(&vaddr.to_le_bytes());
        b[off + 40..off + 48].copy_from_slice(&0x1000u64.to_le_bytes());
    }
    if with_interp && phnum >= 2 {
        let off = phoff + PHDR64;
        b[off..off + 4].copy_from_slice(&PT_INTERP.to_le_bytes());
    }
    b
}

#[test]
fn accepts_static_rv64_at_ddr() {
    assert_eq!(validate_elf(&minimal_rv64_exec(PLAYGROUND_LOAD_ADDR, false, 1)), Ok(()));
}

#[test]
fn rejects_interp() {
    assert_eq!(
        validate_elf(&minimal_rv64_exec(PLAYGROUND_LOAD_ADDR, true, 2)),
        Err(ElfError::HasInterpreter)
    );
}

#[test]
fn rejects_x86() {
    let mut b = minimal_rv64_exec(PLAYGROUND_LOAD_ADDR, false, 1);
    b[18..20].copy_from_slice(&62u16.to_le_bytes());
    assert_eq!(validate_elf(&b), Err(ElfError::NotRiscv));
}

#[test]
fn rejects_et_dyn() {
    let mut b = minimal_rv64_exec(PLAYGROUND_LOAD_ADDR, false, 1);
    b[16..18].copy_from_slice(&ET_DYN.to_le_bytes());
    assert_eq!(validate_elf(&b), Err(ElfError::NotExec));
}

#[test]
fn rejects_wrong_load_address() {
    assert_eq!(
        validate_elf(&minimal_rv64_exec(0x0800_0000, false, 1)),
        Err(ElfError::NoPlaygroundLoad)
    );
}

#[test]
fn rejects_zero_phnum() {
    assert_eq!(
        validate_elf(&minimal_rv64_exec(PLAYGROUND_LOAD_ADDR, false, 0)),
        Err(ElfError::Truncated)
    );
}

#[test]
fn rejects_truncated_phdr_table() {
    let mut b = minimal_rv64_exec(PLAYGROUND_LOAD_ADDR, false, 1);
    b.truncate(70);
    assert_eq!(validate_elf(&b), Err(ElfError::Truncated));
}

#[test]
fn rejects_too_big() {
    let b = vec![0; MAX_ELF_BYTES + 1];
    assert_eq!(validate_elf(&b), Err(ElfError::TooLarge));
}

// Further cases.

#[test]
fn rejects_empty() {
    assert_eq!(validate_elf(&[]), Err(ElfError::Empty));
}

#[test]
fn rejects_short_header() {
    let b = minimal_rv64_exec(PLAYGROUND_LOAD_ADDR, false, 1);
    assert_eq!(validate_elf(&b[..63]), Err(ElfError::Truncated));
}

#[test]
fn accepts_exactly_max_size() {
    let mut b = minimal_rv64_exec(PLAYGROUND_LOAD_ADDR, false, 1);
    b.resize(MAX_ELF_BYTES, 0);
    assert_eq!(validate_elf(&b), Ok(()));
}

#[test]
fn rejects_bad_magic() {
    let mut b = minimal_rv64_exec(PLAYGROUND_LOAD_ADDR, false, 1);
    b[1] = b'e';
    assert_eq!(validate_elf(&b), Err(ElfError::NotElf));
}

#[test]
fn rejects_elf32() {
    let mut b = minimal_rv64_exec(PLAYGROUND_LOAD_ADDR, false, 1);
    b[4] = 1;
    assert_eq!(validate_elf(&b), Err(ElfError::Not64));
}

#[test]
fn rejects_big_endian() {
    let mut b = minimal_rv64_exec(PLAYGROUND_LOAD_ADDR, false, 1);
    b[5] = 2;
    assert_eq!(validate_elf(&b), Err(ElfError::NotLe));
}

#[test]
fn machine_is_checked_before_type() {
    let mut b = minimal_rv64_exec(PLAYGROUND_LOAD_ADDR, false, 1);
    b[16..18].copy_from_slice(&ET_DYN.to_le_bytes());
    b[18..20].copy_from_slice(&62u16.to_le_bytes());
    assert_eq!(validate_elf(&b), Err(ElfError::NotRiscv));
}

#[test]
fn rejects_small_phentsize() {
    let mut b = minimal_rv64_exec(PLAYGROUND_LOAD_ADDR, false, 1);
    b[54..56].copy_from_slice(&55u16.to_le_bytes());
    assert_eq!(validate_elf(&b), Err(ElfError::Truncated));
}

#[test]
fn rejects_too_many_phdrs() {
    let mut b = minimal_rv64_exec(PLAYGROUND_LOAD_ADDR, false, 129);
    b[56..58].copy_from_slice(&129u16.to_le_bytes());
    assert_eq!(validate_elf(&b), Err(ElfError::Truncated));
}

#[test]
fn accepts_128_phdrs() {
    let b = minimal_rv64_exec(PLAYGROUND_LOAD_ADDR, false, 128);
    assert_eq!(validate_elf(&b), Ok(()));
}

#[test]
fn rejects_phoff_overflow() {
    let mut b = minimal_rv64_exec(PLAYGROUND_LOAD_ADDR, false, 1);
    b[32..40].copy_from_slice(&u64::MAX.to_le_bytes());
    assert_eq!(validate_elf(&b), Err(ElfError::Truncated));
}

#[test]
fn interpreter_wins_over_earlier_load() {
    // the load segment comes first, the interpreter second
    let b = minimal_rv64_exec(PLAYGROUND_LOAD_ADDR, true, 2);
    assert_eq!(validate_elf(&b), Err(ElfError::HasInterpreter));
}

#[test]
fn load_segment_end_is_exclusive() {
    // [0x7fff_f000, 0x8000_0000) ends right at the load address
    assert_eq!(
        validate_elf(&minimal_rv64_exec(0x7fff_f000, false, 1)),
        Err(ElfError::NoPlaygroundLoad)
    );
    // [0x7fff_f001, 0x8000_0001) covers it
    assert_eq!(validate_elf(&minimal_rv64_exec(0x7fff_f001, false, 1)), Ok(()));
}

#[test]
fn load_segment_end_saturates() {
    let mut b = minimal_rv64_exec(0x10, false, 1);
    b[64 + 40..64 + 48].copy_from_slice(&u64::MAX.to_le_bytes());
    assert_eq!(validate_elf(&b), Ok(()));
}

#[test]
fn non_load_segment_does_not_count() {
    let mut b = minimal_rv64_exec(PLAYGROUND_LOAD_ADDR, false, 1);
    b[64..68].copy_from_slice(&4u32.to_le_bytes());
    assert_eq!(validate_elf(&b), Err(ElfError::NoPlaygroundLoad));
}

#[test]
fn second_phdr_reached_with_large_entries() {
    // entries of 64 bytes; the covering load is the second one
    let mut b = vec![0u8; 64 + 2 * 64];
    b[0..4].copy_from_slice(&ELF_MAGIC);
    b[4] = ELFCLASS64;
    b[5] = ELFDATA2LSB;
    b[16..18].copy_from_slice(&ET_EXEC.to_le_bytes());
    b[18..20].copy_from_slice(&EM_RISCV.to_le_bytes());
    b[32..40].copy_from_slice(&64u64.to_le_bytes());
    b[54..56].copy_from_slice(&64u16.to_le_bytes());
    b[56..58].copy_from_slice(&2u16.to_le_bytes());
    let off = 64 + 64;
    b[off..off + 4].copy_from_slice(&PT_LOAD.to_le_bytes());
    b[off + 16..off + 24].copy_from_slice(&PLAYGROUND_LOAD_ADDR.to_le_bytes());
    b[off + 40..off + 48].copy_from_slice(&1u64.to_le_bytes());
    assert_eq!(validate_elf(&b), Ok(()));
    b.truncate(64 + 2 * 64 - 1);
    assert_eq!(validate_elf(&b), Err(ElfError::Truncated));
}

#[test]
fn error_messages() {
    assert_eq!(ElfError::Empty.message(), "file is empty");
    assert_eq!(ElfError::TooLarge.message(), "larger than 4194304 bytes");
    assert_eq!(ElfError::NoPlaygroundLoad.message(), "no PT_LOAD segment covers 0x80000000");
    assert_eq!(ElfError::NotRiscv.message(), "machine is not RISC-V (EM_RISCV=243)");
}
