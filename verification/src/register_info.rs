//! The register catalog: one immutable descriptor for every register the
//! kernel exposes for an x86-64 tracee, addressed by name, by dense id, or by
//! DWARF number. Offsets index the kernel's per-process user area: the
//! general-purpose block first, then the x87/SSE block, then the eight debug
//! registers.
use vstd::prelude::*;

verus! {

/// Total size in bytes of the kernel user area that register offsets index.
pub const USER_AREA_SIZE: usize = 912;

/// The class a register belongs to.
#[derive(Clone, Copy, Debug, PartialEq, Eq, Structural)]
pub enum RegisterType {
    /// A full general-purpose register slot.
    Gpr,
    /// A narrower view into a general-purpose register slot.
    SubGpr,
    /// Part of the x87/SSE block.
    Fpr,
    /// A debug register.
    Dr,
}

/// How a register's raw bytes are interpreted.
#[derive(Clone, Copy, Debug, PartialEq, Eq, Structural)]
pub enum RegisterFormat {
    /// An unsigned little-endian integer.
    Uint,
    /// An IEEE floating-point value in kernel-native layout.
    Double,
    /// An 80-bit extended-precision value in the low 10 bytes of its slot.
    LongDouble,
    /// A plain little-endian byte vector.
    Vector,
}

/// Dense identity of every catalogued register.
#[allow(non_camel_case_types)]
#[derive(Clone, Copy, Debug, PartialEq, Eq, Hash, Structural)]
pub enum RegisterId {
    rax,
    rdx,
    rcx,
    rbx,
    rsi,
    rdi,
    rbp,
    rsp,
    r8,
    r9,
    r10,
    r11,
    r12,
    r13,
    r14,
    r15,
    rip,
    eflags,
    cs,
    fs,
    gs,
    ss,
    ds,
    es,
    orig_rax,
    eax,
    edx,
    ecx,
    ebx,
    esi,
    edi,
    ebp,
    esp,
    r8d,
    r9d,
    r10d,
    r11d,
    r12d,
    r13d,
    r14d,
    r15d,
    ax,
    dx,
    cx,
    bx,
    si,
    di,
    bp,
    sp,
    r8w,
    r9w,
    r10w,
    r11w,
    r12w,
    r13w,
    r14w,
    r15w,
    ah,
    dh,
    ch,
    bh,
    al,
    dl,
    cl,
    bl,
    sil,
    dil,
    bpl,
    spl,
    r8b,
    r9b,
    r10b,
    r11b,
    r12b,
    r13b,
    r14b,
    r15b,
    fcw,
    fsw,
    ftw,
    fop,
    frip,
    frdp,
    mxcsr,
    mxcsrmask,
    st0,
    st1,
    st2,
    st3,
    st4,
    st5,
    st6,
    st7,
    mm0,
    mm1,
    mm2,
    mm3,
    mm4,
    mm5,
    mm6,
    mm7,
    xmm0,
    xmm1,
    xmm2,
    xmm3,
    xmm4,
    xmm5,
    xmm6,
    xmm7,
    xmm8,
    xmm9,
    xmm10,
    xmm11,
    xmm12,
    xmm13,
    xmm14,
    xmm15,
    dr0,
    dr1,
    dr2,
    dr3,
    dr4,
    dr5,
    dr6,
    dr7,
}

/// One catalog entry: where a register lives in the user area and how its
/// bytes are read.
#[derive(Clone, Copy, Debug)]
pub struct RegInfo {
    /// Short mnemonic, unique over the catalog.
    pub name: &'static str,
    /// Dense identity, unique over the catalog.
    pub id: RegisterId,
    /// Register class.
    pub rtype: RegisterType,
    /// Byte interpretation.
    pub format: RegisterFormat,
    /// Width in bytes: 1, 2, 4, 8 or 16.
    pub size: usize,
    /// DWARF register number, or -1 where DWARF has none.
    pub dwarf_id: i32,
    /// Byte offset of the register inside the kernel user area.
    pub offset: usize,
}

/// A register's mnemonic (catalog table).
pub open spec fn reg_name_spec(id: RegisterId) -> &'static str {
    match id {
        RegisterId::rax => "rax",
        RegisterId::rdx => "rdx",
        RegisterId::rcx => "rcx",
        RegisterId::rbx => "rbx",
        RegisterId::rsi => "rsi",
        RegisterId::rdi => "rdi",
        RegisterId::rbp => "rbp",
        RegisterId::rsp => "rsp",
        RegisterId::r8 => "r8",
        RegisterId::r9 => "r9",
        RegisterId::r10 => "r10",
        RegisterId::r11 => "r11",
        RegisterId::r12 => "r12",
        RegisterId::r13 => "r13",
        RegisterId::r14 => "r14",
        RegisterId::r15 => "r15",
        RegisterId::rip => "rip",
        RegisterId::eflags => "eflags",
        RegisterId::cs => "cs",
        RegisterId::fs => "fs",
        RegisterId::gs => "gs",
        RegisterId::ss => "ss",
        RegisterId::ds => "ds",
        RegisterId::es => "es",
        RegisterId::orig_rax => "orig_rax",
        RegisterId::eax => "eax",
        RegisterId::edx => "edx",
        RegisterId::ecx => "ecx",
        RegisterId::ebx => "ebx",
        RegisterId::esi => "esi",
        RegisterId::edi => "edi",
        RegisterId::ebp => "ebp",
        RegisterId::esp => "esp",
        RegisterId::r8d => "r8d",
        RegisterId::r9d => "r9d",
        RegisterId::r10d => "r10d",
        RegisterId::r11d => "r11d",
        RegisterId::r12d => "r12d",
        RegisterId::r13d => "r13d",
        RegisterId::r14d => "r14d",
        RegisterId::r15d => "r15d",
        RegisterId::ax => "ax",
        RegisterId::dx => "dx",
        RegisterId::cx => "cx",
        RegisterId::bx => "bx",
        RegisterId::si => "si",
        RegisterId::di => "di",
        RegisterId::bp => "bp",
        RegisterId::sp => "sp",
        RegisterId::r8w => "r8w",
        RegisterId::r9w => "r9w",
        RegisterId::r10w => "r10w",
        RegisterId::r11w => "r11w",
        RegisterId::r12w => "r12w",
        RegisterId::r13w => "r13w",
        RegisterId::r14w => "r14w",
        RegisterId::r15w => "r15w",
        RegisterId::ah => "ah",
        RegisterId::dh => "dh",
        RegisterId::ch => "ch",
        RegisterId::bh => "bh",
        RegisterId::al => "al",
        RegisterId::dl => "dl",
        RegisterId::cl => "cl",
        RegisterId::bl => "bl",
        RegisterId::sil => "sil",
        RegisterId::dil => "dil",
        RegisterId::bpl => "bpl",
        RegisterId::spl => "spl",
        RegisterId::r8b => "r8b",
        RegisterId::r9b => "r9b",
        RegisterId::r10b => "r10b",
        RegisterId::r11b => "r11b",
        RegisterId::r12b => "r12b",
        RegisterId::r13b => "r13b",
        RegisterId::r14b => "r14b",
        RegisterId::r15b => "r15b",
        RegisterId::fcw => "fcw",
        RegisterId::fsw => "fsw",
        RegisterId::ftw => "ftw",
        RegisterId::fop => "fop",
        RegisterId::frip => "frip",
        RegisterId::frdp => "frdp",
        RegisterId::mxcsr => "mxcsr",
        RegisterId::mxcsrmask => "mxcsrmask",
        RegisterId::st0 => "st0",
        RegisterId::st1 => "st1",
        RegisterId::st2 => "st2",
        RegisterId::st3 => "st3",
        RegisterId::st4 => "st4",
        RegisterId::st5 => "st5",
        RegisterId::st6 => "st6",
        RegisterId::st7 => "st7",
        RegisterId::mm0 => "mm0",
        RegisterId::mm1 => "mm1",
        RegisterId::mm2 => "mm2",
        RegisterId::mm3 => "mm3",
        RegisterId::mm4 => "mm4",
        RegisterId::mm5 => "mm5",
        RegisterId::mm6 => "mm6",
        RegisterId::mm7 => "mm7",
        RegisterId::xmm0 => "xmm0",
        RegisterId::xmm1 => "xmm1",
        RegisterId::xmm2 => "xmm2",
        RegisterId::xmm3 => "xmm3",
        RegisterId::xmm4 => "xmm4",
        RegisterId::xmm5 => "xmm5",
        RegisterId::xmm6 => "xmm6",
        RegisterId::xmm7 => "xmm7",
        RegisterId::xmm8 => "xmm8",
        RegisterId::xmm9 => "xmm9",
        RegisterId::xmm10 => "xmm10",
        RegisterId::xmm11 => "xmm11",
        RegisterId::xmm12 => "xmm12",
        RegisterId::xmm13 => "xmm13",
        RegisterId::xmm14 => "xmm14",
        RegisterId::xmm15 => "xmm15",
        RegisterId::dr0 => "dr0",
        RegisterId::dr1 => "dr1",
        RegisterId::dr2 => "dr2",
        RegisterId::dr3 => "dr3",
        RegisterId::dr4 => "dr4",
        RegisterId::dr5 => "dr5",
        RegisterId::dr6 => "dr6",
        RegisterId::dr7 => "dr7",
    }
}

/// A register's mnemonic.
#[verifier::spinoff_prover]
pub fn register_name(id: RegisterId) -> (r: &'static str)
    ensures
        r == reg_name_spec(id),
{
    match id {
        RegisterId::rax => "rax",
        RegisterId::rdx => "rdx",
        RegisterId::rcx => "rcx",
        RegisterId::rbx => "rbx",
        RegisterId::rsi => "rsi",
        RegisterId::rdi => "rdi",
        RegisterId::rbp => "rbp",
        RegisterId::rsp => "rsp",
        RegisterId::r8 => "r8",
        RegisterId::r9 => "r9",
        RegisterId::r10 => "r10",
        RegisterId::r11 => "r11",
        RegisterId::r12 => "r12",
        RegisterId::r13 => "r13",
        RegisterId::r14 => "r14",
        RegisterId::r15 => "r15",
        RegisterId::rip => "rip",
        RegisterId::eflags => "eflags",
        RegisterId::cs => "cs",
        RegisterId::fs => "fs",
        RegisterId::gs => "gs",
        RegisterId::ss => "ss",
        RegisterId::ds => "ds",
        RegisterId::es => "es",
        RegisterId::orig_rax => "orig_rax",
        RegisterId::eax => "eax",
        RegisterId::edx => "edx",
        RegisterId::ecx => "ecx",
        RegisterId::ebx => "ebx",
        RegisterId::esi => "esi",
        RegisterId::edi => "edi",
        RegisterId::ebp => "ebp",
        RegisterId::esp => "esp",
        RegisterId::r8d => "r8d",
        RegisterId::r9d => "r9d",
        RegisterId::r10d => "r10d",
        RegisterId::r11d => "r11d",
        RegisterId::r12d => "r12d",
        RegisterId::r13d => "r13d",
        RegisterId::r14d => "r14d",
        RegisterId::r15d => "r15d",
        RegisterId::ax => "ax",
        RegisterId::dx => "dx",
        RegisterId::cx => "cx",
        RegisterId::bx => "bx",
        RegisterId::si => "si",
        RegisterId::di => "di",
        RegisterId::bp => "bp",
        RegisterId::sp => "sp",
        RegisterId::r8w => "r8w",
        RegisterId::r9w => "r9w",
        RegisterId::r10w => "r10w",
        RegisterId::r11w => "r11w",
        RegisterId::r12w => "r12w",
        RegisterId::r13w => "r13w",
        RegisterId::r14w => "r14w",
        RegisterId::r15w => "r15w",
        RegisterId::ah => "ah",
        RegisterId::dh => "dh",
        RegisterId::ch => "ch",
        RegisterId::bh => "bh",
        RegisterId::al => "al",
        RegisterId::dl => "dl",
        RegisterId::cl => "cl",
        RegisterId::bl => "bl",
        RegisterId::sil => "sil",
        RegisterId::dil => "dil",
        RegisterId::bpl => "bpl",
        RegisterId::spl => "spl",
        RegisterId::r8b => "r8b",
        RegisterId::r9b => "r9b",
        RegisterId::r10b => "r10b",
        RegisterId::r11b => "r11b",
        RegisterId::r12b => "r12b",
        RegisterId::r13b => "r13b",
        RegisterId::r14b => "r14b",
        RegisterId::r15b => "r15b",
        RegisterId::fcw => "fcw",
        RegisterId::fsw => "fsw",
        RegisterId::ftw => "ftw",
        RegisterId::fop => "fop",
        RegisterId::frip => "frip",
        RegisterId::frdp => "frdp",
        RegisterId::mxcsr => "mxcsr",
        RegisterId::mxcsrmask => "mxcsrmask",
        RegisterId::st0 => "st0",
        RegisterId::st1 => "st1",
        RegisterId::st2 => "st2",
        RegisterId::st3 => "st3",
        RegisterId::st4 => "st4",
        RegisterId::st5 => "st5",
        RegisterId::st6 => "st6",
        RegisterId::st7 => "st7",
        RegisterId::mm0 => "mm0",
        RegisterId::mm1 => "mm1",
        RegisterId::mm2 => "mm2",
        RegisterId::mm3 => "mm3",
        RegisterId::mm4 => "mm4",
        RegisterId::mm5 => "mm5",
        RegisterId::mm6 => "mm6",
        RegisterId::mm7 => "mm7",
        RegisterId::xmm0 => "xmm0",
        RegisterId::xmm1 => "xmm1",
        RegisterId::xmm2 => "xmm2",
        RegisterId::xmm3 => "xmm3",
        RegisterId::xmm4 => "xmm4",
        RegisterId::xmm5 => "xmm5",
        RegisterId::xmm6 => "xmm6",
        RegisterId::xmm7 => "xmm7",
        RegisterId::xmm8 => "xmm8",
        RegisterId::xmm9 => "xmm9",
        RegisterId::xmm10 => "xmm10",
        RegisterId::xmm11 => "xmm11",
        RegisterId::xmm12 => "xmm12",
        RegisterId::xmm13 => "xmm13",
        RegisterId::xmm14 => "xmm14",
        RegisterId::xmm15 => "xmm15",
        RegisterId::dr0 => "dr0",
        RegisterId::dr1 => "dr1",
        RegisterId::dr2 => "dr2",
        RegisterId::dr3 => "dr3",
        RegisterId::dr4 => "dr4",
        RegisterId::dr5 => "dr5",
        RegisterId::dr6 => "dr6",
        RegisterId::dr7 => "dr7",
    }
}

/// A register's class (catalog table).
pub open spec fn reg_type_spec(id: RegisterId) -> RegisterType {
    match id {
        RegisterId::rax => RegisterType::Gpr,
        RegisterId::rdx => RegisterType::Gpr,
        RegisterId::rcx => RegisterType::Gpr,
        RegisterId::rbx => RegisterType::Gpr,
        RegisterId::rsi => RegisterType::Gpr,
        RegisterId::rdi => RegisterType::Gpr,
        RegisterId::rbp => RegisterType::Gpr,
        RegisterId::rsp => RegisterType::Gpr,
        RegisterId::r8 => RegisterType::Gpr,
        RegisterId::r9 => RegisterType::Gpr,
        RegisterId::r10 => RegisterType::Gpr,
        RegisterId::r11 => RegisterType::Gpr,
        RegisterId::r12 => RegisterType::Gpr,
        RegisterId::r13 => RegisterType::Gpr,
        RegisterId::r14 => RegisterType::Gpr,
        RegisterId::r15 => RegisterType::Gpr,
        RegisterId::rip => RegisterType::Gpr,
        RegisterId::eflags => RegisterType::Gpr,
        RegisterId::cs => RegisterType::Gpr,
        RegisterId::fs => RegisterType::Gpr,
        RegisterId::gs => RegisterType::Gpr,
        RegisterId::ss => RegisterType::Gpr,
        RegisterId::ds => RegisterType::Gpr,
        RegisterId::es => RegisterType::Gpr,
        RegisterId::orig_rax => RegisterType::Gpr,
        RegisterId::eax => RegisterType::SubGpr,
        RegisterId::edx => RegisterType::SubGpr,
        RegisterId::ecx => RegisterType::SubGpr,
        RegisterId::ebx => RegisterType::SubGpr,
        RegisterId::esi => RegisterType::SubGpr,
        RegisterId::edi => RegisterType::SubGpr,
        RegisterId::ebp => RegisterType::SubGpr,
        RegisterId::esp => RegisterType::SubGpr,
        RegisterId::r8d => RegisterType::SubGpr,
        RegisterId::r9d => RegisterType::SubGpr,
        RegisterId::r10d => RegisterType::SubGpr,
        RegisterId::r11d => RegisterType::SubGpr,
        RegisterId::r12d => RegisterType::SubGpr,
        RegisterId::r13d => RegisterType::SubGpr,
        RegisterId::r14d => RegisterType::SubGpr,
        RegisterId::r15d => RegisterType::SubGpr,
        RegisterId::ax => RegisterType::SubGpr,
        RegisterId::dx => RegisterType::SubGpr,
        RegisterId::cx => RegisterType::SubGpr,
        RegisterId::bx => RegisterType::SubGpr,
        RegisterId::si => RegisterType::SubGpr,
        RegisterId::di => RegisterType::SubGpr,
        RegisterId::bp => RegisterType::SubGpr,
        RegisterId::sp => RegisterType::SubGpr,
        RegisterId::r8w => RegisterType::SubGpr,
        RegisterId::r9w => RegisterType::SubGpr,
        RegisterId::r10w => RegisterType::SubGpr,
        RegisterId::r11w => RegisterType::SubGpr,
        RegisterId::r12w => RegisterType::SubGpr,
        RegisterId::r13w => RegisterType::SubGpr,
        RegisterId::r14w => RegisterType::SubGpr,
        RegisterId::r15w => RegisterType::SubGpr,
        RegisterId::ah => RegisterType::SubGpr,
        RegisterId::dh => RegisterType::SubGpr,
        RegisterId::ch => RegisterType::SubGpr,
        RegisterId::bh => RegisterType::SubGpr,
        RegisterId::al => RegisterType::SubGpr,
        RegisterId::dl => RegisterType::SubGpr,
        RegisterId::cl => RegisterType::SubGpr,
        RegisterId::bl => RegisterType::SubGpr,
        RegisterId::sil => RegisterType::SubGpr,
        RegisterId::dil => RegisterType::SubGpr,
        RegisterId::bpl => RegisterType::SubGpr,
        RegisterId::spl => RegisterType::SubGpr,
        RegisterId::r8b => RegisterType::SubGpr,
        RegisterId::r9b => RegisterType::SubGpr,
        RegisterId::r10b => RegisterType::SubGpr,
        RegisterId::r11b => RegisterType::SubGpr,
        RegisterId::r12b => RegisterType::SubGpr,
        RegisterId::r13b => RegisterType::SubGpr,
        RegisterId::r14b => RegisterType::SubGpr,
        RegisterId::r15b => RegisterType::SubGpr,
        RegisterId::fcw => RegisterType::Fpr,
        RegisterId::fsw => RegisterType::Fpr,
        RegisterId::ftw => RegisterType::Fpr,
        RegisterId::fop => RegisterType::Fpr,
        RegisterId::frip => RegisterType::Fpr,
        RegisterId::frdp => RegisterType::Fpr,
        RegisterId::mxcsr => RegisterType::Fpr,
        RegisterId::mxcsrmask => RegisterType::Fpr,
        RegisterId::st0 => RegisterType::Fpr,
        RegisterId::st1 => RegisterType::Fpr,
        RegisterId::st2 => RegisterType::Fpr,
        RegisterId::st3 => RegisterType::Fpr,
        RegisterId::st4 => RegisterType::Fpr,
        RegisterId::st5 => RegisterType::Fpr,
        RegisterId::st6 => RegisterType::Fpr,
        RegisterId::st7 => RegisterType::Fpr,
        RegisterId::mm0 => RegisterType::Fpr,
        RegisterId::mm1 => RegisterType::Fpr,
        RegisterId::mm2 => RegisterType::Fpr,
        RegisterId::mm3 => RegisterType::Fpr,
        RegisterId::mm4 => RegisterType::Fpr,
        RegisterId::mm5 => RegisterType::Fpr,
        RegisterId::mm6 => RegisterType::Fpr,
        RegisterId::mm7 => RegisterType::Fpr,
        RegisterId::xmm0 => RegisterType::Fpr,
        RegisterId::xmm1 => RegisterType::Fpr,
        RegisterId::xmm2 => RegisterType::Fpr,
        RegisterId::xmm3 => RegisterType::Fpr,
        RegisterId::xmm4 => RegisterType::Fpr,
        RegisterId::xmm5 => RegisterType::Fpr,
        RegisterId::xmm6 => RegisterType::Fpr,
        RegisterId::xmm7 => RegisterType::Fpr,
        RegisterId::xmm8 => RegisterType::Fpr,
        RegisterId::xmm9 => RegisterType::Fpr,
        RegisterId::xmm10 => RegisterType::Fpr,
        RegisterId::xmm11 => RegisterType::Fpr,
        RegisterId::xmm12 => RegisterType::Fpr,
        RegisterId::xmm13 => RegisterType::Fpr,
        RegisterId::xmm14 => RegisterType::Fpr,
        RegisterId::xmm15 => RegisterType::Fpr,
        RegisterId::dr0 => RegisterType::Dr,
        RegisterId::dr1 => RegisterType::Dr,
        RegisterId::dr2 => RegisterType::Dr,
        RegisterId::dr3 => RegisterType::Dr,
        RegisterId::dr4 => RegisterType::Dr,
        RegisterId::dr5 => RegisterType::Dr,
        RegisterId::dr6 => RegisterType::Dr,
        RegisterId::dr7 => RegisterType::Dr,
    }
}

/// A register's class.
#[verifier::spinoff_prover]
pub fn register_type(id: RegisterId) -> (r: RegisterType)
    ensures
        r == reg_type_spec(id),
{
    match id {
        RegisterId::rax => RegisterType::Gpr,
        RegisterId::rdx => RegisterType::Gpr,
        RegisterId::rcx => RegisterType::Gpr,
        RegisterId::rbx => RegisterType::Gpr,
        RegisterId::rsi => RegisterType::Gpr,
        RegisterId::rdi => RegisterType::Gpr,
        RegisterId::rbp => RegisterType::Gpr,
        RegisterId::rsp => RegisterType::Gpr,
        RegisterId::r8 => RegisterType::Gpr,
        RegisterId::r9 => RegisterType::Gpr,
        RegisterId::r10 => RegisterType::Gpr,
        RegisterId::r11 => RegisterType::Gpr,
        RegisterId::r12 => RegisterType::Gpr,
        RegisterId::r13 => RegisterType::Gpr,
        RegisterId::r14 => RegisterType::Gpr,
        RegisterId::r15 => RegisterType::Gpr,
        RegisterId::rip => RegisterType::Gpr,
        RegisterId::eflags => RegisterType::Gpr,
        RegisterId::cs => RegisterType::Gpr,
        RegisterId::fs => RegisterType::Gpr,
        RegisterId::gs => RegisterType::Gpr,
        RegisterId::ss => RegisterType::Gpr,
        RegisterId::ds => RegisterType::Gpr,
        RegisterId::es => RegisterType::Gpr,
        RegisterId::orig_rax => RegisterType::Gpr,
        RegisterId::eax => RegisterType::SubGpr,
        RegisterId::edx => RegisterType::SubGpr,
        RegisterId::ecx => RegisterType::SubGpr,
        RegisterId::ebx => RegisterType::SubGpr,
        RegisterId::esi => RegisterType::SubGpr,
        RegisterId::edi => RegisterType::SubGpr,
        RegisterId::ebp => RegisterType::SubGpr,
        RegisterId::esp => RegisterType::SubGpr,
        RegisterId::r8d => RegisterType::SubGpr,
        RegisterId::r9d => RegisterType::SubGpr,
        RegisterId::r10d => RegisterType::SubGpr,
        RegisterId::r11d => RegisterType::SubGpr,
        RegisterId::r12d => RegisterType::SubGpr,
        RegisterId::r13d => RegisterType::SubGpr,
        RegisterId::r14d => RegisterType::SubGpr,
        RegisterId::r15d => RegisterType::SubGpr,
        RegisterId::ax => RegisterType::SubGpr,
        RegisterId::dx => RegisterType::SubGpr,
        RegisterId::cx => RegisterType::SubGpr,
        RegisterId::bx => RegisterType::SubGpr,
        RegisterId::si => RegisterType::SubGpr,
        RegisterId::di => RegisterType::SubGpr,
        RegisterId::bp => RegisterType::SubGpr,
        RegisterId::sp => RegisterType::SubGpr,
        RegisterId::r8w => RegisterType::SubGpr,
        RegisterId::r9w => RegisterType::SubGpr,
        RegisterId::r10w => RegisterType::SubGpr,
        RegisterId::r11w => RegisterType::SubGpr,
        RegisterId::r12w => RegisterType::SubGpr,
        RegisterId::r13w => RegisterType::SubGpr,
        RegisterId::r14w => RegisterType::SubGpr,
        RegisterId::r15w => RegisterType::SubGpr,
        RegisterId::ah => RegisterType::SubGpr,
        RegisterId::dh => RegisterType::SubGpr,
        RegisterId::ch => RegisterType::SubGpr,
        RegisterId::bh => RegisterType::SubGpr,
        RegisterId::al => RegisterType::SubGpr,
        RegisterId::dl => RegisterType::SubGpr,
        RegisterId::cl => RegisterType::SubGpr,
        RegisterId::bl => RegisterType::SubGpr,
        RegisterId::sil => RegisterType::SubGpr,
        RegisterId::dil => RegisterType::SubGpr,
        RegisterId::bpl => RegisterType::SubGpr,
        RegisterId::spl => RegisterType::SubGpr,
        RegisterId::r8b => RegisterType::SubGpr,
        RegisterId::r9b => RegisterType::SubGpr,
        RegisterId::r10b => RegisterType::SubGpr,
        RegisterId::r11b => RegisterType::SubGpr,
        RegisterId::r12b => RegisterType::SubGpr,
        RegisterId::r13b => RegisterType::SubGpr,
        RegisterId::r14b => RegisterType::SubGpr,
        RegisterId::r15b => RegisterType::SubGpr,
        RegisterId::fcw => RegisterType::Fpr,
        RegisterId::fsw => RegisterType::Fpr,
        RegisterId::ftw => RegisterType::Fpr,
        RegisterId::fop => RegisterType::Fpr,
        RegisterId::frip => RegisterType::Fpr,
        RegisterId::frdp => RegisterType::Fpr,
        RegisterId::mxcsr => RegisterType::Fpr,
        RegisterId::mxcsrmask => RegisterType::Fpr,
        RegisterId::st0 => RegisterType::Fpr,
        RegisterId::st1 => RegisterType::Fpr,
        RegisterId::st2 => RegisterType::Fpr,
        RegisterId::st3 => RegisterType::Fpr,
        RegisterId::st4 => RegisterType::Fpr,
        RegisterId::st5 => RegisterType::Fpr,
        RegisterId::st6 => RegisterType::Fpr,
        RegisterId::st7 => RegisterType::Fpr,
        RegisterId::mm0 => RegisterType::Fpr,
        RegisterId::mm1 => RegisterType::Fpr,
        RegisterId::mm2 => RegisterType::Fpr,
        RegisterId::mm3 => RegisterType::Fpr,
        RegisterId::mm4 => RegisterType::Fpr,
        RegisterId::mm5 => RegisterType::Fpr,
        RegisterId::mm6 => RegisterType::Fpr,
        RegisterId::mm7 => RegisterType::Fpr,
        RegisterId::xmm0 => RegisterType::Fpr,
        RegisterId::xmm1 => RegisterType::Fpr,
        RegisterId::xmm2 => RegisterType::Fpr,
        RegisterId::xmm3 => RegisterType::Fpr,
        RegisterId::xmm4 => RegisterType::Fpr,
        RegisterId::xmm5 => RegisterType::Fpr,
        RegisterId::xmm6 => RegisterType::Fpr,
        RegisterId::xmm7 => RegisterType::Fpr,
        RegisterId::xmm8 => RegisterType::Fpr,
        RegisterId::xmm9 => RegisterType::Fpr,
        RegisterId::xmm10 => RegisterType::Fpr,
        RegisterId::xmm11 => RegisterType::Fpr,
        RegisterId::xmm12 => RegisterType::Fpr,
        RegisterId::xmm13 => RegisterType::Fpr,
        RegisterId::xmm14 => RegisterType::Fpr,
        RegisterId::xmm15 => RegisterType::Fpr,
        RegisterId::dr0 => RegisterType::Dr,
        RegisterId::dr1 => RegisterType::Dr,
        RegisterId::dr2 => RegisterType::Dr,
        RegisterId::dr3 => RegisterType::Dr,
        RegisterId::dr4 => RegisterType::Dr,
        RegisterId::dr5 => RegisterType::Dr,
        RegisterId::dr6 => RegisterType::Dr,
        RegisterId::dr7 => RegisterType::Dr,
    }
}

/// A register's byte interpretation (catalog table).
pub open spec fn reg_format_spec(id: RegisterId) -> RegisterFormat {
    match id {
        RegisterId::rax => RegisterFormat::Uint,
        RegisterId::rdx => RegisterFormat::Uint,
        RegisterId::rcx => RegisterFormat::Uint,
        RegisterId::rbx => RegisterFormat::Uint,
        RegisterId::rsi => RegisterFormat::Uint,
        RegisterId::rdi => RegisterFormat::Uint,
        RegisterId::rbp => RegisterFormat::Uint,
        RegisterId::rsp => RegisterFormat::Uint,
        RegisterId::r8 => RegisterFormat::Uint,
        RegisterId::r9 => RegisterFormat::Uint,
        RegisterId::r10 => RegisterFormat::Uint,
        RegisterId::r11 => RegisterFormat::Uint,
        RegisterId::r12 => RegisterFormat::Uint,
        RegisterId::r13 => RegisterFormat::Uint,
        RegisterId::r14 => RegisterFormat::Uint,
        RegisterId::r15 => RegisterFormat::Uint,
        RegisterId::rip => RegisterFormat::Uint,
        RegisterId::eflags => RegisterFormat::Uint,
        RegisterId::cs => RegisterFormat::Uint,
        RegisterId::fs => RegisterFormat::Uint,
        RegisterId::gs => RegisterFormat::Uint,
        RegisterId::ss => RegisterFormat::Uint,
        RegisterId::ds => RegisterFormat::Uint,
        RegisterId::es => RegisterFormat::Uint,
        RegisterId::orig_rax => RegisterFormat::Uint,
        RegisterId::eax => RegisterFormat::Uint,
        RegisterId::edx => RegisterFormat::Uint,
        RegisterId::ecx => RegisterFormat::Uint,
        RegisterId::ebx => RegisterFormat::Uint,
        RegisterId::esi => RegisterFormat::Uint,
        RegisterId::edi => RegisterFormat::Uint,
        RegisterId::ebp => RegisterFormat::Uint,
        RegisterId::esp => RegisterFormat::Uint,
        RegisterId::r8d => RegisterFormat::Uint,
        RegisterId::r9d => RegisterFormat::Uint,
        RegisterId::r10d => RegisterFormat::Uint,
        RegisterId::r11d => RegisterFormat::Uint,
        RegisterId::r12d => RegisterFormat::Uint,
        RegisterId::r13d => RegisterFormat::Uint,
        RegisterId::r14d => RegisterFormat::Uint,
        RegisterId::r15d => RegisterFormat::Uint,
        RegisterId::ax => RegisterFormat::Uint,
        RegisterId::dx => RegisterFormat::Uint,
        RegisterId::cx => RegisterFormat::Uint,
        RegisterId::bx => RegisterFormat::Uint,
        RegisterId::si => RegisterFormat::Uint,
        RegisterId::di => RegisterFormat::Uint,
        RegisterId::bp => RegisterFormat::Uint,
        RegisterId::sp => RegisterFormat::Uint,
        RegisterId::r8w => RegisterFormat::Uint,
        RegisterId::r9w => RegisterFormat::Uint,
        RegisterId::r10w => RegisterFormat::Uint,
        RegisterId::r11w => RegisterFormat::Uint,
        RegisterId::r12w => RegisterFormat::Uint,
        RegisterId::r13w => RegisterFormat::Uint,
        RegisterId::r14w => RegisterFormat::Uint,
        RegisterId::r15w => RegisterFormat::Uint,
        RegisterId::ah => RegisterFormat::Uint,
        RegisterId::dh => RegisterFormat::Uint,
        RegisterId::ch => RegisterFormat::Uint,
        RegisterId::bh => RegisterFormat::Uint,
        RegisterId::al => RegisterFormat::Uint,
        RegisterId::dl => RegisterFormat::Uint,
        RegisterId::cl => RegisterFormat::Uint,
        RegisterId::bl => RegisterFormat::Uint,
        RegisterId::sil => RegisterFormat::Uint,
        RegisterId::dil => RegisterFormat::Uint,
        RegisterId::bpl => RegisterFormat::Uint,
        RegisterId::spl => RegisterFormat::Uint,
        RegisterId::r8b => RegisterFormat::Uint,
        RegisterId::r9b => RegisterFormat::Uint,
        RegisterId::r10b => RegisterFormat::Uint,
        RegisterId::r11b => RegisterFormat::Uint,
        RegisterId::r12b => RegisterFormat::Uint,
        RegisterId::r13b => RegisterFormat::Uint,
        RegisterId::r14b => RegisterFormat::Uint,
        RegisterId::r15b => RegisterFormat::Uint,
        RegisterId::fcw => RegisterFormat::Uint,
        RegisterId::fsw => RegisterFormat::Uint,
        RegisterId::ftw => RegisterFormat::Uint,
        RegisterId::fop => RegisterFormat::Uint,
        RegisterId::frip => RegisterFormat::Uint,
        RegisterId::frdp => RegisterFormat::Uint,
        RegisterId::mxcsr => RegisterFormat::Uint,
        RegisterId::mxcsrmask => RegisterFormat::Uint,
        RegisterId::st0 => RegisterFormat::LongDouble,
        RegisterId::st1 => RegisterFormat::LongDouble,
        RegisterId::st2 => RegisterFormat::LongDouble,
        RegisterId::st3 => RegisterFormat::LongDouble,
        RegisterId::st4 => RegisterFormat::LongDouble,
        RegisterId::st5 => RegisterFormat::LongDouble,
        RegisterId::st6 => RegisterFormat::LongDouble,
        RegisterId::st7 => RegisterFormat::LongDouble,
        RegisterId::mm0 => RegisterFormat::Vector,
        RegisterId::mm1 => RegisterFormat::Vector,
        RegisterId::mm2 => RegisterFormat::Vector,
        RegisterId::mm3 => RegisterFormat::Vector,
        RegisterId::mm4 => RegisterFormat::Vector,
        RegisterId::mm5 => RegisterFormat::Vector,
        RegisterId::mm6 => RegisterFormat::Vector,
        RegisterId::mm7 => RegisterFormat::Vector,
        RegisterId::xmm0 => RegisterFormat::Vector,
        RegisterId::xmm1 => RegisterFormat::Vector,
        RegisterId::xmm2 => RegisterFormat::Vector,
        RegisterId::xmm3 => RegisterFormat::Vector,
        RegisterId::xmm4 => RegisterFormat::Vector,
        RegisterId::xmm5 => RegisterFormat::Vector,
        RegisterId::xmm6 => RegisterFormat::Vector,
        RegisterId::xmm7 => RegisterFormat::Vector,
        RegisterId::xmm8 => RegisterFormat::Vector,
        RegisterId::xmm9 => RegisterFormat::Vector,
        RegisterId::xmm10 => RegisterFormat::Vector,
        RegisterId::xmm11 => RegisterFormat::Vector,
        RegisterId::xmm12 => RegisterFormat::Vector,
        RegisterId::xmm13 => RegisterFormat::Vector,
        RegisterId::xmm14 => RegisterFormat::Vector,
        RegisterId::xmm15 => RegisterFormat::Vector,
        RegisterId::dr0 => RegisterFormat::Uint,
        RegisterId::dr1 => RegisterFormat::Uint,
        RegisterId::dr2 => RegisterFormat::Uint,
        RegisterId::dr3 => RegisterFormat::Uint,
        RegisterId::dr4 => RegisterFormat::Uint,
        RegisterId::dr5 => RegisterFormat::Uint,
        RegisterId::dr6 => RegisterFormat::Uint,
        RegisterId::dr7 => RegisterFormat::Uint,
    }
}

/// A register's byte interpretation.
#[verifier::spinoff_prover]
pub fn register_format(id: RegisterId) -> (r: RegisterFormat)
    ensures
        r == reg_format_spec(id),
{
    match id {
        RegisterId::rax => RegisterFormat::Uint,
        RegisterId::rdx => RegisterFormat::Uint,
        RegisterId::rcx => RegisterFormat::Uint,
        RegisterId::rbx => RegisterFormat::Uint,
        RegisterId::rsi => RegisterFormat::Uint,
        RegisterId::rdi => RegisterFormat::Uint,
        RegisterId::rbp => RegisterFormat::Uint,
        RegisterId::rsp => RegisterFormat::Uint,
        RegisterId::r8 => RegisterFormat::Uint,
        RegisterId::r9 => RegisterFormat::Uint,
        RegisterId::r10 => RegisterFormat::Uint,
        RegisterId::r11 => RegisterFormat::Uint,
        RegisterId::r12 => RegisterFormat::Uint,
        RegisterId::r13 => RegisterFormat::Uint,
        RegisterId::r14 => RegisterFormat::Uint,
        RegisterId::r15 => RegisterFormat::Uint,
        RegisterId::rip => RegisterFormat::Uint,
        RegisterId::eflags => RegisterFormat::Uint,
        RegisterId::cs => RegisterFormat::Uint,
        RegisterId::fs => RegisterFormat::Uint,
        RegisterId::gs => RegisterFormat::Uint,
        RegisterId::ss => RegisterFormat::Uint,
        RegisterId::ds => RegisterFormat::Uint,
        RegisterId::es => RegisterFormat::Uint,
        RegisterId::orig_rax => RegisterFormat::Uint,
        RegisterId::eax => RegisterFormat::Uint,
        RegisterId::edx => RegisterFormat::Uint,
        RegisterId::ecx => RegisterFormat::Uint,
        RegisterId::ebx => RegisterFormat::Uint,
        RegisterId::esi => RegisterFormat::Uint,
        RegisterId::edi => RegisterFormat::Uint,
        RegisterId::ebp => RegisterFormat::Uint,
        RegisterId::esp => RegisterFormat::Uint,
        RegisterId::r8d => RegisterFormat::Uint,
        RegisterId::r9d => RegisterFormat::Uint,
        RegisterId::r10d => RegisterFormat::Uint,
        RegisterId::r11d => RegisterFormat::Uint,
        RegisterId::r12d => RegisterFormat::Uint,
        RegisterId::r13d => RegisterFormat::Uint,
        RegisterId::r14d => RegisterFormat::Uint,
        RegisterId::r15d => RegisterFormat::Uint,
        RegisterId::ax => RegisterFormat::Uint,
        RegisterId::dx => RegisterFormat::Uint,
        RegisterId::cx => RegisterFormat::Uint,
        RegisterId::bx => RegisterFormat::Uint,
        RegisterId::si => RegisterFormat::Uint,
        RegisterId::di => RegisterFormat::Uint,
        RegisterId::bp => RegisterFormat::Uint,
        RegisterId::sp => RegisterFormat::Uint,
        RegisterId::r8w => RegisterFormat::Uint,
        RegisterId::r9w => RegisterFormat::Uint,
        RegisterId::r10w => RegisterFormat::Uint,
        RegisterId::r11w => RegisterFormat::Uint,
        RegisterId::r12w => RegisterFormat::Uint,
        RegisterId::r13w => RegisterFormat::Uint,
        RegisterId::r14w => RegisterFormat::Uint,
        RegisterId::r15w => RegisterFormat::Uint,
        RegisterId::ah => RegisterFormat::Uint,
        RegisterId::dh => RegisterFormat::Uint,
        RegisterId::ch => RegisterFormat::Uint,
        RegisterId::bh => RegisterFormat::Uint,
        RegisterId::al => RegisterFormat::Uint,
        RegisterId::dl => RegisterFormat::Uint,
        RegisterId::cl => RegisterFormat::Uint,
        RegisterId::bl => RegisterFormat::Uint,
        RegisterId::sil => RegisterFormat::Uint,
        RegisterId::dil => RegisterFormat::Uint,
        RegisterId::bpl => RegisterFormat::Uint,
        RegisterId::spl => RegisterFormat::Uint,
        RegisterId::r8b => RegisterFormat::Uint,
        RegisterId::r9b => RegisterFormat::Uint,
        RegisterId::r10b => RegisterFormat::Uint,
        RegisterId::r11b => RegisterFormat::Uint,
        RegisterId::r12b => RegisterFormat::Uint,
        RegisterId::r13b => RegisterFormat::Uint,
        RegisterId::r14b => RegisterFormat::Uint,
        RegisterId::r15b => RegisterFormat::Uint,
        RegisterId::fcw => RegisterFormat::Uint,
        RegisterId::fsw => RegisterFormat::Uint,
        RegisterId::ftw => RegisterFormat::Uint,
        RegisterId::fop => RegisterFormat::Uint,
        RegisterId::frip => RegisterFormat::Uint,
        RegisterId::frdp => RegisterFormat::Uint,
        RegisterId::mxcsr => RegisterFormat::Uint,
        RegisterId::mxcsrmask => RegisterFormat::Uint,
        RegisterId::st0 => RegisterFormat::LongDouble,
        RegisterId::st1 => RegisterFormat::LongDouble,
        RegisterId::st2 => RegisterFormat::LongDouble,
        RegisterId::st3 => RegisterFormat::LongDouble,
        RegisterId::st4 => RegisterFormat::LongDouble,
        RegisterId::st5 => RegisterFormat::LongDouble,
        RegisterId::st6 => RegisterFormat::LongDouble,
        RegisterId::st7 => RegisterFormat::LongDouble,
        RegisterId::mm0 => RegisterFormat::Vector,
        RegisterId::mm1 => RegisterFormat::Vector,
        RegisterId::mm2 => RegisterFormat::Vector,
        RegisterId::mm3 => RegisterFormat::Vector,
        RegisterId::mm4 => RegisterFormat::Vector,
        RegisterId::mm5 => RegisterFormat::Vector,
        RegisterId::mm6 => RegisterFormat::Vector,
        RegisterId::mm7 => RegisterFormat::Vector,
        RegisterId::xmm0 => RegisterFormat::Vector,
        RegisterId::xmm1 => RegisterFormat::Vector,
        RegisterId::xmm2 => RegisterFormat::Vector,
        RegisterId::xmm3 => RegisterFormat::Vector,
        RegisterId::xmm4 => RegisterFormat::Vector,
        RegisterId::xmm5 => RegisterFormat::Vector,
        RegisterId::xmm6 => RegisterFormat::Vector,
        RegisterId::xmm7 => RegisterFormat::Vector,
        RegisterId::xmm8 => RegisterFormat::Vector,
        RegisterId::xmm9 => RegisterFormat::Vector,
        RegisterId::xmm10 => RegisterFormat::Vector,
        RegisterId::xmm11 => RegisterFormat::Vector,
        RegisterId::xmm12 => RegisterFormat::Vector,
        RegisterId::xmm13 => RegisterFormat::Vector,
        RegisterId::xmm14 => RegisterFormat::Vector,
        RegisterId::xmm15 => RegisterFormat::Vector,
        RegisterId::dr0 => RegisterFormat::Uint,
        RegisterId::dr1 => RegisterFormat::Uint,
        RegisterId::dr2 => RegisterFormat::Uint,
        RegisterId::dr3 => RegisterFormat::Uint,
        RegisterId::dr4 => RegisterFormat::Uint,
        RegisterId::dr5 => RegisterFormat::Uint,
        RegisterId::dr6 => RegisterFormat::Uint,
        RegisterId::dr7 => RegisterFormat::Uint,
    }
}

/// A register's width in bytes (catalog table).
pub open spec fn reg_size_spec(id: RegisterId) -> usize {
    match id {
        RegisterId::rax => 8,
        RegisterId::rdx => 8,
        RegisterId::rcx => 8,
        RegisterId::rbx => 8,
        RegisterId::rsi => 8,
        RegisterId::rdi => 8,
        RegisterId::rbp => 8,
        RegisterId::rsp => 8,
        RegisterId::r8 => 8,
        RegisterId::r9 => 8,
        RegisterId::r10 => 8,
        RegisterId::r11 => 8,
        RegisterId::r12 => 8,
        RegisterId::r13 => 8,
        RegisterId::r14 => 8,
        RegisterId::r15 => 8,
        RegisterId::rip => 8,
        RegisterId::eflags => 8,
        RegisterId::cs => 8,
        RegisterId::fs => 8,
        RegisterId::gs => 8,
        RegisterId::ss => 8,
        RegisterId::ds => 8,
        RegisterId::es => 8,
        RegisterId::orig_rax => 8,
        RegisterId::eax => 4,
        RegisterId::edx => 4,
        RegisterId::ecx => 4,
        RegisterId::ebx => 4,
        RegisterId::esi => 4,
        RegisterId::edi => 4,
        RegisterId::ebp => 4,
        RegisterId::esp => 4,
        RegisterId::r8d => 4,
        RegisterId::r9d => 4,
        RegisterId::r10d => 4,
        RegisterId::r11d => 4,
        RegisterId::r12d => 4,
        RegisterId::r13d => 4,
        RegisterId::r14d => 4,
        RegisterId::r15d => 4,
        RegisterId::ax => 2,
        RegisterId::dx => 2,
        RegisterId::cx => 2,
        RegisterId::bx => 2,
        RegisterId::si => 2,
        RegisterId::di => 2,
        RegisterId::bp => 2,
        RegisterId::sp => 2,
        RegisterId::r8w => 2,
        RegisterId::r9w => 2,
        RegisterId::r10w => 2,
        RegisterId::r11w => 2,
        RegisterId::r12w => 2,
        RegisterId::r13w => 2,
        RegisterId::r14w => 2,
        RegisterId::r15w => 2,
        RegisterId::ah => 1,
        RegisterId::dh => 1,
        RegisterId::ch => 1,
        RegisterId::bh => 1,
        RegisterId::al => 1,
        RegisterId::dl => 1,
        RegisterId::cl => 1,
        RegisterId::bl => 1,
        RegisterId::sil => 1,
        RegisterId::dil => 1,
        RegisterId::bpl => 1,
        RegisterId::spl => 1,
        RegisterId::r8b => 1,
        RegisterId::r9b => 1,
        RegisterId::r10b => 1,
        RegisterId::r11b => 1,
        RegisterId::r12b => 1,
        RegisterId::r13b => 1,
        RegisterId::r14b => 1,
        RegisterId::r15b => 1,
        RegisterId::fcw => 2,
        RegisterId::fsw => 2,
        RegisterId::ftw => 2,
        RegisterId::fop => 2,
        RegisterId::frip => 8,
        RegisterId::frdp => 8,
        RegisterId::mxcsr => 4,
        RegisterId::mxcsrmask => 4,
        RegisterId::st0 => 16,
        RegisterId::st1 => 16,
        RegisterId::st2 => 16,
        RegisterId::st3 => 16,
        RegisterId::st4 => 16,
        RegisterId::st5 => 16,
        RegisterId::st6 => 16,
        RegisterId::st7 => 16,
        RegisterId::mm0 => 8,
        RegisterId::mm1 => 8,
        RegisterId::mm2 => 8,
        RegisterId::mm3 => 8,
        RegisterId::mm4 => 8,
        RegisterId::mm5 => 8,
        RegisterId::mm6 => 8,
        RegisterId::mm7 => 8,
        RegisterId::xmm0 => 16,
        RegisterId::xmm1 => 16,
        RegisterId::xmm2 => 16,
        RegisterId::xmm3 => 16,
        RegisterId::xmm4 => 16,
        RegisterId::xmm5 => 16,
        RegisterId::xmm6 => 16,
        RegisterId::xmm7 => 16,
        RegisterId::xmm8 => 16,
        RegisterId::xmm9 => 16,
        RegisterId::xmm10 => 16,
        RegisterId::xmm11 => 16,
        RegisterId::xmm12 => 16,
        RegisterId::xmm13 => 16,
        RegisterId::xmm14 => 16,
        RegisterId::xmm15 => 16,
        RegisterId::dr0 => 8,
        RegisterId::dr1 => 8,
        RegisterId::dr2 => 8,
        RegisterId::dr3 => 8,
        RegisterId::dr4 => 8,
        RegisterId::dr5 => 8,
        RegisterId::dr6 => 8,
        RegisterId::dr7 => 8,
    }
}

/// A register's width in bytes.
#[verifier::spinoff_prover]
pub fn register_size(id: RegisterId) -> (r: usize)
    ensures
        r == reg_size_spec(id),
{
    match id {
        RegisterId::rax => 8,
        RegisterId::rdx => 8,
        RegisterId::rcx => 8,
        RegisterId::rbx => 8,
        RegisterId::rsi => 8,
        RegisterId::rdi => 8,
        RegisterId::rbp => 8,
        RegisterId::rsp => 8,
        RegisterId::r8 => 8,
        RegisterId::r9 => 8,
        RegisterId::r10 => 8,
        RegisterId::r11 => 8,
        RegisterId::r12 => 8,
        RegisterId::r13 => 8,
        RegisterId::r14 => 8,
        RegisterId::r15 => 8,
        RegisterId::rip => 8,
        RegisterId::eflags => 8,
        RegisterId::cs => 8,
        RegisterId::fs => 8,
        RegisterId::gs => 8,
        RegisterId::ss => 8,
        RegisterId::ds => 8,
        RegisterId::es => 8,
        RegisterId::orig_rax => 8,
        RegisterId::eax => 4,
        RegisterId::edx => 4,
        RegisterId::ecx => 4,
        RegisterId::ebx => 4,
        RegisterId::esi => 4,
        RegisterId::edi => 4,
        RegisterId::ebp => 4,
        RegisterId::esp => 4,
        RegisterId::r8d => 4,
        RegisterId::r9d => 4,
        RegisterId::r10d => 4,
        RegisterId::r11d => 4,
        RegisterId::r12d => 4,
        RegisterId::r13d => 4,
        RegisterId::r14d => 4,
        RegisterId::r15d => 4,
        RegisterId::ax => 2,
        RegisterId::dx => 2,
        RegisterId::cx => 2,
        RegisterId::bx => 2,
        RegisterId::si => 2,
        RegisterId::di => 2,
        RegisterId::bp => 2,
        RegisterId::sp => 2,
        RegisterId::r8w => 2,
        RegisterId::r9w => 2,
        RegisterId::r10w => 2,
        RegisterId::r11w => 2,
        RegisterId::r12w => 2,
        RegisterId::r13w => 2,
        RegisterId::r14w => 2,
        RegisterId::r15w => 2,
        RegisterId::ah => 1,
        RegisterId::dh => 1,
        RegisterId::ch => 1,
        RegisterId::bh => 1,
        RegisterId::al => 1,
        RegisterId::dl => 1,
        RegisterId::cl => 1,
        RegisterId::bl => 1,
        RegisterId::sil => 1,
        RegisterId::dil => 1,
        RegisterId::bpl => 1,
        RegisterId::spl => 1,
        RegisterId::r8b => 1,
        RegisterId::r9b => 1,
        RegisterId::r10b => 1,
        RegisterId::r11b => 1,
        RegisterId::r12b => 1,
        RegisterId::r13b => 1,
        RegisterId::r14b => 1,
        RegisterId::r15b => 1,
        RegisterId::fcw => 2,
        RegisterId::fsw => 2,
        RegisterId::ftw => 2,
        RegisterId::fop => 2,
        RegisterId::frip => 8,
        RegisterId::frdp => 8,
        RegisterId::mxcsr => 4,
        RegisterId::mxcsrmask => 4,
        RegisterId::st0 => 16,
        RegisterId::st1 => 16,
        RegisterId::st2 => 16,
        RegisterId::st3 => 16,
        RegisterId::st4 => 16,
        RegisterId::st5 => 16,
        RegisterId::st6 => 16,
        RegisterId::st7 => 16,
        RegisterId::mm0 => 8,
        RegisterId::mm1 => 8,
        RegisterId::mm2 => 8,
        RegisterId::mm3 => 8,
        RegisterId::mm4 => 8,
        RegisterId::mm5 => 8,
        RegisterId::mm6 => 8,
        RegisterId::mm7 => 8,
        RegisterId::xmm0 => 16,
        RegisterId::xmm1 => 16,
        RegisterId::xmm2 => 16,
        RegisterId::xmm3 => 16,
        RegisterId::xmm4 => 16,
        RegisterId::xmm5 => 16,
        RegisterId::xmm6 => 16,
        RegisterId::xmm7 => 16,
        RegisterId::xmm8 => 16,
        RegisterId::xmm9 => 16,
        RegisterId::xmm10 => 16,
        RegisterId::xmm11 => 16,
        RegisterId::xmm12 => 16,
        RegisterId::xmm13 => 16,
        RegisterId::xmm14 => 16,
        RegisterId::xmm15 => 16,
        RegisterId::dr0 => 8,
        RegisterId::dr1 => 8,
        RegisterId::dr2 => 8,
        RegisterId::dr3 => 8,
        RegisterId::dr4 => 8,
        RegisterId::dr5 => 8,
        RegisterId::dr6 => 8,
        RegisterId::dr7 => 8,
    }
}

/// A register's DWARF number, -1 where DWARF has none (catalog table).
pub open spec fn reg_dwarf_spec(id: RegisterId) -> i32 {
    match id {
        RegisterId::rax => 0i32,
        RegisterId::rdx => 1i32,
        RegisterId::rcx => 2i32,
        RegisterId::rbx => 3i32,
        RegisterId::rsi => 4i32,
        RegisterId::rdi => 5i32,
        RegisterId::rbp => 6i32,
        RegisterId::rsp => 7i32,
        RegisterId::r8 => 8i32,
        RegisterId::r9 => 9i32,
        RegisterId::r10 => 10i32,
        RegisterId::r11 => 11i32,
        RegisterId::r12 => 12i32,
        RegisterId::r13 => 13i32,
        RegisterId::r14 => 14i32,
        RegisterId::r15 => 15i32,
        RegisterId::rip => 16i32,
        RegisterId::eflags => 49i32,
        RegisterId::cs => 51i32,
        RegisterId::fs => 54i32,
        RegisterId::gs => 55i32,
        RegisterId::ss => 52i32,
        RegisterId::ds => 53i32,
        RegisterId::es => 50i32,
        RegisterId::orig_rax => -1i32,
        RegisterId::eax => -1i32,
        RegisterId::edx => -1i32,
        RegisterId::ecx => -1i32,
        RegisterId::ebx => -1i32,
        RegisterId::esi => -1i32,
        RegisterId::edi => -1i32,
        RegisterId::ebp => -1i32,
        RegisterId::esp => -1i32,
        RegisterId::r8d => -1i32,
        RegisterId::r9d => -1i32,
        RegisterId::r10d => -1i32,
        RegisterId::r11d => -1i32,
        RegisterId::r12d => -1i32,
        RegisterId::r13d => -1i32,
        RegisterId::r14d => -1i32,
        RegisterId::r15d => -1i32,
        RegisterId::ax => -1i32,
        RegisterId::dx => -1i32,
        RegisterId::cx => -1i32,
        RegisterId::bx => -1i32,
        RegisterId::si => -1i32,
        RegisterId::di => -1i32,
        RegisterId::bp => -1i32,
        RegisterId::sp => -1i32,
        RegisterId::r8w => -1i32,
        RegisterId::r9w => -1i32,
        RegisterId::r10w => -1i32,
        RegisterId::r11w => -1i32,
        RegisterId::r12w => -1i32,
        RegisterId::r13w => -1i32,
        RegisterId::r14w => -1i32,
        RegisterId::r15w => -1i32,
        RegisterId::ah => -1i32,
        RegisterId::dh => -1i32,
        RegisterId::ch => -1i32,
        RegisterId::bh => -1i32,
        RegisterId::al => -1i32,
        RegisterId::dl => -1i32,
        RegisterId::cl => -1i32,
        RegisterId::bl => -1i32,
        RegisterId::sil => -1i32,
        RegisterId::dil => -1i32,
        RegisterId::bpl => -1i32,
        RegisterId::spl => -1i32,
        RegisterId::r8b => -1i32,
        RegisterId::r9b => -1i32,
        RegisterId::r10b => -1i32,
        RegisterId::r11b => -1i32,
        RegisterId::r12b => -1i32,
        RegisterId::r13b => -1i32,
        RegisterId::r14b => -1i32,
        RegisterId::r15b => -1i32,
        RegisterId::fcw => 65i32,
        RegisterId::fsw => 66i32,
        RegisterId::ftw => -1i32,
        RegisterId::fop => -1i32,
        RegisterId::frip => -1i32,
        RegisterId::frdp => -1i32,
        RegisterId::mxcsr => 64i32,
        RegisterId::mxcsrmask => -1i32,
        RegisterId::st0 => 33i32,
        RegisterId::st1 => 34i32,
        RegisterId::st2 => 35i32,
        RegisterId::st3 => 36i32,
        RegisterId::st4 => 37i32,
        RegisterId::st5 => 38i32,
        RegisterId::st6 => 39i32,
        RegisterId::st7 => 40i32,
        RegisterId::mm0 => 41i32,
        RegisterId::mm1 => 42i32,
        RegisterId::mm2 => 43i32,
        RegisterId::mm3 => 44i32,
        RegisterId::mm4 => 45i32,
        RegisterId::mm5 => 46i32,
        RegisterId::mm6 => 47i32,
        RegisterId::mm7 => 48i32,
        RegisterId::xmm0 => 17i32,
        RegisterId::xmm1 => 18i32,
        RegisterId::xmm2 => 19i32,
        RegisterId::xmm3 => 20i32,
        RegisterId::xmm4 => 21i32,
        RegisterId::xmm5 => 22i32,
        RegisterId::xmm6 => 23i32,
        RegisterId::xmm7 => 24i32,
        RegisterId::xmm8 => 25i32,
        RegisterId::xmm9 => 26i32,
        RegisterId::xmm10 => 27i32,
        RegisterId::xmm11 => 28i32,
        RegisterId::xmm12 => 29i32,
        RegisterId::xmm13 => 30i32,
        RegisterId::xmm14 => 31i32,
        RegisterId::xmm15 => 32i32,
        RegisterId::dr0 => -1i32,
        RegisterId::dr1 => -1i32,
        RegisterId::dr2 => -1i32,
        RegisterId::dr3 => -1i32,
        RegisterId::dr4 => -1i32,
        RegisterId::dr5 => -1i32,
        RegisterId::dr6 => -1i32,
        RegisterId::dr7 => -1i32,
    }
}

/// A register's DWARF number, -1 where DWARF has none.
#[verifier::spinoff_prover]
pub fn register_dwarf(id: RegisterId) -> (r: i32)
    ensures
        r == reg_dwarf_spec(id),
{
    match id {
        RegisterId::rax => 0i32,
        RegisterId::rdx => 1i32,
        RegisterId::rcx => 2i32,
        RegisterId::rbx => 3i32,
        RegisterId::rsi => 4i32,
        RegisterId::rdi => 5i32,
        RegisterId::rbp => 6i32,
        RegisterId::rsp => 7i32,
        RegisterId::r8 => 8i32,
        RegisterId::r9 => 9i32,
        RegisterId::r10 => 10i32,
        RegisterId::r11 => 11i32,
        RegisterId::r12 => 12i32,
        RegisterId::r13 => 13i32,
        RegisterId::r14 => 14i32,
        RegisterId::r15 => 15i32,
        RegisterId::rip => 16i32,
        RegisterId::eflags => 49i32,
        RegisterId::cs => 51i32,
        RegisterId::fs => 54i32,
        RegisterId::gs => 55i32,
        RegisterId::ss => 52i32,
        RegisterId::ds => 53i32,
        RegisterId::es => 50i32,
        RegisterId::orig_rax => -1i32,
        RegisterId::eax => -1i32,
        RegisterId::edx => -1i32,
        RegisterId::ecx => -1i32,
        RegisterId::ebx => -1i32,
        RegisterId::esi => -1i32,
        RegisterId::edi => -1i32,
        RegisterId::ebp => -1i32,
        RegisterId::esp => -1i32,
        RegisterId::r8d => -1i32,
        RegisterId::r9d => -1i32,
        RegisterId::r10d => -1i32,
        RegisterId::r11d => -1i32,
        RegisterId::r12d => -1i32,
        RegisterId::r13d => -1i32,
        RegisterId::r14d => -1i32,
        RegisterId::r15d => -1i32,
        RegisterId::ax => -1i32,
        RegisterId::dx => -1i32,
        RegisterId::cx => -1i32,
        RegisterId::bx => -1i32,
        RegisterId::si => -1i32,
        RegisterId::di => -1i32,
        RegisterId::bp => -1i32,
        RegisterId::sp => -1i32,
        RegisterId::r8w => -1i32,
        RegisterId::r9w => -1i32,
        RegisterId::r10w => -1i32,
        RegisterId::r11w => -1i32,
        RegisterId::r12w => -1i32,
        RegisterId::r13w => -1i32,
        RegisterId::r14w => -1i32,
        RegisterId::r15w => -1i32,
        RegisterId::ah => -1i32,
        RegisterId::dh => -1i32,
        RegisterId::ch => -1i32,
        RegisterId::bh => -1i32,
        RegisterId::al => -1i32,
        RegisterId::dl => -1i32,
        RegisterId::cl => -1i32,
        RegisterId::bl => -1i32,
        RegisterId::sil => -1i32,
        RegisterId::dil => -1i32,
        RegisterId::bpl => -1i32,
        RegisterId::spl => -1i32,
        RegisterId::r8b => -1i32,
        RegisterId::r9b => -1i32,
        RegisterId::r10b => -1i32,
        RegisterId::r11b => -1i32,
        RegisterId::r12b => -1i32,
        RegisterId::r13b => -1i32,
        RegisterId::r14b => -1i32,
        RegisterId::r15b => -1i32,
        RegisterId::fcw => 65i32,
        RegisterId::fsw => 66i32,
        RegisterId::ftw => -1i32,
        RegisterId::fop => -1i32,
        RegisterId::frip => -1i32,
        RegisterId::frdp => -1i32,
        RegisterId::mxcsr => 64i32,
        RegisterId::mxcsrmask => -1i32,
        RegisterId::st0 => 33i32,
        RegisterId::st1 => 34i32,
        RegisterId::st2 => 35i32,
        RegisterId::st3 => 36i32,
        RegisterId::st4 => 37i32,
        RegisterId::st5 => 38i32,
        RegisterId::st6 => 39i32,
        RegisterId::st7 => 40i32,
        RegisterId::mm0 => 41i32,
        RegisterId::mm1 => 42i32,
        RegisterId::mm2 => 43i32,
        RegisterId::mm3 => 44i32,
        RegisterId::mm4 => 45i32,
        RegisterId::mm5 => 46i32,
        RegisterId::mm6 => 47i32,
        RegisterId::mm7 => 48i32,
        RegisterId::xmm0 => 17i32,
        RegisterId::xmm1 => 18i32,
        RegisterId::xmm2 => 19i32,
        RegisterId::xmm3 => 20i32,
        RegisterId::xmm4 => 21i32,
        RegisterId::xmm5 => 22i32,
        RegisterId::xmm6 => 23i32,
        RegisterId::xmm7 => 24i32,
        RegisterId::xmm8 => 25i32,
        RegisterId::xmm9 => 26i32,
        RegisterId::xmm10 => 27i32,
        RegisterId::xmm11 => 28i32,
        RegisterId::xmm12 => 29i32,
        RegisterId::xmm13 => 30i32,
        RegisterId::xmm14 => 31i32,
        RegisterId::xmm15 => 32i32,
        RegisterId::dr0 => -1i32,
        RegisterId::dr1 => -1i32,
        RegisterId::dr2 => -1i32,
        RegisterId::dr3 => -1i32,
        RegisterId::dr4 => -1i32,
        RegisterId::dr5 => -1i32,
        RegisterId::dr6 => -1i32,
        RegisterId::dr7 => -1i32,
    }
}

/// A register's byte offset inside the kernel user area (catalog table).
pub open spec fn reg_offset_spec(id: RegisterId) -> usize {
    match id {
        RegisterId::rax => 80,
        RegisterId::rdx => 96,
        RegisterId::rcx => 88,
        RegisterId::rbx => 40,
        RegisterId::rsi => 104,
        RegisterId::rdi => 112,
        RegisterId::rbp => 32,
        RegisterId::rsp => 152,
        RegisterId::r8 => 72,
        RegisterId::r9 => 64,
        RegisterId::r10 => 56,
        RegisterId::r11 => 48,
        RegisterId::r12 => 24,
        RegisterId::r13 => 16,
        RegisterId::r14 => 8,
        RegisterId::r15 => 0,
        RegisterId::rip => 128,
        RegisterId::eflags => 144,
        RegisterId::cs => 136,
        RegisterId::fs => 200,
        RegisterId::gs => 208,
        RegisterId::ss => 160,
        RegisterId::ds => 184,
        RegisterId::es => 192,
        RegisterId::orig_rax => 120,
        RegisterId::eax => 80,
        RegisterId::edx => 96,
        RegisterId::ecx => 88,
        RegisterId::ebx => 40,
        RegisterId::esi => 104,
        RegisterId::edi => 112,
        RegisterId::ebp => 32,
        RegisterId::esp => 152,
        RegisterId::r8d => 72,
        RegisterId::r9d => 64,
        RegisterId::r10d => 56,
        RegisterId::r11d => 48,
        RegisterId::r12d => 24,
        RegisterId::r13d => 16,
        RegisterId::r14d => 8,
        RegisterId::r15d => 0,
        RegisterId::ax => 80,
        RegisterId::dx => 96,
        RegisterId::cx => 88,
        RegisterId::bx => 40,
        RegisterId::si => 104,
        RegisterId::di => 112,
        RegisterId::bp => 32,
        RegisterId::sp => 152,
        RegisterId::r8w => 72,
        RegisterId::r9w => 64,
        RegisterId::r10w => 56,
        RegisterId::r11w => 48,
        RegisterId::r12w => 24,
        RegisterId::r13w => 16,
        RegisterId::r14w => 8,
        RegisterId::r15w => 0,
        RegisterId::ah => 81,
        RegisterId::dh => 97,
        RegisterId::ch => 89,
        RegisterId::bh => 41,
        RegisterId::al => 80,
        RegisterId::dl => 96,
        RegisterId::cl => 88,
        RegisterId::bl => 40,
        RegisterId::sil => 104,
        RegisterId::dil => 112,
        RegisterId::bpl => 32,
        RegisterId::spl => 152,
        RegisterId::r8b => 72,
        RegisterId::r9b => 64,
        RegisterId::r10b => 56,
        RegisterId::r11b => 48,
        RegisterId::r12b => 24,
        RegisterId::r13b => 16,
        RegisterId::r14b => 8,
        RegisterId::r15b => 0,
        RegisterId::fcw => 224,
        RegisterId::fsw => 226,
        RegisterId::ftw => 228,
        RegisterId::fop => 230,
        RegisterId::frip => 232,
        RegisterId::frdp => 240,
        RegisterId::mxcsr => 248,
        RegisterId::mxcsrmask => 252,
        RegisterId::st0 => 256,
        RegisterId::st1 => 272,
        RegisterId::st2 => 288,
        RegisterId::st3 => 304,
        RegisterId::st4 => 320,
        RegisterId::st5 => 336,
        RegisterId::st6 => 352,
        RegisterId::st7 => 368,
        RegisterId::mm0 => 256,
        RegisterId::mm1 => 272,
        RegisterId::mm2 => 288,
        RegisterId::mm3 => 304,
        RegisterId::mm4 => 320,
        RegisterId::mm5 => 336,
        RegisterId::mm6 => 352,
        RegisterId::mm7 => 368,
        RegisterId::xmm0 => 384,
        RegisterId::xmm1 => 400,
        RegisterId::xmm2 => 416,
        RegisterId::xmm3 => 432,
        RegisterId::xmm4 => 448,
        RegisterId::xmm5 => 464,
        RegisterId::xmm6 => 480,
        RegisterId::xmm7 => 496,
        RegisterId::xmm8 => 512,
        RegisterId::xmm9 => 528,
        RegisterId::xmm10 => 544,
        RegisterId::xmm11 => 560,
        RegisterId::xmm12 => 576,
        RegisterId::xmm13 => 592,
        RegisterId::xmm14 => 608,
        RegisterId::xmm15 => 624,
        RegisterId::dr0 => 848,
        RegisterId::dr1 => 856,
        RegisterId::dr2 => 864,
        RegisterId::dr3 => 872,
        RegisterId::dr4 => 880,
        RegisterId::dr5 => 888,
        RegisterId::dr6 => 896,
        RegisterId::dr7 => 904,
    }
}

/// A register's byte offset inside the kernel user area.
#[verifier::spinoff_prover]
pub fn register_offset(id: RegisterId) -> (r: usize)
    ensures
        r == reg_offset_spec(id),
{
    match id {
        RegisterId::rax => 80,
        RegisterId::rdx => 96,
        RegisterId::rcx => 88,
        RegisterId::rbx => 40,
        RegisterId::rsi => 104,
        RegisterId::rdi => 112,
        RegisterId::rbp => 32,
        RegisterId::rsp => 152,
        RegisterId::r8 => 72,
        RegisterId::r9 => 64,
        RegisterId::r10 => 56,
        RegisterId::r11 => 48,
        RegisterId::r12 => 24,
        RegisterId::r13 => 16,
        RegisterId::r14 => 8,
        RegisterId::r15 => 0,
        RegisterId::rip => 128,
        RegisterId::eflags => 144,
        RegisterId::cs => 136,
        RegisterId::fs => 200,
        RegisterId::gs => 208,
        RegisterId::ss => 160,
        RegisterId::ds => 184,
        RegisterId::es => 192,
        RegisterId::orig_rax => 120,
        RegisterId::eax => 80,
        RegisterId::edx => 96,
        RegisterId::ecx => 88,
        RegisterId::ebx => 40,
        RegisterId::esi => 104,
        RegisterId::edi => 112,
        RegisterId::ebp => 32,
        RegisterId::esp => 152,
        RegisterId::r8d => 72,
        RegisterId::r9d => 64,
        RegisterId::r10d => 56,
        RegisterId::r11d => 48,
        RegisterId::r12d => 24,
        RegisterId::r13d => 16,
        RegisterId::r14d => 8,
        RegisterId::r15d => 0,
        RegisterId::ax => 80,
        RegisterId::dx => 96,
        RegisterId::cx => 88,
        RegisterId::bx => 40,
        RegisterId::si => 104,
        RegisterId::di => 112,
        RegisterId::bp => 32,
        RegisterId::sp => 152,
        RegisterId::r8w => 72,
        RegisterId::r9w => 64,
        RegisterId::r10w => 56,
        RegisterId::r11w => 48,
        RegisterId::r12w => 24,
        RegisterId::r13w => 16,
        RegisterId::r14w => 8,
        RegisterId::r15w => 0,
        RegisterId::ah => 81,
        RegisterId::dh => 97,
        RegisterId::ch => 89,
        RegisterId::bh => 41,
        RegisterId::al => 80,
        RegisterId::dl => 96,
        RegisterId::cl => 88,
        RegisterId::bl => 40,
        RegisterId::sil => 104,
        RegisterId::dil => 112,
        RegisterId::bpl => 32,
        RegisterId::spl => 152,
        RegisterId::r8b => 72,
        RegisterId::r9b => 64,
        RegisterId::r10b => 56,
        RegisterId::r11b => 48,
        RegisterId::r12b => 24,
        RegisterId::r13b => 16,
        RegisterId::r14b => 8,
        RegisterId::r15b => 0,
        RegisterId::fcw => 224,
        RegisterId::fsw => 226,
        RegisterId::ftw => 228,
        RegisterId::fop => 230,
        RegisterId::frip => 232,
        RegisterId::frdp => 240,
        RegisterId::mxcsr => 248,
        RegisterId::mxcsrmask => 252,
        RegisterId::st0 => 256,
        RegisterId::st1 => 272,
        RegisterId::st2 => 288,
        RegisterId::st3 => 304,
        RegisterId::st4 => 320,
        RegisterId::st5 => 336,
        RegisterId::st6 => 352,
        RegisterId::st7 => 368,
        RegisterId::mm0 => 256,
        RegisterId::mm1 => 272,
        RegisterId::mm2 => 288,
        RegisterId::mm3 => 304,
        RegisterId::mm4 => 320,
        RegisterId::mm5 => 336,
        RegisterId::mm6 => 352,
        RegisterId::mm7 => 368,
        RegisterId::xmm0 => 384,
        RegisterId::xmm1 => 400,
        RegisterId::xmm2 => 416,
        RegisterId::xmm3 => 432,
        RegisterId::xmm4 => 448,
        RegisterId::xmm5 => 464,
        RegisterId::xmm6 => 480,
        RegisterId::xmm7 => 496,
        RegisterId::xmm8 => 512,
        RegisterId::xmm9 => 528,
        RegisterId::xmm10 => 544,
        RegisterId::xmm11 => 560,
        RegisterId::xmm12 => 576,
        RegisterId::xmm13 => 592,
        RegisterId::xmm14 => 608,
        RegisterId::xmm15 => 624,
        RegisterId::dr0 => 848,
        RegisterId::dr1 => 856,
        RegisterId::dr2 => 864,
        RegisterId::dr3 => 872,
        RegisterId::dr4 => 880,
        RegisterId::dr5 => 888,
        RegisterId::dr6 => 896,
        RegisterId::dr7 => 904,
    }
}

/// The catalog as a function of the register identity.
pub open spec fn reg_info_spec(id: RegisterId) -> RegInfo {
    RegInfo {
        name: reg_name_spec(id),
        id: id,
        rtype: reg_type_spec(id),
        format: reg_format_spec(id),
        size: reg_size_spec(id),
        dwarf_id: reg_dwarf_spec(id),
        offset: reg_offset_spec(id),
    }
}

/// Field-wise agreement of two catalog entries (name compared by content).
pub open spec fn reg_info_matches(a: RegInfo, b: RegInfo) -> bool {
    &&& a.name@ == b.name@
    &&& a.id == b.id
    &&& a.rtype == b.rtype
    &&& a.format == b.format
    &&& a.size == b.size
    &&& a.dwarf_id == b.dwarf_id
    &&& a.offset == b.offset
}

/// A descriptor that addresses a well-formed slice of the user area.
pub open spec fn ri_wf(ri: RegInfo) -> bool {
    &&& 1 <= ri.size <= 16
    &&& ri.offset + ri.size <= USER_AREA_SIZE
}

/// Every catalog entry addresses a well-formed slice of the user area.
#[verifier::rlimit(100)]
#[verifier::spinoff_prover]
pub proof fn lemma_catalog_wf(id: RegisterId)
    ensures
        ri_wf(reg_info_spec(id)),
{
}

/// Look a register up by its dense identity.
pub fn register_by_id(id: RegisterId) -> (r: RegInfo)
    ensures
        reg_info_matches(r, reg_info_spec(id)),
        ri_wf(r),
{
    proof {
        lemma_catalog_wf(id);
    }
    RegInfo {
        name: register_name(id),
        id: id,
        rtype: register_type(id),
        format: register_format(id),
        size: register_size(id),
        dwarf_id: register_dwarf(id),
        offset: register_offset(id),
    }
}

/// Content equality of two strings.
pub fn str_content_eq(a: &str, b: &str) -> (r: bool)
    ensures
        r == (a@ == b@),
{
    let la = a.unicode_len();
    let lb = b.unicode_len();
    if la != lb {
        return false;
    }
    let mut i: usize = 0;
    while i < la
        invariant
            la == a@.len(),
            la == b@.len(),
            i <= la,
            forall|j: int| 0 <= j < i ==> a@[j] == b@[j],
        decreases la - i,
    {
        if a.get_char(i) != b.get_char(i) {
            return false;
        }
        i = i + 1;
    }
    proof {
        assert(a@ =~= b@);
    }
    true
}

/// Look a register up by its mnemonic.
#[verifier::rlimit(100)]
#[verifier::spinoff_prover]
pub fn register_by_name(name: &str) -> (r: Option<RegInfo>)
    ensures
        r matches Some(ri) ==> reg_info_matches(ri, reg_info_spec(ri.id)) && ri.name@ == name@,
        r is None ==> forall|id: RegisterId| reg_name_spec(id)@ != name@,
{
    if str_content_eq(name, "rax") {
        return Some(register_by_id(RegisterId::rax));
    }
    if str_content_eq(name, "rdx") {
        return Some(register_by_id(RegisterId::rdx));
    }
    if str_content_eq(name, "rcx") {
        return Some(register_by_id(RegisterId::rcx));
    }
    if str_content_eq(name, "rbx") {
        return Some(register_by_id(RegisterId::rbx));
    }
    if str_content_eq(name, "rsi") {
        return Some(register_by_id(RegisterId::rsi));
    }
    if str_content_eq(name, "rdi") {
        return Some(register_by_id(RegisterId::rdi));
    }
    if str_content_eq(name, "rbp") {
        return Some(register_by_id(RegisterId::rbp));
    }
    if str_content_eq(name, "rsp") {
        return Some(register_by_id(RegisterId::rsp));
    }
    if str_content_eq(name, "r8") {
        return Some(register_by_id(RegisterId::r8));
    }
    if str_content_eq(name, "r9") {
        return Some(register_by_id(RegisterId::r9));
    }
    if str_content_eq(name, "r10") {
        return Some(register_by_id(RegisterId::r10));
    }
    if str_content_eq(name, "r11") {
        return Some(register_by_id(RegisterId::r11));
    }
    if str_content_eq(name, "r12") {
        return Some(register_by_id(RegisterId::r12));
    }
    if str_content_eq(name, "r13") {
        return Some(register_by_id(RegisterId::r13));
    }
    if str_content_eq(name, "r14") {
        return Some(register_by_id(RegisterId::r14));
    }
    if str_content_eq(name, "r15") {
        return Some(register_by_id(RegisterId::r15));
    }
    if str_content_eq(name, "rip") {
        return Some(register_by_id(RegisterId::rip));
    }
    if str_content_eq(name, "eflags") {
        return Some(register_by_id(RegisterId::eflags));
    }
    if str_content_eq(name, "cs") {
        return Some(register_by_id(RegisterId::cs));
    }
    if str_content_eq(name, "fs") {
        return Some(register_by_id(RegisterId::fs));
    }
    if str_content_eq(name, "gs") {
        return Some(register_by_id(RegisterId::gs));
    }
    if str_content_eq(name, "ss") {
        return Some(register_by_id(RegisterId::ss));
    }
    if str_content_eq(name, "ds") {
        return Some(register_by_id(RegisterId::ds));
    }
    if str_content_eq(name, "es") {
        return Some(register_by_id(RegisterId::es));
    }
    if str_content_eq(name, "orig_rax") {
        return Some(register_by_id(RegisterId::orig_rax));
    }
    if str_content_eq(name, "eax") {
        return Some(register_by_id(RegisterId::eax));
    }
    if str_content_eq(name, "edx") {
        return Some(register_by_id(RegisterId::edx));
    }
    if str_content_eq(name, "ecx") {
        return Some(register_by_id(RegisterId::ecx));
    }
    if str_content_eq(name, "ebx") {
        return Some(register_by_id(RegisterId::ebx));
    }
    if str_content_eq(name, "esi") {
        return Some(register_by_id(RegisterId::esi));
    }
    if str_content_eq(name, "edi") {
        return Some(register_by_id(RegisterId::edi));
    }
    if str_content_eq(name, "ebp") {
        return Some(register_by_id(RegisterId::ebp));
    }
    if str_content_eq(name, "esp") {
        return Some(register_by_id(RegisterId::esp));
    }
    if str_content_eq(name, "r8d") {
        return Some(register_by_id(RegisterId::r8d));
    }
    if str_content_eq(name, "r9d") {
        return Some(register_by_id(RegisterId::r9d));
    }
    if str_content_eq(name, "r10d") {
        return Some(register_by_id(RegisterId::r10d));
    }
    if str_content_eq(name, "r11d") {
        return Some(register_by_id(RegisterId::r11d));
    }
    if str_content_eq(name, "r12d") {
        return Some(register_by_id(RegisterId::r12d));
    }
    if str_content_eq(name, "r13d") {
        return Some(register_by_id(RegisterId::r13d));
    }
    if str_content_eq(name, "r14d") {
        return Some(register_by_id(RegisterId::r14d));
    }
    if str_content_eq(name, "r15d") {
        return Some(register_by_id(RegisterId::r15d));
    }
    if str_content_eq(name, "ax") {
        return Some(register_by_id(RegisterId::ax));
    }
    if str_content_eq(name, "dx") {
        return Some(register_by_id(RegisterId::dx));
    }
    if str_content_eq(name, "cx") {
        return Some(register_by_id(RegisterId::cx));
    }
    if str_content_eq(name, "bx") {
        return Some(register_by_id(RegisterId::bx));
    }
    if str_content_eq(name, "si") {
        return Some(register_by_id(RegisterId::si));
    }
    if str_content_eq(name, "di") {
        return Some(register_by_id(RegisterId::di));
    }
    if str_content_eq(name, "bp") {
        return Some(register_by_id(RegisterId::bp));
    }
    if str_content_eq(name, "sp") {
        return Some(register_by_id(RegisterId::sp));
    }
    if str_content_eq(name, "r8w") {
        return Some(register_by_id(RegisterId::r8w));
    }
    if str_content_eq(name, "r9w") {
        return Some(register_by_id(RegisterId::r9w));
    }
    if str_content_eq(name, "r10w") {
        return Some(register_by_id(RegisterId::r10w));
    }
    if str_content_eq(name, "r11w") {
        return Some(register_by_id(RegisterId::r11w));
    }
    if str_content_eq(name, "r12w") {
        return Some(register_by_id(RegisterId::r12w));
    }
    if str_content_eq(name, "r13w") {
        return Some(register_by_id(RegisterId::r13w));
    }
    if str_content_eq(name, "r14w") {
        return Some(register_by_id(RegisterId::r14w));
    }
    if str_content_eq(name, "r15w") {
        return Some(register_by_id(RegisterId::r15w));
    }
    if str_content_eq(name, "ah") {
        return Some(register_by_id(RegisterId::ah));
    }
    if str_content_eq(name, "dh") {
        return Some(register_by_id(RegisterId::dh));
    }
    if str_content_eq(name, "ch") {
        return Some(register_by_id(RegisterId::ch));
    }
    if str_content_eq(name, "bh") {
        return Some(register_by_id(RegisterId::bh));
    }
    if str_content_eq(name, "al") {
        return Some(register_by_id(RegisterId::al));
    }
    if str_content_eq(name, "dl") {
        return Some(register_by_id(RegisterId::dl));
    }
    if str_content_eq(name, "cl") {
        return Some(register_by_id(RegisterId::cl));
    }
    if str_content_eq(name, "bl") {
        return Some(register_by_id(RegisterId::bl));
    }
    if str_content_eq(name, "sil") {
        return Some(register_by_id(RegisterId::sil));
    }
    if str_content_eq(name, "dil") {
        return Some(register_by_id(RegisterId::dil));
    }
    if str_content_eq(name, "bpl") {
        return Some(register_by_id(RegisterId::bpl));
    }
    if str_content_eq(name, "spl") {
        return Some(register_by_id(RegisterId::spl));
    }
    if str_content_eq(name, "r8b") {
        return Some(register_by_id(RegisterId::r8b));
    }
    if str_content_eq(name, "r9b") {
        return Some(register_by_id(RegisterId::r9b));
    }
    if str_content_eq(name, "r10b") {
        return Some(register_by_id(RegisterId::r10b));
    }
    if str_content_eq(name, "r11b") {
        return Some(register_by_id(RegisterId::r11b));
    }
    if str_content_eq(name, "r12b") {
        return Some(register_by_id(RegisterId::r12b));
    }
    if str_content_eq(name, "r13b") {
        return Some(register_by_id(RegisterId::r13b));
    }
    if str_content_eq(name, "r14b") {
        return Some(register_by_id(RegisterId::r14b));
    }
    if str_content_eq(name, "r15b") {
        return Some(register_by_id(RegisterId::r15b));
    }
    if str_content_eq(name, "fcw") {
        return Some(register_by_id(RegisterId::fcw));
    }
    if str_content_eq(name, "fsw") {
        return Some(register_by_id(RegisterId::fsw));
    }
    if str_content_eq(name, "ftw") {
        return Some(register_by_id(RegisterId::ftw));
    }
    if str_content_eq(name, "fop") {
        return Some(register_by_id(RegisterId::fop));
    }
    if str_content_eq(name, "frip") {
        return Some(register_by_id(RegisterId::frip));
    }
    if str_content_eq(name, "frdp") {
        return Some(register_by_id(RegisterId::frdp));
    }
    if str_content_eq(name, "mxcsr") {
        return Some(register_by_id(RegisterId::mxcsr));
    }
    if str_content_eq(name, "mxcsrmask") {
        return Some(register_by_id(RegisterId::mxcsrmask));
    }
    if str_content_eq(name, "st0") {
        return Some(register_by_id(RegisterId::st0));
    }
    if str_content_eq(name, "st1") {
        return Some(register_by_id(RegisterId::st1));
    }
    if str_content_eq(name, "st2") {
        return Some(register_by_id(RegisterId::st2));
    }
    if str_content_eq(name, "st3") {
        return Some(register_by_id(RegisterId::st3));
    }
    if str_content_eq(name, "st4") {
        return Some(register_by_id(RegisterId::st4));
    }
    if str_content_eq(name, "st5") {
        return Some(register_by_id(RegisterId::st5));
    }
    if str_content_eq(name, "st6") {
        return Some(register_by_id(RegisterId::st6));
    }
    if str_content_eq(name, "st7") {
        return Some(register_by_id(RegisterId::st7));
    }
    if str_content_eq(name, "mm0") {
        return Some(register_by_id(RegisterId::mm0));
    }
    if str_content_eq(name, "mm1") {
        return Some(register_by_id(RegisterId::mm1));
    }
    if str_content_eq(name, "mm2") {
        return Some(register_by_id(RegisterId::mm2));
    }
    if str_content_eq(name, "mm3") {
        return Some(register_by_id(RegisterId::mm3));
    }
    if str_content_eq(name, "mm4") {
        return Some(register_by_id(RegisterId::mm4));
    }
    if str_content_eq(name, "mm5") {
        return Some(register_by_id(RegisterId::mm5));
    }
    if str_content_eq(name, "mm6") {
        return Some(register_by_id(RegisterId::mm6));
    }
    if str_content_eq(name, "mm7") {
        return Some(register_by_id(RegisterId::mm7));
    }
    if str_content_eq(name, "xmm0") {
        return Some(register_by_id(RegisterId::xmm0));
    }
    if str_content_eq(name, "xmm1") {
        return Some(register_by_id(RegisterId::xmm1));
    }
    if str_content_eq(name, "xmm2") {
        return Some(register_by_id(RegisterId::xmm2));
    }
    if str_content_eq(name, "xmm3") {
        return Some(register_by_id(RegisterId::xmm3));
    }
    if str_content_eq(name, "xmm4") {
        return Some(register_by_id(RegisterId::xmm4));
    }
    if str_content_eq(name, "xmm5") {
        return Some(register_by_id(RegisterId::xmm5));
    }
    if str_content_eq(name, "xmm6") {
        return Some(register_by_id(RegisterId::xmm6));
    }
    if str_content_eq(name, "xmm7") {
        return Some(register_by_id(RegisterId::xmm7));
    }
    if str_content_eq(name, "xmm8") {
        return Some(register_by_id(RegisterId::xmm8));
    }
    if str_content_eq(name, "xmm9") {
        return Some(register_by_id(RegisterId::xmm9));
    }
    if str_content_eq(name, "xmm10") {
        return Some(register_by_id(RegisterId::xmm10));
    }
    if str_content_eq(name, "xmm11") {
        return Some(register_by_id(RegisterId::xmm11));
    }
    if str_content_eq(name, "xmm12") {
        return Some(register_by_id(RegisterId::xmm12));
    }
    if str_content_eq(name, "xmm13") {
        return Some(register_by_id(RegisterId::xmm13));
    }
    if str_content_eq(name, "xmm14") {
        return Some(register_by_id(RegisterId::xmm14));
    }
    if str_content_eq(name, "xmm15") {
        return Some(register_by_id(RegisterId::xmm15));
    }
    if str_content_eq(name, "dr0") {
        return Some(register_by_id(RegisterId::dr0));
    }
    if str_content_eq(name, "dr1") {
        return Some(register_by_id(RegisterId::dr1));
    }
    if str_content_eq(name, "dr2") {
        return Some(register_by_id(RegisterId::dr2));
    }
    if str_content_eq(name, "dr3") {
        return Some(register_by_id(RegisterId::dr3));
    }
    if str_content_eq(name, "dr4") {
        return Some(register_by_id(RegisterId::dr4));
    }
    if str_content_eq(name, "dr5") {
        return Some(register_by_id(RegisterId::dr5));
    }
    if str_content_eq(name, "dr6") {
        return Some(register_by_id(RegisterId::dr6));
    }
    if str_content_eq(name, "dr7") {
        return Some(register_by_id(RegisterId::dr7));
    }
    None
}

/// Look a register up by its DWARF number; no register answers to -1.
#[verifier::rlimit(100)]
#[verifier::spinoff_prover]
pub fn register_by_dwarf(d: i32) -> (r: Option<RegInfo>)
    ensures
        r matches Some(ri) ==> reg_info_matches(ri, reg_info_spec(ri.id)) && ri.dwarf_id == d
            && d != -1i32,
        r is None ==> forall|id: RegisterId| reg_dwarf_spec(id) != d || d == -1i32,
{
    if d == -1i32 {
        return None;
    }
    if d == 0i32 {
        return Some(register_by_id(RegisterId::rax));
    }
    if d == 1i32 {
        return Some(register_by_id(RegisterId::rdx));
    }
    if d == 2i32 {
        return Some(register_by_id(RegisterId::rcx));
    }
    if d == 3i32 {
        return Some(register_by_id(RegisterId::rbx));
    }
    if d == 4i32 {
        return Some(register_by_id(RegisterId::rsi));
    }
    if d == 5i32 {
        return Some(register_by_id(RegisterId::rdi));
    }
    if d == 6i32 {
        return Some(register_by_id(RegisterId::rbp));
    }
    if d == 7i32 {
        return Some(register_by_id(RegisterId::rsp));
    }
    if d == 8i32 {
        return Some(register_by_id(RegisterId::r8));
    }
    if d == 9i32 {
        return Some(register_by_id(RegisterId::r9));
    }
    if d == 10i32 {
        return Some(register_by_id(RegisterId::r10));
    }
    if d == 11i32 {
        return Some(register_by_id(RegisterId::r11));
    }
    if d == 12i32 {
        return Some(register_by_id(RegisterId::r12));
    }
    if d == 13i32 {
        return Some(register_by_id(RegisterId::r13));
    }
    if d == 14i32 {
        return Some(register_by_id(RegisterId::r14));
    }
    if d == 15i32 {
        return Some(register_by_id(RegisterId::r15));
    }
    if d == 16i32 {
        return Some(register_by_id(RegisterId::rip));
    }
    if d == 49i32 {
        return Some(register_by_id(RegisterId::eflags));
    }
    if d == 51i32 {
        return Some(register_by_id(RegisterId::cs));
    }
    if d == 54i32 {
        return Some(register_by_id(RegisterId::fs));
    }
    if d == 55i32 {
        return Some(register_by_id(RegisterId::gs));
    }
    if d == 52i32 {
        return Some(register_by_id(RegisterId::ss));
    }
    if d == 53i32 {
        return Some(register_by_id(RegisterId::ds));
    }
    if d == 50i32 {
        return Some(register_by_id(RegisterId::es));
    }
    if d == 65i32 {
        return Some(register_by_id(RegisterId::fcw));
    }
    if d == 66i32 {
        return Some(register_by_id(RegisterId::fsw));
    }
    if d == 64i32 {
        return Some(register_by_id(RegisterId::mxcsr));
    }
    if d == 33i32 {
        return Some(register_by_id(RegisterId::st0));
    }
    if d == 34i32 {
        return Some(register_by_id(RegisterId::st1));
    }
    if d == 35i32 {
        return Some(register_by_id(RegisterId::st2));
    }
    if d == 36i32 {
        return Some(register_by_id(RegisterId::st3));
    }
    if d == 37i32 {
        return Some(register_by_id(RegisterId::st4));
    }
    if d == 38i32 {
        return Some(register_by_id(RegisterId::st5));
    }
    if d == 39i32 {
        return Some(register_by_id(RegisterId::st6));
    }
    if d == 40i32 {
        return Some(register_by_id(RegisterId::st7));
    }
    if d == 41i32 {
        return Some(register_by_id(RegisterId::mm0));
    }
    if d == 42i32 {
        return Some(register_by_id(RegisterId::mm1));
    }
    if d == 43i32 {
        return Some(register_by_id(RegisterId::mm2));
    }
    if d == 44i32 {
        return Some(register_by_id(RegisterId::mm3));
    }
    if d == 45i32 {
        return Some(register_by_id(RegisterId::mm4));
    }
    if d == 46i32 {
        return Some(register_by_id(RegisterId::mm5));
    }
    if d == 47i32 {
        return Some(register_by_id(RegisterId::mm6));
    }
    if d == 48i32 {
        return Some(register_by_id(RegisterId::mm7));
    }
    if d == 17i32 {
        return Some(register_by_id(RegisterId::xmm0));
    }
    if d == 18i32 {
        return Some(register_by_id(RegisterId::xmm1));
    }
    if d == 19i32 {
        return Some(register_by_id(RegisterId::xmm2));
    }
    if d == 20i32 {
        return Some(register_by_id(RegisterId::xmm3));
    }
    if d == 21i32 {
        return Some(register_by_id(RegisterId::xmm4));
    }
    if d == 22i32 {
        return Some(register_by_id(RegisterId::xmm5));
    }
    if d == 23i32 {
        return Some(register_by_id(RegisterId::xmm6));
    }
    if d == 24i32 {
        return Some(register_by_id(RegisterId::xmm7));
    }
    if d == 25i32 {
        return Some(register_by_id(RegisterId::xmm8));
    }
    if d == 26i32 {
        return Some(register_by_id(RegisterId::xmm9));
    }
    if d == 27i32 {
        return Some(register_by_id(RegisterId::xmm10));
    }
    if d == 28i32 {
        return Some(register_by_id(RegisterId::xmm11));
    }
    if d == 29i32 {
        return Some(register_by_id(RegisterId::xmm12));
    }
    if d == 30i32 {
        return Some(register_by_id(RegisterId::xmm13));
    }
    if d == 31i32 {
        return Some(register_by_id(RegisterId::xmm14));
    }
    if d == 32i32 {
        return Some(register_by_id(RegisterId::xmm15));
    }
    None
}

/// The full general-purpose register whose slot a narrower register reads,
/// for every sub-register in the catalog.
pub open spec fn parent_gpr_spec(id: RegisterId) -> Option<RegisterId> {
    match id {
        RegisterId::eax => Some(RegisterId::rax),
        RegisterId::edx => Some(RegisterId::rdx),
        RegisterId::ecx => Some(RegisterId::rcx),
        RegisterId::ebx => Some(RegisterId::rbx),
        RegisterId::esi => Some(RegisterId::rsi),
        RegisterId::edi => Some(RegisterId::rdi),
        RegisterId::ebp => Some(RegisterId::rbp),
        RegisterId::esp => Some(RegisterId::rsp),
        RegisterId::r8d => Some(RegisterId::r8),
        RegisterId::r9d => Some(RegisterId::r9),
        RegisterId::r10d => Some(RegisterId::r10),
        RegisterId::r11d => Some(RegisterId::r11),
        RegisterId::r12d => Some(RegisterId::r12),
        RegisterId::r13d => Some(RegisterId::r13),
        RegisterId::r14d => Some(RegisterId::r14),
        RegisterId::r15d => Some(RegisterId::r15),
        RegisterId::ax => Some(RegisterId::rax),
        RegisterId::dx => Some(RegisterId::rdx),
        RegisterId::cx => Some(RegisterId::rcx),
        RegisterId::bx => Some(RegisterId::rbx),
        RegisterId::si => Some(RegisterId::rsi),
        RegisterId::di => Some(RegisterId::rdi),
        RegisterId::bp => Some(RegisterId::rbp),
        RegisterId::sp => Some(RegisterId::rsp),
        RegisterId::r8w => Some(RegisterId::r8),
        RegisterId::r9w => Some(RegisterId::r9),
        RegisterId::r10w => Some(RegisterId::r10),
        RegisterId::r11w => Some(RegisterId::r11),
        RegisterId::r12w => Some(RegisterId::r12),
        RegisterId::r13w => Some(RegisterId::r13),
        RegisterId::r14w => Some(RegisterId::r14),
        RegisterId::r15w => Some(RegisterId::r15),
        RegisterId::ah => Some(RegisterId::rax),
        RegisterId::dh => Some(RegisterId::rdx),
        RegisterId::ch => Some(RegisterId::rcx),
        RegisterId::bh => Some(RegisterId::rbx),
        RegisterId::al => Some(RegisterId::rax),
        RegisterId::dl => Some(RegisterId::rdx),
        RegisterId::cl => Some(RegisterId::rcx),
        RegisterId::bl => Some(RegisterId::rbx),
        RegisterId::sil => Some(RegisterId::rsi),
        RegisterId::dil => Some(RegisterId::rdi),
        RegisterId::bpl => Some(RegisterId::rbp),
        RegisterId::spl => Some(RegisterId::rsp),
        RegisterId::r8b => Some(RegisterId::r8),
        RegisterId::r9b => Some(RegisterId::r9),
        RegisterId::r10b => Some(RegisterId::r10),
        RegisterId::r11b => Some(RegisterId::r11),
        RegisterId::r12b => Some(RegisterId::r12),
        RegisterId::r13b => Some(RegisterId::r13),
        RegisterId::r14b => Some(RegisterId::r14),
        RegisterId::r15b => Some(RegisterId::r15),
        _ => None,
    }
}

/// Every sub-register's slot lies inside its parent's 8-byte slot: the
/// high-byte registers sit one byte in, the rest share the parent's start.
#[verifier::rlimit(100)]
#[verifier::spinoff_prover]
pub proof fn lemma_sub_within_parent(id: RegisterId)
    ensures
        parent_gpr_spec(id) matches Some(p) ==> {
            &&& reg_type_spec(id) == RegisterType::SubGpr
            &&& reg_type_spec(p) == RegisterType::Gpr
            &&& reg_offset_spec(p) <= reg_offset_spec(id)
            &&& reg_offset_spec(id) + reg_size_spec(id) <= reg_offset_spec(p) + reg_size_spec(p)
        },
{
}


/// No two registers share a DWARF number, apart from the many that have
/// none.
#[verifier::rlimit(100)]
#[verifier::spinoff_prover]
pub proof fn lemma_dwarf_ids_unique(a: RegisterId, b: RegisterId)
    ensures
        a != b && reg_dwarf_spec(a) != -1i32 ==> reg_dwarf_spec(a) != reg_dwarf_spec(b),
{
}

} // verus!
