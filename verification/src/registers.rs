//! The register file: a byte-addressable in-memory mirror of the kernel's
//! user area, addressed by `(offset, size)` from the catalog, together with
//! the tagged values read out of it and written into it.
use vstd::prelude::*;

use crate::register_info::{RegInfo, USER_AREA_SIZE, ri_wf};
use crate::wordops::{
    le_to_u64, lemma_le_decode_encode, u16_at, u16_to_bytes, u32_at, u32_to_bytes, u64_at, u64_le,
    word_from_bytes, word_to_bytes,
};

verus! {

/// Byte offset of the x87/SSE block inside the user area.
pub const FPR_BASE: usize = 224;

/// Byte offset of the x87 `st` slots inside the user area.
pub const ST_BASE: usize = 256;

/// Byte offset of the SSE `xmm` slots inside the user area.
pub const XMM_BASE: usize = 384;

/// Byte offset of the debug registers inside the user area.
pub const DR_BASE: usize = 848;

/// Number of 8-byte slots in the general-purpose block.
pub const GPR_WORDS: usize = 27;

/// The x87/SSE register block as plain fields, in the kernel's own layout:
/// four 16-bit control/status words, two 64-bit pointers, two 32-bit SSE
/// control words, the eight 16-byte `st` slots as 32 little-endian 32-bit
/// cells, and the sixteen 16-byte `xmm` slots as 64 such cells.
pub struct FpRegs {
    /// x87 control word.
    pub cwd: u16,
    /// x87 status word.
    pub swd: u16,
    /// x87 tag word.
    pub ftw: u16,
    /// Last x87 opcode.
    pub fop: u16,
    /// Last x87 instruction pointer.
    pub rip: u64,
    /// Last x87 data pointer.
    pub rdp: u64,
    /// SSE control/status word.
    pub mxcsr: u32,
    /// Valid `mxcsr` bits.
    pub mxcr_mask: u32,
    /// The `st0`..`st7` slots, 4 cells each.
    pub st_space: Vec<u32>,
    /// The `xmm0`..`xmm15` slots, 4 cells each.
    pub xmm_space: Vec<u32>,
}

impl FpRegs {
    /// The two slot arrays have the kernel's fixed lengths.
    pub open spec fn wf(&self) -> bool {
        &&& self.st_space@.len() == 32
        &&& self.xmm_space@.len() == 64
    }
}

/// What a write of `payload` at `(off, size)` leaves of a mirror `m`.
pub open spec fn spec_write(m: Seq<u8>, off: int, size: int, payload: Seq<u8>) -> Seq<u8> {
    Seq::new(m.len(), |i: int| if off <= i < off + size { payload[i - off] } else { m[i] })
}

/// The 16-byte payload a read at `(off, size)` yields from a mirror `m`:
/// the register's bytes, zero-extended to the payload width.
pub open spec fn spec_read_payload(m: Seq<u8>, off: int, size: int) -> Seq<u8> {
    Seq::new(16, |i: int| if i < size { m[off + i] } else { 0u8 })
}

/// A register value: a 16-byte little-endian payload tagged with the
/// descriptor of the register it belongs to. Only the first `ri.size` bytes
/// are meaningful; the rest are zero.
pub struct RValue {
    /// The raw payload; the register's bytes sit at the front.
    pub bytes: Vec<u8>,
    /// The register this value belongs to.
    pub ri: RegInfo,
}

impl RValue {
    /// A payload of the fixed width with a well-formed descriptor.
    pub open spec fn wf(&self) -> bool {
        &&& self.bytes@.len() == 16
        &&& ri_wf(self.ri)
    }

    /// Build a value from an unsigned scalar: its little-endian bytes fill
    /// the payload prefix, the rest is zero.
    pub fn from_u64(v: u64, ri: RegInfo) -> (r: RValue)
        requires
            ri_wf(ri),
        ensures
            r.wf(),
            r.ri == ri,
            r.bytes@.subrange(0, 8) == u64_le(v),
            forall|i: int| 8 <= i < 16 ==> r.bytes@[i] == 0u8,
    {
        let mut bytes = word_to_bytes(v);
        let mut i: usize = 8;
        while i < 16
            invariant
                8 <= i <= 16,
                bytes@.len() == i,
                bytes@.subrange(0, 8) =~= u64_le(v),
                forall|j: int| 8 <= j < i ==> bytes@[j] == 0u8,
            decreases 16 - i,
        {
            bytes.push(0u8);
            i = i + 1;
        }
        proof {
            assert(bytes@.subrange(0, 8) =~= u64_le(v));
        }
        RValue { bytes, ri }
    }

    /// Build a value from raw payload bytes, zero-extended to the payload
    /// width. Accepts at most 16 bytes.
    pub fn from_bytes(data: &Vec<u8>, ri: RegInfo) -> (r: RValue)
        requires
            ri_wf(ri),
            data@.len() <= 16,
        ensures
            r.wf(),
            r.ri == ri,
            r.bytes@.subrange(0, data@.len() as int) == data@,
            forall|i: int| data@.len() <= i < 16 ==> r.bytes@[i] == 0u8,
    {
        let mut bytes: Vec<u8> = Vec::new();
        let n = data.len();
        let mut i: usize = 0;
        while i < n
            invariant
                i <= n,
                n == data@.len(),
                bytes@.len() == i,
                bytes@ =~= data@.subrange(0, i as int),
            decreases n - i,
        {
            bytes.push(data[i]);
            i = i + 1;
        }
        while i < 16
            invariant
                n <= i <= 16,
                n == data@.len(),
                bytes@.len() == i,
                bytes@.subrange(0, n as int) =~= data@,
                forall|j: int| n <= j < i ==> bytes@[j] == 0u8,
            decreases 16 - i,
        {
            bytes.push(0u8);
            i = i + 1;
        }
        proof {
            assert(bytes@.subrange(0, n as int) =~= data@);
        }
        RValue { bytes, ri }
    }

    /// Build a value for the register with the given identity, from an
    /// unsigned scalar.
    pub fn from_id(v: u64, rid: crate::register_info::RegisterId) -> (r: RValue)
        ensures
            r.wf(),
            crate::register_info::reg_info_matches(
                r.ri,
                crate::register_info::reg_info_spec(rid),
            ),
            r.bytes@.subrange(0, 8) == u64_le(v),
            forall|i: int| 8 <= i < 16 ==> r.bytes@[i] == 0u8,
    {
        RValue::from_u64(v, crate::register_info::register_by_id(rid))
    }

    /// The payload's first eight bytes as an unsigned scalar.
    pub fn read_as_u64(&self) -> (r: u64)
        requires
            self.wf(),
        ensures
            u64_le(r) == self.bytes@.subrange(0, 8),
            r == le_to_u64(self.bytes@),
    {
        let r = word_from_bytes(&self.bytes, 0);
        proof {
            assert(self.bytes@.subrange(0, 8)[0] == self.bytes@[0]);
            assert(r == le_to_u64(self.bytes@.subrange(0, 8)));
            assert(le_to_u64(self.bytes@.subrange(0, 8)) == le_to_u64(self.bytes@));
        }
        r
    }

    /// The payload's first byte.
    pub fn read_as_u8(&self) -> (r: u8)
        requires
            self.wf(),
        ensures
            r == self.bytes@[0],
    {
        self.bytes[0]
    }

    /// The payload's first two bytes as a little-endian scalar.
    pub fn read_as_u16(&self) -> (r: u16)
        requires
            self.wf(),
        ensures
            r == (self.bytes@[0] as u16) | ((self.bytes@[1] as u16) << 8),
    {
        (self.bytes[0] as u16) | ((self.bytes[1] as u16) << 8)
    }

    /// The payload's first four bytes as a little-endian scalar.
    pub fn read_as_u32(&self) -> (r: u32)
        requires
            self.wf(),
        ensures
            r == (self.bytes@[0] as u32) | ((self.bytes@[1] as u32) << 8) | ((self.bytes@[2]
                as u32) << 16) | ((self.bytes@[3] as u32) << 24),
    {
        (self.bytes[0] as u32) | ((self.bytes[1] as u32) << 8) | ((self.bytes[2] as u32) << 16) | (
        (self.bytes[3] as u32) << 24)
    }

    /// The first `count` payload bytes.
    pub fn read_prefix(&self, count: usize) -> (r: Vec<u8>)
        requires
            self.wf(),
            count <= 16,
        ensures
            r@ == self.bytes@.subrange(0, count as int),
    {
        let mut out: Vec<u8> = Vec::new();
        let mut i: usize = 0;
        while i < count
            invariant
                i <= count,
                count <= 16,
                self.bytes@.len() == 16,
                out@.len() == i,
                out@ =~= self.bytes@.subrange(0, i as int),
            decreases count - i,
        {
            out.push(self.bytes[i]);
            i = i + 1;
        }
        proof {
            assert(out@ =~= self.bytes@.subrange(0, count as int));
        }
        out
    }
}

/// Zero-extend a short byte array into a full 16-byte register payload.
pub fn extend_vec<const L: usize>(val: [u8; L]) -> (r: [u8; 16])
    requires
        L <= 16,
    ensures
        forall|i: int| 0 <= i < L ==> r@[i] == val@[i],
        forall|i: int| L <= i < 16 ==> r@[i] == 0u8,
{
    let mut out: [u8; 16] = [0u8; 16];
    let mut i: usize = 0;
    while i < L
        invariant
            i <= L,
            L <= 16,
            forall|j: int| 0 <= j < i ==> out@[j] == val@[j],
            forall|j: int| i <= j < 16 ==> out@[j] == 0u8,
        decreases L - i,
    {
        out[i] = val[i];
        i = i + 1;
    }
    out
}

/// The in-memory mirror of the kernel user area, one per inferior. Created
/// zeroed, refreshed from the kernel on every stop, written through on every
/// register write.
#[derive(Debug)]
pub struct Registers {
    data: Vec<u8>,
}

impl Registers {
    /// The mirror's bytes.
    pub closed spec fn view(&self) -> Seq<u8> {
        self.data@
    }

    /// The mirror spans exactly the kernel user area.
    pub open spec fn wf(&self) -> bool {
        self@.len() == USER_AREA_SIZE
    }

    /// A zeroed mirror.
    pub fn empty() -> (r: Registers)
        ensures
            r.wf(),
            forall|i: int| 0 <= i < USER_AREA_SIZE ==> r@[i] == 0u8,
    {
        let data: Vec<u8> = vec![0u8; USER_AREA_SIZE];
        Registers { data }
    }

    /// Read a register: its `size` bytes at `offset`, zero-extended into a
    /// fresh payload tagged with the descriptor.
    pub fn read(&self, ri: &RegInfo) -> (r: RValue)
        requires
            self.wf(),
            ri_wf(*ri),
        ensures
            r.wf(),
            r.ri == *ri,
            r.bytes@ == spec_read_payload(self@, ri.offset as int, ri.size as int),
    {
        let mut bytes: Vec<u8> = Vec::new();
        let mut i: usize = 0;
        while i < ri.size
            invariant
                i <= ri.size,
                ri_wf(*ri),
                self.wf(),
                bytes@.len() == i,
                forall|j: int| 0 <= j < i ==> bytes@[j] == self@[ri.offset + j],
            decreases ri.size - i,
        {
            bytes.push(self.data[ri.offset + i]);
            i = i + 1;
        }
        while i < 16
            invariant
                ri.size <= i <= 16,
                ri_wf(*ri),
                self.wf(),
                bytes@.len() == i,
                forall|j: int| 0 <= j < ri.size ==> bytes@[j] == self@[ri.offset + j],
                forall|j: int| ri.size <= j < i ==> bytes@[j] == 0u8,
            decreases 16 - i,
        {
            bytes.push(0u8);
            i = i + 1;
        }
        proof {
            assert(bytes@ =~= spec_read_payload(self@, ri.offset as int, ri.size as int));
        }
        RValue { bytes, ri: *ri }
    }

    /// Read the register with the given identity.
    pub fn read_id(&self, rid: crate::register_info::RegisterId) -> (r: RValue)
        requires
            self.wf(),
        ensures
            r.wf(),
            crate::register_info::reg_info_matches(
                r.ri,
                crate::register_info::reg_info_spec(rid),
            ),
            r.bytes@ == spec_read_payload(
                self@,
                crate::register_info::reg_offset_spec(rid) as int,
                crate::register_info::reg_size_spec(rid) as int,
            ),
    {
        let ri = crate::register_info::register_by_id(rid);
        self.read(&ri)
    }

    /// Write a value: its first `size` payload bytes land at the value's
    /// descriptor offset; every other mirror byte is untouched.
    pub fn write(&mut self, rv: &RValue)
        requires
            old(self).wf(),
            rv.wf(),
        ensures
            final(self).wf(),
            final(self)@ == spec_write(
                old(self)@,
                rv.ri.offset as int,
                rv.ri.size as int,
                rv.bytes@,
            ),
    {
        let mut i: usize = 0;
        while i < rv.ri.size
            invariant
                i <= rv.ri.size,
                rv.wf(),
                self.wf(),
                self@.len() == old(self)@.len(),
                forall|j: int|
                    0 <= j < i ==> self@[rv.ri.offset + j] == rv.bytes@[j],
                forall|j: int|
                    0 <= j < self@.len() && !(rv.ri.offset <= j < rv.ri.offset + i) ==> self@[j]
                        == old(self)@[j],
            decreases rv.ri.size - i,
        {
            self.data[rv.ri.offset + i] = rv.bytes[i];
            i = i + 1;
        }
        proof {
            assert(self@ =~= spec_write(
                old(self)@,
                rv.ri.offset as int,
                rv.ri.size as int,
                rv.bytes@,
            ));
        }
    }

    /// The aligned 8-byte word at `offset`, as the kernel's poke interface
    /// wants it.
    pub fn get_clong_at(&self, offset: usize) -> (r: i64)
        requires
            self.wf(),
            offset + 8 <= USER_AREA_SIZE,
        ensures
            r == le_to_u64(self@.subrange(offset as int, offset + 8)) as i64,
    {
        word_from_bytes(&self.data, offset) as i64
    }

    /// The unsigned 8-byte word at `offset`.
    pub fn word_at(&self, offset: usize) -> (r: u64)
        requires
            self.wf(),
            offset + 8 <= USER_AREA_SIZE,
        ensures
            r == le_to_u64(self@.subrange(offset as int, offset + 8)),
            u64_le(r) == self@.subrange(offset as int, offset + 8),
    {
        word_from_bytes(&self.data, offset)
    }

    /// The little-endian 16-bit value at `offset`.
    pub fn u16_value_at(&self, offset: usize) -> (r: u16)
        requires
            self.wf(),
            offset + 2 <= USER_AREA_SIZE,
        ensures
            r == u16_at(self@, offset as int),
    {
        (self.data[offset] as u16) | ((self.data[offset + 1] as u16) << 8)
    }

    /// The little-endian 32-bit value at `offset`.
    pub fn u32_value_at(&self, offset: usize) -> (r: u32)
        requires
            self.wf(),
            offset + 4 <= USER_AREA_SIZE,
        ensures
            r == u32_at(self@, offset as int),
    {
        (self.data[offset] as u32) | ((self.data[offset + 1] as u32) << 8) | ((self.data[offset
            + 2] as u32) << 16) | ((self.data[offset + 3] as u32) << 24)
    }

    /// Lay `bytes` down at `offset`, leaving every other mirror byte alone.
    pub fn put_bytes_at(&mut self, offset: usize, bytes: &Vec<u8>)
        requires
            old(self).wf(),
            offset + bytes@.len() <= USER_AREA_SIZE,
        ensures
            final(self).wf(),
            final(self)@ == spec_write(
                old(self)@,
                offset as int,
                bytes@.len() as int,
                bytes@,
            ),
    {
        let n = bytes.len();
        let mut i: usize = 0;
        while i < n
            invariant
                i <= n,
                n == bytes@.len(),
                offset + n <= USER_AREA_SIZE,
                self.wf(),
                self@.len() == old(self)@.len(),
                forall|j: int| 0 <= j < i ==> self@[offset + j] == bytes@[j],
                forall|j: int|
                    0 <= j < self@.len() && !(offset <= j < offset + i) ==> self@[j] == old(
                        self,
                    )@[j],
            decreases n - i,
        {
            self.data[offset + i] = bytes[i];
            i = i + 1;
        }
        proof {
            assert(self@ =~= spec_write(old(self)@, offset as int, bytes@.len() as int, bytes@));
        }
    }

    /// Refresh the general-purpose block from the kernel's 27 slot values,
    /// in the kernel's field order; the rest of the mirror is untouched.
    pub fn load_gpr_words(&mut self, words: &Vec<u64>)
        requires
            old(self).wf(),
            words@.len() == GPR_WORDS,
        ensures
            final(self).wf(),
            forall|i: int| 0 <= i < GPR_WORDS ==> u64_at(final(self)@, 8 * i) == words@[i],
            forall|j: int|
                8 * GPR_WORDS <= j < USER_AREA_SIZE ==> final(self)@[j] == old(self)@[j],
    {
        let mut i: usize = 0;
        while i < GPR_WORDS
            invariant
                i <= GPR_WORDS,
                words@.len() == GPR_WORDS,
                self.wf(),
                forall|k: int| 0 <= k < i ==> u64_at(self@, 8 * k) == words@[k],
                forall|j: int| 8 * i <= j < USER_AREA_SIZE ==> self@[j] == old(self)@[j],
            decreases GPR_WORDS - i,
        {
            let ghost prev = self@;
            let b = word_to_bytes(words[i]);
            self.put_bytes_at(8 * i, &b);
            proof {
                assert forall|k: int| 0 <= k < i + 1 implies u64_at(self@, 8 * k) == words@[k] by {
                    if k == i {
                        assert(self@.subrange(8 * k, 8 * k + 8) =~= b@);
                        lemma_le_decode_encode(words@[k]);
                        assert(b@ =~= u64_le(words@[k as int]));
                    } else {
                        assert(self@.subrange(8 * k, 8 * k + 8) =~= prev.subrange(8 * k, 8 * k + 8));
                    }
                }
            }
            i = i + 1;
        }
    }

    /// Refresh the x87/SSE region from a kernel block; bytes outside the
    /// named fields (the block's trailing padding included) are untouched.
    #[verifier::loop_isolation(false)]
    pub fn load_fpr_block(&mut self, f: &FpRegs)
        requires
            old(self).wf(),
            f.wf(),
        ensures
            final(self).wf(),
            u16_at(final(self)@, FPR_BASE as int) == f.cwd,
            u16_at(final(self)@, FPR_BASE + 2) == f.swd,
            u16_at(final(self)@, FPR_BASE + 4) == f.ftw,
            u16_at(final(self)@, FPR_BASE + 6) == f.fop,
            u64_at(final(self)@, FPR_BASE + 8) == f.rip,
            u64_at(final(self)@, FPR_BASE + 16) == f.rdp,
            u32_at(final(self)@, FPR_BASE + 24) == f.mxcsr,
            u32_at(final(self)@, FPR_BASE + 28) == f.mxcr_mask,
            forall|i: int| 0 <= i < 32 ==> u32_at(final(self)@, ST_BASE + 4 * i) == f.st_space@[i],
            forall|i: int| 0 <= i < 64 ==> u32_at(final(self)@, XMM_BASE + 4 * i) == f.xmm_space@[i],
            forall|j: int|
                0 <= j < USER_AREA_SIZE && !(FPR_BASE <= j < XMM_BASE + 256) ==> final(self)@[j]
                    == old(self)@[j],
    {
        let mut blob = u16_to_bytes(f.cwd);
        let mut part = u16_to_bytes(f.swd);
        blob.append(&mut part);
        let mut part = u16_to_bytes(f.ftw);
        blob.append(&mut part);
        let mut part = u16_to_bytes(f.fop);
        blob.append(&mut part);
        let mut part = word_to_bytes(f.rip);
        blob.append(&mut part);
        let mut part = word_to_bytes(f.rdp);
        blob.append(&mut part);
        let mut part = u32_to_bytes(f.mxcsr);
        blob.append(&mut part);
        let mut part = u32_to_bytes(f.mxcr_mask);
        blob.append(&mut part);
        proof {
            assert(blob@.len() == 32);
            assert(u16_at(blob@, 0) == f.cwd && u16_at(blob@, 2) == f.swd && u16_at(blob@, 4)
                == f.ftw && u16_at(blob@, 6) == f.fop);
            assert(forall|k: int|
                0 <= k < 8 ==> blob@[8 + k] == u64_le(f.rip)[k] && blob@[16 + k] == u64_le(
                    f.rdp,
                )[k]);
            assert(u32_at(blob@, 24) == f.mxcsr && u32_at(blob@, 28) == f.mxcr_mask);
        }
        self.put_bytes_at(FPR_BASE, &blob);
        let ghost mid = self@;
        let mut i: usize = 0;
        while i < 32
            invariant
                i <= 32,
                f.wf(),
                self.wf(),
                forall|k: int| 0 <= k < i ==> u32_at(self@, ST_BASE + 4 * k) == f.st_space@[k],
                forall|j: int|
                    0 <= j < USER_AREA_SIZE && !(ST_BASE <= j < ST_BASE + 4 * i) ==> self@[j]
                        == mid[j],
            decreases 32 - i,
        {
            let ghost prev = self@;
            let b = u32_to_bytes(f.st_space[i]);
            self.put_bytes_at(ST_BASE + 4 * i, &b);
            proof {
                assert forall|k: int| 0 <= k < i + 1 implies u32_at(self@, ST_BASE + 4 * k)
                    == f.st_space@[k] by {
                    if k < i {
                        assert(self@[ST_BASE + 4 * k] == prev[ST_BASE + 4 * k]);
                        assert(self@[ST_BASE + 4 * k + 1] == prev[ST_BASE + 4 * k + 1]);
                        assert(self@[ST_BASE + 4 * k + 2] == prev[ST_BASE + 4 * k + 2]);
                        assert(self@[ST_BASE + 4 * k + 3] == prev[ST_BASE + 4 * k + 3]);
                    }
                }
            }
            i = i + 1;
        }
        let ghost mid2 = self@;
        let mut i: usize = 0;
        while i < 64
            invariant
                i <= 64,
                f.wf(),
                self.wf(),
                forall|k: int| 0 <= k < i ==> u32_at(self@, XMM_BASE + 4 * k) == f.xmm_space@[k],
                forall|j: int|
                    0 <= j < USER_AREA_SIZE && !(XMM_BASE <= j < XMM_BASE + 4 * i) ==> self@[j]
                        == mid2[j],
            decreases 64 - i,
        {
            let ghost prev = self@;
            let b = u32_to_bytes(f.xmm_space[i]);
            self.put_bytes_at(XMM_BASE + 4 * i, &b);
            proof {
                assert forall|k: int| 0 <= k < i + 1 implies u32_at(self@, XMM_BASE + 4 * k)
                    == f.xmm_space@[k] by {
                    if k < i {
                        assert(self@[XMM_BASE + 4 * k] == prev[XMM_BASE + 4 * k]);
                        assert(self@[XMM_BASE + 4 * k + 1] == prev[XMM_BASE + 4 * k + 1]);
                        assert(self@[XMM_BASE + 4 * k + 2] == prev[XMM_BASE + 4 * k + 2]);
                        assert(self@[XMM_BASE + 4 * k + 3] == prev[XMM_BASE + 4 * k + 3]);
                    }
                }
            }
            i = i + 1;
        }
        proof {
            assert forall|k: int| 0 <= k < 32 implies self@[FPR_BASE + k] == blob@[k] by {
                assert(self@[FPR_BASE + k] == mid2[FPR_BASE + k]);
                assert(mid2[FPR_BASE + k] == mid[FPR_BASE + k]);
                assert(mid[FPR_BASE + k] == blob@[k]);
            }
            assert forall|j: int|
                0 <= j < USER_AREA_SIZE && !(FPR_BASE <= j < XMM_BASE + 256) implies self@[j]
                == old(self)@[j] by {
                assert(self@[j] == mid2[j]);
                assert(mid2[j] == mid[j]);
                assert(mid[j] == old(self)@[j]);
            }
            assert(u16_at(self@, FPR_BASE as int) == u16_at(blob@, 0)) by {
                assert(self@[FPR_BASE + 0] == blob@[0] && self@[FPR_BASE + 1] == blob@[1]);
            }
            assert(u16_at(self@, FPR_BASE + 2) == u16_at(blob@, 2)) by {
                assert(self@[FPR_BASE + 2] == blob@[2] && self@[FPR_BASE + 3] == blob@[3]);
            }
            assert(u16_at(self@, FPR_BASE + 4) == u16_at(blob@, 4)) by {
                assert(self@[FPR_BASE + 4] == blob@[4] && self@[FPR_BASE + 5] == blob@[5]);
            }
            assert(u16_at(self@, FPR_BASE + 6) == u16_at(blob@, 6)) by {
                assert(self@[FPR_BASE + 6] == blob@[6] && self@[FPR_BASE + 7] == blob@[7]);
            }
            assert(u32_at(self@, FPR_BASE + 24) == u32_at(blob@, 24)) by {
                assert(self@[FPR_BASE + 24] == blob@[24] && self@[FPR_BASE + 25] == blob@[25]
                    && self@[FPR_BASE + 26] == blob@[26] && self@[FPR_BASE + 27] == blob@[27]);
            }
            assert(u32_at(self@, FPR_BASE + 28) == u32_at(blob@, 28)) by {
                assert(self@[FPR_BASE + 28] == blob@[28] && self@[FPR_BASE + 29] == blob@[29]
                    && self@[FPR_BASE + 30] == blob@[30] && self@[FPR_BASE + 31] == blob@[31]);
            }
            assert forall|k: int| 0 <= k < 8 implies self@.subrange(FPR_BASE + 8, FPR_BASE + 16)[k]
                == u64_le(f.rip)[k] && self@.subrange(FPR_BASE + 16, FPR_BASE + 24)[k] == u64_le(
                f.rdp,
            )[k] by {
                assert(self@[FPR_BASE + 8 + k] == mid2[FPR_BASE + 8 + k]);
                assert(mid2[FPR_BASE + 8 + k] == mid[FPR_BASE + 8 + k]);
                assert(mid[FPR_BASE + 8 + k] == blob@[8 + k]);
                assert(self@[FPR_BASE + 16 + k] == mid2[FPR_BASE + 16 + k]);
                assert(mid2[FPR_BASE + 16 + k] == mid[FPR_BASE + 16 + k]);
                assert(mid[FPR_BASE + 16 + k] == blob@[16 + k]);
            }
            assert(u64_at(self@, FPR_BASE + 8) == f.rip) by {
                assert(self@.subrange(FPR_BASE + 8, FPR_BASE + 16) =~= u64_le(f.rip));
                lemma_le_decode_encode(f.rip);
            }
            assert(u64_at(self@, FPR_BASE + 16) == f.rdp) by {
                assert(self@.subrange(FPR_BASE + 16, FPR_BASE + 24) =~= u64_le(f.rdp));
                lemma_le_decode_encode(f.rdp);
            }
        }
    }

    /// The x87/SSE region of the mirror, gathered into a kernel block.
    pub fn read_fpr_block(&self) -> (f: FpRegs)
        requires
            self.wf(),
        ensures
            f.wf(),
            f.cwd == u16_at(self@, FPR_BASE as int),
            f.swd == u16_at(self@, FPR_BASE + 2),
            f.ftw == u16_at(self@, FPR_BASE + 4),
            f.fop == u16_at(self@, FPR_BASE + 6),
            f.rip == u64_at(self@, FPR_BASE + 8),
            f.rdp == u64_at(self@, FPR_BASE + 16),
            f.mxcsr == u32_at(self@, FPR_BASE + 24),
            f.mxcr_mask == u32_at(self@, FPR_BASE + 28),
            forall|i: int| 0 <= i < 32 ==> f.st_space@[i] == u32_at(self@, ST_BASE + 4 * i),
            forall|i: int| 0 <= i < 64 ==> f.xmm_space@[i] == u32_at(self@, XMM_BASE + 4 * i),
    {
        let mut st_space: Vec<u32> = Vec::new();
        let mut i: usize = 0;
        while i < 32
            invariant
                i <= 32,
                self.wf(),
                st_space@.len() == i,
                forall|k: int| 0 <= k < i ==> st_space@[k] == u32_at(self@, ST_BASE + 4 * k),
            decreases 32 - i,
        {
            st_space.push(self.u32_value_at(ST_BASE + 4 * i));
            i = i + 1;
        }
        let mut xmm_space: Vec<u32> = Vec::new();
        let mut i: usize = 0;
        while i < 64
            invariant
                i <= 64,
                self.wf(),
                xmm_space@.len() == i,
                forall|k: int| 0 <= k < i ==> xmm_space@[k] == u32_at(self@, XMM_BASE + 4 * k),
            decreases 64 - i,
        {
            xmm_space.push(self.u32_value_at(XMM_BASE + 4 * i));
            i = i + 1;
        }
        FpRegs {
            cwd: self.u16_value_at(FPR_BASE),
            swd: self.u16_value_at(FPR_BASE + 2),
            ftw: self.u16_value_at(FPR_BASE + 4),
            fop: self.u16_value_at(FPR_BASE + 6),
            rip: self.word_at(FPR_BASE + 8),
            rdp: self.word_at(FPR_BASE + 16),
            mxcsr: self.u32_value_at(FPR_BASE + 24),
            mxcr_mask: self.u32_value_at(FPR_BASE + 28),
            st_space,
            xmm_space,
        }
    }
}

/// Reading a register immediately after writing it yields the written
/// payload back, for every register slot and every payload whose trailing
/// bytes are zero: the round trip over the mirror is the identity.
pub proof fn lemma_register_round_trip(m: Seq<u8>, ri: RegInfo, payload: Seq<u8>)
    requires
        m.len() == USER_AREA_SIZE,
        ri_wf(ri),
        payload.len() == 16,
        forall|i: int| ri.size <= i < 16 ==> payload[i] == 0u8,
    ensures
        spec_read_payload(
            spec_write(m, ri.offset as int, ri.size as int, payload),
            ri.offset as int,
            ri.size as int,
        ) =~= payload,
{
}

/// Writing a narrower register that lives inside a wider one's slot leaves
/// the written bytes visible through the wider register, at the byte
/// positions the two slots share.
pub proof fn lemma_sub_write_parent_read(
    m: Seq<u8>,
    sub: RegInfo,
    parent: RegInfo,
    payload: Seq<u8>,
)
    requires
        m.len() == USER_AREA_SIZE,
        ri_wf(sub),
        ri_wf(parent),
        payload.len() == 16,
        parent.offset <= sub.offset,
        sub.offset + sub.size <= parent.offset + parent.size,
    ensures
        forall|i: int|
            0 <= i < sub.size ==> spec_read_payload(
                spec_write(m, sub.offset as int, sub.size as int, payload),
                parent.offset as int,
                parent.size as int,
            )[sub.offset - parent.offset + i] == payload[i],
{
}

} // verus!
