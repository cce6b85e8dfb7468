//! Virtual addresses and software-breakpoint sites: where an INT3 byte is
//! installed in the tracee, what original byte it displaced, and whether the
//! site is currently armed.
use vstd::prelude::*;

verus! {

/// The single-byte x86 software-breakpoint opcode.
pub const INT3: u8 = 0xcc;

/// An address in the tracee's virtual space. Arithmetic wraps modulo 2^64;
/// the kernel rejects operations on addresses outside the tracee's space.
#[derive(Clone, Copy, Debug, PartialEq, Eq, Hash, PartialOrd, Ord, Structural)]
pub struct VirtAddr(pub u64);

impl VirtAddr {
    /// The address `off` bytes further on, wrapping modulo 2^64.
    pub fn add(self, off: u64) -> (r: VirtAddr)
        ensures
            r.0 == (self.0 + off) % 0x1_0000_0000_0000_0000,
    {
        VirtAddr(self.0.wrapping_add(off))
    }

    /// The address `off` bytes back, wrapping modulo 2^64.
    pub fn sub(self, off: u64) -> (r: VirtAddr)
        ensures
            r.0 == (self.0 - off) % 0x1_0000_0000_0000_0000,
    {
        VirtAddr(self.0.wrapping_sub(off))
    }
}

impl From<u64> for VirtAddr {
    fn from(value: u64) -> (r: VirtAddr) {
        VirtAddr(value)
    }
}

impl vstd::std_specs::convert::FromSpecImpl<u64> for VirtAddr {
    open spec fn obeys_from_spec() -> bool {
        true
    }

    open spec fn from_spec(value: u64) -> VirtAddr {
        VirtAddr(value)
    }
}

/// A place execution can be made to stop at.
pub trait StopPoint {
    /// The address this point watches.
    spec fn spec_addr(&self) -> VirtAddr;

    /// Whether the point is currently armed.
    spec fn spec_enabled(&self) -> bool;

    /// The address this point watches.
    fn addr(&self) -> (r: VirtAddr)
        ensures
            r == self.spec_addr(),
    ;

    /// Whether this point watches exactly `va`.
    fn is_at(&self, va: VirtAddr) -> (r: bool)
        ensures
            r == (self.spec_addr() == va),
    {
        let a = self.addr();
        a.0 == va.0
    }

    /// Whether this point's address lies in the closed range `[low, high]`.
    fn in_range(&self, low: VirtAddr, high: VirtAddr) -> (r: bool)
        ensures
            r == (low.0 <= self.spec_addr().0 <= high.0),
    {
        let a = self.addr();
        low.0 <= a.0 && high.0 >= a.0
    }

    /// Mark the point armed.
    fn set_enabled(&mut self)
        ensures
            final(self).spec_enabled(),
    ;

    /// Mark the point disarmed.
    fn set_disabled(&mut self)
        ensures
            !final(self).spec_enabled(),
    ;

    /// Whether the point is currently armed.
    fn enabled(&self) -> (r: bool)
        ensures
            r == self.spec_enabled(),
    ;
}

/// One software-breakpoint site: an id stable for the site's lifetime, the
/// address patched, whether the INT3 byte is currently installed, and the
/// original byte it displaced while it is.
#[derive(Debug)]
pub struct BreakSite {
    /// Identity within one inferior, assigned at creation.
    pub id: usize,
    /// Whether the INT3 byte is currently installed at `va`.
    pub enabled: bool,
    /// The address the site patches.
    pub va: VirtAddr,
    /// The original byte at `va`, held only while the site is enabled.
    pub saved_data: Option<Vec<u8>>,
}

impl BreakSite {
    /// An enabled site holds exactly the one displaced byte.
    pub open spec fn wf(&self) -> bool {
        self.enabled ==> (self.saved_data matches Some(v) && v@.len() == 1)
    }

    /// The displaced byte of an enabled site.
    pub open spec fn spec_saved_byte(&self) -> u8
        recommends
            self.wf(),
            self.enabled,
    {
        self.saved_data->Some_0@[0]
    }

    /// A fresh site: disabled, nothing displaced yet.
    pub fn new(id: usize, va: VirtAddr) -> (r: BreakSite)
        ensures
            r.wf(),
            r.id == id,
            r.va == va,
            !r.enabled,
            r.saved_data is None,
    {
        BreakSite { id, enabled: false, va, saved_data: None }
    }
}

impl StopPoint for BreakSite {
    open spec fn spec_addr(&self) -> VirtAddr {
        self.va
    }

    open spec fn spec_enabled(&self) -> bool {
        self.enabled
    }

    fn addr(&self) -> (r: VirtAddr) {
        self.va
    }

    fn set_enabled(&mut self)
        ensures
            *final(self) == (BreakSite { enabled: true, ..*old(self) }),
    {
        self.enabled = true;
    }

    fn set_disabled(&mut self)
        ensures
            *final(self) == (BreakSite { enabled: false, ..*old(self) }),
    {
        self.enabled = false;
    }

    fn enabled(&self) -> (r: bool) {
        self.enabled
    }
}

} // verus!
