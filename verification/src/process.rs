//! The inferior-control engine: the tracer state machine over one child
//! process, its register-file mirror, and its breakpoint table. Every kernel
//! call goes through the trusted boundary in `sys`; every decision around
//! those calls is verified.
use vstd::prelude::*;

use crate::GadbErr;
use crate::breakpoints::{BreakSite, INT3, StopPoint, VirtAddr};
use crate::error;
use crate::error_os;
use crate::parsing::u64_to_dec;
use crate::register_info::{RegisterId, RegisterType, reg_offset_spec, register_by_id};
use crate::registers::{DR_BASE, FpRegs, GPR_WORDS, Registers, RValue, spec_write};
use crate::register_info::USER_AREA_SIZE;
use crate::sys;
use crate::sys::WaitEvent;
use crate::wordops::{lemma_le_decode_encode, set_word_byte, u64_at, u64_le, word_to_bytes};

verus! {

/// The signal number the kernel delivers for a retired INT3.
pub const SIGTRAP_SIGNO: i32 = 5;

/// The signal number that kills a process outright.
pub const SIGKILL_SIGNO: i32 = 9;

/// The signal number that resumes a stopped process.
pub const SIGCONT_SIGNO: i32 = 18;

/// The address one byte before `pc`, modulo 2^64.
pub open spec fn prev_addr(pc: u64) -> u64 {
    ((pc - 1) % 0x1_0000_0000_0000_0000) as u64
}

/// Read a status pipe's report from the child: an empty read means the
/// child reached its program; anything else is the child's error message.
pub fn launch_report(data: &Vec<u8>) -> (r: Result<(), GadbErr>)
    ensures
        r is Ok <==> data@.len() == 0,
        r matches Err(e) ==> e.msg@.len() > 0,
{
    if data.len() == 0 {
        Ok(())
    } else {
        Err(GadbErr { msg: sys::bytes_to_string_lossy(data) })
    }
}

/// Where the inferior stands in its lifecycle.
#[derive(Clone, Copy, Debug, PartialEq, Eq, Structural)]
pub enum ProcessState {
    /// Suspended by a signal; registers and memory may be inspected.
    Stopped,
    /// Scheduled by the kernel.
    Running,
    /// Gone through `exit`; terminal.
    Exited,
    /// Killed by a signal; terminal.
    Terminated,
}

/// What accompanied a state change: the signal that caused it, or the exit
/// code.
#[derive(Clone, Copy, Debug, PartialEq, Eq, Structural)]
pub enum StopInfo {
    /// Signal number, for stops and terminations.
    Signal(i32),
    /// Exit code, for exits.
    ExitCode(i32),
}

/// One report from waiting on the inferior: the state it moved to and why.
#[derive(Clone, Copy, Debug, PartialEq, Eq, Structural)]
pub struct StopReason {
    /// The state the inferior moved to.
    pub newstate: ProcessState,
    /// The signal or exit code that moved it there.
    pub info: StopInfo,
}

impl StopReason {
    /// Translate the kernel's wait report: an exit is terminal with its
    /// code, a kill is terminal with its signal, a stop suspends with its
    /// signal.
    pub fn from_wait_status(ev: WaitEvent) -> (r: StopReason)
        requires
            !(ev is Other),
        ensures
            ev matches WaitEvent::Exited(code) ==> r == (StopReason {
                newstate: ProcessState::Exited,
                info: StopInfo::ExitCode(code),
            }),
            ev matches WaitEvent::Signaled(sig) ==> r == (StopReason {
                newstate: ProcessState::Terminated,
                info: StopInfo::Signal(sig),
            }),
            ev matches WaitEvent::Stopped(sig) ==> r == (StopReason {
                newstate: ProcessState::Stopped,
                info: StopInfo::Signal(sig),
            }),
    {
        match ev {
            WaitEvent::Exited(code) => StopReason {
                newstate: ProcessState::Exited,
                info: StopInfo::ExitCode(code),
            },
            WaitEvent::Signaled(sig) => StopReason {
                newstate: ProcessState::Terminated,
                info: StopInfo::Signal(sig),
            },
            WaitEvent::Stopped(sig) => StopReason {
                newstate: ProcessState::Stopped,
                info: StopInfo::Signal(sig),
            },
            WaitEvent::Other => StopReason {
                newstate: ProcessState::Stopped,
                info: StopInfo::Signal(0),
            },
        }
    }
}

/// A well-formed site table: every site intact, ids and addresses unique.
pub open spec fn sites_wf(sites: Seq<BreakSite>) -> bool {
    &&& forall|i: int| 0 <= i < sites.len() ==> sites[i].wf()
    &&& forall|i: int, j: int|
        0 <= i < j < sites.len() ==> sites[i].id != sites[j].id && sites[i].va != sites[j].va
}

/// Whether some site watches `va`.
pub open spec fn has_site_at(sites: Seq<BreakSite>, va: VirtAddr) -> bool {
    exists|i: int| 0 <= i < sites.len() && sites[i].va == va
}

/// Whether some site carries `id`.
pub open spec fn has_site_id(sites: Seq<BreakSite>, id: usize) -> bool {
    exists|i: int| 0 <= i < sites.len() && sites[i].id == id
}

/// Two site tables with the same sites in the same order, identity-wise:
/// only enablement and saved bytes may differ.
pub open spec fn same_sites_shape(a: Seq<BreakSite>, b: Seq<BreakSite>) -> bool {
    &&& a.len() == b.len()
    &&& forall|i: int| 0 <= i < a.len() ==> a[i].id == b[i].id && a[i].va == b[i].va
}

/// The id of the site watching `va`.
pub open spec fn site_id_at(sites: Seq<BreakSite>, va: VirtAddr) -> usize
    recommends
        has_site_at(sites, va),
{
    sites[choose|i: int| 0 <= i < sites.len() && sites[i].va == va].id
}

/// How many sites are armed in `after` that were not armed in `before`,
/// matched position by position.
pub open spec fn count_newly_enabled(before: Seq<BreakSite>, after: Seq<BreakSite>) -> int
    recommends
        before.len() == after.len(),
    decreases before.len(),
{
    if before.len() == 0 || after.len() == 0 {
        0
    } else {
        count_newly_enabled(before.drop_last(), after.drop_last()) + if !before.last().enabled
            && after.last().enabled {
            1int
        } else {
            0int
        }
    }
}

/// How many sites armed in `before` are disarmed in `after`, matched
/// position by position.
pub open spec fn count_newly_disabled(before: Seq<BreakSite>, after: Seq<BreakSite>) -> int
    recommends
        before.len() == after.len(),
{
    count_newly_enabled(after, before)
}

/// Where no position goes from disarmed to armed, nothing is counted: in
/// particular, a table with nothing to arm yields a zero count.
pub proof fn lemma_count_newly_enabled_none(before: Seq<BreakSite>, after: Seq<BreakSite>)
    requires
        before.len() == after.len(),
        forall|j: int| 0 <= j < before.len() ==> !(!before[j].enabled && after[j].enabled),
    ensures
        count_newly_enabled(before, after) == 0,
    decreases before.len(),
{
    if before.len() > 0 {
        lemma_count_newly_enabled_none(before.drop_last(), after.drop_last());
    }
}

/// How many sites are enabled.
pub open spec fn count_enabled(sites: Seq<BreakSite>) -> int
    decreases sites.len(),
{
    if sites.len() == 0 {
        0
    } else {
        count_enabled(sites.drop_last()) + if sites.last().enabled {
            1int
        } else {
            0int
        }
    }
}

/// A key a breakpoint site can be looked up by.
pub trait BreakSiteId {
    /// Whether `bs` answers to this key.
    spec fn matches_site(&self, bs: BreakSite) -> bool;

    /// The position of the site answering to this key, if any.
    fn find_index(&self, p: &Process) -> (r: Option<usize>)
        ensures
            r matches Some(i) ==> i < p.breaksites@.len() && self.matches_site(
                p.breaksites@[i as int],
            ),
            r is None ==> forall|i: int|
                0 <= i < p.breaksites@.len() ==> !self.matches_site(p.breaksites@[i]),
    ;
}

impl BreakSiteId for usize {
    open spec fn matches_site(&self, bs: BreakSite) -> bool {
        bs.id == *self
    }

    fn find_index(&self, p: &Process) -> (r: Option<usize>) {
        p.site_index_by_id(*self)
    }
}

impl BreakSiteId for VirtAddr {
    open spec fn matches_site(&self, bs: BreakSite) -> bool {
        bs.va == *self
    }

    fn find_index(&self, p: &Process) -> (r: Option<usize>) {
        p.site_index_at_va(*self)
    }
}

/// One traced inferior: its kernel identity, lifecycle state, register
/// mirror and breakpoint table.
#[derive(Debug)]
pub struct Process {
    /// Kernel process identity.
    pub pid: i32,
    /// Whether this process was launched by us and is killed on teardown.
    pub autoterm: bool,
    /// Whether a tracing relationship is held.
    pub attached: bool,
    /// Lifecycle state.
    pub state: ProcessState,
    /// The user-area mirror, refreshed on every stop.
    pub registers: Registers,
    /// The breakpoint sites, in creation order.
    pub breaksites: Vec<BreakSite>,
    /// The id the next created site receives.
    pub next_breaksite_id: usize,
}

impl Process {
    /// The mirror spans the user area, the site table is intact, and every
    /// site id is below the next to be handed out.
    pub open spec fn wf(&self) -> bool {
        &&& self.registers.wf()
        &&& sites_wf(self.breaksites@)
        &&& forall|i: int|
            0 <= i < self.breaksites@.len() ==> self.breaksites@[i].id < self.next_breaksite_id
    }

    /// Everything but the register mirror and the site table is unchanged.
    pub open spec fn same_identity(&self, o: &Process) -> bool {
        &&& self.pid == o.pid
        &&& self.autoterm == o.autoterm
        &&& self.attached == o.attached
        &&& self.state == o.state
    }

    /// Take charge of an already-forked child: a fresh inferior in the
    /// `Running` state with a zeroed mirror and no breakpoints.
    pub fn adopt(pid: i32, attached: bool, autoterm: bool) -> (r: Process)
        ensures
            r.wf(),
            r.pid == pid,
            r.attached == attached,
            r.autoterm == autoterm,
            r.state == ProcessState::Running,
            r.breaksites@.len() == 0,
            r.next_breaksite_id == 0,
    {
        Process {
            pid,
            autoterm,
            attached,
            state: ProcessState::Running,
            registers: Registers::empty(),
            breaksites: Vec::new(),
            next_breaksite_id: 0,
        }
    }

    /// The register mirror.
    pub fn regs(&self) -> (r: &Registers)
        ensures
            r == &self.registers,
    {
        &self.registers
    }

    /// The sites, in creation order.
    pub fn breaksites(&self) -> (r: Vec<&BreakSite>)
        ensures
            r@.len() == self.breaksites@.len(),
            forall|i: int| 0 <= i < r@.len() ==> r@[i] == self.breaksites@[i],
    {
        let mut out: Vec<&BreakSite> = Vec::new();
        let n = self.breaksites.len();
        let mut i: usize = 0;
        while i < n
            invariant
                i <= n,
                n == self.breaksites@.len(),
                out@.len() == i,
                forall|j: int| 0 <= j < i ==> out@[j] == self.breaksites@[j],
            decreases n - i,
        {
            out.push(&self.breaksites[i]);
            i = i + 1;
        }
        out
    }

    /// The position of the site with `id`, if any.
    pub fn site_index_by_id(&self, id: usize) -> (r: Option<usize>)
        ensures
            r matches Some(i) ==> i < self.breaksites@.len() && self.breaksites@[i as int].id
                == id,
            r is None ==> !has_site_id(self.breaksites@, id),
    {
        let n = self.breaksites.len();
        let mut i: usize = 0;
        while i < n
            invariant
                i <= n,
                n == self.breaksites@.len(),
                forall|j: int| 0 <= j < i ==> self.breaksites@[j].id != id,
            decreases n - i,
        {
            if self.breaksites[i].id == id {
                return Some(i);
            }
            i = i + 1;
        }
        None
    }

    /// The position of the site watching `va`, if any.
    pub fn site_index_at_va(&self, va: VirtAddr) -> (r: Option<usize>)
        ensures
            r matches Some(i) ==> i < self.breaksites@.len() && self.breaksites@[i as int].va
                == va,
            r is None ==> !has_site_at(self.breaksites@, va),
    {
        let n = self.breaksites.len();
        let mut i: usize = 0;
        while i < n
            invariant
                i <= n,
                n == self.breaksites@.len(),
                forall|j: int| 0 <= j < i ==> self.breaksites@[j].va != va,
            decreases n - i,
        {
            if self.breaksites[i].is_at(va) {
                return Some(i);
            }
            i = i + 1;
        }
        None
    }

    /// The site with `id`, if any.
    pub fn breaksite_by_id(&self, id: usize) -> (r: Option<&BreakSite>)
        ensures
            r matches Some(bs) ==> bs.id == id && has_site_id(self.breaksites@, id)
                && self.breaksites@.contains(*bs),
            r is None ==> !has_site_id(self.breaksites@, id),
    {
        match self.site_index_by_id(id) {
            Some(i) => {
                let bs = &self.breaksites[i];
                proof {
                    assert(self.breaksites@.contains(*bs)) by {
                        assert(self.breaksites@[i as int] == *bs);
                    }
                }
                Some(bs)
            },
            None => None,
        }
    }

    /// The site watching `va`, if any.
    pub fn breaksite_at_va(&self, va: VirtAddr) -> (r: Option<&BreakSite>)
        ensures
            r matches Some(bs) ==> bs.va == va && has_site_at(self.breaksites@, va)
                && self.breaksites@.contains(*bs),
            r is None ==> !has_site_at(self.breaksites@, va),
    {
        match self.site_index_at_va(va) {
            Some(i) => {
                let bs = &self.breaksites[i];
                proof {
                    assert(self.breaksites@.contains(*bs)) by {
                        assert(self.breaksites@[i as int] == *bs);
                    }
                }
                Some(bs)
            },
            None => None,
        }
    }

    /// Create a disabled site watching `va`. Each address takes at most one
    /// site; a second request names the existing site's id in its error.
    pub fn create_breaksite(&mut self, va: VirtAddr) -> (r: Result<usize, GadbErr>)
        requires
            old(self).wf(),
        ensures
            final(self).wf(),
            final(self).same_identity(old(self)),
            final(self).registers == old(self).registers,
            r matches Ok(id) ==> {
                &&& !has_site_at(old(self).breaksites@, va)
                &&& id == old(self).next_breaksite_id
                &&& final(self).next_breaksite_id == old(self).next_breaksite_id + 1
                &&& final(self).breaksites@ == old(self).breaksites@.push(
                    BreakSite { id, enabled: false, va, saved_data: None },
                )
            },
            r is Err ==> (has_site_at(old(self).breaksites@, va) || old(self).next_breaksite_id
                == usize::MAX) && *final(self) == *old(self),
            r is Ok <==> (!has_site_at(old(self).breaksites@, va) && old(self).next_breaksite_id
                < usize::MAX),
            has_site_at(old(self).breaksites@, va) ==> (r matches Err(e) && e.msg@
                == "breakpoint already exists at that address (id "@ + crate::parsing::dec_digits(
                site_id_at(old(self).breaksites@, va) as nat,
            ) + ")"@),
    {
        if let Some(i) = self.site_index_at_va(va) {
            let existing_id = self.breaksites[i].id;
            proof {
                let w = choose|k: int|
                    0 <= k < self.breaksites@.len() && self.breaksites@[k].va == va;
                assert(self.breaksites@[w].va == va && self.breaksites@[i as int].va == va);
                assert(w == i);
                assert(existing_id as u64 as nat == existing_id as nat);
            }
            let mut msg = String::from_str("breakpoint already exists at that address (id ");
            let dec = u64_to_dec(existing_id as u64);
            msg.append(dec.as_str());
            msg.append(")");
            return Err(GadbErr { msg });
        }
        if self.next_breaksite_id == usize::MAX {
            return error("breakpoint ids exhausted");
        }
        let id = self.next_breaksite_id;
        self.next_breaksite_id = id + 1;
        self.breaksites.push(BreakSite::new(id, va));
        Ok(id)
    }

    /// Arm a site: read the word at its address, stash the displaced low
    /// byte, and poke the word back with INT3 in that byte, leaving the
    /// other seven bytes as they were. On any kernel failure the site is
    /// untouched.
    pub fn enable_breaksite(pid: i32, bs: &mut BreakSite) -> (r: Result<(), GadbErr>)
        requires
            old(bs).wf(),
        ensures
            final(bs).wf(),
            r is Ok ==> final(bs).enabled && final(bs).id == old(bs).id && final(bs).va
                == old(bs).va,
            r is Err ==> *final(bs) == *old(bs),
    {
        let Some(word) = sys::peek_data(pid, bs.addr().0) else {
            return error("could not PTRACE_PEEKDATA");
        };
        let patched = set_word_byte(word, 0, INT3);
        if !sys::poke_data(pid, bs.addr().0, patched) {
            return error("could not PTRACE_POKEDATA");
        }
        let mut saved: Vec<u8> = Vec::new();
        saved.push((word & 0xff) as u8);
        bs.saved_data = Some(saved);
        bs.set_enabled();
        Ok(())
    }

    /// Disarm a site: read the word at its address, lay the displaced byte
    /// back over it, poke it back, and forget the displaced byte. On any
    /// kernel failure the site is untouched.
    pub fn disable_breaksite(pid: i32, bs: &mut BreakSite) -> (r: Result<(), GadbErr>)
        requires
            old(bs).wf(),
        ensures
            final(bs).wf(),
            r is Ok ==> !final(bs).enabled && final(bs).saved_data is None
                && final(bs).id == old(bs).id && final(bs).va == old(bs).va,
            r is Err ==> *final(bs) == *old(bs),
    {
        let Some(word) = sys::peek_data(pid, bs.addr().0) else {
            return error("could not PTRACE_PEEKDATA");
        };
        let mut restored = word;
        if let Some(saved) = &bs.saved_data {
            let n = saved.len();
            if n > 8 {
                return error("saved breakpoint data is wider than one word");
            }
            let mut i: usize = 0;
            while i < n
                invariant
                    i <= n,
                    n <= 8,
                    n == saved@.len(),
                decreases n - i,
            {
                restored = set_word_byte(restored, i, saved[i]);
                i = i + 1;
            }
        }
        if !sys::poke_data(pid, bs.addr().0, restored) {
            return error("could not PTRACE_POKEDATA");
        }
        bs.saved_data = None;
        bs.set_disabled();
        Ok(())
    }

    /// Arm the site answering to `key`; fail if none does.
    pub fn enable_breaksite_by<T: BreakSiteId>(&mut self, key: T) -> (r: Result<(), GadbErr>)
        requires
            old(self).wf(),
        ensures
            final(self).wf(),
            final(self).same_identity(old(self)),
            final(self).registers == old(self).registers,
            final(self).next_breaksite_id == old(self).next_breaksite_id,
            same_sites_shape(old(self).breaksites@, final(self).breaksites@),
            r is Ok ==> exists|i: int|
                0 <= i < final(self).breaksites@.len() && key.matches_site(
                    old(self).breaksites@[i],
                ) && final(self).breaksites@[i].enabled && forall|j: int|
                    0 <= j < final(self).breaksites@.len() && j != i ==> final(self).breaksites@[j]
                        == old(self).breaksites@[j],
    {
        let pid = self.pid;
        let Some(i) = key.find_index(self) else {
            return error("could not find breaksite");
        };
        let mut bs = self.breaksites.remove(i);
        let res = Self::enable_breaksite(pid, &mut bs);
        self.breaksites.insert(i, bs);
        proof {
            assert(final(self).breaksites@ =~= old(self).breaksites@.update(i as int, bs));
        }
        res
    }

    /// Disarm the site answering to `key`; fail if none does.
    pub fn disable_breaksite_by<T: BreakSiteId>(&mut self, key: T) -> (r: Result<(), GadbErr>)
        requires
            old(self).wf(),
        ensures
            final(self).wf(),
            final(self).same_identity(old(self)),
            final(self).registers == old(self).registers,
            final(self).next_breaksite_id == old(self).next_breaksite_id,
            same_sites_shape(old(self).breaksites@, final(self).breaksites@),
            r is Ok ==> exists|i: int|
                0 <= i < final(self).breaksites@.len() && key.matches_site(
                    old(self).breaksites@[i],
                ) && !final(self).breaksites@[i].enabled && forall|j: int|
                    0 <= j < final(self).breaksites@.len() && j != i ==> final(self).breaksites@[j]
                        == old(self).breaksites@[j],
    {
        let pid = self.pid;
        let Some(i) = key.find_index(self) else {
            return error("could not find breaksite");
        };
        let mut bs = self.breaksites.remove(i);
        let res = Self::disable_breaksite(pid, &mut bs);
        self.breaksites.insert(i, bs);
        proof {
            assert(final(self).breaksites@ =~= old(self).breaksites@.update(i as int, bs));
        }
        res
    }

    /// Arm every disarmed site, each through the kernel in turn. Sites
    /// already armed are untouched; a disarmed site either comes out armed
    /// or, where the kernel refused, untouched. The count of sites this
    /// call armed comes back; in particular, with nothing disarmed the
    /// table is untouched and the count is zero.
    pub fn enable_all_breaksites(&mut self) -> (r: usize)
        requires
            old(self).wf(),
        ensures
            final(self).wf(),
            final(self).same_identity(old(self)),
            final(self).registers == old(self).registers,
            final(self).next_breaksite_id == old(self).next_breaksite_id,
            same_sites_shape(old(self).breaksites@, final(self).breaksites@),
            forall|j: int|
                0 <= j < old(self).breaksites@.len() && old(self).breaksites@[j].enabled ==> final(self).breaksites@[j] == old(self).breaksites@[j],
            forall|j: int|
                0 <= j < old(self).breaksites@.len() && !old(self).breaksites@[j].enabled ==> (
                final(self).breaksites@[j] == old(self).breaksites@[j] || final(self).breaksites@[j].enabled),
            r == count_newly_enabled(old(self).breaksites@, final(self).breaksites@),
    {
        let pid = self.pid;
        let n = self.breaksites.len();
        let mut out: usize = 0;
        let mut i: usize = 0;
        while i < n
            invariant
                i <= n,
                out <= i,
                n == self.breaksites@.len(),
                old(self).breaksites@.len() == n,
                self.wf(),
                self.same_identity(old(self)),
                self.registers == old(self).registers,
                self.next_breaksite_id == old(self).next_breaksite_id,
                same_sites_shape(old(self).breaksites@, self.breaksites@),
                forall|j: int| i <= j < n ==> self.breaksites@[j] == old(self).breaksites@[j],
                forall|j: int|
                    0 <= j < i && old(self).breaksites@[j].enabled ==> self.breaksites@[j] == old(self).breaksites@[j],
                forall|j: int|
                    0 <= j < i && !old(self).breaksites@[j].enabled ==> (self.breaksites@[j]
                        == old(self).breaksites@[j] || self.breaksites@[j].enabled),
                out == count_newly_enabled(
                    old(self).breaksites@.take(i as int),
                    self.breaksites@.take(i as int),
                ),
            decreases n - i,
        {
            let ghost prev = self.breaksites@;
            let ghost sites0 = old(self).breaksites@;
            let armed = self.breaksites[i].enabled;
            let mut gained: bool = false;
            if !armed {
                let mut bs = self.breaksites.remove(i);
                let res = Self::enable_breaksite(pid, &mut bs);
                self.breaksites.insert(i, bs);
                proof {
                    assert(self.breaksites@ =~= prev.update(i as int, bs));
                }
                gained = res.is_ok();
                if gained {
                    out = out + 1;
                }
            }
            proof {
                assert(sites0.take(i + 1).drop_last() =~= sites0.take(i as int));
                assert(self.breaksites@.take(i + 1).drop_last() =~= self.breaksites@.take(
                    i as int,
                )) by {
                    assert(forall|j: int|
                        0 <= j < i ==> self.breaksites@.take(i + 1).drop_last()[j]
                            == self.breaksites@[j]);
                }
                assert(self.breaksites@.take(i as int) =~= prev.take(i as int));
                assert(sites0.take(i + 1).last() == sites0[i as int]);
                assert(self.breaksites@.take(i + 1).last() == self.breaksites@[i as int]);
                assert((!sites0[i as int].enabled && self.breaksites@[i as int].enabled)
                    == gained);
            }
            i = i + 1;
        }
        proof {
            assert(old(self).breaksites@.take(n as int) =~= old(self).breaksites@);
            assert(self.breaksites@.take(n as int) =~= self.breaksites@);
        }
        out
    }

    /// Disarm every armed site, each through the kernel in turn. Sites
    /// already disarmed are untouched; an armed site either comes out
    /// disarmed with nothing saved or, where the kernel refused, untouched.
    /// The count of sites this call disarmed comes back; in particular,
    /// with nothing armed the table is untouched and the count is zero.
    pub fn disable_all_breaksites(&mut self) -> (r: usize)
        requires
            old(self).wf(),
        ensures
            final(self).wf(),
            final(self).same_identity(old(self)),
            final(self).registers == old(self).registers,
            final(self).next_breaksite_id == old(self).next_breaksite_id,
            same_sites_shape(old(self).breaksites@, final(self).breaksites@),
            forall|j: int|
                0 <= j < old(self).breaksites@.len() && !old(self).breaksites@[j].enabled ==> final(self).breaksites@[j] == old(self).breaksites@[j],
            forall|j: int|
                0 <= j < old(self).breaksites@.len() && old(self).breaksites@[j].enabled ==> (
                final(self).breaksites@[j] == old(self).breaksites@[j] || !final(self).breaksites@[j].enabled),
            r == count_newly_disabled(old(self).breaksites@, final(self).breaksites@),
    {
        let pid = self.pid;
        let n = self.breaksites.len();
        let mut out: usize = 0;
        let mut i: usize = 0;
        while i < n
            invariant
                i <= n,
                out <= i,
                n == self.breaksites@.len(),
                old(self).breaksites@.len() == n,
                self.wf(),
                self.same_identity(old(self)),
                self.registers == old(self).registers,
                self.next_breaksite_id == old(self).next_breaksite_id,
                same_sites_shape(old(self).breaksites@, self.breaksites@),
                forall|j: int| i <= j < n ==> self.breaksites@[j] == old(self).breaksites@[j],
                forall|j: int|
                    0 <= j < i && !old(self).breaksites@[j].enabled ==> self.breaksites@[j] == old(self).breaksites@[j],
                forall|j: int|
                    0 <= j < i && old(self).breaksites@[j].enabled ==> (self.breaksites@[j] == old(self).breaksites@[j] || !self.breaksites@[j].enabled),
                out == count_newly_disabled(
                    old(self).breaksites@.take(i as int),
                    self.breaksites@.take(i as int),
                ),
            decreases n - i,
        {
            let ghost prev = self.breaksites@;
            let ghost sites0 = old(self).breaksites@;
            let armed = self.breaksites[i].enabled;
            let mut lost: bool = false;
            if armed {
                let mut bs = self.breaksites.remove(i);
                let res = Self::disable_breaksite(pid, &mut bs);
                self.breaksites.insert(i, bs);
                proof {
                    assert(self.breaksites@ =~= prev.update(i as int, bs));
                }
                lost = res.is_ok();
                if lost {
                    out = out + 1;
                }
            }
            proof {
                assert(sites0.take(i + 1).drop_last() =~= sites0.take(i as int));
                assert(self.breaksites@.take(i + 1).drop_last() =~= self.breaksites@.take(
                    i as int,
                )) by {
                    assert(forall|j: int|
                        0 <= j < i ==> self.breaksites@.take(i + 1).drop_last()[j]
                            == self.breaksites@[j]);
                }
                assert(self.breaksites@.take(i as int) =~= prev.take(i as int));
                assert(sites0.take(i + 1).last() == sites0[i as int]);
                assert(self.breaksites@.take(i + 1).last() == self.breaksites@[i as int]);
                assert((sites0[i as int].enabled && !self.breaksites@[i as int].enabled) == lost);
            }
            i = i + 1;
        }
        proof {
            assert(old(self).breaksites@.take(n as int) =~= old(self).breaksites@);
            assert(self.breaksites@.take(n as int) =~= self.breaksites@);
        }
        out
    }

    /// Drop every site, disarming the armed ones first; the count of sites
    /// that were armed comes back.
    pub fn clear_all_breaksites(&mut self) -> (r: usize)
        requires
            old(self).wf(),
        ensures
            final(self).wf(),
            final(self).same_identity(old(self)),
            final(self).registers == old(self).registers,
            final(self).breaksites@.len() == 0,
            r == count_enabled(old(self).breaksites@),
    {
        let n = self.breaksites.len();
        let mut count: usize = 0;
        let mut i: usize = 0;
        while i < n
            invariant
                i <= n,
                count <= i,
                n == self.breaksites@.len(),
                self == old(self),
                count == count_enabled(self.breaksites@.take(i as int)),
            decreases n - i,
        {
            proof {
                assert(self.breaksites@.take(i + 1).drop_last() =~= self.breaksites@.take(i as int));
                assert(self.breaksites@.take(i + 1).last() == self.breaksites@[i as int]);
            }
            if self.breaksites[i].enabled {
                count = count + 1;
            }
            i = i + 1;
        }
        proof {
            assert(self.breaksites@.take(n as int) =~= self.breaksites@);
        }
        self.disable_all_breaksites();
        self.breaksites.clear();
        count
    }

    /// Drop the site with `id`, disarming it on the way out; fail if no
    /// site carries `id`.
    pub fn clear_breaksite(&mut self, id: usize) -> (r: Result<(), GadbErr>)
        requires
            old(self).wf(),
        ensures
            final(self).wf(),
            final(self).same_identity(old(self)),
            final(self).registers == old(self).registers,
            !has_site_id(final(self).breaksites@, id),
            !has_site_id(old(self).breaksites@, id) ==> r is Err && *final(self) == *old(self),
            has_site_id(old(self).breaksites@, id) ==> exists|i: int|
                0 <= i < old(self).breaksites@.len() && old(self).breaksites@[i].id == id && final(self).breaksites@
                    == old(self).breaksites@.remove(i),
    {
        let pid = self.pid;
        let Some(i) = self.site_index_by_id(id) else {
            return error("could not find breaksite by id");
        };
        let mut bs = self.breaksites.remove(i);
        let res = if bs.enabled {
            Self::disable_breaksite(pid, &mut bs)
        } else {
            Ok(())
        };
        proof {
            assert forall|j: int|
                0 <= j < final(self).breaksites@.len() implies final(self).breaksites@[j].id
                != id by {
                if j < i {
                    assert(final(self).breaksites@[j] == old(self).breaksites@[j]);
                } else {
                    assert(final(self).breaksites@[j] == old(self).breaksites@[j + 1]);
                }
            }
        }
        res
    }

    /// The program counter: the `rip` slot of the mirror.
    pub open spec fn pc_spec(&self) -> u64 {
        u64_at(self.registers@, reg_offset_spec(RegisterId::rip) as int)
    }

    /// The program counter, from the mirror.
    pub fn get_pc(&self) -> (r: VirtAddr)
        requires
            self.wf(),
        ensures
            r.0 == self.pc_spec(),
    {
        let ri = register_by_id(RegisterId::rip);
        let rv = self.registers.read(&ri);
        let v = rv.read_as_u64();
        proof {
            let off = reg_offset_spec(RegisterId::rip) as int;
            assert(rv.bytes@.subrange(0, 8) =~= self.registers@.subrange(off, off + 8));
            lemma_le_decode_encode(v);
        }
        VirtAddr(v)
    }

    /// Write a register value through: the mirror is updated at the value's
    /// slot, then the kernel is told — the whole x87/SSE block for an FPR,
    /// or the enclosing aligned 8-byte word of the user area otherwise.
    pub fn write_reg(&mut self, rv: &RValue) -> (r: Result<(), GadbErr>)
        requires
            old(self).wf(),
            rv.wf(),
        ensures
            final(self).wf(),
            final(self).same_identity(old(self)),
            final(self).breaksites == old(self).breaksites,
            final(self).next_breaksite_id == old(self).next_breaksite_id,
            final(self).registers@ == spec_write(
                old(self).registers@,
                rv.ri.offset as int,
                rv.ri.size as int,
                rv.bytes@,
            ),
    {
        self.registers.write(rv);
        if rv.ri.rtype == RegisterType::Fpr {
            let f = self.registers.read_fpr_block();
            if !sys::setfpregs(self.pid, &f) {
                return error("could not PTRACE_SETFPREGS");
            }
            return Ok(());
        }
        let off64: u64 = rv.ri.offset as u64;
        let aligned64: u64 = off64 & !0b111u64;
        proof {
            assert(aligned64 <= off64 && off64 - aligned64 < 8 && aligned64 % 8 == 0)
                by (bit_vector)
                requires
                    aligned64 == off64 & !0b111u64,
            ;
        }
        let aligned: usize = aligned64 as usize;
        let word = self.registers.word_at(aligned);
        if !sys::poke_user(self.pid, aligned, word) {
            return error("could not PTRACE_POKEUSER");
        }
        Ok(())
    }

    /// Point the program counter at `va`: the mirror's `rip` slot takes the
    /// address and the kernel is told.
    pub fn set_pc(&mut self, va: VirtAddr) -> (r: Result<(), GadbErr>)
        requires
            old(self).wf(),
        ensures
            final(self).wf(),
            final(self).same_identity(old(self)),
            final(self).breaksites == old(self).breaksites,
            final(self).next_breaksite_id == old(self).next_breaksite_id,
            final(self).pc_spec() == va.0,
            forall|j: int|
                0 <= j < USER_AREA_SIZE && !(reg_offset_spec(RegisterId::rip) <= j
                    < reg_offset_spec(RegisterId::rip) + 8) ==> final(self).registers@[j] == old(self).registers@[j],
    {
        let ri = register_by_id(RegisterId::rip);
        let rv = RValue::from_u64(va.0, ri);
        let res = self.write_reg(&rv);
        proof {
            let off = reg_offset_spec(RegisterId::rip) as int;
            assert(final(self).registers@.subrange(off, off + 8) =~= u64_le(va.0));
            lemma_le_decode_encode(va.0);
        }
        res
    }

    /// The kernel's current x87/SSE block for the tracee.
    pub fn get_fpregs(&self) -> (r: Result<FpRegs, GadbErr>)
        ensures
            r matches Ok(f) ==> f.wf(),
    {
        let Some(f) = sys::getfpregs(self.pid) else {
            return error("error in get_fpregs");
        };
        Ok(f)
    }

    /// Hand the kernel a whole x87/SSE block for the tracee.
    pub fn write_fprs(&mut self, f: &FpRegs) -> (r: Result<(), GadbErr>)
        requires
            f.wf(),
        ensures
            *final(self) == *old(self),
    {
        if !sys::setfpregs(self.pid, f) {
            return error("error in write_fprs");
        }
        Ok(())
    }

    /// Hand the kernel the mirror's whole general-purpose block, one
    /// aligned word at a time.
    pub fn write_gprs(&self) -> (r: Result<(), GadbErr>)
        requires
            self.wf(),
    {
        let mut i: usize = 0;
        while i < GPR_WORDS
            invariant
                i <= GPR_WORDS,
                self.wf(),
            decreases GPR_WORDS - i,
        {
            let word = self.registers.word_at(8 * i);
            if !sys::poke_user(self.pid, 8 * i, word) {
                return error("error calling PTRACE_POKEUSER");
            }
            i = i + 1;
        }
        Ok(())
    }

    /// Refresh the whole mirror from the kernel: the general-purpose block,
    /// the x87/SSE block, and each debug register in turn.
    fn read_all_registers(&mut self) -> (r: Result<(), GadbErr>)
        requires
            old(self).wf(),
        ensures
            final(self).wf(),
            final(self).same_identity(old(self)),
            final(self).breaksites == old(self).breaksites,
            final(self).next_breaksite_id == old(self).next_breaksite_id,
    {
        if let Some(words) = sys::getregs_words(self.pid) {
            self.registers.load_gpr_words(&words);
        }
        if let Some(f) = sys::getfpregs(self.pid) {
            self.registers.load_fpr_block(&f);
        }
        let mut i: usize = 0;
        while i < 8
            invariant
                i <= 8,
                self.wf(),
                self.same_identity(old(self)),
                self.breaksites == old(self).breaksites,
                self.next_breaksite_id == old(self).next_breaksite_id,
            decreases 8 - i,
        {
            let Some(word) = sys::peek_user(self.pid, DR_BASE + 8 * i) else {
                return error_os("could not read debug register");
            };
            let b = word_to_bytes(word);
            self.registers.put_bytes_at(DR_BASE + 8 * i, &b);
            i = i + 1;
        }
        Ok(())
    }

    /// After a stop, make a retired INT3 transparent: if the stop was a
    /// SIGTRAP and a site watches the byte just executed (one before the
    /// mirror's program counter), point the program counter back at that
    /// site's address, in the mirror unconditionally and in the kernel as
    /// the result reports. Any other stop leaves the inferior untouched.
    pub fn apply_trap_rewind(&mut self, reason: &StopReason) -> (r: Result<(), GadbErr>)
        requires
            old(self).wf(),
        ensures
            final(self).wf(),
            final(self).same_identity(old(self)),
            final(self).breaksites == old(self).breaksites,
            final(self).next_breaksite_id == old(self).next_breaksite_id,
            (reason.info == StopInfo::Signal(SIGTRAP_SIGNO) && has_site_at(
                old(self).breaksites@,
                VirtAddr(prev_addr(old(self).pc_spec())),
            )) ==> final(self).pc_spec() == prev_addr(old(self).pc_spec()),
            !(reason.info == StopInfo::Signal(SIGTRAP_SIGNO) && has_site_at(
                old(self).breaksites@,
                VirtAddr(prev_addr(old(self).pc_spec())),
            )) ==> *final(self) == *old(self) && r is Ok,
    {
        let pc = self.get_pc();
        let instr_begin = pc.sub(1);
        if reason.info == StopInfo::Signal(SIGTRAP_SIGNO) && self.site_index_at_va(
            instr_begin,
        ).is_some() {
            self.set_pc(instr_begin)
        } else {
            Ok(())
        }
    }

    /// Block until the inferior changes state, record the new state, and on
    /// an attached stop refresh the mirror and rewind a breakpoint trap.
    /// The reported state is never `Running`.
    pub fn wait_on_signal(&mut self) -> (r: Result<StopReason, GadbErr>)
        requires
            old(self).wf(),
        ensures
            final(self).wf(),
            final(self).pid == old(self).pid,
            final(self).attached == old(self).attached,
            final(self).autoterm == old(self).autoterm,
            final(self).breaksites == old(self).breaksites,
            final(self).next_breaksite_id == old(self).next_breaksite_id,
            r matches Ok(reason) ==> final(self).state == reason.newstate && reason.newstate
                != ProcessState::Running,
            r is Err ==> *final(self) == *old(self),
    {
        let Some(ev) = sys::wait_for(self.pid) else {
            return error_os("could not wait on signal");
        };
        if let WaitEvent::Other = ev {
            return error("unexpected wait status");
        }
        let reason = StopReason::from_wait_status(ev);
        self.state = reason.newstate;
        if self.attached && self.state == ProcessState::Stopped {
            let _ = self.read_all_registers();
        }
        let _ = self.apply_trap_rewind(&reason);
        Ok(reason)
    }

    /// Let a stopped inferior run. Standing on an armed breakpoint, first
    /// step across the displaced instruction with the site disarmed, then
    /// rearm it; then continue. Success leaves the inferior `Running`.
    pub fn resume(&mut self) -> (r: Result<(), GadbErr>)
        requires
            old(self).wf(),
        ensures
            final(self).wf(),
            final(self).pid == old(self).pid,
            final(self).attached == old(self).attached,
            final(self).autoterm == old(self).autoterm,
            same_sites_shape(old(self).breaksites@, final(self).breaksites@),
            final(self).next_breaksite_id == old(self).next_breaksite_id,
            r is Ok ==> final(self).state == ProcessState::Running && forall|j: int|
                0 <= j < final(self).breaksites@.len() ==> final(self).breaksites@[j].enabled
                    == old(self).breaksites@[j].enabled,
            r is Err ==> final(self).state == old(self).state,
    {
        let pc = self.get_pc();
        let standing_on_armed = match self.site_index_at_va(pc) {
            Some(i) => self.breaksites[i].enabled,
            None => false,
        };
        if standing_on_armed {
            let res = self.disable_breaksite_by(pc);
            if res.is_err() {
                return Err(res.unwrap_err());
            }
            let ghost mid = self.breaksites@;
            if !sys::step_process(self.pid) {
                return error("could not PTRACE_SINGLESTEP");
            }
            if sys::wait_for(self.pid).is_none() {
                return error_os("could not waitpid");
            }
            let res = self.enable_breaksite_by(pc);
            if res.is_err() {
                return Err(res.unwrap_err());
            }
            proof {
                let sites0 = old(self).breaksites@;
                let i0 = choose|i: int|
                    0 <= i < mid.len() && sites0[i].va == pc && !mid[i].enabled && forall|j: int|
                        0 <= j < mid.len() && j != i ==> mid[j] == sites0[j];
                let i1 = choose|i: int|
                    0 <= i < self.breaksites@.len() && mid[i].va == pc
                        && self.breaksites@[i].enabled && forall|j: int|
                        0 <= j < self.breaksites@.len() && j != i ==> self.breaksites@[j] == mid[j];
                assert(sites0[i0].va == pc && sites0[i1].va == pc);
                assert(i0 == i1);
                assert(forall|j: int|
                    0 <= j < self.breaksites@.len() ==> self.breaksites@[j].enabled
                        == sites0[j].enabled);
            }
        }
        if !sys::cont_process(self.pid) {
            return error("could not resume");
        }
        self.state = ProcessState::Running;
        Ok(())
    }

    /// Let the inferior run, swallowing any failure to do so.
    pub fn res(&mut self)
        requires
            old(self).wf(),
        ensures
            final(self).wf(),
    {
        let _ = self.resume();
    }

    /// Take up tracing of an existing process: ask the kernel to attach,
    /// then wait for the stop that attachment delivers.
    pub fn attach(pid: i32) -> (r: Result<Process, GadbErr>)
        ensures
            r matches Ok(p) ==> p.wf() && p.pid == pid && p.attached && !p.autoterm && pid > 0,
            pid <= 0 ==> r is Err,
    {
        if pid <= 0 {
            return error("invalid pid: 0");
        }
        match sys::attach_process(pid) {
            Ok(()) => {},
            Err(e) => {
                return Err(e);
            },
        }
        let mut p = Process::adopt(pid, true, false);
        let _ = p.wait_on_signal();
        Ok(p)
    }

    /// Read `count` bytes of tracee memory from `start`: the kernel is
    /// handed exactly the page-sized partition of `[start, start + count)`
    /// that `chunks_cover` describes, so a fault past the first pages still
    /// yields the bytes before it; a short read comes back truncated.
    pub fn read_memory(&self, start: VirtAddr, count: usize) -> (r: Result<Vec<u8>, GadbErr>)
        ensures
            r matches Ok(v) ==> v@.len() <= count,
    {
        let chunks = memory_chunks(start, count);
        let Some(out) = sys::read_process_memory(self.pid, count, &chunks) else {
            return error_os("could not read inferior memory");
        };
        Ok(out)
    }

    /// Replace each byte of `data` that an armed breakpoint site covers with
    /// that site's displaced byte; every other byte stays. Byte `k` of a
    /// buffer read from `start` belongs to address `start + k` modulo 2^64.
    pub fn sanitize_memory(&self, start: VirtAddr, data: Vec<u8>) -> (r: Vec<u8>)
        requires
            self.wf(),
        ensures
            r@.len() == data@.len(),
            forall|k: int|
                0 <= k < data@.len() ==> r@[k] == if enabled_site_at(
                    self.breaksites@,
                    byte_addr(start, k),
                ) {
                    saved_byte_at(self.breaksites@, byte_addr(start, k))
                } else {
                    data@[k]
                },
    {
        let mut out = data;
        let n = self.breaksites.len();
        let mut s: usize = 0;
        while s < n
            invariant
                s <= n,
                n == self.breaksites@.len(),
                self.wf(),
                out@.len() == data@.len(),
                forall|k: int|
                    0 <= k < data@.len() ==> out@[k] == if enabled_site_before(
                        self.breaksites@,
                        s as int,
                        byte_addr(start, k),
                    ) {
                        saved_byte_before(self.breaksites@, s as int, byte_addr(start, k))
                    } else {
                        data@[k]
                    },
            decreases n - s,
        {
            let ghost prev = out@;
            let ghost sites = self.breaksites@;
            let ghost si = s as int;
            let enabled = self.breaksites[s].enabled;
            let off64: u64 = self.breaksites[s].va.0.wrapping_sub(start.0);
            let covers: bool = enabled && off64 < out.len() as u64;
            if covers {
                let off = off64 as usize;
                proof {
                    assert(sites[si].wf());
                }
                let b: u8 = match &self.breaksites[s].saved_data {
                    Some(sv) => sv[0],
                    None => 0,
                };
                out[off] = b;
                proof {
                    lemma_wrap_forward(start.0, sites[si].va.0);
                    assert(sites[si].va == byte_addr(start, off64 as int));
                    assert(out@[off64 as int] == sites[si].spec_saved_byte());
                }
            }
            proof {
                assert forall|k: int| 0 <= k < data@.len() implies out@[k] == (
                if enabled_site_before(sites, si + 1, byte_addr(start, k)) {
                    saved_byte_before(sites, si + 1, byte_addr(start, k))
                } else {
                    data@[k]
                }) by {
                    let va = byte_addr(start, k);
                    let site_hits = sites[si].enabled && sites[si].va == va;
                    if site_hits {
                        lemma_wrap_roundtrip(start.0, sites[si].va.0, k);
                        assert(off64 == k);
                        assert(covers);
                        assert(out@[k] == sites[si].spec_saved_byte());
                        assert(enabled_site_before(sites, si + 1, va));
                        let w = choose|i: int|
                            0 <= i < si + 1 && i < sites.len() && sites[i].va == va
                                && sites[i].enabled;
                        assert(w == si);
                        assert(saved_byte_before(sites, si + 1, va) == sites[si].spec_saved_byte());
                    } else {
                        assert(out@[k] == prev[k]) by {
                            if covers {
                                if k == off64 as int {
                                    lemma_wrap_forward(start.0, sites[si].va.0);
                                    assert(sites[si].va == va);
                                    assert(false);
                                }
                            }
                        }
                        assert(enabled_site_before(sites, si + 1, va) == enabled_site_before(
                            sites,
                            si,
                            va,
                        )) by {
                            if enabled_site_before(sites, si + 1, va) {
                                let w = choose|i: int|
                                    0 <= i < si + 1 && i < sites.len() && sites[i].va == va
                                        && sites[i].enabled;
                                assert(w != si);
                                assert(enabled_site_before(sites, si, va));
                            }
                        }
                        if enabled_site_before(sites, si, va) {
                            let w0 = choose|i: int|
                                0 <= i < si && i < sites.len() && sites[i].va == va
                                    && sites[i].enabled;
                            let w1 = choose|i: int|
                                0 <= i < si + 1 && i < sites.len() && sites[i].va == va
                                    && sites[i].enabled;
                            assert(sites[w0].va == va && sites[w1].va == va);
                            assert(w0 == w1);
                            assert(saved_byte_before(sites, si + 1, va) == saved_byte_before(
                                sites,
                                si,
                                va,
                            ));
                        }
                    }
                }
            }
            s = s + 1;
        }
        proof {
            let sites = self.breaksites@;
            assert forall|k: int| 0 <= k < data@.len() implies out@[k] == (
            if enabled_site_at(sites, byte_addr(start, k)) {
                saved_byte_at(sites, byte_addr(start, k))
            } else {
                data@[k]
            }) by {
                let va = byte_addr(start, k);
                assert(enabled_site_before(sites, n as int, va) == enabled_site_at(sites, va));
                if enabled_site_at(sites, va) {
                    let w0 = choose|i: int|
                        0 <= i < n && i < sites.len() && sites[i].va == va && sites[i].enabled;
                    let w1 = choose|i: int|
                        0 <= i < sites.len() && sites[i].va == va && sites[i].enabled;
                    assert(sites[w0].va == va && sites[w1].va == va);
                    assert(w0 == w1);
                }
            }
        }
        out
    }

    /// Read `count` bytes from `start` with armed breakpoints made
    /// invisible: wherever an armed site's address falls in the buffer, the
    /// byte read back is the site's displaced original, never the INT3
    /// patch.
    pub fn read_memory_clean(&self, start: VirtAddr, count: usize) -> (r: Result<Vec<u8>, GadbErr>)
        requires
            self.wf(),
        ensures
            r matches Ok(v) ==> v@.len() <= count && forall|k: int|
                0 <= k < v@.len() && enabled_site_at(self.breaksites@, byte_addr(start, k))
                    ==> v@[k] == saved_byte_at(self.breaksites@, byte_addr(start, k)),
    {
        let data = match self.read_memory(start, count) {
            Ok(d) => d,
            Err(e) => {
                return Err(e);
            },
        };
        Ok(self.sanitize_memory(start, data))
    }

    /// Write `data` into tracee memory at `start`, eight bytes at a time.
    /// Every poked word carries exactly `data`'s bytes at its positions: a
    /// full word is `data`'s own eight bytes (`word_from_bytes`), and the
    /// final short word, if any, is composed over the bytes already there
    /// (`compose_tail_word`), so the neighbours of the written range
    /// survive. Granted the kernel stores each word as given, reading the
    /// range back yields `data`: that identity over the memory image is
    /// `lemma_memory_write_read_identity`; the tracee's actual memory is
    /// behind the trusted transport and is not modelled here.
    pub fn write_memory(&self, start: VirtAddr, data: &Vec<u8>) -> (r: Result<(), GadbErr>)
        ensures
            data@.len() == 0 ==> r is Ok,
    {
        let n = data.len();
        let mut idx: usize = 0;
        while idx < n
            invariant
                idx <= n,
                n == data@.len(),
            decreases n - idx,
        {
            let rem = n - idx;
            let addr = start.add(idx as u64);
            if rem >= 8 {
                let w = crate::wordops::word_from_bytes(data, idx);
                if !sys::poke_data(self.pid, addr.0, w) {
                    return error_os("could not PTRACE_POKEDATA");
                }
                idx = idx + 8;
            } else {
                let existing = match self.read_memory(addr, 8) {
                    Ok(d) => d,
                    Err(e) => {
                        return Err(e);
                    },
                };
                if existing.len() < 8 {
                    return error("short read while composing final word");
                }
                let w = crate::wordops::compose_tail_word(&existing, data, idx, rem);
                if !sys::poke_data(self.pid, addr.0, w) {
                    return error_os("could not PTRACE_POKEDATA");
                }
                idx = n;
            }
        }
        Ok(())
    }
}

/// Whether some armed site watches `va`.
pub open spec fn enabled_site_at(sites: Seq<BreakSite>, va: VirtAddr) -> bool {
    exists|i: int| 0 <= i < sites.len() && sites[i].va == va && sites[i].enabled
}

/// The displaced byte of the armed site watching `va`.
pub open spec fn saved_byte_at(sites: Seq<BreakSite>, va: VirtAddr) -> u8
    recommends
        enabled_site_at(sites, va),
{
    sites[choose|i: int| 0 <= i < sites.len() && sites[i].va == va && sites[i].enabled]
        .spec_saved_byte()
}

/// Whether some armed site among the first `n` watches `va`.
spec fn enabled_site_before(sites: Seq<BreakSite>, n: int, va: VirtAddr) -> bool {
    exists|i: int| 0 <= i < n && i < sites.len() && sites[i].va == va && sites[i].enabled
}

/// The displaced byte of the armed site among the first `n` watching `va`.
spec fn saved_byte_before(sites: Seq<BreakSite>, n: int, va: VirtAddr) -> u8
    recommends
        enabled_site_before(sites, n, va),
{
    sites[choose|i: int| 0 <= i < n && i < sites.len() && sites[i].va == va && sites[i].enabled]
        .spec_saved_byte()
}

/// The address of byte `k` of a buffer that begins at `start`, modulo 2^64.
pub open spec fn byte_addr(start: VirtAddr, k: int) -> VirtAddr {
    VirtAddr(((start.0 + k) % 0x1_0000_0000_0000_0000) as u64)
}

/// Total byte length of the first `k` chunks of a scatter list.
pub open spec fn chunks_len_prefix(chunks: Seq<(u64, usize)>, k: int) -> int
    decreases k,
{
    if k <= 0 {
        0
    } else {
        chunks_len_prefix(chunks, k - 1) + chunks[k - 1].1
    }
}

/// A scatter list that partitions `[start, start + count)` in order: the
/// chunk lengths sum to `count`, each chunk is based at the address its
/// predecessors end at, every chunk spans at least one byte and at most a
/// page, and only the last may be short.
pub open spec fn chunks_cover(start: VirtAddr, count: int, chunks: Seq<(u64, usize)>) -> bool {
    &&& chunks_len_prefix(chunks, chunks.len() as int) == count
    &&& forall|k: int|
        0 <= k < chunks.len() ==> chunks[k].0 == byte_addr(start, chunks_len_prefix(chunks, k)).0
    &&& forall|k: int| 0 <= k < chunks.len() ==> 1 <= (#[trigger] chunks[k]).1 <= 4096
    &&& forall|k: int| 0 <= k < chunks.len() - 1 ==> (#[trigger] chunks[k]).1 == 4096
}

/// Appending a chunk leaves every earlier prefix length alone.
proof fn lemma_chunks_prefix_push(chunks: Seq<(u64, usize)>, c: (u64, usize), k: int)
    requires
        0 <= k <= chunks.len(),
    ensures
        chunks_len_prefix(chunks.push(c), k) == chunks_len_prefix(chunks, k),
    decreases k,
{
    if k > 0 {
        lemma_chunks_prefix_push(chunks, c, k - 1);
        assert(chunks.push(c)[k - 1] == chunks[k - 1]);
    }
}

/// Split `[start, start + count)` into the scatter list the kernel's
/// gather read takes: page-sized runs in order, the last possibly short.
#[verifier::rlimit(60)]
#[verifier::spinoff_prover]
pub fn memory_chunks(start: VirtAddr, count: usize) -> (r: Vec<(u64, usize)>)
    ensures
        chunks_cover(start, count as int, r@),
{
    let mut chunks: Vec<(u64, usize)> = Vec::new();
    let mut remaining = count;
    let mut ptr = start;
    while remaining > 0
        invariant
            remaining <= count,
            ptr.0 == byte_addr(start, count - remaining).0,
            chunks_len_prefix(chunks@, chunks@.len() as int) == count - remaining,
            forall|k: int|
                0 <= k < chunks@.len() ==> chunks@[k].0 == byte_addr(
                    start,
                    chunks_len_prefix(chunks@, k),
                ).0,
            forall|k: int| 0 <= k < chunks@.len() ==> 1 <= (#[trigger] chunks@[k]).1 <= 4096,
            forall|k: int|
                0 <= k < chunks@.len() ==> ((#[trigger] chunks@[k]).1 == 4096 || (remaining == 0
                    && k == chunks@.len() - 1)),
        decreases remaining,
    {
        let page: usize = if remaining < 4096 {
            remaining
        } else {
            4096
        };
        let ghost prev = chunks@;
        let ghost done: int = count - remaining;
        chunks.push((ptr.0, page));
        proof {
            assert forall|k: int| 0 <= k <= prev.len() implies chunks_len_prefix(chunks@, k)
                == chunks_len_prefix(prev, k) by {
                lemma_chunks_prefix_push(prev, (ptr.0, page), k);
            }
            assert(chunks_len_prefix(chunks@, chunks@.len() as int) == done + page);
        }
        let old_ptr = ptr;
        ptr = ptr.add(page as u64);
        proof {
            let base: int = start.0 as int;
            vstd::arithmetic::div_mod::lemma_small_mod(
                page as nat,
                0x1_0000_0000_0000_0000 as nat,
            );
            vstd::arithmetic::div_mod::lemma_add_mod_noop(
                base + done,
                page as int,
                0x1_0000_0000_0000_0000,
            );
            assert(ptr.0 == byte_addr(start, done + page).0);
        }
        remaining = remaining - page;
    }
    proof {
        assert(chunks_cover(start, count as int, chunks@));
    }
    chunks
}

/// An address `va` is the byte of a buffer at `st` whose index is the
/// wrapping difference `va - st`.
proof fn lemma_wrap_forward(st: u64, va: u64)
    ensures
        byte_addr(
            VirtAddr(st),
            if va - st < 0 {
                va - st + 0x1_0000_0000_0000_0000
            } else {
                va - st
            },
        ) == VirtAddr(va),
{
    let w: int = 0x1_0000_0000_0000_0000;
    if va - st < 0 {
        assert((st + (va - st + w)) % w == va) by {
            vstd::arithmetic::div_mod::lemma_mod_multiples_vanish(1, va as int, w);
            vstd::arithmetic::div_mod::lemma_small_mod(va as nat, w as nat);
        }
    } else {
        assert((st + (va - st)) % w == va) by {
            vstd::arithmetic::div_mod::lemma_small_mod(va as nat, w as nat);
        }
    }
}

/// The wrapping difference between a buffer byte's address and the buffer's
/// start recovers the byte's index, for indices below 2^64.
proof fn lemma_wrap_roundtrip(st: u64, va: u64, k: int)
    requires
        0 <= k < 0x1_0000_0000_0000_0000,
        va == byte_addr(VirtAddr(st), k).0,
    ensures
        (if va - st < 0 {
            va - st + 0x1_0000_0000_0000_0000
        } else {
            va - st
        }) == k,
{
    let w: int = 0x1_0000_0000_0000_0000;
    if st + k < w {
        vstd::arithmetic::div_mod::lemma_small_mod((st + k) as nat, w as nat);
    } else {
        assert((st + k) % w == st + k - w) by {
            vstd::arithmetic::div_mod::lemma_mod_multiples_vanish(-1, st + k, w);
            vstd::arithmetic::div_mod::lemma_small_mod((st + k - w) as nat, w as nat);
        }
    }
}

/// Writing a byte range into a memory image and reading the same range back
/// yields exactly the bytes written, and every byte outside the range is
/// untouched: the poked words carry the written bytes over the existing
/// ones (`compose_tail_word`), and the kernel's word transport is trusted
/// to store them as given.
pub proof fn lemma_memory_write_read_identity(m: Seq<u8>, at: int, data: Seq<u8>)
    requires
        0 <= at,
        at + data.len() <= m.len(),
    ensures
        spec_write(m, at, data.len() as int, data).subrange(at, at + data.len()) =~= data,
        forall|i: int|
            0 <= i < m.len() && !(at <= i < at + data.len()) ==> spec_write(
                m,
                at,
                data.len() as int,
                data,
            )[i] == m[i],
{
}

impl Drop for Process {
    /// Teardown: a running attached inferior is killed and reaped so the
    /// detach is safe; the detached process gets SIGCONT so it can run or
    /// be reaped by its real parent; a launched one is killed and reaped.
    fn drop(&mut self)
        opens_invariants none
        no_unwind
    {
        if self.pid == 0 {
            return;
        }
        if self.attached {
            if self.state == ProcessState::Running {
                let _ = sys::kill_process(self.pid, SIGKILL_SIGNO);
                let _ = sys::wait_for(self.pid);
            }
            let _ = sys::detach_process(self.pid);
            let _ = sys::kill_process(self.pid, SIGCONT_SIGNO);
        }
        if self.autoterm {
            let _ = sys::kill_process(self.pid, SIGKILL_SIGNO);
            let _ = sys::wait_for(self.pid);
        }
    }
}

} // verus!
