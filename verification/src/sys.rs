//! Trusted boundary to the kernel's tracing primitives. Every function here
//! wraps exactly one outside call; the contracts state only what the wrapped
//! call's documentation promises. Results that depend on the tracee's state
//! are left unconstrained: callers must hold for every outcome.
use vstd::prelude::*;

verus! {

/// What `waitpid` reported of the tracee, reduced to plain values.
#[derive(Clone, Copy, Debug, PartialEq, Eq, Structural)]
pub enum WaitEvent {
    /// The process exited with the given code.
    Exited(i32),
    /// The process was killed by the given signal number.
    Signaled(i32),
    /// The process stopped on delivery of the given signal number.
    Stopped(i32),
    /// Any other report (trace events, spurious wakeups).
    Other,
}

/// Relies on `nix::sys::wait::waitpid`: blocks until `pid` changes state and
/// reports how. Which variant comes back depends on the tracee, so nothing
/// more is promised.
#[verifier::external_body]
pub(crate) fn wait_for(pid: i32) -> (r: Option<WaitEvent>)
    opens_invariants none
    no_unwind
{
    match nix::sys::wait::waitpid(nix::unistd::Pid::from_raw(pid), None) {
        Ok(nix::sys::wait::WaitStatus::Exited(_, code)) => Some(WaitEvent::Exited(code)),
        Ok(nix::sys::wait::WaitStatus::Signaled(_, sig, _)) => Some(
            WaitEvent::Signaled(sig as i32),
        ),
        Ok(nix::sys::wait::WaitStatus::Stopped(_, sig)) => Some(WaitEvent::Stopped(sig as i32)),
        Ok(_) => Some(WaitEvent::Other),
        Err(_) => None,
    }
}

/// Relies on `nix::sys::ptrace::read` (`PTRACE_PEEKDATA`): reads the 8-byte
/// word at `addr` in the tracee. The value read depends on the tracee, so
/// only success or failure is reported alongside it.
#[verifier::external_body]
pub(crate) fn peek_data(pid: i32, addr: u64) -> (r: Option<u64>) {
    let p: nix::sys::ptrace::AddressType = core::ptr::null_mut();
    let p = p.wrapping_byte_add(addr as usize);
    nix::sys::ptrace::read(nix::unistd::Pid::from_raw(pid), p).ok().map(|w| w as u64)
}

/// Relies on `nix::sys::ptrace::write` (`PTRACE_POKEDATA`): writes the 8-byte
/// word `data` at `addr` in the tracee; reports success.
#[verifier::external_body]
pub(crate) fn poke_data(pid: i32, addr: u64, data: u64) -> (r: bool) {
    let p: nix::sys::ptrace::AddressType = core::ptr::null_mut();
    let p = p.wrapping_byte_add(addr as usize);
    nix::sys::ptrace::write(nix::unistd::Pid::from_raw(pid), p, data as i64).is_ok()
}

/// Relies on `nix::sys::ptrace::read_user` (`PTRACE_PEEKUSER`): reads the
/// 8-byte word at byte offset `offset` of the tracee's user area.
#[verifier::external_body]
pub(crate) fn peek_user(pid: i32, offset: usize) -> (r: Option<u64>) {
    let p: nix::sys::ptrace::AddressType = core::ptr::null_mut();
    let p = p.wrapping_byte_add(offset);
    nix::sys::ptrace::read_user(nix::unistd::Pid::from_raw(pid), p).ok().map(|w| w as u64)
}

/// Relies on `nix::sys::ptrace::write_user` (`PTRACE_POKEUSER`): writes the
/// 8-byte word `data` at byte offset `offset` of the tracee's user area;
/// reports success.
#[verifier::external_body]
pub(crate) fn poke_user(pid: i32, offset: usize, data: u64) -> (r: bool) {
    let p: nix::sys::ptrace::AddressType = core::ptr::null_mut();
    let p = p.wrapping_byte_add(offset);
    nix::sys::ptrace::write_user(nix::unistd::Pid::from_raw(pid), p, data as i64).is_ok()
}

/// Relies on `nix::sys::ptrace::attach`: asks the kernel for a tracing
/// relationship with `pid`; on refusal, carries the kernel's description.
#[verifier::external_body]
pub(crate) fn attach_process(pid: i32) -> (r: Result<(), crate::GadbErr>) {
    match nix::sys::ptrace::attach(nix::unistd::Pid::from_raw(pid)) {
        Ok(()) => Ok(()),
        Err(e) => Err(crate::GadbErr { msg: e.desc().to_string() }),
    }
}

/// Relies on `nix::sys::ptrace::cont` (`PTRACE_CONT`): lets the stopped
/// tracee run, delivering no signal; reports success.
#[verifier::external_body]
pub(crate) fn cont_process(pid: i32) -> (r: bool) {
    nix::sys::ptrace::cont(nix::unistd::Pid::from_raw(pid), None).is_ok()
}

/// Relies on `nix::sys::ptrace::step` (`PTRACE_SINGLESTEP`): lets the stopped
/// tracee execute one instruction; reports success.
#[verifier::external_body]
pub(crate) fn step_process(pid: i32) -> (r: bool) {
    nix::sys::ptrace::step(nix::unistd::Pid::from_raw(pid), None).is_ok()
}

/// Relies on `nix::sys::ptrace::detach`: ends the tracing relationship,
/// delivering no signal; reports success.
#[verifier::external_body]
pub(crate) fn detach_process(pid: i32) -> (r: bool)
    opens_invariants none
    no_unwind
{
    nix::sys::ptrace::detach(nix::unistd::Pid::from_raw(pid), None).is_ok()
}

/// Relies on `nix::sys::signal::kill`: sends signal number `sig` to `pid`;
/// reports success.
#[verifier::external_body]
pub(crate) fn kill_process(pid: i32, sig: i32) -> (r: bool)
    opens_invariants none
    no_unwind
{
    match nix::sys::signal::Signal::try_from(sig) {
        Ok(s) => nix::sys::signal::kill(nix::unistd::Pid::from_raw(pid), s).is_ok(),
        Err(_) => false,
    }
}

/// Relies on `nix::sys::ptrace::getregs` (`PTRACE_GETREGS`): the tracee's 27
/// general-purpose slots, in the kernel's own field order. The values depend
/// on the tracee; only the count is promised.
#[verifier::external_body]
pub(crate) fn getregs_words(pid: i32) -> (r: Option<Vec<u64>>)
    ensures
        r matches Some(v) ==> v@.len() == 27,
{
    let g = nix::sys::ptrace::getregs(nix::unistd::Pid::from_raw(pid)).ok()?;
    Some(vec![
        g.r15, g.r14, g.r13, g.r12, g.rbp, g.rbx, g.r11, g.r10, g.r9, g.r8, g.rax, g.rcx, g.rdx,
        g.rsi, g.rdi, g.orig_rax, g.rip, g.cs, g.eflags, g.rsp, g.ss, g.fs_base, g.gs_base, g.ds,
        g.es, g.fs, g.gs,
    ])
}

/// Relies on `nix::sys::ptrace::getregset::<NT_PRFPREG>`
/// (`PTRACE_GETREGSET`): the tracee's x87/SSE block as plain fields. The
/// values depend on the tracee; only the two array lengths are promised.
#[verifier::external_body]
pub(crate) fn getfpregs(pid: i32) -> (r: Option<crate::registers::FpRegs>)
    ensures
        r matches Some(f) ==> f.wf(),
{
    let g = nix::sys::ptrace::getregset::<nix::sys::ptrace::regset::NT_PRFPREG>(
        nix::unistd::Pid::from_raw(pid),
    ).ok()?;
    Some(crate::registers::FpRegs {
        cwd: g.cwd, swd: g.swd, ftw: g.ftw, fop: g.fop, rip: g.rip, rdp: g.rdp, mxcsr: g.mxcsr,
        mxcr_mask: g.mxcr_mask, st_space: g.st_space.to_vec(), xmm_space: g.xmm_space.to_vec(),
    })
}

/// Relies on `nix::sys::ptrace::getregset` and `setregset` over `NT_PRFPREG`
/// (`PTRACE_SETFPREGS`): fetches the kernel's current block to fill its
/// private padding, overlays every named field from `f`, and writes the block
/// back; reports success.
#[verifier::external_body]
pub(crate) fn setfpregs(pid: i32, f: &crate::registers::FpRegs) -> (r: bool)
    requires
        f.wf(),
{
    let p = nix::unistd::Pid::from_raw(pid);
    let Ok(mut g) = nix::sys::ptrace::getregset::<nix::sys::ptrace::regset::NT_PRFPREG>(p) else {
        return false;
    };
    g.cwd = f.cwd; g.swd = f.swd; g.ftw = f.ftw; g.fop = f.fop;
    g.rip = f.rip; g.rdp = f.rdp; g.mxcsr = f.mxcsr; g.mxcr_mask = f.mxcr_mask;
    let Ok(st) = f.st_space.clone().try_into() else { return false };
    let Ok(xmm) = f.xmm_space.clone().try_into() else { return false };
    g.st_space = st;
    g.xmm_space = xmm;
    nix::sys::ptrace::setregset::<nix::sys::ptrace::regset::NT_PRFPREG>(p, g).is_ok()
}

/// Relies on `nix::sys::uio::process_vm_readv`: gathers the tracee's bytes
/// described by `chunks` (base, length) into one local buffer of `total`
/// bytes, truncated to what the kernel reports read. The bytes depend on the
/// tracee; only the length bound is promised.
#[verifier::external_body]
pub(crate) fn read_process_memory(pid: i32, total: usize, chunks: &Vec<(u64, usize)>) -> (r: Option<
    Vec<u8>,
>)
    ensures
        r matches Some(v) ==> v@.len() <= total,
{
    let mut buf = vec![0u8; total];
    let mut local = [std::io::IoSliceMut::new(&mut buf[..])];
    let remote: Vec<nix::sys::uio::RemoteIoVec> = chunks.iter().map(
        |c| nix::sys::uio::RemoteIoVec { base: c.0 as usize, len: c.1 },
    ).collect();
    let n = nix::sys::uio::process_vm_readv(
        nix::unistd::Pid::from_raw(pid), &mut local, &remote,
    ).ok()?;
    buf.truncate(n);
    Some(buf)
}

/// Relies on `String::from_utf8_lossy`: decodes bytes as UTF-8, substituting
/// the replacement character for invalid sequences, so a non-empty input
/// yields a non-empty string.
#[verifier::external_body]
pub(crate) fn bytes_to_string_lossy(data: &Vec<u8>) -> (r: String)
    ensures
        data@.len() > 0 ==> r@.len() > 0,
{
    String::from_utf8_lossy(data.as_slice()).into_owned()
}

} // verus!
