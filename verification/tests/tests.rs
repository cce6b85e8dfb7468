use gadb::{
    compose_tail_word, error, error_os, extend_vec, launch_report, os_error_with_prefix,
    parse_digit,
    parse_digit_b10, parse_hex_vec, parse_u64, parse_vec, register_by_dwarf, register_by_id,
    register_by_name, remove_first_and_last, set_word_byte, str_content_eq, u64_to_dec,
    word_from_bytes, word_to_bytes, BreakSite, FpRegs, GadbErr, Process, ProcessState, RValue,
    RegisterFormat, RegisterId, RegisterType, Registers, StopInfo, StopPoint, StopReason,
    VirtAddr, WaitEvent, INT3, USER_AREA_SIZE,
};

fn dead_process() -> Process {
    // pid 0 means "no inferior": teardown does nothing and no kernel call
    // ever succeeds against it.
    Process::adopt(0, false, false)
}

#[test]
fn catalog_gpr_entries() {
    let rsi = register_by_id(RegisterId::rsi);
    assert_eq!(rsi.name, "rsi");
    assert_eq!(rsi.offset, 104);
    assert_eq!(rsi.size, 8);
    assert_eq!(rsi.dwarf_id, 4);
    assert!(rsi.rtype == RegisterType::Gpr);
    assert!(rsi.format == RegisterFormat::Uint);

    let rip = register_by_id(RegisterId::rip);
    assert_eq!(rip.offset, 128);
    assert_eq!(rip.dwarf_id, 16);

    let orig_rax = register_by_id(RegisterId::orig_rax);
    assert_eq!(orig_rax.offset, 120);
    assert_eq!(orig_rax.dwarf_id, -1);
}

#[test]
fn catalog_sub_and_fpr_entries() {
    let ah = register_by_id(RegisterId::ah);
    assert_eq!(ah.offset, 81);
    assert_eq!(ah.size, 1);
    assert!(ah.rtype == RegisterType::SubGpr);

    let r13b = register_by_id(RegisterId::r13b);
    assert_eq!(r13b.offset, 16);
    assert_eq!(r13b.size, 1);

    let st0 = register_by_id(RegisterId::st0);
    assert_eq!(st0.offset, 256);
    assert_eq!(st0.size, 16);
    assert!(st0.format == RegisterFormat::LongDouble);
    assert_eq!(st0.dwarf_id, 33);

    let mm0 = register_by_id(RegisterId::mm0);
    assert_eq!(mm0.offset, 256);
    assert_eq!(mm0.size, 8);
    assert!(mm0.format == RegisterFormat::Vector);

    let xmm0 = register_by_id(RegisterId::xmm0);
    assert_eq!(xmm0.offset, 384);
    assert_eq!(xmm0.size, 16);
    assert_eq!(xmm0.dwarf_id, 17);

    let fsw = register_by_id(RegisterId::fsw);
    assert_eq!(fsw.offset, 226);
    assert_eq!(fsw.size, 2);
    assert_eq!(fsw.dwarf_id, 66);

    let dr7 = register_by_id(RegisterId::dr7);
    assert_eq!(dr7.offset, 848 + 56);
    assert!(dr7.rtype == RegisterType::Dr);
    assert!(dr7.offset + dr7.size <= USER_AREA_SIZE);
}

#[test]
fn catalog_lookup_by_name() {
    let xmm15 = register_by_name("xmm15").expect("xmm15 is catalogued");
    assert_eq!(xmm15.name, "xmm15");
    assert_eq!(xmm15.offset, 384 + 15 * 16);
    assert!(register_by_name("xmm16").is_none());
    assert!(register_by_name("").is_none());
    let spl = register_by_name("spl").expect("spl is catalogued");
    assert_eq!(spl.size, 1);
}

#[test]
fn catalog_lookup_by_dwarf() {
    let rdi = register_by_dwarf(5).expect("DWARF 5 is rdi");
    assert_eq!(rdi.name, "rdi");
    let mxcsr = register_by_dwarf(64).expect("DWARF 64 is mxcsr");
    assert_eq!(mxcsr.name, "mxcsr");
    assert!(register_by_dwarf(-1).is_none());
    assert!(register_by_dwarf(1000).is_none());
}

#[test]
fn str_content_eq_basics() {
    assert!(str_content_eq("rax", "rax"));
    assert!(!str_content_eq("rax", "rbx"));
    assert!(!str_content_eq("rax", "raxx"));
    assert!(str_content_eq("", ""));
}

#[test]
fn virt_addr_arithmetic() {
    let a = VirtAddr(0x1000);
    assert_eq!(a.add(0x20).0, 0x1020);
    assert_eq!(a.sub(1).0, 0xfff);
    assert_eq!(VirtAddr(u64::MAX).add(1).0, 0);
    assert_eq!(VirtAddr(0).sub(1).0, u64::MAX);
    assert!(VirtAddr(1) < VirtAddr(2));
}

#[test]
fn breaksite_starts_disarmed() {
    let bs = BreakSite::new(3, VirtAddr(0x400000));
    assert_eq!(bs.id, 3);
    assert!(!bs.enabled);
    assert!(bs.saved_data.is_none());
    assert!(bs.is_at(VirtAddr(0x400000)));
    assert!(!bs.is_at(VirtAddr(0x400001)));
    assert!(bs.in_range(VirtAddr(0x3fffff), VirtAddr(0x400001)));
    assert!(!bs.in_range(VirtAddr(0x400001), VirtAddr(0x400002)));
}

#[test]
fn word_round_trip() {
    let w: u64 = 0x1badd00d2badf00d;
    let bytes = word_to_bytes(w);
    assert_eq!(bytes, vec![0x0d, 0xf0, 0xad, 0x2b, 0x0d, 0xd0, 0xad, 0x1b]);
    assert_eq!(word_from_bytes(&bytes, 0), w);
}

#[test]
fn int3_patching_preserves_neighbours() {
    let w: u64 = 0x1122334455667788;
    let patched = set_word_byte(w, 0, INT3);
    assert_eq!(patched, 0x11223344556677cc);
    let restored = set_word_byte(patched, 0, 0x88);
    assert_eq!(restored, w);
    let high = set_word_byte(w, 7, 0xaa);
    assert_eq!(high, 0xaa22334455667788);
}

#[test]
fn rvalue_round_trip_u64() {
    let rsi = register_by_id(RegisterId::rsi);
    let v = RValue::from_u64(0x1badd00d2badf00d, rsi);
    assert_eq!(v.read_as_u64(), 0x1badd00d2badf00d);
    assert_eq!(v.read_as_u32(), 0x2badf00d);
    assert_eq!(v.read_as_u16(), 0xf00d);
    assert_eq!(v.read_as_u8(), 0x0d);
}

#[test]
fn rvalue_from_bytes_zero_extends() {
    let xmm0 = register_by_id(RegisterId::xmm0);
    let v = RValue::from_bytes(&vec![1, 2, 3], xmm0);
    assert_eq!(v.bytes, vec![1, 2, 3, 0, 0, 0, 0, 0, 0, 0, 0, 0, 0, 0, 0, 0]);
    assert_eq!(v.read_prefix(4), vec![1, 2, 3, 0]);
}

#[test]
fn registers_write_then_read() {
    let mut regs = Registers::empty();
    let r13 = register_by_id(RegisterId::r13);
    let magic: u64 = 0x00c0ff331deadb01;
    regs.write(&RValue::from_u64(magic, r13));
    assert_eq!(regs.read(&r13).read_as_u64(), magic);
    assert_eq!(regs.read_id(RegisterId::r13).read_as_u64(), magic);
    regs.write(&RValue::from_id(0x2a, RegisterId::rsi));
    assert_eq!(regs.read_id(RegisterId::rsi).read_as_u64(), 0x2a);
    assert_eq!(VirtAddr::from(7u64), VirtAddr(7));
}

#[test]
fn sub_register_write_shows_in_parent() {
    let mut regs = Registers::empty();
    let r13 = register_by_id(RegisterId::r13);
    let r13b = register_by_id(RegisterId::r13b);
    regs.write(&RValue::from_u64(0x1111111111111111, r13));
    regs.write(&RValue::from_u64(42, r13b));
    assert_eq!(regs.read(&r13b).read_as_u8(), 42);
    assert_eq!(regs.read(&r13).read_as_u64(), 0x111111111111112a);

    let ah = register_by_id(RegisterId::ah);
    let rax = register_by_id(RegisterId::rax);
    regs.write(&RValue::from_u64(0, rax));
    regs.write(&RValue::from_u64(0x7f, ah));
    assert_eq!(regs.read(&rax).read_as_u64(), 0x7f00);
}

#[test]
fn x87_status_words_through_mirror() {
    let mut regs = Registers::empty();
    let fsw = register_by_id(RegisterId::fsw);
    let ftw = register_by_id(RegisterId::ftw);
    regs.write(&RValue::from_u64(0b0011100000000000, fsw));
    regs.write(&RValue::from_u64(0b0011111111111111, ftw));
    assert_eq!(regs.read(&fsw).read_as_u16(), 0b0011100000000000);
    assert_eq!(regs.read(&ftw).read_as_u16(), 0b0011111111111111);
    let f = regs.read_fpr_block();
    assert_eq!(f.swd, 0b0011100000000000);
    assert_eq!(f.ftw, 0b0011111111111111);
}

#[test]
fn xmm_holds_double_bits() {
    let mut regs = Registers::empty();
    let xmm0 = register_by_id(RegisterId::xmm0);
    let bits: f64 = 76.54;
    regs.write(&RValue::from_bytes(&bits.to_le_bytes().to_vec(), xmm0));
    let back = regs.read(&xmm0).read_prefix(8);
    assert_eq!(back, bits.to_le_bytes().to_vec());
    assert_eq!(f64::from_le_bytes(back.try_into().unwrap()), 76.54);
}

#[test]
fn st0_holds_extended_bits() {
    let mut regs = Registers::empty();
    let st0 = register_by_id(RegisterId::st0);
    let ext = extended::Extended::from(42.24f64);
    let payload = extend_vec(ext.to_le_bytes());
    regs.write(&RValue::from_bytes(&payload.to_vec(), st0));
    let back = regs.read(&st0).read_prefix(10);
    assert_eq!(back, ext.to_le_bytes().to_vec());
}

#[test]
fn fpr_block_round_trip() {
    let mut regs = Registers::empty();
    let f = FpRegs {
        cwd: 0x037f,
        swd: 0x3800,
        ftw: 0x3fff,
        fop: 7,
        rip: 0x1234,
        rdp: 0x5678,
        mxcsr: 0x1f80,
        mxcr_mask: 0xffff,
        st_space: (0..32).collect(),
        xmm_space: (100..164).collect(),
    };
    regs.load_fpr_block(&f);
    let g = regs.read_fpr_block();
    assert_eq!(g.cwd, 0x037f);
    assert_eq!(g.swd, 0x3800);
    assert_eq!(g.ftw, 0x3fff);
    assert_eq!(g.fop, 7);
    assert_eq!(g.rip, 0x1234);
    assert_eq!(g.rdp, 0x5678);
    assert_eq!(g.mxcsr, 0x1f80);
    assert_eq!(g.mxcr_mask, 0xffff);
    assert_eq!(g.st_space, (0..32).collect::<Vec<u32>>());
    assert_eq!(g.xmm_space, (100..164).collect::<Vec<u32>>());
}

#[test]
fn gpr_words_land_in_order() {
    let mut regs = Registers::empty();
    let words: Vec<u64> = (0..27).map(|i| 0x100 + i as u64).collect();
    regs.load_gpr_words(&words);
    // slot 13 of the kernel's field order is rsi at byte offset 104
    let rsi = register_by_id(RegisterId::rsi);
    assert_eq!(regs.read(&rsi).read_as_u64(), 0x100 + 13);
    assert_eq!(regs.word_at(0), 0x100);
    assert_eq!(regs.get_clong_at(0), 0x100);
}

#[test]
fn extend_vec_pads_with_zeros() {
    let out = extend_vec([1u8, 2, 3]);
    assert_eq!(out[..3], [1, 2, 3]);
    assert!(out[3..].iter().all(|b| *b == 0));
}

#[test]
fn error_values() {
    let e: Result<(), GadbErr> = error("boom");
    let err = e.unwrap_err();
    assert_eq!(err.msg, "boom");
    assert!(err == GadbErr { msg: String::from("boom") });

    let prefixed = os_error_with_prefix("ctx");
    assert!(prefixed.starts_with("ctx: "));

    let e2: Result<(), GadbErr> = error_os("ctx");
    assert!(e2.unwrap_err().msg.starts_with("ctx: "));
}

#[test]
fn launch_report_reads_the_pipe_protocol() {
    assert!(launch_report(&Vec::new()).is_ok());
    let err = launch_report(&b"exec failed".to_vec()).unwrap_err();
    assert_eq!(err.msg, "exec failed");
    assert!(!err.msg.is_empty());
}

#[test]
fn wait_status_translation() {
    let r = StopReason::from_wait_status(WaitEvent::Exited(3));
    assert!(r.newstate == ProcessState::Exited);
    assert!(r.info == StopInfo::ExitCode(3));
    let r = StopReason::from_wait_status(WaitEvent::Signaled(9));
    assert!(r.newstate == ProcessState::Terminated);
    assert!(r.info == StopInfo::Signal(9));
    let r = StopReason::from_wait_status(WaitEvent::Stopped(5));
    assert!(r.newstate == ProcessState::Stopped);
    assert!(r.info == StopInfo::Signal(5));
}

#[test]
fn breaksite_table_create_and_lookup() {
    let mut p = dead_process();
    let id0 = p.create_breaksite(VirtAddr(0x1000)).unwrap();
    let id1 = p.create_breaksite(VirtAddr(0x2000)).unwrap();
    assert_eq!(id0, 0);
    assert_eq!(id1, 1);
    assert_eq!(p.breaksites().len(), 2);
    assert_eq!(p.breaksite_by_id(id1).unwrap().va, VirtAddr(0x2000));
    assert_eq!(p.breaksite_at_va(VirtAddr(0x1000)).unwrap().id, id0);
    assert!(p.breaksite_by_id(7).is_none());
    assert!(p.breaksite_at_va(VirtAddr(0x3000)).is_none());
}

#[test]
fn breaksite_duplicate_address_names_existing_id() {
    let mut p = dead_process();
    let _ = p.create_breaksite(VirtAddr(0x1000)).unwrap();
    let _ = p.create_breaksite(VirtAddr(0x9000)).unwrap();
    let err = p.create_breaksite(VirtAddr(0x9000)).unwrap_err();
    assert_eq!(err.msg, "breakpoint already exists at that address (id 1)");
    assert_eq!(p.breaksites().len(), 2);
}

#[test]
fn breaksite_clear_by_id() {
    let mut p = dead_process();
    let id0 = p.create_breaksite(VirtAddr(0x1000)).unwrap();
    let id1 = p.create_breaksite(VirtAddr(0x2000)).unwrap();
    assert!(p.clear_breaksite(99).is_err());
    assert_eq!(p.breaksites().len(), 2);
    assert!(p.clear_breaksite(id0).is_ok());
    assert_eq!(p.breaksites().len(), 1);
    assert!(p.breaksite_by_id(id0).is_none());
    assert!(p.breaksite_by_id(id1).is_some());
    // a fresh site after a removal still takes a fresh id
    let id2 = p.create_breaksite(VirtAddr(0x1000)).unwrap();
    assert_eq!(id2, 2);
}

#[test]
fn breaksite_clear_all_counts_armed_sites() {
    let mut p = dead_process();
    let _ = p.create_breaksite(VirtAddr(0x1000)).unwrap();
    let _ = p.create_breaksite(VirtAddr(0x2000)).unwrap();
    // arm one site by hand; pid 0 makes kernel pokes fail, so enable
    // through the kernel is not available here
    p.breaksites[0].enabled = true;
    p.breaksites[0].saved_data = Some(vec![0x90]);
    assert_eq!(p.clear_all_breaksites(), 1);
    assert_eq!(p.breaksites().len(), 0);
}

#[test]
fn enable_all_counts_only_newly_armed_sites() {
    let mut p = dead_process();
    let _ = p.create_breaksite(VirtAddr(0x1000)).unwrap();
    let _ = p.create_breaksite(VirtAddr(0x2000)).unwrap();
    p.breaksites[0].enabled = true;
    p.breaksites[0].saved_data = Some(vec![0x90]);
    // against pid 0 every kernel poke fails: nothing new gets armed
    assert_eq!(p.enable_all_breaksites(), 0);
    assert!(p.breaksites[0].enabled);
    assert_eq!(p.breaksites[0].saved_data, Some(vec![0x90]));
    assert!(!p.breaksites[1].enabled);
}

#[test]
fn disable_all_counts_only_newly_disarmed_sites() {
    let mut p = dead_process();
    let _ = p.create_breaksite(VirtAddr(0x1000)).unwrap();
    let _ = p.create_breaksite(VirtAddr(0x2000)).unwrap();
    p.breaksites[0].enabled = true;
    p.breaksites[0].saved_data = Some(vec![0x90]);
    // the kernel restore fails against pid 0: the armed site keeps its
    // INT3 bookkeeping, the disarmed one is untouched
    assert_eq!(p.disable_all_breaksites(), 0);
    assert!(p.breaksites[0].enabled);
    assert_eq!(p.breaksites[0].saved_data, Some(vec![0x90]));
    assert!(!p.breaksites[1].enabled);
    assert!(p.breaksites[1].saved_data.is_none());
}

#[test]
fn hex_vec_errors_name_the_offending_token() {
    let err = parse_hex_vec("[0xaa,bb]").unwrap_err();
    assert_eq!(err.msg, "could not parse byte bb (expecting hex value with 0x prefix)");
    let err = parse_hex_vec("[0xzz]").unwrap_err();
    assert_eq!(err.msg, "could not parse byte 0xzz");
    let err = parse_hex_vec("[0x1ff]").unwrap_err();
    assert_eq!(err.msg, "could not parse byte 0x1ff");
    let err = parse_hex_vec("0xaa").unwrap_err();
    assert_eq!(err.msg, "could not parse; expected [0xaa,0xbb,...]");
}

#[test]
fn enable_on_dead_process_fails_and_leaves_site_alone() {
    let mut p = dead_process();
    let id = p.create_breaksite(VirtAddr(0x1000)).unwrap();
    let res = p.enable_breaksite_by(id);
    assert!(res.is_err());
    let bs = p.breaksite_by_id(id).unwrap();
    assert!(!bs.enabled);
    assert!(bs.saved_data.is_none());
}

#[test]
fn sanitize_memory_substitutes_saved_bytes() {
    let mut p = dead_process();
    let _ = p.create_breaksite(VirtAddr(0x1002)).unwrap();
    p.breaksites[0].enabled = true;
    p.breaksites[0].saved_data = Some(vec![0x90]);
    let _ = p.create_breaksite(VirtAddr(0x1005)).unwrap();
    // the second site stays disarmed: its byte must not be substituted
    let data = vec![0xcc; 8];
    let clean = p.sanitize_memory(VirtAddr(0x1000), data);
    assert_eq!(clean, vec![0xcc, 0xcc, 0x90, 0xcc, 0xcc, 0xcc, 0xcc, 0xcc]);
    // a site outside the window changes nothing
    let clean2 = p.sanitize_memory(VirtAddr(0x2000), vec![0xcc; 4]);
    assert_eq!(clean2, vec![0xcc; 4]);
}

#[test]
fn adopt_starts_running() {
    let p = dead_process();
    assert!(p.state == ProcessState::Running);
    assert_eq!(p.pid, 0);
    assert!(!p.attached);
    assert!(!p.autoterm);
    assert_eq!(p.breaksites().len(), 0);
    assert_eq!(p.get_pc(), VirtAddr(0));
    assert!(p.regs().word_at(0) == 0);
}

#[test]
fn attach_rejects_bad_pid() {
    assert!(Process::attach(0).is_err());
    assert!(Process::attach(-5).is_err());
}

#[test]
fn parse_u64_literals() {
    assert_eq!(parse_u64("0x1badd00d2badf00d").unwrap(), 0x1badd00d2badf00d);
    assert_eq!(parse_u64("0x115b").unwrap(), 0x115b);
    assert_eq!(parse_u64("0xAbC").unwrap(), 0xabc);
    assert_eq!(parse_u64("1234").unwrap(), 1234);
    assert_eq!(parse_u64("0").unwrap(), 0);
    assert_eq!(parse_u64("").unwrap(), 0);
    assert_eq!(parse_u64("0x").unwrap(), 0);
    assert_eq!(parse_u64("0xffffffffffffffff").unwrap(), u64::MAX);
    assert!(parse_u64("0x10000000000000000").is_err());
    assert!(parse_u64("18446744073709551616").is_err());
    assert!(parse_u64("12a").is_err());
    assert!(parse_u64("-3").is_err());
    assert!(parse_u64("0xg").is_err());
}

#[test]
fn parse_digits() {
    assert_eq!(parse_digit_b10('7').unwrap(), 7);
    assert!(parse_digit_b10('a').is_err());
    assert_eq!(parse_digit('a', 16).unwrap(), 10);
    assert_eq!(parse_digit('F', 16).unwrap(), 15);
    assert!(parse_digit('a', 10).is_err());
    assert_eq!(parse_digit('9', 10).unwrap(), 9);
}

#[test]
fn parse_hex_vec_literals() {
    assert_eq!(parse_hex_vec("[0xaa,0xbb,0x01]").unwrap(), vec![0xaa, 0xbb, 0x01]);
    assert_eq!(parse_hex_vec("[0x0]").unwrap(), vec![0]);
    assert_eq!(parse_hex_vec("[0xff]").unwrap(), vec![0xff]);
    assert!(parse_hex_vec("[]").is_err());
    assert!(parse_hex_vec("").is_err());
    assert!(parse_hex_vec("0xaa,0xbb").is_err());
    assert!(parse_hex_vec("[aa,bb]").is_err());
    assert!(parse_hex_vec("[0x100]").is_err());
    assert!(parse_hex_vec("[0xaa,]").is_err());
    assert!(parse_hex_vec("[0xzz]").is_err());
}

#[test]
fn parse_vec_literals() {
    assert_eq!(parse_vec::<3>("[1,2,3]").unwrap(), [1, 2, 3]);
    assert_eq!(parse_vec::<2>("[255,0,9]").unwrap(), [255, 0]);
    assert!(parse_vec::<4>("[1,2,3]").is_err());
    assert!(parse_vec::<1>("[256]").is_err());
    assert!(parse_vec::<1>("[1,x]").is_err());
    assert!(parse_vec::<1>("[]").is_err());
    assert!(parse_vec::<1>("1,2").is_err());
}

#[test]
fn hex_formatting() {
    assert_eq!(gadb::u64_to_hex(0), "0");
    assert_eq!(gadb::u64_to_hex(0x1badd00d2badf00d), "1badd00d2badf00d");
    assert_eq!(gadb::u64_to_hex(u64::MAX), "ffffffffffffffff");
    assert_eq!(gadb::bytes_to_hex(&vec![]), "");
    assert_eq!(gadb::bytes_to_hex(&vec![0x0d, 0xf0, 0xad, 0x2b]), "0df0ad2b");
}

#[test]
fn decimal_formatting() {
    assert_eq!(u64_to_dec(0), "0");
    assert_eq!(u64_to_dec(7), "7");
    assert_eq!(u64_to_dec(1234567890), "1234567890");
    assert_eq!(u64_to_dec(u64::MAX), "18446744073709551615");
}

#[test]
fn resume_needs_a_live_inferior() {
    let mut p = dead_process();
    p.state = ProcessState::Exited;
    assert!(p.resume().is_err());
    // a failed resume never reports the inferior as running again
    assert!(p.state == ProcessState::Exited);
}

#[test]
fn memory_paths_fail_without_an_inferior() {
    let p = dead_process();
    assert!(p.read_memory(VirtAddr(0x1000), 8).is_err());
    assert!(p.read_memory_clean(VirtAddr(0x1000), 8).is_err());
    assert!(p.write_memory(VirtAddr(0x1000), &vec![1, 2, 3]).is_err());
}

#[test]
fn trap_rewind_points_at_the_site() {
    let mut p = dead_process();
    // the mirror starts with PC 0; the byte just executed sits at the top
    // of the address space, wrapping around
    let site = VirtAddr(u64::MAX);
    let _ = p.create_breaksite(site).unwrap();
    let trap = StopReason {
        newstate: ProcessState::Stopped,
        info: StopInfo::Signal(gadb::SIGTRAP_SIGNO),
    };
    // the kernel write-through fails against pid 0, but the mirror rewinds
    let _ = p.apply_trap_rewind(&trap);
    assert_eq!(p.get_pc(), site);

    // a stop that is no trap leaves the mirror alone
    let mut q = dead_process();
    let _ = q.create_breaksite(site).unwrap();
    let plain = StopReason {
        newstate: ProcessState::Stopped,
        info: StopInfo::Signal(2),
    };
    assert!(q.apply_trap_rewind(&plain).is_ok());
    assert_eq!(q.get_pc(), VirtAddr(0));
}

#[test]
fn tail_composition_overlays_only_the_tail() {
    let existing = vec![0xa0, 0xa1, 0xa2, 0xa3, 0xa4, 0xa5, 0xa6, 0xa7];
    let data = vec![0x11, 0x22, 0x33];
    let w = compose_tail_word(&existing, &data, 1, 2);
    assert_eq!(word_to_bytes(w), vec![0x22, 0x33, 0xa2, 0xa3, 0xa4, 0xa5, 0xa6, 0xa7]);
}

#[test]
fn write_reg_updates_the_mirror_even_when_the_kernel_refuses() {
    let mut p = dead_process();
    let rsi = register_by_id(RegisterId::rsi);
    let res = p.write_reg(&RValue::from_u64(0x1badd00d2badf00d, rsi));
    assert!(res.is_err());
    assert_eq!(p.regs().read(&rsi).read_as_u64(), 0x1badd00d2badf00d);
}

#[test]
fn strip_brackets() {
    assert_eq!(remove_first_and_last("[ab]"), "ab");
    assert_eq!(remove_first_and_last("xy"), "");
    assert_eq!(remove_first_and_last("x"), "");
    assert_eq!(remove_first_and_last(""), "");
}
