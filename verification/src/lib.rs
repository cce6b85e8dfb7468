//! A library for controlling and inspecting a traced inferior process on
//! Linux/x86-64: register catalog and register-file mirror, software
//! breakpoints, inferior memory access, and the tracer state machine.
mod breakpoints;
mod disassembler;
mod parsing;
mod process;
mod register_info;
mod registers;
mod sys;
mod wordops;

pub use breakpoints::{BreakSite, INT3, StopPoint, VirtAddr};
pub use disassembler::Instruction;
pub use parsing::{
    byte_list_spec, dec_digit, dec_digits, digit_ok, digit_val, digits_ok, first_comma,
    hex_digit, hex_digits, byte_pair_hex, bytes_hex, u64_to_hex, bytes_to_hex,
    hex_prefixed, lemma_num_val_nonneg, lemma_num_val_prefix, list_bytes, literal_base,
    literal_body, num_val, parse_digit, parse_digit_b10, parse_hex_vec, parse_u64, parse_vec,
    remove_first_and_last, token_byte, token_ok, u64_to_dec,
};
pub use process::{
    BreakSiteId, Process, ProcessState, SIGCONT_SIGNO, SIGKILL_SIGNO, SIGTRAP_SIGNO, StopInfo,
    StopReason, byte_addr, chunks_cover, chunks_len_prefix, count_enabled, count_newly_disabled,
    count_newly_enabled, enabled_site_at, has_site_at, has_site_id,
    lemma_count_newly_enabled_none, memory_chunks, site_id_at,
    launch_report, lemma_memory_write_read_identity, prev_addr, same_sites_shape, saved_byte_at,
    sites_wf,
};
pub use register_info::{
    RegInfo, RegisterFormat, RegisterId, RegisterType, USER_AREA_SIZE, reg_info_matches,
    reg_info_spec, register_by_id, ri_wf, lemma_catalog_wf, register_by_name, register_by_dwarf,
    str_content_eq, reg_name_spec, reg_type_spec, reg_format_spec, reg_size_spec, reg_dwarf_spec,
    reg_offset_spec, register_name, register_type, register_format, register_size, register_dwarf,
    register_offset, parent_gpr_spec, lemma_sub_within_parent, lemma_dwarf_ids_unique,
};
pub use registers::{
    DR_BASE, FPR_BASE, FpRegs, GPR_WORDS, RValue, Registers, ST_BASE, XMM_BASE, extend_vec,
    lemma_register_round_trip, lemma_sub_write_parent_read, spec_read_payload, spec_write,
};
pub use wordops::{
    compose_tail_word, le_to_u64, lemma_le_decode_encode, lemma_le_encode_decode, set_word_byte,
    u16_at, u16_to_bytes, u32_at, u32_to_bytes, u64_at, u64_byte, u64_le, word_from_bytes,
    word_to_bytes,
};

pub use sys::WaitEvent;

use vstd::prelude::*;

verus! {

/// The library's error value: a single human-readable message.
#[derive(Debug)]
pub struct GadbErr {
    pub msg: String,
}

impl PartialEq for GadbErr {
    fn eq(&self, o: &GadbErr) -> (r: bool) {
        self.msg == o.msg
    }
}

impl vstd::std_specs::cmp::PartialEqSpecImpl for GadbErr {
    open spec fn obeys_eq_spec() -> bool {
        true
    }

    open spec fn eq_spec(&self, o: &GadbErr) -> bool {
        self.msg@ == o.msg@
    }
}

/// Build an `Err` result carrying `msg`.
pub fn error<T>(msg: &str) -> (r: Result<T, GadbErr>)
    ensures
        r matches Err(e) && e.msg@ == msg@,
{
    Err(GadbErr { msg: msg.to_owned() })
}

/// Relies on `std::io::Error::last_os_error` and its `Display` impl: the
/// message for the calling thread's current OS error. The text depends on
/// the thread's errno, so nothing is promised of it.
#[verifier::external_body]
fn last_os_error_string() -> String {
    std::io::Error::last_os_error().to_string()
}

/// The current OS error message, prefixed with `prefix` and a separator.
pub fn os_error_with_prefix(prefix: &str) -> (r: String)
    ensures
        r@.len() >= prefix@.len() + 2,
        r@.subrange(0, prefix@.len() as int) == prefix@,
{
    let mut out: String = prefix.to_owned();
    proof {
        reveal_strlit(": ");
    }
    out.append(": ");
    let os = last_os_error_string();
    out.append(os.as_str());
    proof {
        assert(out@.subrange(0, prefix@.len() as int) =~= prefix@);
    }
    out
}

/// Build an `Err` result whose message is `msg` followed by the current OS
/// error message.
pub fn error_os<T>(msg: &str) -> (r: Result<T, GadbErr>)
    ensures
        r matches Err(e) && e.msg@.len() >= msg@.len() + 2 && e.msg@.subrange(
            0,
            msg@.len() as int,
        ) == msg@,
{
    Err(GadbErr { msg: os_error_with_prefix(msg) })
}

} // verus!
