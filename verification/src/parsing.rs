//! Parsing and formatting of the plain values the debugger's commands
//! traffic in: unsigned integers in decimal or hex, and byte-vector
//! literals.
use vstd::prelude::*;

use crate::GadbErr;
use crate::error;

verus! {

/// The character for decimal digit `d`.
pub open spec fn dec_digit(d: int) -> char
    recommends
        0 <= d < 10,
{
    ((d + 48) as u8) as char
}

/// The decimal digits of `n`, most significant first, no leading zeros.
pub open spec fn dec_digits(n: nat) -> Seq<char>
    decreases n,
{
    if n < 10 {
        seq![dec_digit(n as int)]
    } else {
        dec_digits(n / 10).push(dec_digit((n % 10) as int))
    }
}

/// The one-character string for decimal digit `d`.
fn digit_str(d: u64) -> (r: &'static str)
    requires
        d < 10,
    ensures
        r@ =~= seq![dec_digit(d as int)],
{
    proof {
        reveal_strlit("0");
        reveal_strlit("1");
        reveal_strlit("2");
        reveal_strlit("3");
        reveal_strlit("4");
        reveal_strlit("5");
        reveal_strlit("6");
        reveal_strlit("7");
        reveal_strlit("8");
        reveal_strlit("9");
    }
    match d {
        0 => "0",
        1 => "1",
        2 => "2",
        3 => "3",
        4 => "4",
        5 => "5",
        6 => "6",
        7 => "7",
        8 => "8",
        _ => "9",
    }
}

/// `n` written in decimal.
pub fn u64_to_dec(n: u64) -> (r: String)
    ensures
        r@ == dec_digits(n as nat),
    decreases n,
{
    if n < 10 {
        String::from_str(digit_str(n))
    } else {
        let mut s = u64_to_dec(n / 10);
        s.append(digit_str(n % 10));
        proof {
            assert(s@ =~= dec_digits(n as nat));
        }
        s
    }
}

/// The character for hex digit `d`, lower case.
pub open spec fn hex_digit(d: int) -> char
    recommends
        0 <= d < 16,
{
    if d < 10 {
        ((d + 48) as u8) as char
    } else {
        ((d + 87) as u8) as char
    }
}

/// The hex digits of `n`, most significant first, no leading zeros.
pub open spec fn hex_digits(n: nat) -> Seq<char>
    decreases n,
{
    if n < 16 {
        seq![hex_digit(n as int)]
    } else {
        hex_digits(n / 16).push(hex_digit((n % 16) as int))
    }
}

/// The one-character string for hex digit `d`.
fn hex_digit_str(d: u64) -> (r: &'static str)
    requires
        d < 16,
    ensures
        r@ =~= seq![hex_digit(d as int)],
{
    if d < 10 {
        return digit_str(d);
    }
    proof {
        reveal_strlit("a");
        reveal_strlit("b");
        reveal_strlit("c");
        reveal_strlit("d");
        reveal_strlit("e");
        reveal_strlit("f");
    }
    match d {
        10 => "a",
        11 => "b",
        12 => "c",
        13 => "d",
        14 => "e",
        _ => "f",
    }
}

/// `n` written in hex, without a prefix.
pub fn u64_to_hex(n: u64) -> (r: String)
    ensures
        r@ == hex_digits(n as nat),
    decreases n,
{
    if n < 16 {
        String::from_str(hex_digit_str(n))
    } else {
        let mut s = u64_to_hex(n / 16);
        s.append(hex_digit_str(n % 16));
        proof {
            assert(s@ =~= hex_digits(n as nat));
        }
        s
    }
}

/// The two hex characters of one byte, high nibble first.
pub open spec fn byte_pair_hex(b: u8) -> Seq<char> {
    seq![hex_digit(b as int / 16), hex_digit(b as int % 16)]
}

/// A byte string as a contiguous hex stream, two characters per byte.
pub open spec fn bytes_hex(s: Seq<u8>) -> Seq<char>
    decreases s.len(),
{
    if s.len() == 0 {
        Seq::empty()
    } else {
        bytes_hex(s.drop_last()) + byte_pair_hex(s.last())
    }
}

/// Write `data` as a contiguous hex stream, two lower-case digits per byte.
pub fn bytes_to_hex(data: &Vec<u8>) -> (r: String)
    ensures
        r@ == bytes_hex(data@),
{
    let mut out = String::new();
    let n = data.len();
    let mut i: usize = 0;
    while i < n
        invariant
            i <= n,
            n == data@.len(),
            out@ == bytes_hex(data@.take(i as int)),
        decreases n - i,
    {
        let b = data[i];
        proof {
            assert((b >> 4) as int == b as int / 16 && (b & 15) as int == b as int % 16)
                by (bit_vector);
            assert(data@.take(i + 1).drop_last() =~= data@.take(i as int));
            assert(data@.take(i + 1).last() == data@[i as int]);
        }
        out.append(hex_digit_str((b >> 4) as u64));
        out.append(hex_digit_str((b & 15) as u64));
        proof {
            assert(out@ =~= bytes_hex(data@.take(i + 1)));
        }
        i = i + 1;
    }
    proof {
        assert(data@.take(n as int) =~= data@);
    }
    out
}

/// Whether `c` is a digit of the given base: the decimal digits always, and
/// both letter cases when the base is 16.
pub open spec fn digit_ok(c: char, base: int) -> bool {
    (48 <= c as u32 <= 57) || (base == 16 && (97 <= c as u32 <= 102 || 65 <= c as u32 <= 70))
}

/// The value of digit `c`.
pub open spec fn digit_val(c: char) -> int {
    if 48 <= c as u32 <= 57 {
        c as u32 - 48
    } else if 97 <= c as u32 <= 102 {
        c as u32 - 87
    } else {
        c as u32 - 55
    }
}

/// Whether every character of `s` is a digit of the given base.
pub open spec fn digits_ok(s: Seq<char>, base: int) -> bool {
    forall|i: int| 0 <= i < s.len() ==> digit_ok(s[i], base)
}

/// The value of the numeral `s` in the given base; an empty numeral counts
/// as zero.
pub open spec fn num_val(s: Seq<char>, base: int) -> int
    decreases s.len(),
{
    if s.len() == 0 {
        0
    } else {
        num_val(s.drop_last(), base) * base + digit_val(s.last())
    }
}

/// A numeral of valid digits has a non-negative value.
pub proof fn lemma_num_val_nonneg(s: Seq<char>, base: int)
    requires
        2 <= base,
        digits_ok(s, base),
    ensures
        num_val(s, base) >= 0,
    decreases s.len(),
{
    if s.len() > 0 {
        lemma_num_val_nonneg(s.drop_last(), base);
        assert(digit_val(s.last()) >= 0);
        assert(num_val(s.drop_last(), base) * base >= 0) by (nonlinear_arith)
            requires
                num_val(s.drop_last(), base) >= 0,
                base >= 2,
        ;
    }
}

/// A numeral's value only grows as digits are appended: every prefix of a
/// valid numeral is worth at most the whole.
pub proof fn lemma_num_val_prefix(s: Seq<char>, base: int, k: int)
    requires
        2 <= base,
        digits_ok(s, base),
        0 <= k <= s.len(),
    ensures
        0 <= num_val(s.take(k), base) <= num_val(s, base),
    decreases s.len() - k,
{
    assert(digits_ok(s.take(k), base));
    lemma_num_val_nonneg(s.take(k), base);
    if k == s.len() {
        assert(s.take(k) =~= s);
    } else {
        lemma_num_val_prefix(s, base, k + 1);
        assert(s.take(k + 1).drop_last() =~= s.take(k));
        assert(s.take(k + 1).last() == s[k]);
        let v = num_val(s.take(k), base);
        assert(v * base >= v) by (nonlinear_arith)
            requires
                v >= 0,
                base >= 2,
        ;
        assert(num_val(s.take(k + 1), base) == v * base + digit_val(s[k]));
        assert(digit_val(s[k]) >= 0);
    }
}

/// Parse one decimal digit.
pub fn parse_digit_b10(ch: char) -> (r: Result<u64, GadbErr>)
    ensures
        digit_ok(ch, 10) ==> (r matches Ok(v) && v == digit_val(ch)),
        !digit_ok(ch, 10) ==> r is Err,
{
    let c = ch as u32;
    if c < 48 || c > 57 {
        return error("error parsing integer");
    }
    Ok((c - 48) as u64)
}

/// Parse one digit of the given base: decimal always, either letter case
/// when the base is 16.
pub fn parse_digit(ch: char, base: u64) -> (r: Result<u64, GadbErr>)
    ensures
        digit_ok(ch, base as int) ==> (r matches Ok(v) && v == digit_val(ch)),
        !digit_ok(ch, base as int) ==> r is Err,
{
    let res = parse_digit_b10(ch);
    if res.is_ok() {
        return res;
    }
    let c = ch as u32;
    if base == 16 {
        if c >= 97 && c <= 102 {
            return Ok((c - 87) as u64);
        }
        if c >= 65 && c <= 70 {
            return Ok((c - 55) as u64);
        }
    }
    error("could not parse digit")
}

/// Whether the literal carries a hex prefix.
pub open spec fn hex_prefixed(s: Seq<char>) -> bool {
    s.len() >= 2 && s[0] == '0' && s[1] == 'x'
}

/// The digits of an integer literal: everything after a hex prefix, or the
/// whole literal.
pub open spec fn literal_body(s: Seq<char>) -> Seq<char> {
    if hex_prefixed(s) {
        s.subrange(2, s.len() as int)
    } else {
        s
    }
}

/// The base of an integer literal: 16 under a hex prefix, 10 otherwise.
pub open spec fn literal_base(s: Seq<char>) -> int {
    if hex_prefixed(s) {
        16
    } else {
        10
    }
}

/// Parse an unsigned integer literal: hex digits under a `0x` prefix,
/// decimal digits otherwise. Succeeds exactly on literals of valid digits
/// whose value fits in 64 bits; an empty digit string parses as zero.
pub fn parse_u64(s: &str) -> (r: Result<u64, GadbErr>)
    ensures
        r is Ok <==> (digits_ok(literal_body(s@), literal_base(s@)) && num_val(
            literal_body(s@),
            literal_base(s@),
        ) < 0x1_0000_0000_0000_0000),
        r matches Ok(v) ==> v == num_val(literal_body(s@), literal_base(s@)),
{
    let n = s.unicode_len();
    let prefixed: bool = n >= 2 && s.get_char(0) == '0' && s.get_char(1) == 'x';
    proof {
        reveal_strlit("0x");
        assert(prefixed == hex_prefixed(s@)) by {
            if n >= 2 {
                assert("0x"@[0] == '0' && "0x"@[1] == 'x');
            }
        }
    }
    let base: u64 = if prefixed {
        16
    } else {
        10
    };
    let start: usize = if prefixed {
        2
    } else {
        0
    };
    let ghost body = literal_body(s@);
    let mut val: u64 = 0;
    let mut i: usize = start;
    while i < n
        invariant
            start <= i <= n,
            n == s@.len(),
            base == literal_base(s@),
            start == if hex_prefixed(s@) {
                2int
            } else {
                0int
            },
            body == literal_body(s@),
            body.len() == n - start,
            forall|j: int| 0 <= j < body.len() ==> body[j] == s@[start + j],
            digits_ok(body.take(i - start), base as int),
            val == num_val(body.take(i - start), base as int),
        decreases n - i,
    {
        let ch = s.get_char(i);
        let d = match parse_digit(ch, base) {
            Ok(d) => d,
            Err(_) => {
                proof {
                    assert(body[i - start] == s@[i as int]);
                    assert(!digit_ok(body[i - start], base as int));
                }
                return error("could not parse integer");
            },
        };
        proof {
            assert(body.take(i - start + 1).drop_last() =~= body.take(i - start));
            assert(body.take(i - start + 1).last() == body[i - start]);
        }
        if val > (u64::MAX - d) / base {
            proof {
                let w: int = 0x1_0000_0000_0000_0000;
                let m: int = u64::MAX as int;
                let b: int = base as int;
                let dv: int = d as int;
                vstd::arithmetic::div_mod::lemma_fundamental_div_mod(m - dv, b);
                assert(val * b + dv > m) by (nonlinear_arith)
                    requires
                        val > (m - dv) / b,
                        b == 10 || b == 16,
                        0 <= dv < b,
                        (m - dv) == b * ((m - dv) / b) + ((m - dv) % b),
                        0 <= (m - dv) % b < b,
                        val >= 0,
                ;
                assert(num_val(body.take(i - start + 1), base as int) == val * b + dv);
                if digits_ok(body, base as int) {
                    lemma_num_val_prefix(body, base as int, i - start + 1);
                    assert(num_val(body, base as int) >= w);
                }
            }
            return error("could not parse integer");
        }
        proof {
            let m: int = u64::MAX as int;
            let b: int = base as int;
            let dv: int = d as int;
            vstd::arithmetic::div_mod::lemma_fundamental_div_mod(m - dv, b);
            assert(val * b + dv <= m) by (nonlinear_arith)
                requires
                    val <= (m - dv) / b,
                    b == 10 || b == 16,
                    0 <= dv < b,
                    (m - dv) == b * ((m - dv) / b) + ((m - dv) % b),
                    0 <= (m - dv) % b < b,
                    val >= 0,
            ;
        }
        val = val * base + d;
        i = i + 1;
    }
    proof {
        assert(body.take(n - start) =~= body);
    }
    Ok(val)
}

/// The position of the first comma in `s`, or `s.len()` if there is none.
pub open spec fn first_comma(s: Seq<char>) -> int
    decreases s.len(),
{
    if s.len() == 0 {
        0
    } else if s[0] == ',' {
        0
    } else {
        1 + first_comma(s.drop_first())
    }
}

/// A scan that passes `k` non-comma characters and stops at a comma or the
/// end has found the first comma.
proof fn lemma_first_comma_scan(s: Seq<char>, k: int)
    requires
        0 <= k <= s.len(),
        forall|j: int| 0 <= j < k ==> s[j] != ',',
        k == s.len() || s[k] == ',',
    ensures
        first_comma(s) == k,
    decreases s.len(),
{
    if s.len() > 0 && s[0] != ',' {
        let t = s.drop_first();
        assert(forall|j: int| 0 <= j < k - 1 ==> t[j] == s[j + 1]);
        lemma_first_comma_scan(t, k - 1);
    }
}

/// One byte token of a bracketed list: with `hex`, a `0x` prefix and hex
/// digits; without, bare decimal digits. The digits must be non-empty and
/// worth less than 256.
pub open spec fn token_ok(t: Seq<char>, hex: bool) -> bool {
    if hex {
        t.len() >= 3 && t[0] == '0' && t[1] == 'x' && digits_ok(t.subrange(2, t.len() as int), 16)
            && num_val(t.subrange(2, t.len() as int), 16) < 256
    } else {
        t.len() >= 1 && digits_ok(t, 10) && num_val(t, 10) < 256
    }
}

/// The byte a valid token stands for.
pub open spec fn token_byte(t: Seq<char>, hex: bool) -> u8 {
    if hex {
        num_val(t.subrange(2, t.len() as int), 16) as u8
    } else {
        num_val(t, 10) as u8
    }
}

/// The bytes of a comma-separated token list, or nothing if any token is
/// malformed. The empty list has one empty token and is malformed.
pub open spec fn list_bytes(s: Seq<char>, hex: bool) -> Option<Seq<u8>>
    decreases s.len(),
{
    let c = first_comma(s);
    if c < 0 || c > s.len() {
        None
    } else {
        let tok = s.take(c);
        if !token_ok(tok, hex) {
            None
        } else if c == s.len() {
            Some(seq![token_byte(tok, hex)])
        } else {
            match list_bytes(s.subrange(c + 1, s.len() as int), hex) {
                Some(rest) => Some(seq![token_byte(tok, hex)] + rest),
                None => None,
            }
        }
    }
}

/// The bytes a bracketed byte-list literal stands for: `[` tokens `]`, or
/// nothing if the brackets or any token are malformed.
pub open spec fn byte_list_spec(s: Seq<char>, hex: bool) -> Option<Seq<u8>> {
    if s.len() >= 1 && s[0] == '[' && s[s.len() - 1] == ']' {
        list_bytes(s.subrange(1, s.len() - 1), hex)
    } else {
        None
    }
}

/// Parse a bracketed byte list, in hex (`[0xHH,...]`) or decimal
/// (`[NNN,...]`) form. Succeeds exactly on literals the grammar admits and
/// yields their bytes in order.
#[verifier::loop_isolation(false)]
#[verifier::rlimit(100)]
#[verifier::spinoff_prover]
fn parse_byte_list(s: &str, hex: bool) -> (r: Result<Vec<u8>, GadbErr>)
    ensures
        r is Ok <==> byte_list_spec(s@, hex) is Some,
        r matches Ok(v) ==> byte_list_spec(s@, hex) == Some(v@),
        hex ==> (r matches Err(e) ==> (e.msg@ == "could not parse; expected [0xaa,0xbb,...]"@
            || e.msg@.subrange(0, 21) == "could not parse byte "@)),
{
    proof {
        reveal_strlit("could not parse byte ");
    }
    proof {
        reveal_strlit("[");
        reveal_strlit("]");
        reveal_strlit(",");
        reveal_strlit("0");
        reveal_strlit("x");
    }
    let n = s.unicode_len();
    if n < 1 || s.get_char(0) != '[' || s.get_char(n - 1) != ']' {
        if hex {
            return error("could not parse; expected [0xaa,0xbb,...]");
        }
        return error("could not parse vec");
    }
    let ghost inner = s@.subrange(1, n - 1);
    let base: u64 = if hex {
        16
    } else {
        10
    };
    let mut out: Vec<u8> = Vec::new();
    let mut i: usize = 1;
    proof {
        assert(byte_list_spec(s@, hex) == list_bytes(inner, hex));
        if let Some(r) = list_bytes(inner, hex) {
            assert(out@ + r =~= r);
        }
    }
    loop
        invariant
            1 <= i <= n - 1,
            n == s@.len(),
            n >= 2,
            s@[0] == '[',
            s@[n - 1] == ']',
            inner == s@.subrange(1, n - 1),
            base == if hex {
                16int
            } else {
                10int
            },
            ({
                let rest = s@.subrange(i as int, n - 1);
                byte_list_spec(s@, hex) == match list_bytes(rest, hex) {
                    Some(r) => Some(out@ + r),
                    None => None::<Seq<u8>>,
                }
            }),
        decreases n - i,
    {
        let ghost rest = s@.subrange(i as int, n - 1);
        let mut te: usize = i;
        while te < n - 1 && s.get_char(te) != ','
            invariant
                i <= te <= n - 1,
                n == s@.len(),
                forall|j: int| i <= j < te ==> s@[j] != ',',
            decreases n - te,
        {
            te = te + 1;
        }
        proof {
            assert(forall|j: int| 0 <= j < rest.len() ==> rest[j] == s@[i + j]);
            lemma_first_comma_scan(rest, te - i);
        }
        let ghost tok = rest.take(te - i);
        proof {
            assert(forall|j: int| 0 <= j < tok.len() ==> tok[j] == s@[i + j]);
        }
        let mut ds: usize = i;
        if hex {
            if te - i < 3 || s.get_char(i) != '0' || s.get_char(i + 1) != 'x' {
                proof {
                    assert(!token_ok(tok, hex));
                }
                let mut msg = String::from_str("could not parse byte ");
                msg.append(s.substring_char(i, te));
                msg.append(" (expecting hex value with 0x prefix)");
                proof {
                    assert(msg@.subrange(0, 21) =~= "could not parse byte "@);
                }
                return Err(GadbErr { msg });
            }
            ds = i + 2;
        } else {
            if te == i {
                proof {
                    assert(!token_ok(tok, hex));
                }
                return error("could not parse vec");
            }
        }
        let ghost digits = if hex {
            tok.subrange(2, tok.len() as int)
        } else {
            tok
        };
        proof {
            assert(digits.len() == te - ds);
            assert(forall|j: int| 0 <= j < digits.len() ==> digits[j] == s@[ds + j]);
        }
        let mut v: u64 = 0;
        let mut j: usize = ds;
        while j < te
            invariant
                ds <= j <= te,
                te <= n - 1,
                n == s@.len(),
                base == if hex {
                    16int
                } else {
                    10int
                },
                digits.len() == te - ds,
                forall|k: int| 0 <= k < digits.len() ==> digits[k] == s@[ds + k],
                digits_ok(digits.take(j - ds), base as int),
                v == num_val(digits.take(j - ds), base as int),
                v < 256,
            decreases te - j,
        {
            let ch = s.get_char(j);
            let d = match parse_digit(ch, base) {
                Ok(d) => d,
                Err(_) => {
                    proof {
                        assert(digits[j - ds] == s@[j as int]);
                        assert(!digits_ok(digits, base as int));
                        assert(!token_ok(tok, hex));
                    }
                    if hex {
                        let mut msg = String::from_str("could not parse byte ");
                        msg.append(s.substring_char(i, te));
                        proof {
                            assert(msg@.subrange(0, 21) =~= "could not parse byte "@);
                        }
                        return Err(GadbErr { msg });
                    }
                    return error("could not parse vec");
                },
            };
            proof {
                assert(digits.take(j - ds + 1).drop_last() =~= digits.take(j - ds));
                assert(digits.take(j - ds + 1).last() == digits[j - ds]);
            }
            let next = v * base + d;
            if next > 255 {
                proof {
                    assert(num_val(digits.take(j - ds + 1), base as int) == next);
                    if digits_ok(digits, base as int) {
                        lemma_num_val_prefix(digits, base as int, j - ds + 1);
                        assert(num_val(digits, base as int) >= 256);
                    }
                    assert(!token_ok(tok, hex));
                }
                if hex {
                    let mut msg = String::from_str("could not parse byte ");
                    msg.append(s.substring_char(i, te));
                    proof {
                        assert(msg@.subrange(0, 21) =~= "could not parse byte "@);
                    }
                    return Err(GadbErr { msg });
                }
                return error("could not parse vec");
            }
            v = next;
            j = j + 1;
        }
        proof {
            assert(digits.take(te - ds) =~= digits);
            assert(token_ok(tok, hex));
            assert(token_byte(tok, hex) == v as u8);
        }
        let ghost out_prev = out@;
        out.push(v as u8);
        if te == n - 1 {
            proof {
                assert(first_comma(rest) == rest.len());
                assert(rest.take(rest.len() as int) =~= rest);
                assert(tok =~= rest);
                assert(list_bytes(rest, hex) == Some(seq![token_byte(tok, hex)]));
                assert(out_prev + seq![token_byte(tok, hex)] =~= out@);
            }
            return Ok(out);
        }
        proof {
            let c = first_comma(rest);
            assert(c == te - i && c < rest.len());
            let restp = s@.subrange(te + 1, n - 1);
            assert(rest.subrange(c + 1, rest.len() as int) =~= restp);
            assert(list_bytes(rest, hex) == (match list_bytes(restp, hex) {
                Some(r) => Some(seq![token_byte(tok, hex)] + r),
                None => None::<Seq<u8>>,
            }));
            if let Some(r) = list_bytes(restp, hex) {
                assert(out_prev + (seq![token_byte(tok, hex)] + r) =~= out@ + r);
            }
        }
        i = te + 1;
    }
}

/// Parse a hex byte-vector literal `[0xHH,0xHH,...]`. Succeeds exactly on
/// literals of that shape whose every byte fits, yielding the bytes in
/// order.
pub fn parse_hex_vec(s: &str) -> (r: Result<Vec<u8>, GadbErr>)
    ensures
        r is Ok <==> byte_list_spec(s@, true) is Some,
        r matches Ok(v) ==> byte_list_spec(s@, true) == Some(v@),
        r matches Err(e) ==> (e.msg@ == "could not parse; expected [0xaa,0xbb,...]"@ || e.msg@
            .subrange(0, 21) == "could not parse byte "@),
{
    parse_byte_list(s, true)
}

/// Parse a decimal byte-vector literal `[NNN,NNN,...]` into a fixed-width
/// array: the first `N` bytes of the list, which must supply at least `N`
/// and whose every token must be a valid byte.
pub fn parse_vec<const N: usize>(s: &str) -> (r: Result<[u8; N], GadbErr>)
    ensures
        r is Ok <==> (byte_list_spec(s@, false) matches Some(bs) && bs.len() >= N),
        r matches Ok(a) ==> (byte_list_spec(s@, false) matches Some(bs) && a@ == bs.take(N as int)),
{
    let v = match parse_byte_list(s, false) {
        Ok(v) => v,
        Err(e) => {
            return Err(e);
        },
    };
    if v.len() < N {
        return error("could not parse vec");
    }
    let mut out: [u8; N] = [0u8; N];
    let mut i: usize = 0;
    while i < N
        invariant
            i <= N,
            v@.len() >= N,
            out@.len() == N,
            forall|j: int| 0 <= j < i ==> out@[j] == v@[j],
        decreases N - i,
    {
        out[i] = v[i];
        i = i + 1;
    }
    proof {
        let bs = byte_list_spec(s@, false)->Some_0;
        assert(out@ =~= bs.take(N as int));
    }
    Ok(out)
}

/// `s` with its first and last characters removed; shorter strings have
/// nothing left.
pub fn remove_first_and_last(s: &str) -> (r: &str)
    ensures
        s@.len() >= 2 ==> r@ == s@.subrange(1, s@.len() - 1),
        s@.len() < 2 ==> r@.len() == 0,
{
    let n = s.unicode_len();
    if n < 2 {
        proof {
            reveal_strlit("");
        }
        return "";
    }
    s.substring_char(1, n - 1)
}

} // verus!
