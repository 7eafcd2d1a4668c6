//! Parsing of the small text files the samplers read (sysfs counters,
//! `/proc/stat`): ASCII trimming and decimal integers, with the exact
//! acceptance condition in the contract.
use vstd::prelude::*;

use crate::error::{CliError, ErrorKind};

verus! {

/// ASCII whitespace, as `u8::is_ascii_whitespace` defines it.
pub open spec fn is_space(b: u8) -> bool {
    b == 0x20 || b == 0x09 || b == 0x0a || b == 0x0c || b == 0x0d
}

/// ASCII decimal digit.
pub open spec fn is_digit(b: u8) -> bool {
    0x30 <= b <= 0x39
}

pub open spec fn all_digits(s: Seq<u8>) -> bool {
    forall|i: int| 0 <= i < s.len() ==> is_digit(#[trigger] s[i])
}

/// The number a digit sequence denotes in decimal.
pub open spec fn dec_value(s: Seq<u8>) -> nat
    decreases s.len(),
{
    if s.len() == 0 {
        0
    } else {
        dec_value(s.drop_last()) * 10 + ((s.last() - 0x30) as nat)
    }
}

pub open spec fn trim_start(s: Seq<u8>) -> Seq<u8>
    decreases s.len(),
{
    if s.len() > 0 && is_space(s[0]) {
        trim_start(s.drop_first())
    } else {
        s
    }
}

pub open spec fn trim_end(s: Seq<u8>) -> Seq<u8>
    decreases s.len(),
{
    if s.len() > 0 && is_space(s.last()) {
        trim_end(s.drop_last())
    } else {
        s
    }
}

/// `s` with ASCII whitespace removed from both ends.
pub open spec fn trim(s: Seq<u8>) -> Seq<u8> {
    trim_end(trim_start(s))
}

/// The digit part of an unsigned decimal: everything after one optional `+`.
pub open spec fn u64_digits(s: Seq<u8>) -> Seq<u8> {
    if s.len() > 0 && s[0] == 0x2b {
        s.drop_first()
    } else {
        s
    }
}

/// `s` is exactly what `str::parse::<u64>` accepts: an optional `+`,
/// then at least one digit, denoting a value that fits in a `u64`.
pub open spec fn valid_u64(s: Seq<u8>) -> bool {
    &&& u64_digits(s).len() > 0
    &&& all_digits(u64_digits(s))
    &&& dec_value(u64_digits(s)) <= u64::MAX
}

/// The digit part of a signed decimal: everything after one optional sign.
pub open spec fn i64_digits(s: Seq<u8>) -> Seq<u8> {
    if s.len() > 0 && (s[0] == 0x2b || s[0] == 0x2d) {
        s.drop_first()
    } else {
        s
    }
}

pub open spec fn i64_negative(s: Seq<u8>) -> bool {
    s.len() > 0 && s[0] == 0x2d
}

/// The signed value `s` denotes.
pub open spec fn i64_value(s: Seq<u8>) -> int {
    if i64_negative(s) {
        -(dec_value(i64_digits(s)) as int)
    } else {
        dec_value(i64_digits(s)) as int
    }
}

/// `s` is exactly what `str::parse::<i64>` accepts: an optional sign,
/// then at least one digit, denoting a value that fits in an `i64`.
pub open spec fn valid_i64(s: Seq<u8>) -> bool {
    &&& i64_digits(s).len() > 0
    &&& all_digits(i64_digits(s))
    &&& i64::MIN <= i64_value(s) <= i64::MAX
}

/// A digit prefix never denotes more than the whole digit sequence.
pub proof fn lemma_dec_value_prefix(s: Seq<u8>, i: int)
    requires
        0 <= i <= s.len(),
    ensures
        dec_value(s.take(i)) <= dec_value(s),
    decreases s.len(),
{
    if i < s.len() {
        assert(s.drop_last().take(i) =~= s.take(i));
        lemma_dec_value_prefix(s.drop_last(), i);
    } else {
        assert(s.take(i) =~= s);
    }
}

/// `s` with ASCII whitespace removed from both ends.
pub fn trim_slice<'a>(s: &'a [u8]) -> (r: &'a [u8])
    ensures
        r@ == trim(s@),
{
    let mut a: usize = 0;
    let mut b: usize = s.len();
    assert(s@.skip(0) =~= s@);
    while a < b && is_space_byte(s[a])
        invariant
            0 <= a <= b <= s@.len(),
            b == s@.len(),
            trim_start(s@) == trim_start(s@.skip(a as int)),
        decreases b - a,
    {
        assert(s@.skip(a as int).drop_first() =~= s@.skip(a + 1));
        a = a + 1;
    }
    assert(trim_start(s@) =~= s@.skip(a as int));
    assert(s@.subrange(a as int, b as int) =~= s@.skip(a as int));
    while a < b && is_space_byte(s[b - 1])
        invariant
            0 <= a <= b <= s@.len(),
            trim_start(s@) == s@.skip(a as int),
            trim_end(s@.skip(a as int)) == trim_end(s@.subrange(a as int, b as int)),
        decreases b - a,
    {
        assert(s@.subrange(a as int, b as int).drop_last() =~= s@.subrange(
            a as int,
            b - 1,
        ));
        b = b - 1;
    }
    assert(trim_end(s@.subrange(a as int, b as int)) =~= s@.subrange(a as int, b as int));
    vstd::slice::slice_subrange(s, a, b)
}

/// Whether `b` is ASCII whitespace.
pub fn is_space_byte(b: u8) -> (r: bool)
    ensures
        r == is_space(b),
{
    b == 0x20 || b == 0x09 || b == 0x0a || b == 0x0c || b == 0x0d
}

/// Parse `s` (all of it, no surrounding whitespace) as a decimal `u64`.
/// Succeeds exactly on the inputs `str::parse::<u64>` accepts.
pub fn parse_u64(s: &[u8]) -> (r: Result<u64, CliError>)
    ensures
        r is Ok <==> valid_u64(s@),
        r is Ok ==> r->Ok_0 == dec_value(u64_digits(s@)),
        r is Err ==> r->Err_0.kind == ErrorKind::Parse,
{
    let start: usize = if s.len() > 0 && s[0] == 0x2b {
        1
    } else {
        0
    };
    let ghost d = u64_digits(s@);
    assert(d =~= s@.skip(start as int));
    if s.len() == start {
        return Err(CliError::from_msg(
            ErrorKind::Parse,
            invalid_u64_msg().as_slice(),
        ));
    }
    let mut acc: u64 = 0;
    let mut i: usize = start;
    while i < s.len()
        invariant
            start <= i <= s@.len(),
            s@.len() > start,
            d == s@.skip(start as int),
            d == u64_digits(s@),
            all_digits(d.take(i - start)),
            acc == dec_value(d.take(i - start)),
        decreases s@.len() - i,
    {
        let b = s[i];
        if b < 0x30 || b > 0x39 {
            assert(!is_digit(d[i - start]));
            return Err(CliError::from_msg(
                ErrorKind::Parse,
                invalid_u64_msg().as_slice(),
            ));
        }
        let digit = (b - 0x30) as u64;
        if acc > (u64::MAX - digit) / 10 {
            proof {
                assert(acc * 10 + digit > u64::MAX) by (nonlinear_arith)
                    requires
                        acc > (u64::MAX - digit) / 10,
                        digit <= 9,
                ;
                assert(d.take(i - start + 1).drop_last() =~= d.take(i - start));
                assert(dec_value(d.take(i - start + 1)) > u64::MAX);
                lemma_dec_value_prefix(d, i - start + 1);
            }
            return Err(CliError::from_msg(
                ErrorKind::Parse,
                invalid_u64_msg().as_slice(),
            ));
        }
        proof {
            assert(acc * 10 + digit <= u64::MAX) by (nonlinear_arith)
                requires
                    acc <= (u64::MAX - digit) / 10,
                    digit <= 9,
            ;
            assert(d.take(i - start + 1).drop_last() =~= d.take(i - start));
        }
        acc = acc * 10 + digit;
        i = i + 1;
    }
    assert(d.take(i - start) =~= d);
    Ok(acc)
}

/// Parse `s` (all of it, no surrounding whitespace) as a decimal `i64`.
/// Succeeds exactly on the inputs `str::parse::<i64>` accepts.
pub fn parse_i64(s: &[u8]) -> (r: Result<i64, CliError>)
    ensures
        r is Ok <==> valid_i64(s@),
        r is Ok ==> r->Ok_0 == i64_value(s@),
        r is Err ==> r->Err_0.kind == ErrorKind::Parse,
{
    let negative: bool = s.len() > 0 && s[0] == 0x2d;
    let start: usize = if s.len() > 0 && (s[0] == 0x2b || s[0] == 0x2d) {
        1
    } else {
        0
    };
    let ghost d = i64_digits(s@);
    assert(d =~= s@.skip(start as int));
    if s.len() == start {
        return Err(CliError::from_msg(
            ErrorKind::Parse,
            invalid_i64_msg().as_slice(),
        ));
    }
    // The magnitude may not pass 2^63 for a negative number,
    // nor 2^63 - 1 for a positive one.
    let limit: u64 = if negative {
        0x8000_0000_0000_0000
    } else {
        0x7fff_ffff_ffff_ffff
    };
    let mut acc: u64 = 0;
    let mut i: usize = start;
    while i < s.len()
        invariant
            start <= i <= s@.len(),
            s@.len() > start,
            d == s@.skip(start as int),
            d == i64_digits(s@),
            negative == i64_negative(s@),
            all_digits(d.take(i - start)),
            acc == dec_value(d.take(i - start)),
            acc <= limit,
            limit == if negative {
                0x8000_0000_0000_0000u64
            } else {
                0x7fff_ffff_ffff_ffffu64
            },
        decreases s@.len() - i,
    {
        let b = s[i];
        if b < 0x30 || b > 0x39 {
            assert(!is_digit(d[i - start]));
            return Err(CliError::from_msg(
                ErrorKind::Parse,
                invalid_i64_msg().as_slice(),
            ));
        }
        let digit = (b - 0x30) as u64;
        if acc > (limit - digit) / 10 {
            proof {
                assert(acc * 10 + digit > limit) by (nonlinear_arith)
                    requires
                        acc > (limit - digit) / 10,
                        digit <= 9,
                        digit <= limit,
                ;
                assert(d.take(i - start + 1).drop_last() =~= d.take(i - start));
                assert(dec_value(d.take(i - start + 1)) > limit);
                lemma_dec_value_prefix(d, i - start + 1);
            }
            return Err(CliError::from_msg(
                ErrorKind::Parse,
                invalid_i64_msg().as_slice(),
            ));
        }
        proof {
            assert(acc * 10 + digit <= limit) by (nonlinear_arith)
                requires
                    acc <= (limit - digit) / 10,
                    digit <= 9,
                    digit <= limit,
            ;
            assert(d.take(i - start + 1).drop_last() =~= d.take(i - start));
        }
        acc = acc * 10 + digit;
        i = i + 1;
    }
    assert(d.take(i - start) =~= d);
    if negative {
        if acc == 0x8000_0000_0000_0000 {
            Ok(i64::MIN)
        } else {
            Ok(-(acc as i64))
        }
    } else {
        Ok(acc as i64)
    }
}

/// Parse the trimmed content of a small text file as a `u64`, as the
/// sysfs counters are read: trim ASCII whitespace, then parse in decimal.
pub fn read_file_as_u64(content: &[u8]) -> (r: Result<u64, CliError>)
    ensures
        r is Ok <==> valid_u64(trim(content@)),
        r is Ok ==> r->Ok_0 == dec_value(u64_digits(trim(content@))),
        r is Err ==> r->Err_0.kind == ErrorKind::Parse,
{
    parse_u64(trim_slice(content))
}

/// Parse the trimmed content of a small text file as an `i64`.
pub fn read_file_as_i64(content: &[u8]) -> (r: Result<i64, CliError>)
    ensures
        r is Ok <==> valid_i64(trim(content@)),
        r is Ok ==> r->Ok_0 == i64_value(trim(content@)),
        r is Err ==> r->Err_0.kind == ErrorKind::Parse,
{
    parse_i64(trim_slice(content))
}

/// "invalid unsigned integer"
fn invalid_u64_msg() -> (r: Vec<u8>)
{
    let lit: [u8; 24] = [
        0x69, 0x6e, 0x76, 0x61, 0x6c, 0x69, 0x64, 0x20, 0x75, 0x6e, 0x73, 0x69, 0x67, 0x6e,
        0x65, 0x64, 0x20, 0x69, 0x6e, 0x74, 0x65, 0x67, 0x65, 0x72,
    ];
    let mut v: Vec<u8> = Vec::new();
    crate::text::push_bytes(&mut v, lit.as_slice());
    v
}

/// "invalid signed integer"
fn invalid_i64_msg() -> (r: Vec<u8>)
{
    let lit: [u8; 22] = [
        0x69, 0x6e, 0x76, 0x61, 0x6c, 0x69, 0x64, 0x20, 0x73, 0x69, 0x67, 0x6e, 0x65, 0x64,
        0x20, 0x69, 0x6e, 0x74, 0x65, 0x67, 0x65, 0x72,
    ];
    let mut v: Vec<u8> = Vec::new();
    crate::text::push_bytes(&mut v, lit.as_slice());
    v
}

} // verus!
