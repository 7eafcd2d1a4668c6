//! Audio volume sampler: parses the volume query's captured standard
//! output, of the shape "Volume: 0.45" with an optional " [MUTED]" tail,
//! into a percentage. The volume figure is read as a fixed-point decimal:
//! the whole part times one hundred plus the first two fractional digits,
//! further digits truncated. Running the subprocess happens outside the
//! library.
use vstd::prelude::*;

use crate::block::{BarColor, SwayBarBlock};
use crate::error::{CliError, ErrorKind};
use crate::parse::{all_digits, dec_value, is_digit, trim};
use crate::text::dec;

verus! {

/// "Volume: "
pub open spec fn sound_prefix() -> Seq<u8> {
    seq![0x56u8, 0x6f, 0x6c, 0x75, 0x6d, 0x65, 0x3a, 0x20]
}

/// " [MUTED]"
pub open spec fn muted_suffix() -> Seq<u8> {
    seq![0x20u8, 0x5b, 0x4d, 0x55, 0x54, 0x45, 0x44, 0x5d]
}

pub open spec fn has_prefix(s: Seq<u8>, p: Seq<u8>) -> bool {
    s.len() >= p.len() && s.take(p.len() as int) == p
}

pub open spec fn has_suffix(s: Seq<u8>, p: Seq<u8>) -> bool {
    s.len() >= p.len() && s.skip(s.len() - p.len()) == p
}

/// Index of the first dot of `v`, or its length when it has none.
pub open spec fn dot_pos(v: Seq<u8>) -> int
    decreases v.len(),
{
    if v.len() == 0 {
        0
    } else if v[0] == 0x2e {
        0
    } else {
        1 + dot_pos(v.drop_first())
    }
}

/// The whole part of a decimal volume figure.
pub open spec fn vol_int_part(v: Seq<u8>) -> Seq<u8> {
    v.take(dot_pos(v))
}

/// The fractional digits of a decimal volume figure.
pub open spec fn vol_frac_part(v: Seq<u8>) -> Seq<u8> {
    if dot_pos(v) < v.len() {
        v.skip(dot_pos(v) + 1)
    } else {
        Seq::empty()
    }
}

/// A decimal volume figure: digits with at most one dot, at least one
/// digit in all.
pub open spec fn valid_vol(v: Seq<u8>) -> bool {
    &&& all_digits(vol_int_part(v))
    &&& all_digits(vol_frac_part(v))
    &&& vol_int_part(v).len() + vol_frac_part(v).len() > 0
}

/// The first two fractional digits as a number of hundredths, a missing
/// digit counting as zero.
pub open spec fn frac2(f: Seq<u8>) -> nat {
    if f.len() == 0 {
        0
    } else if f.len() == 1 {
        ((f[0] - 0x30) as nat) * 10
    } else {
        ((f[0] - 0x30) as nat) * 10 + ((f[1] - 0x30) as nat)
    }
}

/// The percentage a volume figure denotes: the whole part times one
/// hundred plus its first two fractional digits.
pub open spec fn vol_value(v: Seq<u8>) -> nat {
    dec_value(vol_int_part(v)) * 100 + frac2(vol_frac_part(v))
}

/// The trimmed output with the "Volume: " prefix removed.
pub open spec fn sound_rest(out: Seq<u8>) -> Seq<u8> {
    trim(out).skip(sound_prefix().len() as int)
}

/// Whether the output carries the " [MUTED]" tail.
pub open spec fn sound_muted(out: Seq<u8>) -> bool {
    has_suffix(sound_rest(out), muted_suffix())
}

/// The volume figure of the output: the rest without the muted tail.
pub open spec fn sound_vol_str(out: Seq<u8>) -> Seq<u8> {
    if sound_muted(out) {
        sound_rest(out).take(sound_rest(out).len() - muted_suffix().len())
    } else {
        sound_rest(out)
    }
}

/// The output parses: the prefix is there, the volume figure is a
/// decimal, and the percentage fits in a `u32`.
pub open spec fn valid_sound(out: Seq<u8>) -> bool {
    &&& has_prefix(trim(out), sound_prefix())
    &&& valid_vol(sound_vol_str(out))
    &&& vol_value(sound_vol_str(out)) <= u32::MAX
}

/// "\u{1F507}: " when muted, "\u{266A}: " otherwise, then the
/// percentage then "%".
pub open spec fn sound_text(vol: nat, muted: bool) -> Seq<u8> {
    (if muted {
        seq![0xf0u8, 0x9f, 0x94, 0x87, 0x3a, 0x20]
    } else {
        seq![0xe2u8, 0x99, 0xaa, 0x3a, 0x20]
    }) + dec(vol) + seq![0x25u8]
}

/// Whether `s` starts with `p`.
fn starts_with(s: &[u8], p: &[u8]) -> (r: bool)
    ensures
        r == has_prefix(s@, p@),
{
    if s.len() < p.len() {
        return false;
    }
    let mut i: usize = 0;
    while i < p.len()
        invariant
            0 <= i <= p@.len() <= s@.len(),
            forall|k: int| 0 <= k < i ==> s@[k] == p@[k],
        decreases p@.len() - i,
    {
        if s[i] != p[i] {
            assert(s@.take(p@.len() as int)[i as int] != p@[i as int]);
            return false;
        }
        i = i + 1;
    }
    assert(s@.take(p@.len() as int) =~= p@);
    true
}

/// Whether `s` ends with `p`.
fn ends_with(s: &[u8], p: &[u8]) -> (r: bool)
    ensures
        r == has_suffix(s@, p@),
{
    if s.len() < p.len() {
        return false;
    }
    let offset = s.len() - p.len();
    let mut i: usize = 0;
    while i < p.len()
        invariant
            0 <= i <= p@.len() <= s@.len(),
            s@.len() <= usize::MAX,
            offset == s@.len() - p@.len(),
            forall|k: int| 0 <= k < i ==> s@[offset + k] == p@[k],
        decreases p@.len() - i,
    {
        if s[offset + i] != p[i] {
            assert(s@.skip(offset as int)[i as int] != p@[i as int]);
            return false;
        }
        i = i + 1;
    }
    assert(s@.skip(offset as int) =~= p@);
    true
}

/// Parse a volume figure into hundredths. Succeeds exactly on decimal
/// figures whose percentage fits in a `u32`.
fn parse_vol(v: &[u8]) -> (r: Option<u32>)
    ensures
        r is Some <==> valid_vol(v@) && vol_value(v@) <= u32::MAX,
        r is Some ==> r->0 == vol_value(v@),
{
    let ghost ip = vol_int_part(v@);
    let ghost fp = vol_frac_part(v@);
    // Find the dot.
    let mut p: usize = 0;
    assert(v@.skip(0) =~= v@);
    while p < v.len() && v[p] != 0x2e
        invariant
            0 <= p <= v@.len(),
            dot_pos(v@) == p + dot_pos(v@.skip(p as int)),
        decreases v@.len() - p,
    {
        assert(v@.skip(p as int).drop_first() =~= v@.skip(p + 1));
        p = p + 1;
    }
    assert(dot_pos(v@) == p as int);
    assert(ip =~= v@.subrange(0, p as int));
    if p == 0 && v.len() == 0 {
        return None;
    }
    // Parse the whole part, bailing once the percentage cannot fit.
    let mut acc: u64 = 0;
    let mut i: usize = 0;
    while i < p
        invariant
            0 <= i <= p <= v@.len(),
            ip == v@.subrange(0, p as int),
            dot_pos(v@) == p as int,
            all_digits(ip.take(i as int)),
            acc == dec_value(ip.take(i as int)),
            acc <= u32::MAX,
        decreases p - i,
    {
        let b = v[i];
        if b < 0x30 || b > 0x39 {
            assert(!is_digit(ip[i as int]));
            return None;
        }
        proof {
            assert(ip.take(i + 1).drop_last() =~= ip.take(i as int));
        }
        acc = acc * 10 + (b - 0x30) as u64;
        if acc > 0xffff_ffff {
            proof {
                crate::parse::lemma_dec_value_prefix(ip, i + 1);
            }
            return None;
        }
        i = i + 1;
    }
    assert(ip.take(p as int) =~= ip);
    // Read up to two fractional digits; any further ones must still be
    // digits for the figure to be well-formed.
    let mut f2: u64 = 0;
    if p < v.len() {
        assert(fp =~= v@.subrange(p + 1, v@.len() as int));
        if p + 1 == v.len() && p == 0 {
            // A lone dot has no digits at all.
            return None;
        }
        let mut j: usize = p + 1;
        while j < v.len()
            invariant
                p + 1 <= j <= v@.len(),
                dot_pos(v@) == p as int,
                fp == v@.subrange(p + 1, v@.len() as int),
                fp == vol_frac_part(v@),
                all_digits(fp.take(j - p - 1)),
            decreases v@.len() - j,
        {
            let b = v[j];
            if b < 0x30 || b > 0x39 {
                assert(!is_digit(fp[j - p - 1]));
                return None;
            }
            assert(fp.take(j - p) =~= fp.take(j - p - 1).push(fp[j - p - 1]));
            j = j + 1;
        }
        assert(fp.take(v@.len() - p - 1) =~= fp);
        assert(all_digits(fp));
        if v.len() - p - 1 >= 1 {
            assert(fp[0] == v@[p + 1] && is_digit(fp[0]));
        }
        if v.len() - p - 1 >= 2 {
            assert(fp[1] == v@[p + 2] && is_digit(fp[1]));
        }
        f2 = if v.len() - p - 1 == 0 {
            0
        } else if v.len() - p - 1 == 1 {
            ((v[p + 1] - 0x30) as u64) * 10
        } else {
            ((v[p + 1] - 0x30) as u64) * 10 + (v[p + 2] - 0x30) as u64
        };
        assert(f2 == frac2(fp));
    } else {
        assert(fp =~= Seq::<u8>::empty());
    }
    let total: u64 = acc * 100 + f2;
    if total > 0xffff_ffff {
        return None;
    }
    Some(total as u32)
}

/// Build the sound block from the volume query's captured output.
pub fn get_sound(output: &[u8]) -> (r: Result<SwayBarBlock, CliError>)
    ensures
        r is Ok <==> valid_sound(output@),
        r is Ok ==> {
            let vol = vol_value(sound_vol_str(output@));
            let muted = sound_muted(output@);
            &&& r->Ok_0.name@ == seq![0x73u8, 0x6f, 0x75, 0x6e, 0x64]
            &&& r->Ok_0.full_text@ == sound_text(vol, muted)
            &&& r->Ok_0.color == (if muted {
                Some(BarColor::Yellow)
            } else {
                None::<BarColor>
            })
            &&& r->Ok_0.min_width is None
            &&& r->Ok_0.urgent is None
        },
        r is Err ==> r->Err_0.kind == ErrorKind::Parse,
{
    let trimmed = crate::parse::trim_slice(output);
    // "Volume: "
    let prefix: [u8; 8] = [0x56, 0x6f, 0x6c, 0x75, 0x6d, 0x65, 0x3a, 0x20];
    assert(prefix@ =~= sound_prefix());
    if !starts_with(trimmed, prefix.as_slice()) {
        assert(!has_prefix(trim(output@), sound_prefix()));
        return Err(sound_parse_error());
    }
    let rest = vstd::slice::slice_subrange(trimmed, 8, trimmed.len());
    assert(rest@ =~= sound_rest(output@));
    // " [MUTED]"
    let suffix: [u8; 8] = [0x20, 0x5b, 0x4d, 0x55, 0x54, 0x45, 0x44, 0x5d];
    assert(suffix@ =~= muted_suffix());
    let muted = ends_with(rest, suffix.as_slice());
    let vol_str = if muted {
        vstd::slice::slice_subrange(rest, 0, rest.len() - 8)
    } else {
        rest
    };
    assert(vol_str@ =~= sound_vol_str(output@));
    let vol = match parse_vol(vol_str) {
        Some(x) => x,
        None => {
            return Err(sound_parse_error());
        },
    };
    // "sound"
    let name_lit: [u8; 5] = [0x73, 0x6f, 0x75, 0x6e, 0x64];
    let mut name: Vec<u8> = Vec::new();
    crate::text::push_bytes(&mut name, name_lit.as_slice());
    let mut text: Vec<u8> = Vec::new();
    if muted {
        // "\u{1F507}: "
        let emoji: [u8; 6] = [0xf0, 0x9f, 0x94, 0x87, 0x3a, 0x20];
        crate::text::push_bytes(&mut text, emoji.as_slice());
    } else {
        // "\u{266A}: "
        let emoji: [u8; 5] = [0xe2, 0x99, 0xaa, 0x3a, 0x20];
        crate::text::push_bytes(&mut text, emoji.as_slice());
    }
    crate::text::push_dec(&mut text, vol as u64);
    text.push(0x25);
    assert(text@ =~= sound_text(vol_value(sound_vol_str(output@)), muted));
    let color: Option<BarColor> = if muted {
        Some(BarColor::Yellow)
    } else {
        None
    };
    Ok(SwayBarBlock { name, full_text: text, min_width: None, urgent: None, color })
}

/// "failed to extract sound volume"
fn sound_parse_error() -> (r: CliError)
    ensures
        r.kind == ErrorKind::Parse,
{
    let msg: [u8; 30] = [
        0x66, 0x61, 0x69, 0x6c, 0x65, 0x64, 0x20, 0x74, 0x6f, 0x20, 0x65, 0x78, 0x74, 0x72,
        0x61, 0x63, 0x74, 0x20, 0x73, 0x6f, 0x75, 0x6e, 0x64, 0x20, 0x76, 0x6f, 0x6c, 0x75,
        0x6d, 0x65,
    ];
    CliError::from_msg(ErrorKind::Parse, msg.as_slice())
}

} // verus!
