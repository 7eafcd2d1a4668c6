//! Byte-level text building. All display text in this crate is UTF-8 held in
//! `Vec<u8>`; the spec functions here define the exact byte sequences that
//! the samplers' contracts promise.
use vstd::prelude::*;

verus! {

/// Decimal rendering of a natural number, most significant digit first,
/// as ASCII bytes.
pub open spec fn dec(n: nat) -> Seq<u8>
    decreases n,
{
    if n < 10 {
        seq![(0x30 + n) as u8]
    } else {
        dec(n / 10) + seq![(0x30 + n % 10) as u8]
    }
}

/// Decimal rendering zero-padded to at least two digits.
pub open spec fn dec2(n: nat) -> Seq<u8> {
    if n < 10 {
        seq![0x30u8, (0x30 + n) as u8]
    } else {
        dec(n)
    }
}

/// `n` space bytes.
pub open spec fn spaces(n: nat) -> Seq<u8>
    decreases n,
{
    if n == 0 {
        Seq::empty()
    } else {
        spaces((n - 1) as nat).push(0x20)
    }
}

/// `s` left-padded with spaces to width `w` (unchanged when already wider).
pub open spec fn pad_left(s: Seq<u8>, w: nat) -> Seq<u8> {
    if s.len() >= w {
        s
    } else {
        spaces((w - s.len()) as nat) + s
    }
}

/// Append a copy of `s` to `out`.
pub fn push_bytes(out: &mut Vec<u8>, s: &[u8])
    ensures
        final(out)@ == old(out)@ + s@,
{
    let mut i: usize = 0;
    while i < s.len()
        invariant
            i <= s.len(),
            out@ == old(out)@ + s@.take(i as int),
        decreases s.len() - i,
    {
        out.push(s[i]);
        assert(out@ =~= old(out)@ + s@.take(i + 1));
        i = i + 1;
    }
    assert(out@ =~= old(out)@ + s@);
}

/// Append the decimal rendering of `n` to `out`.
pub fn push_dec(out: &mut Vec<u8>, n: u64)
    ensures
        final(out)@ == old(out)@ + dec(n as nat),
    decreases n,
{
    if n >= 10 {
        push_dec(out, n / 10);
        out.push((0x30 + (n % 10) as u8) as u8);
        assert(out@ =~= old(out)@ + dec(n as nat));
    } else {
        out.push(0x30 + n as u8);
        assert(out@ =~= old(out)@ + dec(n as nat));
    }
}

/// Append the decimal rendering of `n`, zero-padded to two digits.
pub fn push_dec2(out: &mut Vec<u8>, n: u64)
    ensures
        final(out)@ == old(out)@ + dec2(n as nat),
{
    if n < 10 {
        out.push(0x30);
        out.push(0x30 + n as u8);
        assert(out@ =~= old(out)@ + dec2(n as nat));
    } else {
        push_dec(out, n);
    }
}

/// Append `n` space bytes.
pub fn push_spaces(out: &mut Vec<u8>, n: usize)
    ensures
        final(out)@ == old(out)@ + spaces(n as nat),
{
    let mut i: usize = 0;
    while i < n
        invariant
            i <= n,
            out@ == old(out)@ + spaces(i as nat),
        decreases n - i,
    {
        out.push(0x20);
        assert(out@ =~= old(out)@ + spaces((i + 1) as nat));
        i = i + 1;
    }
}

/// Append `s` left-padded with spaces to width `w`.
pub fn push_pad_left(out: &mut Vec<u8>, s: &Vec<u8>, w: usize)
    ensures
        final(out)@ == old(out)@ + pad_left(s@, w as nat),
{
    if s.len() < w {
        push_spaces(out, w - s.len());
        push_bytes(out, s.as_slice());
        assert(out@ =~= old(out)@ + pad_left(s@, w as nat));
    } else {
        push_bytes(out, s.as_slice());
    }
}

/// Whether two byte strings are equal.
pub fn bytes_eq(a: &[u8], b: &[u8]) -> (r: bool)
    ensures
        r == (a@ == b@),
{
    if a.len() != b.len() {
        assert(a@.len() != b@.len());
        return false;
    }
    let mut i: usize = 0;
    while i < a.len()
        invariant
            0 <= i <= a@.len(),
            a@.len() == b@.len(),
            forall|k: int| 0 <= k < i ==> a@[k] == b@[k],
        decreases a@.len() - i,
    {
        if a[i] != b[i] {
            return false;
        }
        i = i + 1;
    }
    assert(a@ =~= b@);
    true
}

} // verus!
