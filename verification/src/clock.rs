//! Clock block: the local wall-clock time with second precision,
//! formatted as "year-month-day hour:minute:second" with zero-padded
//! fields. The time itself comes from the one outside call this library
//! makes; the formatting from its fields is verified, and holds for
//! whatever instant the clock reports.
use vstd::prelude::*;

use crate::block::SwayBarBlock;
use crate::text::{dec, dec2};

use chrono::Datelike;
use chrono::Timelike;

verus! {

/// Decimal rendering zero-padded to at least four digits, as a calendar
/// year is shown.
pub open spec fn dec4(n: nat) -> Seq<u8> {
    if n < 10 {
        seq![0x30u8, 0x30, 0x30] + dec(n)
    } else if n < 100 {
        seq![0x30u8, 0x30] + dec(n)
    } else if n < 1000 {
        seq![0x30u8] + dec(n)
    } else {
        dec(n)
    }
}

/// Append the decimal rendering of `n`, zero-padded to four digits.
pub fn push_dec4(out: &mut Vec<u8>, n: u32)
    ensures
        final(out)@ == old(out)@ + dec4(n as nat),
{
    if n < 10 {
        let pad: [u8; 3] = [0x30, 0x30, 0x30];
        crate::text::push_bytes(out, pad.as_slice());
    } else if n < 100 {
        let pad: [u8; 2] = [0x30, 0x30];
        crate::text::push_bytes(out, pad.as_slice());
    } else if n < 1000 {
        out.push(0x30);
    }
    crate::text::push_dec(out, n as u64);
    assert(out@ =~= old(out)@ + dec4(n as nat));
}

/// "Y-M-D h:m:s" with the year padded to four digits and every other
/// field to two.
pub open spec fn datetime_text(y: nat, mo: nat, d: nat, h: nat, mi: nat, s: nat) -> Seq<u8> {
    dec4(y) + seq![0x2du8] + dec2(mo) + seq![0x2du8] + dec2(d) + seq![0x20u8] + dec2(h) + seq![
        0x3au8,
    ] + dec2(mi) + seq![0x3au8] + dec2(s)
}

/// Build the clock block from the fields of an instant.
pub fn time_block(year: u32, month: u32, day: u32, hour: u32, minute: u32, second: u32) -> (r:
    SwayBarBlock)
    ensures
        r.name@ == seq![0x74u8, 0x69, 0x6d, 0x65],
        r.full_text@ == datetime_text(
            year as nat,
            month as nat,
            day as nat,
            hour as nat,
            minute as nat,
            second as nat,
        ),
        r.min_width is None,
        r.urgent is None,
        r.color is None,
{
    // "time"
    let name_lit: [u8; 4] = [0x74, 0x69, 0x6d, 0x65];
    let mut name: Vec<u8> = Vec::new();
    crate::text::push_bytes(&mut name, name_lit.as_slice());
    let mut text: Vec<u8> = Vec::new();
    push_dec4(&mut text, year);
    text.push(0x2d);
    crate::text::push_dec2(&mut text, month as u64);
    text.push(0x2d);
    crate::text::push_dec2(&mut text, day as u64);
    text.push(0x20);
    crate::text::push_dec2(&mut text, hour as u64);
    text.push(0x3a);
    crate::text::push_dec2(&mut text, minute as u64);
    text.push(0x3a);
    crate::text::push_dec2(&mut text, second as u64);
    assert(text@ =~= datetime_text(
        year as nat,
        month as nat,
        day as nat,
        hour as nat,
        minute as nat,
        second as nat,
    ));
    SwayBarBlock { name, full_text: text, min_width: None, urgent: None, color: None }
}

/// Relies on chrono::offset::Local::now and its Datelike and Timelike
/// accessors for the current local time, whose documentation bounds the
/// fields: month 1 to 12, day of month 1 to 31, hour 0 to 23, minute and
/// second 0 to 59. Nothing is assumed of the year.
#[verifier::external_body]
fn local_now_fields() -> (r: (i32, u32, u32, u32, u32, u32))
    ensures
        1 <= r.1 <= 12,
        1 <= r.2 <= 31,
        r.3 < 24,
        r.4 < 60,
        r.5 < 60,
{
    let now = chrono::offset::Local::now();
    (now.year(), now.month(), now.day(), now.hour(), now.minute(), now.second())
}

/// Build the clock block for the present local time, the year clamped to
/// the displayable 0 to 9999 band.
pub fn get_time() -> (r: SwayBarBlock)
    ensures
        r.name@ == seq![0x74u8, 0x69, 0x6d, 0x65],
        r.min_width is None,
        r.urgent is None,
        r.color is None,
        exists|y: nat, mo: nat, d: nat, h: nat, mi: nat, s: nat|
            {
                &&& 1 <= mo <= 12
                &&& 1 <= d <= 31
                &&& h < 24
                &&& mi < 60
                &&& s < 60
                &&& r.full_text@ == datetime_text(y, mo, d, h, mi, s)
            },
{
    let (year, month, day, hour, minute, second) = local_now_fields();
    let year_clamped: u32 = if year < 0 {
        0
    } else if year > 9999 {
        9999
    } else {
        year as u32
    };
    let r = time_block(year_clamped, month, day, hour, minute, second);
    assert(r.full_text@ == datetime_text(
        year_clamped as nat,
        month as nat,
        day as nat,
        hour as nat,
        minute as nat,
        second as nat,
    ));
    r
}

} // verus!
