//! Wi-Fi signal sampler: maps a signal strength in dBm to a percentage by
//! clamped linear interpolation between a noise floor and a maximum, and
//! color-codes the result. The OS interface query that yields the signal
//! happens outside the library; this sampler takes its result.
use vstd::prelude::*;

use crate::block::{BarColor, SwayBarBlock};
use crate::text::dec;

verus! {

/// Noise floor: at or below -100 dBm the signal shows as 0 %.
pub const NOISE_FLOOR_DBM: i8 = -100;

/// Ceiling: at or above -50 dBm the signal shows as 100 %.
pub const SIGNAL_MAX_DBM: i8 = -50;

/// `dbm` clamped to the [-100, -50] band.
pub open spec fn clamp_dbm(dbm: int) -> int {
    if dbm > -50 {
        -50
    } else if dbm < -100 {
        -100
    } else {
        dbm
    }
}

/// The percentage a signal of `dbm` shows as: linear between the noise
/// floor (0 %) and the ceiling (100 %), so two points per dBm.
pub open spec fn dbm_percent(dbm: int) -> int {
    2 * (clamp_dbm(dbm) + 100)
}

/// Map a signal strength in dBm to a percentage.
pub fn dbm_to_percentage(dbm: i8) -> (r: u8)
    ensures
        r == dbm_percent(dbm as int),
        0 <= r <= 100,
{
    let clamped: i8 = if dbm > SIGNAL_MAX_DBM {
        SIGNAL_MAX_DBM
    } else if dbm < NOISE_FLOOR_DBM {
        NOISE_FLOOR_DBM
    } else {
        dbm
    };
    (2 * (clamped as i16 + 100)) as u8
}

/// The signal percentage never falls as the raw signal rises, and it
/// stays within 0 to 100, with 0 at the noise floor and 100 at the
/// ceiling.
pub proof fn lemma_dbm_percent_monotonic(a: int, b: int)
    requires
        a <= b,
    ensures
        dbm_percent(a) <= dbm_percent(b),
        0 <= dbm_percent(a) <= 100,
        dbm_percent(-100) == 0,
        dbm_percent(-50) == 100,
{
}

/// "\u{1F4F6} " then the percentage then "%".
pub open spec fn wifi_text(percent: nat) -> Seq<u8> {
    seq![0xf0u8, 0x9f, 0x93, 0xb6, 0x20] + dec(percent) + seq![0x25u8]
}

/// The color band of a signal percentage: above 50 % the default, above
/// 25 % yellow, otherwise red.
pub open spec fn wifi_color(percent: nat) -> Option<BarColor> {
    if percent > 50 {
        None
    } else if percent > 25 {
        Some(BarColor::Yellow)
    } else {
        Some(BarColor::Red)
    }
}

/// Build the Wi-Fi block from the interface's signal strength. An absent
/// interface or signal is missing hardware, not an error: it yields no
/// block at all.
pub fn get_wifi(signal: Option<i8>) -> (r: Option<SwayBarBlock>)
    ensures
        signal is None ==> r is None,
        signal is Some ==> {
            let percent = dbm_percent(signal->0 as int) as nat;
            &&& r is Some
            &&& r->0.name@ == seq![0x77u8, 0x69, 0x66, 0x69]
            &&& r->0.full_text@ == wifi_text(percent)
            &&& r->0.color == wifi_color(percent)
            &&& r->0.min_width is None
            &&& r->0.urgent is None
        },
{
    let percent: u8 = match signal {
        Some(dbm) => dbm_to_percentage(dbm),
        None => {
            return None;
        },
    };
    let color: Option<BarColor> = if percent > 50 {
        None
    } else if percent > 25 {
        Some(BarColor::Yellow)
    } else {
        Some(BarColor::Red)
    };
    // "wifi"
    let name_lit: [u8; 4] = [0x77, 0x69, 0x66, 0x69];
    let mut name: Vec<u8> = Vec::new();
    crate::text::push_bytes(&mut name, name_lit.as_slice());
    // "\u{1F4F6} "
    let prefix: [u8; 5] = [0xf0, 0x9f, 0x93, 0xb6, 0x20];
    let mut text: Vec<u8> = Vec::new();
    crate::text::push_bytes(&mut text, prefix.as_slice());
    crate::text::push_dec(&mut text, percent as u64);
    text.push(0x25);
    assert(text@ =~= wifi_text(percent as nat));
    Some(SwayBarBlock { name, full_text: text, min_width: None, urgent: None, color })
}

} // verus!
