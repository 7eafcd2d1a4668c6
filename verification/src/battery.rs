//! Battery sampler: turns one reading of the battery's sysfs values into
//! a block showing charge percentage, time left and a warning color.
//! Reading the four sysfs files happens outside the library; a host
//! without a battery hands `None` and gets no block, which is not an
//! error.
//!
//! The time left is the energy to move divided by the drain, as a whole
//! number of hours (capped at 255 for display) and minutes: the energy
//! still to fill while charging, the energy still to drain otherwise.
//! When the reported drain is not positive the time is unknown and shows
//! as 00:00, and the low-time warning does not fire; this keeps a full
//! battery on mains from showing an arbitrary figure.
use vstd::prelude::*;

use crate::block::{BarColor, SwayBarBlock};
use crate::error::{CliError, ErrorKind};
use crate::text::{dec, dec2};

verus! {

/// One reading of the battery's sysfs values: charge now and the design
/// capacity in µWh, the trimmed content of the status file, and the
/// momentary power flow in µW.
#[derive(Clone, Debug)]
pub struct BatteryReading {
    pub energy_now: u64,
    pub energy_full: u64,
    pub status: Vec<u8>,
    pub power_now: i64,
}

/// "Discharging"
pub open spec fn discharging_lit() -> Seq<u8> {
    seq![0x44u8, 0x69, 0x73, 0x63, 0x68, 0x61, 0x72, 0x67, 0x69, 0x6e, 0x67]
}

/// The battery counts as charging under any status but "Discharging".
pub open spec fn charging(r: BatteryReading) -> bool {
    r.status@ != discharging_lit()
}

/// The charge percentage: charge over design capacity, the charge capped
/// at the capacity, truncated.
pub open spec fn battery_percent(r: BatteryReading) -> nat {
    (if r.energy_now <= r.energy_full {
        r.energy_now as nat
    } else {
        r.energy_full as nat
    }) * 100 / (r.energy_full as nat)
}

/// The energy still to move, in µWh: up to the design capacity while
/// charging, down to empty otherwise.
pub open spec fn energy_to_move(r: BatteryReading) -> nat {
    if charging(r) {
        if r.energy_now <= r.energy_full {
            (r.energy_full - r.energy_now) as nat
        } else {
            0
        }
    } else {
        if r.energy_now >= r.energy_full {
            0
        } else {
            r.energy_now as nat
        }
    }
}

/// Whether the reading carries a usable drain figure.
pub open spec fn power_known(r: BatteryReading) -> bool {
    r.power_now > 0
}

/// Whole hours left, capped at 255 for display; zero when the drain is
/// unknown.
pub open spec fn battery_hours(r: BatteryReading) -> nat {
    if power_known(r) {
        let h = energy_to_move(r) / (r.power_now as nat);
        if h > 255 {
            255
        } else {
            h
        }
    } else {
        0
    }
}

/// Minutes past the whole hour; zero when the drain is unknown.
pub open spec fn battery_minutes(r: BatteryReading) -> nat {
    if power_known(r) {
        (energy_to_move(r) % (r.power_now as nat)) * 60 / (r.power_now as nat)
    } else {
        0
    }
}

/// Under half an hour left while discharging.
pub open spec fn battery_low_time(r: BatteryReading) -> bool {
    !charging(r) && power_known(r) && 2 * energy_to_move(r) < r.power_now
}

/// The warning color: none while charging; red under half an hour left;
/// otherwise by charge, the default above 60 %, yellow above 30 %, red
/// at or below 30 %.
pub open spec fn battery_color(is_charging: bool, low: bool, percent: nat) -> Option<BarColor> {
    if is_charging {
        None
    } else if low {
        Some(BarColor::Red)
    } else if percent > 60 {
        None
    } else if percent > 30 {
        Some(BarColor::Yellow)
    } else {
        Some(BarColor::Red)
    }
}

/// The charge glyph: "\u{26A1}\u{FE0E}" while charging, a full battery
/// above 30 %, an empty one at or below 30 % or when time is short.
pub open spec fn battery_emoji(is_charging: bool, low: bool, percent: nat) -> Seq<u8> {
    if is_charging {
        seq![0xe2u8, 0x9a, 0xa1, 0xef, 0xb8, 0x8e]
    } else if low {
        seq![0xf0u8, 0x9f, 0xaa, 0xab]
    } else if percent > 30 {
        seq![0xf0u8, 0x9f, 0x94, 0x8b]
    } else {
        seq![0xf0u8, 0x9f, 0xaa, 0xab]
    }
}

/// The glyph, ": ", the percentage, "% ", then hours and minutes as
/// two-digit fields split by ":".
pub open spec fn battery_text(emoji: Seq<u8>, percent: nat, hh: nat, mm: nat) -> Seq<u8> {
    emoji + seq![0x3au8, 0x20] + dec(percent) + seq![0x25u8, 0x20] + dec2(hh) + seq![0x3au8]
        + dec2(mm)
}

/// Build the battery block from one reading, or no block on a host
/// without a battery. A zero design capacity is a fetch error.
pub fn get_battery(reading: Option<&BatteryReading>) -> (r: Result<
    Option<SwayBarBlock>,
    CliError,
>)
    ensures
        r is Ok <==> (reading matches Some(b) ==> b.energy_full > 0),
        reading is None ==> r == Ok::<Option<SwayBarBlock>, CliError>(None),
        (r is Ok && reading is Some) ==> {
            let b = *reading->0;
            let percent = battery_percent(b);
            let low = battery_low_time(b);
            &&& r->Ok_0 is Some
            &&& r->Ok_0->0.name@ == seq![0x62u8, 0x61, 0x74, 0x74, 0x65, 0x72, 0x79]
            &&& r->Ok_0->0.full_text@ == battery_text(
                battery_emoji(charging(b), low, percent),
                percent,
                battery_hours(b),
                battery_minutes(b),
            )
            &&& r->Ok_0->0.color == battery_color(charging(b), low, percent)
            &&& r->Ok_0->0.min_width == Some(12usize)
            &&& r->Ok_0->0.urgent is None
        },
        r is Err ==> r->Err_0.kind == ErrorKind::Protocol,
{
    let b = match reading {
        Some(b) => b,
        None => {
            return Ok(None);
        },
    };
    if b.energy_full == 0 {
        // "battery design capacity is zero"
        let msg: [u8; 31] = [
            0x62, 0x61, 0x74, 0x74, 0x65, 0x72, 0x79, 0x20, 0x64, 0x65, 0x73, 0x69, 0x67, 0x6e,
            0x20, 0x63, 0x61, 0x70, 0x61, 0x63, 0x69, 0x74, 0x79, 0x20, 0x69, 0x73, 0x20, 0x7a,
            0x65, 0x72, 0x6f,
        ];
        return Err(CliError::from_msg(ErrorKind::Protocol, msg.as_slice()));
    }
    // "Discharging"
    let discharging: [u8; 11] = [
        0x44, 0x69, 0x73, 0x63, 0x68, 0x61, 0x72, 0x67, 0x69, 0x6e, 0x67,
    ];
    assert(discharging@ =~= discharging_lit());
    let is_charging = !crate::text::bytes_eq(b.status.as_slice(), discharging.as_slice());
    let capped_now: u64 = if b.energy_now <= b.energy_full {
        b.energy_now
    } else {
        b.energy_full
    };
    let percent: u64 = ((capped_now as u128) * 100 / (b.energy_full as u128)) as u64;
    proof {
        vstd::arithmetic::div_mod::lemma_div_is_ordered(
            capped_now as int * 100,
            b.energy_full as int * 100,
            b.energy_full as int,
        );
        vstd::arithmetic::div_mod::lemma_div_by_multiple(100, b.energy_full as int);
        assert(percent == battery_percent(*b));
        assert(percent <= 100);
    }
    let num: u64 = if is_charging {
        if b.energy_now <= b.energy_full {
            b.energy_full - b.energy_now
        } else {
            0
        }
    } else {
        if b.energy_now >= b.energy_full {
            0
        } else {
            b.energy_now
        }
    };
    let power_ok = b.power_now > 0;
    let mut hours: u64 = 0;
    let mut minutes: u64 = 0;
    let mut low = false;
    if power_ok {
        let pow = b.power_now as u64;
        let h = num / pow;
        hours = if h > 255 {
            255
        } else {
            h
        };
        minutes = (((num % pow) as u128) * 60 / (pow as u128)) as u64;
        proof {
            assert((num % pow) < pow);
            assert(((num % pow) as int) * 60 / (pow as int) < 60) by (nonlinear_arith)
                requires
                    (num % pow) < pow,
                    pow > 0,
            ;
            assert(minutes == battery_minutes(*b));
        }
        low = !is_charging && (num as u128) * 2 < (pow as u128);
    }
    proof {
        assert(hours == battery_hours(*b));
        assert(low == battery_low_time(*b));
    }
    let color: Option<BarColor> = if is_charging {
        None
    } else if low {
        Some(BarColor::Red)
    } else if percent > 60 {
        None
    } else if percent > 30 {
        Some(BarColor::Yellow)
    } else {
        Some(BarColor::Red)
    };
    // "battery"
    let name_lit: [u8; 7] = [0x62, 0x61, 0x74, 0x74, 0x65, 0x72, 0x79];
    let mut name: Vec<u8> = Vec::new();
    crate::text::push_bytes(&mut name, name_lit.as_slice());
    let mut text: Vec<u8> = Vec::new();
    if is_charging {
        let glyph: [u8; 6] = [0xe2, 0x9a, 0xa1, 0xef, 0xb8, 0x8e];
        crate::text::push_bytes(&mut text, glyph.as_slice());
    } else if low {
        let glyph: [u8; 4] = [0xf0, 0x9f, 0xaa, 0xab];
        crate::text::push_bytes(&mut text, glyph.as_slice());
    } else if percent > 30 {
        let glyph: [u8; 4] = [0xf0, 0x9f, 0x94, 0x8b];
        crate::text::push_bytes(&mut text, glyph.as_slice());
    } else {
        let glyph: [u8; 4] = [0xf0, 0x9f, 0xaa, 0xab];
        crate::text::push_bytes(&mut text, glyph.as_slice());
    }
    // ": "
    let sep1: [u8; 2] = [0x3a, 0x20];
    crate::text::push_bytes(&mut text, sep1.as_slice());
    crate::text::push_dec(&mut text, percent);
    // "% "
    let sep2: [u8; 2] = [0x25, 0x20];
    crate::text::push_bytes(&mut text, sep2.as_slice());
    crate::text::push_dec2(&mut text, hours);
    text.push(0x3a);
    crate::text::push_dec2(&mut text, minutes);
    assert(text@ =~= battery_text(
        battery_emoji(charging(*b), battery_low_time(*b), battery_percent(*b)),
        battery_percent(*b),
        battery_hours(*b),
        battery_minutes(*b),
    ));
    Ok(Some(SwayBarBlock { name, full_text: text, min_width: Some(12), urgent: None, color }))
}

} // verus!
