//! Temperature sampler: picks one hwmon sensor by a fixed preference
//! order over the sensors' advertised names — where two directories
//! advertise the same name the one listed later wins, as a name-keyed map
//! filled in listing order would have it — and renders its reading in
//! whole degrees. Listing the hwmon directories and reading their files
//! happen outside the library. No matching sensor is missing hardware,
//! not an error: the sampler then yields no block.
use vstd::prelude::*;

use crate::block::{BarColor, SwayBarBlock};
use crate::error::{CliError, ErrorKind};
use crate::parse::{trim, u64_digits, valid_u64, dec_value};
use crate::text::{dec, pad_left};

verus! {

/// One hwmon directory: the name its `name` file advertises, and the raw
/// content of its `temp1_input` file, `None` where that file is absent.
#[derive(Clone, Debug)]
pub struct HwmonEntry {
    pub name: Vec<u8>,
    pub temp_content: Option<Vec<u8>>,
}

/// "k10temp"
pub open spec fn hwmon_name_0() -> Seq<u8> {
    seq![0x6bu8, 0x31, 0x30, 0x74, 0x65, 0x6d, 0x70]
}

/// "thinkpad"
pub open spec fn hwmon_name_1() -> Seq<u8> {
    seq![0x74u8, 0x68, 0x69, 0x6e, 0x6b, 0x70, 0x61, 0x64]
}

/// "coretemp"
pub open spec fn hwmon_name_2() -> Seq<u8> {
    seq![0x63u8, 0x6f, 0x72, 0x65, 0x74, 0x65, 0x6d, 0x70]
}

/// The index of the last entry advertising `name`, or `None`.
pub open spec fn lookup(entries: Seq<HwmonEntry>, name: Seq<u8>) -> Option<int>
    decreases entries.len(),
{
    if entries.len() == 0 {
        None
    } else if entries.last().name@ == name {
        Some(entries.len() - 1)
    } else {
        lookup(entries.drop_last(), name)
    }
}

/// The readable sensor content a preferred name selects: its entry
/// exists and has a `temp1_input` file.
pub open spec fn selected_by(entries: Seq<HwmonEntry>, name: Seq<u8>) -> Option<Seq<u8>> {
    match lookup(entries, name) {
        Some(i) => match entries[i].temp_content {
            Some(c) => Some(c@),
            None => None,
        },
        None => None,
    }
}

/// The sensor content the fixed preference order picks: k10temp first,
/// then thinkpad, then coretemp.
pub open spec fn chosen_content(entries: Seq<HwmonEntry>) -> Option<Seq<u8>> {
    if selected_by(entries, hwmon_name_0()) is Some {
        selected_by(entries, hwmon_name_0())
    } else if selected_by(entries, hwmon_name_1()) is Some {
        selected_by(entries, hwmon_name_1())
    } else {
        selected_by(entries, hwmon_name_2())
    }
}

/// The degrees the temperature block shows: the chosen sensor's reading
/// in millidegrees scaled down. Only meaningful when a sensor was chosen
/// and its content parses.
pub open spec fn chosen_degrees(entries: Seq<HwmonEntry>) -> nat {
    match chosen_content(entries) {
        Some(c) => dec_value(u64_digits(trim(c))) / 1000,
        None => 0,
    }
}

/// "\u{1F321}: " then the degrees padded to two columns then "\u{B0}C".
pub open spec fn temp_text(degrees: nat) -> Seq<u8> {
    seq![0xf0u8, 0x9f, 0x8c, 0xa1, 0x3a, 0x20] + pad_left(dec(degrees), 2) + seq![
        0xc2u8,
        0xb0,
        0x43,
    ]
}

/// Red at or above 80 degrees, the default below.
pub open spec fn temp_color(degrees: nat) -> Option<BarColor> {
    if degrees >= 80 {
        Some(BarColor::Red)
    } else {
        None
    }
}

/// The index of the last entry advertising `name`, or `None`.
fn find_last(entries: &Vec<HwmonEntry>, name: &[u8]) -> (r: Option<usize>)
    ensures
        match r {
            Some(i) => lookup(entries@, name@) == Some(i as int) && i < entries@.len(),
            None => lookup(entries@, name@) is None,
        },
{
    let mut i: usize = entries.len();
    assert(entries@.take(entries@.len() as int) =~= entries@);
    while i > 0
        invariant
            0 <= i <= entries@.len(),
            lookup(entries@, name@) == lookup(entries@.take(i as int), name@),
        decreases i,
    {
        i = i - 1;
        if crate::text::bytes_eq(entries[i].name.as_slice(), name) {
            assert(entries@.take(i + 1).last() == entries@[i as int]);
            return Some(i);
        }
        assert(entries@.take(i + 1).drop_last() =~= entries@.take(i as int));
    }
    assert(entries@.take(0) =~= Seq::<HwmonEntry>::empty());
    None
}

/// The readable sensor content `name` selects, as `selected_by` gives it.
fn select_by_name<'a>(entries: &'a Vec<HwmonEntry>, name: &[u8]) -> (r: Option<&'a Vec<u8>>)
    ensures
        match r {
            Some(c) => selected_by(entries@, name@) == Some(c@),
            None => selected_by(entries@, name@) is None,
        },
{
    match find_last(entries, name) {
        Some(i) => match &entries[i].temp_content {
            Some(c) => Some(c),
            None => None,
        },
        None => None,
    }
}

/// Build the temperature block from the listed hwmon directories. The
/// preferred sensor's reading is parsed in decimal millidegrees; a
/// sensor whose content does not parse is a fetch error, while no
/// matching sensor at all is missing hardware and yields no block.
pub fn get_temp(entries: &Vec<HwmonEntry>) -> (r: Result<Option<SwayBarBlock>, CliError>)
    ensures
        r is Ok <==> (chosen_content(entries@) matches Some(c) ==> valid_u64(trim(c))),
        chosen_content(entries@) is None ==> r == Ok::<Option<SwayBarBlock>, CliError>(None),
        (r is Ok && chosen_content(entries@) is Some) ==> {
            let degrees = chosen_degrees(entries@);
            &&& r->Ok_0 is Some
            &&& r->Ok_0->0.name@ == seq![0x74u8, 0x65, 0x6d, 0x70]
            &&& r->Ok_0->0.full_text@ == temp_text(degrees)
            &&& r->Ok_0->0.color == temp_color(degrees)
            &&& r->Ok_0->0.min_width == Some(8usize)
            &&& r->Ok_0->0.urgent is None
        },
        r is Err ==> r->Err_0.kind == ErrorKind::Parse,
{
    // "k10temp"
    let pref0: [u8; 7] = [0x6b, 0x31, 0x30, 0x74, 0x65, 0x6d, 0x70];
    // "thinkpad"
    let pref1: [u8; 8] = [0x74, 0x68, 0x69, 0x6e, 0x6b, 0x70, 0x61, 0x64];
    // "coretemp"
    let pref2: [u8; 8] = [0x63, 0x6f, 0x72, 0x65, 0x74, 0x65, 0x6d, 0x70];
    let content: Option<&Vec<u8>> = if let Some(c) = select_by_name(entries, pref0.as_slice()) {
        Some(c)
    } else if let Some(c) = select_by_name(entries, pref1.as_slice()) {
        Some(c)
    } else if let Some(c) = select_by_name(entries, pref2.as_slice()) {
        Some(c)
    } else {
        None
    };
    let degrees: u64 = match content {
        Some(c) => {
            let millidegrees = crate::parse::read_file_as_u64(c.as_slice())?;
            millidegrees / 1000
        },
        None => {
            return Ok(None);
        },
    };
    let color: Option<BarColor> = if degrees >= 80 {
        Some(BarColor::Red)
    } else {
        None
    };
    // "temp"
    let name_lit: [u8; 4] = [0x74, 0x65, 0x6d, 0x70];
    let mut name: Vec<u8> = Vec::new();
    crate::text::push_bytes(&mut name, name_lit.as_slice());
    // "\u{1F321}: "
    let prefix: [u8; 6] = [0xf0, 0x9f, 0x8c, 0xa1, 0x3a, 0x20];
    let mut text: Vec<u8> = Vec::new();
    crate::text::push_bytes(&mut text, prefix.as_slice());
    let mut digits: Vec<u8> = Vec::new();
    crate::text::push_dec(&mut digits, degrees);
    crate::text::push_pad_left(&mut text, &digits, 2);
    // "\u{B0}C"
    let unit: [u8; 3] = [0xc2, 0xb0, 0x43];
    crate::text::push_bytes(&mut text, unit.as_slice());
    assert(text@ =~= temp_text(degrees as nat));
    Ok(Some(SwayBarBlock { name, full_text: text, min_width: Some(8), urgent: None, color }))
}

} // verus!
