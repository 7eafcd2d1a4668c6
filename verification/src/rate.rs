//! Network throughput sampler: turns two byte-counter readings taken a
//! short interval apart into a rate, and renders it in binary multiples
//! (KiB, MiB, GiB, TiB) with one fractional digit, truncated. Reading the
//! sysfs counter files and waiting between the readings happen outside
//! the library.
use vstd::prelude::*;

use crate::block::SwayBarBlock;
use crate::error::{CliError, ErrorKind};
use crate::parse::{trim, u64_digits, valid_u64, dec_value};
use crate::text::{dec, pad_left};

verus! {

pub const KIB: u64 = 0x400;

pub const MIB: u64 = 0x100000;

pub const GIB: u64 = 0x40000000;

pub const TIB: u64 = 0x10000000000;

/// A byte count in human-readable binary multiples: the whole part, a
/// dot, one truncated fractional digit, and the unit; plain bytes below
/// one KiB.
pub open spec fn human_bytes(b: nat) -> Seq<u8> {
    if b > TIB {
        dec(b / (TIB as nat)) + seq![0x2eu8] + dec((b % (TIB as nat)) * 10 / (TIB as nat))
            + seq![0x20u8, 0x54, 0x69, 0x42]
    } else if b >= GIB {
        dec(b / (GIB as nat)) + seq![0x2eu8] + dec((b % (GIB as nat)) * 10 / (GIB as nat))
            + seq![0x20u8, 0x47, 0x69, 0x42]
    } else if b >= MIB {
        dec(b / (MIB as nat)) + seq![0x2eu8] + dec((b % (MIB as nat)) * 10 / (MIB as nat))
            + seq![0x20u8, 0x4d, 0x69, 0x42]
    } else if b >= KIB {
        dec(b / (KIB as nat)) + seq![0x2eu8] + dec((b % (KIB as nat)) * 10 / (KIB as nat))
            + seq![0x20u8, 0x4b, 0x69, 0x42]
    } else {
        dec(b) + seq![0x20u8, 0x42]
    }
}

/// Render a byte count in human-readable binary multiples.
pub fn bytes_to_human(bytes: u64) -> (r: Vec<u8>)
    ensures
        r@ == human_bytes(bytes as nat),
{
    let mut out: Vec<u8> = Vec::new();
    if bytes > TIB {
        push_scaled(&mut out, bytes, TIB, 0x54);
    } else if bytes >= GIB {
        push_scaled(&mut out, bytes, GIB, 0x47);
    } else if bytes >= MIB {
        push_scaled(&mut out, bytes, MIB, 0x4d);
    } else if bytes >= KIB {
        push_scaled(&mut out, bytes, KIB, 0x4b);
    } else {
        crate::text::push_dec(&mut out, bytes);
        // " B"
        let unit: [u8; 2] = [0x20, 0x42];
        crate::text::push_bytes(&mut out, unit.as_slice());
        assert(out@ =~= human_bytes(bytes as nat));
    }
    out
}

/// Append "W.F XiB" where W and F are the whole part and one truncated
/// fractional digit of `bytes` over `unit`, and X is the unit letter.
fn push_scaled(out: &mut Vec<u8>, bytes: u64, unit: u64, letter: u8)
    requires
        0 < unit <= 0x10000000000,
    ensures
        final(out)@ == old(out)@ + dec((bytes / unit) as nat) + seq![0x2eu8] + dec(
            (bytes as nat % unit as nat) * 10 / (unit as nat),
        ) + seq![0x20u8, letter, 0x69, 0x42],
{
    crate::text::push_dec(out, bytes / unit);
    out.push(0x2e);
    let rem = bytes % unit;
    assert(rem * 10 <= u64::MAX) by (nonlinear_arith)
        requires
            rem < unit <= 0x10000000000,
    ;
    crate::text::push_dec(out, rem * 10 / unit);
    out.push(0x20);
    out.push(letter);
    out.push(0x69);
    out.push(0x42);
    assert(out@ =~= old(out)@ + dec((bytes / unit) as nat) + seq![0x2eu8] + dec(
        (bytes as nat % unit as nat) * 10 / (unit as nat),
    ) + seq![0x20u8, letter, 0x69, 0x42]);
}

/// The transfer rate between two counter readings: the delta scaled from
/// the elapsed milliseconds to one second, truncated toward zero. A
/// counter that moved backwards (a wrap) is a hard fetch error.
pub fn net_rate(first: u64, second: u64, elapsed_ms: u64) -> (r: Result<u64, CliError>)
    ensures
        r is Ok <==> first <= second && elapsed_ms > 0 && (second - first) * 1000 <= u64::MAX,
        r is Ok ==> r->Ok_0 == (second - first) * 1000 / (elapsed_ms as int),
        r is Err ==> r->Err_0.kind == ErrorKind::Protocol,
{
    if second < first || elapsed_ms == 0 {
        // "byte counter moved backwards"
        let msg: [u8; 28] = [
            0x62, 0x79, 0x74, 0x65, 0x20, 0x63, 0x6f, 0x75, 0x6e, 0x74, 0x65, 0x72, 0x20, 0x6d,
            0x6f, 0x76, 0x65, 0x64, 0x20, 0x62, 0x61, 0x63, 0x6b, 0x77, 0x61, 0x72, 0x64, 0x73,
        ];
        return Err(CliError::from_msg(ErrorKind::Protocol, msg.as_slice()));
    }
    let delta = second - first;
    if delta > u64::MAX / 1000 {
        // "byte counter delta too large"
        let msg: [u8; 28] = [
            0x62, 0x79, 0x74, 0x65, 0x20, 0x63, 0x6f, 0x75, 0x6e, 0x74, 0x65, 0x72, 0x20, 0x64,
            0x65, 0x6c, 0x74, 0x61, 0x20, 0x74, 0x6f, 0x6f, 0x20, 0x6c, 0x61, 0x72, 0x67, 0x65,
        ];
        return Err(CliError::from_msg(ErrorKind::Protocol, msg.as_slice()));
    }
    Ok(delta * 1000 / elapsed_ms)
}

/// Parse the two statistics counters of an interface from the contents
/// of its `rx_bytes` and `tx_bytes` files, `None` where the file is
/// absent — which means the interface is gone and is a fetch error.
pub fn get_net_bytes(rx_content: Option<&[u8]>, tx_content: Option<&[u8]>) -> (r: Result<
    (u64, u64),
    CliError,
>)
    ensures
        r is Ok <==> rx_content is Some && tx_content is Some && valid_u64(
            trim(rx_content->0@),
        ) && valid_u64(trim(tx_content->0@)),
        r is Ok ==> r->Ok_0.0 == dec_value(u64_digits(trim(rx_content->0@))) && r->Ok_0.1
            == dec_value(u64_digits(trim(tx_content->0@))),
        (rx_content is None || tx_content is None) <==> (r is Err && r->Err_0.kind
            == ErrorKind::Io),
        r is Err ==> (r->Err_0.kind == ErrorKind::Io || r->Err_0.kind == ErrorKind::Parse),
{
    match (rx_content, tx_content) {
        (Some(rx), Some(tx)) => {
            let rx_bytes = crate::parse::read_file_as_u64(rx)?;
            let tx_bytes = crate::parse::read_file_as_u64(tx)?;
            Ok((rx_bytes, tx_bytes))
        },
        _ => {
            // "statistics file does not exist"
            let msg: [u8; 30] = [
                0x73, 0x74, 0x61, 0x74, 0x69, 0x73, 0x74, 0x69, 0x63, 0x73, 0x20, 0x66, 0x69,
                0x6c, 0x65, 0x20, 0x64, 0x6f, 0x65, 0x73, 0x20, 0x6e, 0x6f, 0x74, 0x20, 0x65,
                0x78, 0x69, 0x73, 0x74,
            ];
            Err(CliError::from_msg(ErrorKind::Io, msg.as_slice()))
        },
    }
}

/// The rate line: the interface name padded to eight columns, then the
/// down and up rates each padded to nine columns.
pub open spec fn rate_text(iface: Seq<u8>, rx_rate: nat, tx_rate: nat) -> Seq<u8> {
    pad_left(iface, 8) + seq![0x3au8, 0x20, 0x76, 0x20] + pad_left(human_bytes(rx_rate), 9)
        + seq![0x2fu8, 0x73, 0x20, 0x5e, 0x20] + pad_left(human_bytes(tx_rate), 9)
        + seq![0x2fu8, 0x73]
}

/// Build the throughput block from the interface name and the two rates
/// in bytes per second.
pub fn get_rate(iface_name: &[u8], rx_rate: u64, tx_rate: u64) -> (r: SwayBarBlock)
    ensures
        r.name@ == seq![0x72u8, 0x61, 0x74, 0x65],
        r.full_text@ == rate_text(iface_name@, rx_rate as nat, tx_rate as nat),
        r.min_width == Some(28usize),
        r.urgent is None,
        r.color is None,
{
    // "rate"
    let name_lit: [u8; 4] = [0x72, 0x61, 0x74, 0x65];
    let mut name: Vec<u8> = Vec::new();
    crate::text::push_bytes(&mut name, name_lit.as_slice());
    let mut text: Vec<u8> = Vec::new();
    let mut iface: Vec<u8> = Vec::new();
    crate::text::push_bytes(&mut iface, iface_name);
    crate::text::push_pad_left(&mut text, &iface, 8);
    // ": v "
    let mid1: [u8; 4] = [0x3a, 0x20, 0x76, 0x20];
    crate::text::push_bytes(&mut text, mid1.as_slice());
    let rx_h = bytes_to_human(rx_rate);
    crate::text::push_pad_left(&mut text, &rx_h, 9);
    // "/s ^ "
    let mid2: [u8; 5] = [0x2f, 0x73, 0x20, 0x5e, 0x20];
    crate::text::push_bytes(&mut text, mid2.as_slice());
    let tx_h = bytes_to_human(tx_rate);
    crate::text::push_pad_left(&mut text, &tx_h, 9);
    // "/s"
    let tail: [u8; 2] = [0x2f, 0x73];
    crate::text::push_bytes(&mut text, tail.as_slice());
    assert(text@ =~= rate_text(iface_name@, rx_rate as nat, tx_rate as nat));
    SwayBarBlock { name, full_text: text, min_width: Some(28), urgent: None, color: None }
}

} // verus!
