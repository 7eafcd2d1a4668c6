use msb::aqi::AqiFetcher;
use msb::battery::{get_battery, BatteryReading};
use msb::block::{BarColor, SwayBarBlock};
use msb::clock::{get_time, time_block};
use msb::cpu::{get_cpu, CpuUsageStat};
use msb::emit::{
    assemble_snapshot, emission_bytes, emit_status, protocol_prelude, trigger_step,
    SwayBarApiVersion, TriggerAction, TriggerEvent, TriggerState,
};
use msb::error::{CliError, ErrorKind};
use msb::json::render_snapshot;
use msb::rate::get_rate;
use msb::sound::get_sound;
use msb::temp::get_temp;
use msb::wifi::get_wifi;

fn block(name: &str, text: &str) -> SwayBarBlock {
    SwayBarBlock::new(name.as_bytes().to_vec(), text.as_bytes().to_vec(), None, None)
}

fn io_error(msg: &str) -> CliError {
    CliError::new(ErrorKind::Io, msg.as_bytes().to_vec())
}

#[test]
fn protocol_prelude_matches_the_handshake() {
    let v = SwayBarApiVersion::default();
    assert_eq!(
        protocol_prelude(&v),
        "{\"version\":1,\"click_events\":false}\n[\n".as_bytes().to_vec()
    );
}

#[test]
fn empty_snapshot_renders_as_empty_array() {
    let blocks: Vec<SwayBarBlock> = Vec::new();
    assert_eq!(render_snapshot(&blocks), b"[]".to_vec());
}

#[test]
fn one_block_renders_pretty_with_optional_fields() {
    let b = SwayBarBlock::new(
        b"aqi".to_vec(),
        b"AQI: 42".to_vec(),
        Some(9),
        Some(BarColor::Red),
    );
    let expected = "[\n  {\n    \"name\": \"aqi\",\n    \"full_text\": \"AQI: 42\",\n    \
                    \"min_width\": 9,\n    \"color\": \"#FF0000\"\n  }\n]";
    assert_eq!(render_snapshot(&vec![b]), expected.as_bytes().to_vec());
}

#[test]
fn json_strings_are_escaped() {
    let b = block("x", "a\"b\\c\nd");
    let out = render_snapshot(&vec![b]);
    let text = String::from_utf8(out).unwrap();
    assert!(text.contains("\"full_text\": \"a\\\"b\\\\c\\u000ad\""));
}

#[test]
fn urgent_field_renders_when_set() {
    let mut b = block("x", "y");
    b.urgent = Some(true);
    let out = String::from_utf8(render_snapshot(&vec![b])).unwrap();
    assert!(out.contains("\"urgent\": true"));
}

#[test]
fn snapshot_keeps_fixed_source_order() {
    // Hand the coordinator its inputs in a scrambled construction order;
    // the snapshot order must not depend on it.
    let battery = block("battery", "b");
    let wifi = block("wifi", "w");
    let aqi = block("aqi", "a");
    let time = block("time", "t");
    let cpu = block("cpu", "c");
    let sound = block("sound", "s");
    let temp = block("temp", "h");
    let rate = block("rate", "r");
    let (blocks, faults) = assemble_snapshot(
        Some(aqi),
        Ok(rate),
        Ok(Some(wifi)),
        Ok(cpu),
        Ok(Some(temp)),
        Ok(sound),
        Ok(Some(battery)),
        time,
    );
    let names: Vec<&[u8]> = blocks.iter().map(|b| b.name.as_slice()).collect();
    assert_eq!(
        names,
        vec![
            b"aqi".as_slice(),
            b"rate".as_slice(),
            b"wifi".as_slice(),
            b"cpu".as_slice(),
            b"temp".as_slice(),
            b"sound".as_slice(),
            b"battery".as_slice(),
            b"time".as_slice(),
        ]
    );
    assert!(faults.is_empty());
}

#[test]
fn one_failing_sampler_costs_only_its_block() {
    let (blocks, faults) = assemble_snapshot(
        Some(block("aqi", "a")),
        Err(io_error("rate boom")),
        Ok(Some(block("wifi", "w"))),
        Ok(block("cpu", "c")),
        Ok(Some(block("temp", "h"))),
        Ok(block("sound", "s")),
        Ok(Some(block("battery", "b"))),
        block("time", "t"),
    );
    let names: Vec<&[u8]> = blocks.iter().map(|b| b.name.as_slice()).collect();
    assert_eq!(
        names,
        vec![
            b"aqi".as_slice(),
            b"wifi".as_slice(),
            b"cpu".as_slice(),
            b"temp".as_slice(),
            b"sound".as_slice(),
            b"battery".as_slice(),
            b"time".as_slice(),
        ]
    );
    // Exactly one fault entry, carrying the failing sampler's error.
    assert_eq!(faults.len(), 1);
    assert_eq!(faults[0].kind, ErrorKind::Io);
    assert_eq!(faults[0].error_msg, b"rate boom".to_vec());
}

#[test]
fn every_failure_logs_once_and_the_clock_survives() {
    let (blocks, faults) = assemble_snapshot(
        None,
        Err(io_error("r")),
        Err(io_error("w")),
        Err(io_error("c")),
        Err(io_error("h")),
        Err(io_error("s")),
        Err(io_error("b")),
        block("time", "t"),
    );
    assert_eq!(blocks.len(), 1);
    assert_eq!(blocks[0].name, b"time".to_vec());
    assert_eq!(faults.len(), 6);
}

#[test]
fn missing_optional_sources_are_no_fault() {
    // Absent Wi-Fi hardware, no matching sensor and no battery: their
    // blocks are simply omitted, with no fault entry.
    let (blocks, faults) = assemble_snapshot(
        None,
        Ok(block("rate", "r")),
        Ok(None),
        Ok(block("cpu", "c")),
        Ok(None),
        Ok(block("sound", "s")),
        Ok(None),
        block("time", "t"),
    );
    assert_eq!(blocks.len(), 4);
    assert!(faults.is_empty());
}

#[test]
fn emission_ends_with_newline_and_comma() {
    let blocks = vec![block("x", "y")];
    let bytes = emission_bytes(&blocks);
    let rendered = render_snapshot(&blocks);
    assert_eq!(&bytes[..rendered.len()], rendered.as_slice());
    assert_eq!(&bytes[rendered.len()..], b"\n,");
}

#[test]
fn aqi_cache_starts_at_the_sentinel() {
    let f = AqiFetcher::new();
    assert_eq!(f.current_value(), None);
    assert!(f.get().is_none());
}

#[test]
fn aqi_cache_keeps_the_last_success_over_failures() {
    let mut f = AqiFetcher::new();
    f.apply_fetch(None);
    assert_eq!(f.current_value(), None);
    f.apply_fetch(Some(42));
    assert_eq!(f.current_value(), Some(42));
    // A failed fetch leaves the published value untouched.
    f.apply_fetch(None);
    assert_eq!(f.current_value(), Some(42));
    let b = f.get().unwrap();
    assert_eq!(b.name, b"aqi".to_vec());
    assert_eq!(b.full_text, b"AQI: 42".to_vec());
    assert_eq!(b.min_width, Some(9));
    assert_eq!(b.color, None);
}

#[test]
fn aqi_zero_stays_the_sentinel() {
    let mut f = AqiFetcher::new();
    f.apply_fetch(Some(0));
    assert!(f.get().is_none());
}

#[test]
fn trigger_loop_serializes_emissions() {
    assert_eq!(
        trigger_step(TriggerState::Idle, TriggerEvent::TimerTick),
        (TriggerState::Emitting, TriggerAction::StartEmission)
    );
    assert_eq!(
        trigger_step(TriggerState::Idle, TriggerEvent::WakeSignal),
        (TriggerState::Emitting, TriggerAction::StartEmission)
    );
    // While emitting, further triggers are dropped.
    assert_eq!(
        trigger_step(TriggerState::Emitting, TriggerEvent::TimerTick),
        (TriggerState::Emitting, TriggerAction::Nothing)
    );
    assert_eq!(
        trigger_step(TriggerState::Emitting, TriggerEvent::WakeSignal),
        (TriggerState::Emitting, TriggerAction::Nothing)
    );
    assert_eq!(
        trigger_step(TriggerState::Emitting, TriggerEvent::EmissionDone),
        (TriggerState::Idle, TriggerAction::Nothing)
    );
}

#[test]
fn clock_formats_with_second_precision() {
    let b = time_block(2026, 10, 12, 8, 30, 5);
    assert_eq!(b.name, b"time".to_vec());
    assert_eq!(b.full_text, b"2026-10-12 08:30:05".to_vec());
    assert_eq!(b.color, None);
    let wide = time_block(987, 1, 2, 23, 59, 0);
    assert_eq!(wide.full_text, b"0987-01-02 23:59:00".to_vec());
}

#[test]
fn clock_reads_the_real_local_time() {
    let b = get_time();
    assert_eq!(b.name, b"time".to_vec());
    let t = b.full_text;
    assert_eq!(t.len(), 19);
    for (i, c) in t.iter().enumerate() {
        match i {
            4 | 7 => assert_eq!(*c, b'-'),
            10 => assert_eq!(*c, b' '),
            13 | 16 => assert_eq!(*c, b':'),
            _ => assert!(c.is_ascii_digit()),
        }
    }
}

#[test]
fn end_to_end_snapshot_with_fixed_readings() {
    // Fixed mock readings: battery 45 % charging, a CPU busy delta of 200
    // ticks against a total delta of 400 (50 % usage), Wi-Fi at -70 dBm,
    // 1000 and 2000 bytes per second on wlan0, no matching temperature
    // sensor (so no temperature block), volume at 45 %, no air-quality
    // value yet.
    let aqi = AqiFetcher::new();
    let old_cpu = CpuUsageStat::from_line(b"cpu 100 0 0 0 0 0 0 0").unwrap();
    let new_cpu = CpuUsageStat::from_line(b"cpu 300 0 0 200 0 0 0 0").unwrap();
    let batt = BatteryReading {
        energy_now: 45_000,
        energy_full: 100_000,
        status: b"Charging".to_vec(),
        power_now: 10_000,
    };
    let no_sensors: Vec<msb::temp::HwmonEntry> = Vec::new();
    let (bytes, faults) = emit_status(
        aqi.get(),
        Ok(get_rate(b"wlan0", 1000, 2000)),
        Ok(get_wifi(Some(-70))),
        get_cpu(&old_cpu, &new_cpu),
        get_temp(&no_sensors),
        get_sound(b"Volume: 0.45\n"),
        get_battery(Some(&batt)),
        time_block(2026, 10, 12, 8, 30, 5),
    );
    assert!(faults.is_empty());
    let mut expected = String::new();
    expected.push_str("[\n");
    expected.push_str("  {\n    \"name\": \"rate\",\n    \"full_text\": \"   wlan0: v    1000 B/s ^   1.9 KiB/s\",\n    \"min_width\": 28\n  },\n");
    expected.push_str("  {\n    \"name\": \"wifi\",\n    \"full_text\": \"\u{1F4F6} 60%\"\n  },\n");
    expected.push_str("  {\n    \"name\": \"cpu\",\n    \"full_text\": \"C:  50%\",\n    \"min_width\": 7,\n    \"color\": \"#E9F505\"\n  },\n");
    expected.push_str("  {\n    \"name\": \"sound\",\n    \"full_text\": \"\u{266A}: 45%\"\n  },\n");
    expected.push_str("  {\n    \"name\": \"battery\",\n    \"full_text\": \"\u{26A1}\u{FE0E}: 45% 05:30\",\n    \"min_width\": 12\n  },\n");
    expected.push_str("  {\n    \"name\": \"time\",\n    \"full_text\": \"2026-10-12 08:30:05\"\n  }\n");
    expected.push_str("]\n,");
    assert_eq!(String::from_utf8(bytes).unwrap(), expected);
}
