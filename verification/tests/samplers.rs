use msb::battery::{get_battery, BatteryReading};
use msb::block::BarColor;
use msb::cpu::{get_cpu, CpuUsageStat};
use msb::error::ErrorKind;
use msb::rate::{bytes_to_human, get_net_bytes, get_rate, net_rate};
use msb::sound::get_sound;
use msb::temp::{get_temp, HwmonEntry};
use msb::wifi::{dbm_to_percentage, get_wifi};

fn reading(now: u64, full: u64, status: &str, power: i64) -> BatteryReading {
    BatteryReading {
        energy_now: now,
        energy_full: full,
        status: status.as_bytes().to_vec(),
        power_now: power,
    }
}

#[test]
fn wifi_percentage_boundaries() {
    assert_eq!(dbm_to_percentage(-100), 0);
    assert_eq!(dbm_to_percentage(-50), 100);
    assert_eq!(dbm_to_percentage(-128), 0);
    assert_eq!(dbm_to_percentage(0), 100);
    assert_eq!(dbm_to_percentage(-70), 60);
    assert_eq!(dbm_to_percentage(-75), 50);
}

#[test]
fn wifi_percentage_is_monotonic() {
    let mut last = 0u8;
    let mut dbm = i8::MIN;
    loop {
        let p = dbm_to_percentage(dbm);
        assert!(p >= last);
        assert!(p <= 100);
        last = p;
        if dbm == i8::MAX {
            break;
        }
        dbm += 1;
    }
}

#[test]
fn wifi_block_color_bands() {
    let strong = get_wifi(Some(-70)).unwrap();
    assert_eq!(strong.name, b"wifi".to_vec());
    assert_eq!(strong.full_text, "\u{1F4F6} 60%".as_bytes().to_vec());
    assert_eq!(strong.color, None);

    let middling = get_wifi(Some(-75)).unwrap();
    assert_eq!(middling.full_text, "\u{1F4F6} 50%".as_bytes().to_vec());
    assert_eq!(middling.color, Some(BarColor::Yellow));

    let weak = get_wifi(Some(-88)).unwrap();
    assert_eq!(weak.full_text, "\u{1F4F6} 24%".as_bytes().to_vec());
    assert_eq!(weak.color, Some(BarColor::Red));
}

#[test]
fn wifi_absent_hardware_yields_no_block() {
    assert!(get_wifi(None).is_none());
}

#[test]
fn cpu_line_parses_in_kernel_order() {
    let s = CpuUsageStat::from_line(b"cpu  10 20 30 40 50 60 70 80 90 100").unwrap();
    assert_eq!(s.user, 10);
    assert_eq!(s.nice, 20);
    assert_eq!(s.system, 30);
    assert_eq!(s.idle, 40);
    assert_eq!(s.iowait, 50);
    assert_eq!(s.irq, 60);
    assert_eq!(s.soft_irq, 70);
    assert_eq!(s.steal, 80);
    assert_eq!(s.work_time(), 10 + 20 + 30 + 60 + 70);
    assert_eq!(s.total_time(), s.work_time() + 50 + 40 + 80);
}

#[test]
fn cpu_line_missing_or_bad_fields_are_errors() {
    // Absent counters are a hard fetch error, never a silent zero.
    assert_eq!(CpuUsageStat::from_line(b"cpu 5 6").unwrap_err().kind, ErrorKind::Parse);
    // So is a malformed counter.
    assert_eq!(
        CpuUsageStat::from_line(b"cpu x 2 3 4 5 6 7 8").unwrap_err().kind,
        ErrorKind::Parse
    );
    assert_eq!(CpuUsageStat::from_line(b"").unwrap_err().kind, ErrorKind::Parse);
}

#[test]
fn cpu_retrieve_reads_the_first_line() {
    let stat = b"cpu  1 2 3 4 5 6 7 8\ncpu0 9 9 9 9 9 9 9 9\n";
    let s = CpuUsageStat::retrieve(stat).unwrap();
    assert_eq!(s.user, 1);
    assert_eq!(s.idle, 4);
    assert_eq!(s.steal, 8);
}

#[test]
fn cpu_usage_rate_formula() {
    let old = CpuUsageStat::from_line(b"cpu 100 0 0 0 0 0 0 0").unwrap();
    let new = CpuUsageStat::from_line(b"cpu 300 0 0 200 0 0 0 0").unwrap();
    // Work delta 200 over total delta 400.
    assert_eq!(new.cpu_usage_percent(&old), 50);
    let b = get_cpu(&old, &new).unwrap();
    assert_eq!(b.name, b"cpu".to_vec());
    assert_eq!(b.full_text, b"C:  50%".to_vec());
    assert_eq!(b.color, Some(BarColor::Yellow));
    assert_eq!(b.min_width, Some(7));
}

#[test]
fn cpu_color_thresholds() {
    let old = CpuUsageStat::from_line(b"cpu 0 0 0 0 0 0 0 0").unwrap();
    let hot = CpuUsageStat::from_line(b"cpu 80 0 0 20 0 0 0 0").unwrap();
    assert_eq!(get_cpu(&old, &hot).unwrap().color, Some(BarColor::Red));
    let cool = CpuUsageStat::from_line(b"cpu 10 0 0 90 0 0 0 0").unwrap();
    assert_eq!(get_cpu(&old, &cool).unwrap().color, None);
}

#[test]
fn cpu_backwards_counters_are_an_error() {
    let old = CpuUsageStat::from_line(b"cpu 100 0 0 100 0 0 0 0").unwrap();
    let wrapped = CpuUsageStat::from_line(b"cpu 5 0 0 0 0 0 0 0").unwrap();
    assert_eq!(get_cpu(&old, &wrapped).unwrap_err().kind, ErrorKind::Protocol);
    // A zero total delta must fail loudly, never divide.
    assert_eq!(get_cpu(&old, &old).unwrap_err().kind, ErrorKind::Protocol);
}

#[test]
fn rate_formula_truncates_toward_zero() {
    assert_eq!(net_rate(1000, 2000, 500).unwrap(), 2000);
    assert_eq!(net_rate(0, 1, 3000).unwrap(), 0);
    assert_eq!(net_rate(10, 17, 1000).unwrap(), 7);
    assert_eq!(net_rate(5, 5, 500).unwrap(), 0);
    assert_eq!(net_rate(2000, 1000, 500).unwrap_err().kind, ErrorKind::Protocol);
    assert_eq!(net_rate(0, 10, 0).unwrap_err().kind, ErrorKind::Protocol);
}

#[test]
fn bytes_render_in_binary_multiples() {
    assert_eq!(bytes_to_human(0), b"0 B".to_vec());
    assert_eq!(bytes_to_human(512), b"512 B".to_vec());
    assert_eq!(bytes_to_human(1024), b"1.0 KiB".to_vec());
    assert_eq!(bytes_to_human(1536), b"1.5 KiB".to_vec());
    assert_eq!(bytes_to_human(3 * 1024 * 1024 + 512 * 1024), b"3.5 MiB".to_vec());
    assert_eq!(bytes_to_human(2 * 1024 * 1024 * 1024), b"2.0 GiB".to_vec());
    // Exactly one TiB still renders in GiB: the TiB band is strict.
    assert_eq!(bytes_to_human(1u64 << 40), b"1024.0 GiB".to_vec());
    assert_eq!(bytes_to_human((1u64 << 40) + (1u64 << 39)), b"1.5 TiB".to_vec());
}

#[test]
fn net_bytes_need_both_files() {
    assert_eq!(get_net_bytes(Some(b"10\n"), Some(b"20\n")).unwrap(), (10, 20));
    assert_eq!(get_net_bytes(None, Some(b"20")).unwrap_err().kind, ErrorKind::Io);
    assert_eq!(get_net_bytes(Some(b"x"), Some(b"20")).unwrap_err().kind, ErrorKind::Parse);
}

#[test]
fn rate_block_pads_its_columns() {
    let b = get_rate(b"wlan0", 1000, 2000);
    assert_eq!(b.name, b"rate".to_vec());
    assert_eq!(b.full_text, b"   wlan0: v    1000 B/s ^   1.9 KiB/s".to_vec());
    assert_eq!(b.min_width, Some(28));
    assert_eq!(b.color, None);
}

#[test]
fn temp_prefers_sensors_in_fixed_order() {
    let entries = vec![
        HwmonEntry { name: b"coretemp".to_vec(), temp_content: Some(b"45000\n".to_vec()) },
        HwmonEntry { name: b"k10temp".to_vec(), temp_content: Some(b"70000\n".to_vec()) },
    ];
    let b = get_temp(&entries).unwrap().unwrap();
    assert_eq!(b.full_text, "\u{1F321}: 70\u{B0}C".as_bytes().to_vec());
    assert_eq!(b.color, None);
    assert_eq!(b.min_width, Some(8));
}

#[test]
fn temp_skips_sensors_without_a_reading() {
    let entries = vec![
        HwmonEntry { name: b"k10temp".to_vec(), temp_content: None },
        HwmonEntry { name: b"coretemp".to_vec(), temp_content: Some(b"81000".to_vec()) },
    ];
    let b = get_temp(&entries).unwrap().unwrap();
    assert_eq!(b.full_text, "\u{1F321}: 81\u{B0}C".as_bytes().to_vec());
    assert_eq!(b.color, Some(BarColor::Red));
}

#[test]
fn temp_duplicate_names_keep_the_later_entry() {
    let entries = vec![
        HwmonEntry { name: b"coretemp".to_vec(), temp_content: Some(b"40000".to_vec()) },
        HwmonEntry { name: b"coretemp".to_vec(), temp_content: Some(b"60000".to_vec()) },
    ];
    let b = get_temp(&entries).unwrap().unwrap();
    assert_eq!(b.full_text, "\u{1F321}: 60\u{B0}C".as_bytes().to_vec());
}

#[test]
fn temp_without_any_sensor_yields_no_block() {
    let entries: Vec<HwmonEntry> = Vec::new();
    assert!(get_temp(&entries).unwrap().is_none());
    let unknown = vec![
        HwmonEntry { name: b"acpitz".to_vec(), temp_content: Some(b"30000".to_vec()) },
    ];
    assert!(get_temp(&unknown).unwrap().is_none());
}

#[test]
fn temp_low_reading_pads_to_two_columns() {
    let entries = vec![
        HwmonEntry { name: b"coretemp".to_vec(), temp_content: Some(b"500".to_vec()) },
    ];
    let b = get_temp(&entries).unwrap().unwrap();
    assert_eq!(b.full_text, "\u{1F321}:  0\u{B0}C".as_bytes().to_vec());
    assert_eq!(b.color, None);
}

#[test]
fn temp_bad_reading_is_a_parse_error() {
    let entries = vec![
        HwmonEntry { name: b"thinkpad".to_vec(), temp_content: Some(b"oops".to_vec()) },
    ];
    assert_eq!(get_temp(&entries).unwrap_err().kind, ErrorKind::Parse);
}

#[test]
fn sound_parses_volume_and_mute() {
    let b = get_sound(b"Volume: 0.45\n").unwrap();
    assert_eq!(b.name, b"sound".to_vec());
    assert_eq!(b.full_text, "\u{266A}: 45%".as_bytes().to_vec());
    assert_eq!(b.color, None);

    let m = get_sound(b"Volume: 0.45 [MUTED]\n").unwrap();
    assert_eq!(m.full_text, "\u{1F507}: 45%".as_bytes().to_vec());
    assert_eq!(m.color, Some(BarColor::Yellow));

    let loud = get_sound(b"Volume: 1.27").unwrap();
    assert_eq!(loud.full_text, "\u{266A}: 127%".as_bytes().to_vec());
}

#[test]
fn sound_rejects_unexpected_output() {
    assert_eq!(get_sound(b"no volume here").unwrap_err().kind, ErrorKind::Parse);
    assert_eq!(get_sound(b"Volume: abc").unwrap_err().kind, ErrorKind::Parse);
    assert_eq!(get_sound(b"Volume: .").unwrap_err().kind, ErrorKind::Parse);
    assert_eq!(get_sound(b"").unwrap_err().kind, ErrorKind::Parse);
}

#[test]
fn battery_charging_shows_bolt_and_no_color() {
    let b = get_battery(Some(&reading(45_000, 100_000, "Charging", 10_000)))
        .unwrap()
        .unwrap();
    assert_eq!(b.name, b"battery".to_vec());
    // 55000 uWh to fill at 10000 uW: 5 hours 30 minutes.
    assert_eq!(b.full_text, "\u{26A1}\u{FE0E}: 45% 05:30".as_bytes().to_vec());
    assert_eq!(b.color, None);
    assert_eq!(b.min_width, Some(12));
}

#[test]
fn battery_low_time_boundary_is_half_an_hour() {
    // Exactly half an hour left: 2 * 5000 == 10000, not low; 45 % gives yellow.
    let at_boundary = get_battery(Some(&reading(5_000, 11_111, "Discharging", 10_000)))
        .unwrap()
        .unwrap();
    assert_eq!(at_boundary.color, Some(BarColor::Yellow));
    // One unit under half an hour: red, empty-battery glyph.
    let under = get_battery(Some(&reading(4_999, 11_111, "Discharging", 10_000)))
        .unwrap()
        .unwrap();
    assert_eq!(under.color, Some(BarColor::Red));
    assert!(under.full_text.starts_with("\u{1FAAB}".as_bytes()));
}

#[test]
fn battery_charge_boundaries_at_thirty_and_sixty() {
    // Plenty of time left so only the charge decides. 30 % exactly: red.
    let r30 = get_battery(Some(&reading(30_000, 100_000, "Discharging", 10)))
        .unwrap()
        .unwrap();
    assert_eq!(r30.color, Some(BarColor::Red));
    // Just above 30 %: yellow.
    let r31 = get_battery(Some(&reading(31_000, 100_000, "Discharging", 10)))
        .unwrap()
        .unwrap();
    assert_eq!(r31.color, Some(BarColor::Yellow));
    // 60 % exactly: yellow; above it the default.
    let r60 = get_battery(Some(&reading(60_000, 100_000, "Discharging", 10)))
        .unwrap()
        .unwrap();
    assert_eq!(r60.color, Some(BarColor::Yellow));
    let r61 = get_battery(Some(&reading(61_000, 100_000, "Discharging", 10)))
        .unwrap()
        .unwrap();
    assert_eq!(r61.color, None);
}

#[test]
fn battery_unknown_drain_shows_zero_time() {
    let b = get_battery(Some(&reading(100_000, 100_000, "Full", 0)))
        .unwrap()
        .unwrap();
    assert_eq!(b.full_text, "\u{26A1}\u{FE0E}: 100% 00:00".as_bytes().to_vec());
    assert_eq!(b.color, None);
}

#[test]
fn battery_absent_or_broken() {
    assert!(get_battery(None).unwrap().is_none());
    let e = get_battery(Some(&reading(1, 0, "Discharging", 5))).unwrap_err();
    assert_eq!(e.kind, ErrorKind::Protocol);
}
