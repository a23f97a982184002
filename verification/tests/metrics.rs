use pistats::decimal::u64_to_string;
use pistats::metrics::{stats, status_line, temperature, PiStats, Sensor};

fn sensor(label: &str, reading: f32) -> Sensor {
    Sensor { label: label.to_string(), temperature: format!("{}", reading) }
}

#[test]
fn formats_line_exactly() {
    let snapshot = PiStats {
        cpu_frequency: 1500,
        temperature: format!("{}", 41.85f32),
        memory_available_kb: 1234567,
    };
    assert_eq!(snapshot.fmt(), "1500 Mhz / 41.85 C / 1234567 kB");
    assert_eq!(snapshot.fmt(), format!("{} Mhz / {} C / {} kB", 1500u64, 41.85f32, 1234567u64));
}

#[test]
fn formatting_twice_identical() {
    let snapshot = PiStats {
        cpu_frequency: 2200,
        temperature: format!("{}", 49.875f32),
        memory_available_kb: 998,
    };
    assert_eq!(snapshot.fmt(), snapshot.fmt());
}

#[test]
fn composite_chosen_regardless_of_order() {
    let first = vec![sensor("Composite", 41.85), sensor("Tctl", 49.9), sensor("CPU", 16.8)];
    let middle = vec![sensor("Tctl", 49.9), sensor("Composite", 41.85), sensor("CPU", 16.8)];
    let last = vec![sensor("CPU", 16.8), sensor("Tctl", 49.9), sensor("Composite", 41.85)];
    assert_eq!(temperature(&first), Some("41.85".to_string()));
    assert_eq!(temperature(&middle), Some("41.85".to_string()));
    assert_eq!(temperature(&last), Some("41.85".to_string()));
}

#[test]
fn cpu_chosen_when_no_composite() {
    let sensors = vec![sensor("Tctl", 49.875), sensor("Tdie", 49.875), sensor("CPU", 36.5)];
    assert_eq!(temperature(&sensors), Some("36.5".to_string()));
}

#[test]
fn no_preferred_label_yields_none() {
    let sensors = vec![sensor("Tctl", 49.875), sensor("Tdie", 49.875)];
    assert_eq!(temperature(&sensors), None);
}

#[test]
fn empty_sensors_zero_temperature() {
    let sensors: Vec<Sensor> = Vec::new();
    assert_eq!(temperature(&sensors), None);
    let snapshot = stats(900, &sensors, 4096);
    assert_eq!(snapshot.temperature, format!("{}", 0.0f32));
    assert_eq!(status_line(900, &sensors, 4096), "900 Mhz / 0 C / 4096 kB");
}

#[test]
fn selects_composite_over_tctl() {
    let sensors = vec![sensor("Tctl", 49.9), sensor("Composite", 41.85)];
    assert_eq!(temperature(&sensors), Some("41.85".to_string()));
    assert_eq!(stats(1500, &sensors, 1024).temperature, "41.85");
}

#[test]
fn selects_cpu_alone() {
    let sensors = vec![sensor("CPU", 16.8)];
    assert_eq!(temperature(&sensors), Some("16.8".to_string()));
    assert_eq!(stats(700, &sensors, 2048).temperature, "16.8");
}

#[test]
fn end_to_end_line() {
    let sensors = vec![sensor("Tctl", 49.9), sensor("Composite", 41.85)];
    assert_eq!(status_line(1500, &sensors, 16384), "1500 Mhz / 41.85 C / 16384 kB");
}

#[test]
fn renders_u64_decimal() {
    assert_eq!(u64_to_string(0), "0");
    assert_eq!(u64_to_string(7), "7");
    assert_eq!(u64_to_string(10), "10");
    assert_eq!(u64_to_string(90210), "90210");
    assert_eq!(u64_to_string(u64::MAX), "18446744073709551615");
}

#[test]
fn stats_carries_sampled_values() {
    let sensors = vec![sensor("Composite", 55.0)];
    let snapshot = stats(3200, &sensors, 123456);
    assert_eq!(snapshot.cpu_frequency, 3200);
    assert_eq!(snapshot.temperature, "55");
    assert_eq!(snapshot.memory_available_kb, 123456);
}
