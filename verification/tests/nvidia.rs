//! Temperatures of NVIDIA cards.

use halod_drivers::nvidia::devices::gpu_sensor::NvidiaGpuTransport;
use halod_drivers::nvidia::devices::gpu_sensor_common::{
    build_sensors, indexed_id, uuid_id, NvidiaSensorDevice, Reading,
};
use halod_drivers::nvidia::devices::gpu_sensor_linux::NvidiaSmiTransport;
use halod_drivers::nvidia::devices::nvapi_thermal::{
    enumerate_gpus, read_temperatures, EnumeratedGpu, NvThermalSensor, NvThermalSettings,
    ThermalFailed,
};
use halod_drivers::nvidia::devices::nvidia_smi::{
    parse_gpu_list, parse_temperature_line, temperature_columns, TEMPERATURE_LABELS,
};
use halod_drivers::types::{SensorType, SensorUnit};

fn reading(label: &'static str, celsius: f64) -> Reading {
    Reading { label, tenths: (celsius * 10.0).round() as i64 }
}

/// The readings out of one line of tool output.
fn temperatures(line: &str, labels: &[&'static str]) -> Vec<Reading> {
    let values: Vec<Option<i64>> = temperature_columns(line)
        .unwrap_or_default()
        .iter()
        .map(|column| column.parse::<f64>().ok().map(|v| (v * 10.0).round() as i64))
        .collect();
    parse_temperature_line(&values, labels)
}

#[test]
fn build_sensors_maps_label_value_and_indexed_id() {
    let sensors = build_sensors("nvidia_gpu_0", &[reading("GPU Core", 55.0), reading("Memory", 60.5)]);
    assert_eq!(sensors.len(), 2);
    assert_eq!(sensors[0].id, "nvidia_gpu_0_temp1");
    assert_eq!(sensors[0].name, "GPU Core");
    assert_eq!(sensors[0].tenths, 550);
    assert!(matches!(sensors[0].unit, SensorUnit::Celsius));
    assert_eq!(sensors[0].sensor_type, SensorType::Temperature);
    assert_eq!(sensors[1].id, "nvidia_gpu_0_temp2");
    assert_eq!(sensors[1].name, "Memory");
    assert_eq!(sensors[1].tenths, 605);
}

#[test]
fn build_sensors_empty_readings_yields_no_sensors() {
    assert!(build_sensors("nvidia_gpu_0", &[]).is_empty());
}

#[test]
fn nv_thermal_settings_size_matches_layout() {
    assert_eq!(std::mem::size_of::<NvThermalSettings>(), 68);
    assert_eq!(std::mem::size_of::<NvThermalSensor>(), 20);
}

#[test]
fn version_encoding_includes_struct_size_and_v2() {
    let v = NvThermalSettings::nvapi_version();
    assert_eq!(v & 0xFFFF, std::mem::size_of::<NvThermalSettings>() as u32);
    assert_eq!(v >> 16, 2);
}

#[test]
fn parse_gpu_list_multiple_gpus() {
    let csv = "GPU-aabb0011, NVIDIA GeForce RTX 5080\nGPU-ccdd0022, NVIDIA GeForce RTX 4090\n";
    let gpus = parse_gpu_list(csv);
    assert_eq!(gpus.len(), 2);
    assert_eq!(gpus[0].uuid, "GPU-aabb0011");
    assert_eq!(gpus[1].name, "NVIDIA GeForce RTX 4090");
}

#[test]
fn parse_gpu_list_skips_empty_uuid() {
    let csv = ", NVIDIA GeForce RTX 5080\nGPU-ccdd0022, NVIDIA GeForce RTX 4090\n";
    let gpus = parse_gpu_list(csv);
    assert_eq!(gpus.len(), 1);
    assert_eq!(gpus[0].uuid, "GPU-ccdd0022");
}

#[test]
fn parse_gpu_list_empty_input() {
    assert!(parse_gpu_list("").is_empty());
}

#[test]
fn parse_temperature_line_both_sensors() {
    let readings = temperatures("50, 70", &["GPU Core", "GPU Memory"]);
    assert_eq!(readings.len(), 2);
    assert_eq!(readings[0].tenths, 500);
    assert_eq!(readings[0].label, "GPU Core");
    assert_eq!(readings[1].tenths, 700);
}

#[test]
fn parse_temperature_line_skips_na() {
    let readings = temperatures("65, N/A", &["GPU Core", "GPU Memory"]);
    assert_eq!(readings.len(), 1);
    assert_eq!(readings[0].tenths, 650);
    assert_eq!(readings[0].label, "GPU Core");
}

#[test]
fn parse_temperature_line_empty_string() {
    assert!(temperatures("", &["GPU Core"]).is_empty());
}

fn sensor(current_temp: i32, target: u32) -> NvThermalSensor {
    NvThermalSensor {
        controller: 0,
        default_min_temp: 0,
        default_max_temp: 100,
        current_temp,
        target,
    }
}

#[test]
fn a_failed_call_reports_its_code() {
    let settings = NvThermalSettings::zeroed();
    assert_eq!(read_temperatures(-5, &settings).unwrap_err(), ThermalFailed { rc: -5 });
    assert!(read_temperatures(0, &settings).unwrap().is_empty());
}

#[test]
fn sensors_are_read_up_to_their_count() {
    let mut settings = NvThermalSettings::zeroed();
    settings.sensor = [sensor(61, 1), sensor(70, 2), sensor(80, 4)];
    settings.count = 2;
    let readings = read_temperatures(0, &settings).unwrap();
    assert_eq!(readings.iter().map(|r| r.tenths).collect::<Vec<_>>(), vec![610, 700]);
    settings.count = 9;
    assert_eq!(read_temperatures(0, &settings).unwrap().len(), 3);
}

#[test]
fn cards_are_named_up_to_the_first_zero() {
    let mut name = b"RTX".to_vec();
    name.push(0);
    name.push(b'x');
    let found = [
        EnumeratedGpu { handle: 7, name: Some(name) },
        EnumeratedGpu { handle: 8, name: None },
        EnumeratedGpu { handle: 9, name: None },
    ];
    let gpus = enumerate_gpus(&found, 2);
    assert_eq!(gpus.len(), 2);
    assert_eq!((gpus[0].handle, gpus[0].name.as_str()), (7, "RTX"));
    assert_eq!(gpus[1].handle, 8);
}

#[test]
fn the_device_shows_its_last_poll() {
    let mut device = NvidiaSensorDevice::new("card".to_string(), indexed_id(2));
    assert_eq!(device.stable_id, "nvidia_gpu_2");
    assert!(device.get_sensors().is_empty());
    device.poll_once(vec![reading("GPU Core", 41.0)]);
    assert_eq!(device.get_sensors()[0].id, "nvidia_gpu_2_temp1");
    assert!(uuid_id("GPU-1").ends_with("GPU-1"));
}

#[test]
fn listed_cards_become_devices() {
    let smi = NvidiaSmiTransport::discover(&parse_gpu_list("GPU-1, A\nGPU-2, B\n"));
    assert_eq!(smi[1].device.stable_id, "nvidia_gpu_GPU-2");
    assert_eq!((smi[1].device.name.as_str(), smi[1].uuid.as_str()), ("B", "GPU-2"));
    let found = [
        EnumeratedGpu { handle: 7, name: Some(b"A".to_vec()) },
        EnumeratedGpu { handle: 8, name: Some(b"B".to_vec()) },
    ];
    let nvapi = NvidiaGpuTransport::discover(&enumerate_gpus(&found, 2));
    assert_eq!(nvapi[1].device.stable_id, "nvidia_gpu_1");
    assert_eq!((nvapi[1].device.name.as_str(), nvapi[1].handle), ("B", 8));
}

#[test]
fn only_the_first_line_counts() {
    assert_eq!(temperatures(" 50 ,70\n99, 99\n", &TEMPERATURE_LABELS).len(), 2);
    assert_eq!(temperature_columns(" 50 ,70\n99\n").unwrap(), vec!["50", "70"]);
}
