use gpu_monitor::data::{
    assemble_device, compute_memory_percent, default_name, generate_random_data, get_all_gpu_data,
    get_gpu_data, mock_all_gpu_data, mock_gpu_data, mock_name, GpuData,
};
use gpu_monitor::text::{gb_number, u64_to_string};

#[test]
fn decimal_rendering() {
    assert_eq!(u64_to_string(0), "0");
    assert_eq!(u64_to_string(7), "7");
    assert_eq!(u64_to_string(42), "42");
    assert_eq!(u64_to_string(120), "120");
    assert_eq!(u64_to_string(18446744073709551615), "18446744073709551615");
}

#[test]
fn gibibyte_labels() {
    assert_eq!(gb_number(0), "0.0");
    assert_eq!(gb_number(1073741824), "1.0");
    assert_eq!(gb_number(3758096384), "3.5");
    assert_eq!(gb_number(12884901888), "12.0");
    assert_eq!(gb_number(8589934592), "8.0");
}

#[test]
fn memory_percent_zero_total_is_zero() {
    assert_eq!(compute_memory_percent(0, 0), 0);
    assert_eq!(compute_memory_percent(123456, 0), 0);
}

#[test]
fn memory_percent_is_truncated_ratio() {
    assert_eq!(compute_memory_percent(50, 100), 50);
    assert_eq!(compute_memory_percent(1, 3), 33);
    assert_eq!(compute_memory_percent(2, 3), 66);
    assert_eq!(compute_memory_percent(100, 100), 100);
    assert_eq!(compute_memory_percent(0, 100), 0);
}

#[test]
fn memory_percent_clamped_when_used_exceeds_total() {
    assert_eq!(compute_memory_percent(150, 100), 100);
    assert_eq!(compute_memory_percent(u64::MAX, 1), 100);
}

#[test]
fn device_names() {
    assert_eq!(default_name(0), "GPU 0");
    assert_eq!(default_name(11), "GPU 11");
    assert_eq!(mock_name(0), "GPU 0 (No NVML)");
    assert_eq!(mock_name(1), "GPU 1 (No NVML)");
}

#[test]
fn assemble_with_all_fetches_failed() {
    let d = assemble_device(3, None, None, None);
    assert_eq!(d.name, "GPU 3");
    assert_eq!(d.usage_percent, 0);
    assert_eq!(d.memory_percent, 0);
    assert_eq!(d.memory_used_bytes, 0);
    assert_eq!(d.memory_total_bytes, 0);
}

#[test]
fn assemble_with_successful_fetches() {
    let d = assemble_device(
        0,
        Some(String::from("Tesla C2070")),
        Some(73),
        Some((3758096384, 12884901888)),
    );
    assert_eq!(d.name, "Tesla C2070");
    assert_eq!(d.usage_percent, 73);
    assert_eq!(d.memory_percent, 29);
    assert_eq!(d.memory_used_bytes, 3758096384);
    assert_eq!(d.memory_total_bytes, 12884901888);
}

#[test]
fn assemble_clamps_out_of_range_utilization() {
    let d = assemble_device(0, None, Some(150), None);
    assert_eq!(d.usage_percent, 100);
    let d = assemble_device(0, None, Some(100), None);
    assert_eq!(d.usage_percent, 100);
}

#[test]
fn assemble_replaces_empty_name() {
    let d = assemble_device(5, Some(String::new()), None, None);
    assert_eq!(d.name, "GPU 5");
}

#[test]
fn mock_fallback_values_bounded_sampler() {
    let v = mock_gpu_data();
    assert_eq!(v.len(), 2);
    assert_eq!(v[0].name, "GPU 0 (No NVML)");
    assert_eq!(v[0].usage_percent, 0);
    assert_eq!(v[0].memory_percent, 20);
    assert_eq!(v[0].memory_used_bytes, 2147483648);
    assert_eq!(v[0].memory_total_bytes, 8589934592);
    assert_eq!(v[1].name, "GPU 1 (No NVML)");
    assert_eq!(v[1].usage_percent, 25);
    assert_eq!(v[1].memory_percent, 50);
    assert_eq!(v[1].memory_used_bytes, 3758096384);
    assert_eq!(v[1].memory_total_bytes, 8589934592);
}

#[test]
fn mock_fallback_values_all_devices_sampler() {
    let v = mock_all_gpu_data();
    assert_eq!(v.len(), 2);
    assert_eq!(v[0].name, "GPU 0 (No NVML)");
    assert_eq!(v[0].usage_percent, 10);
    assert_eq!(v[0].memory_percent, 20);
    assert_eq!(v[0].memory_used_bytes, 3758096384);
    assert_eq!(v[0].memory_total_bytes, 12884901888);
    assert_eq!(gb_number(v[0].memory_total_bytes), "12.0");
    assert_eq!(v[1].name, "GPU 1 (No NVML)");
    assert_eq!(v[1].usage_percent, 35);
    assert_eq!(v[1].memory_percent, 50);
    assert_eq!(v[1].memory_used_bytes, 5905580032);
    assert_eq!(v[1].memory_total_bytes, 12884901888);
}

#[test]
fn mock_fallback_is_deterministic() {
    let a = mock_all_gpu_data();
    let b = mock_all_gpu_data();
    assert_eq!(a, b);
    let a = mock_gpu_data();
    let b = mock_gpu_data();
    assert_eq!(a, b);
}

fn is_mock_all(v: &[GpuData]) -> bool {
    v.len() == 2 && v[0].name == "GPU 0 (No NVML)" && v[1].name == "GPU 1 (No NVML)"
}

#[test]
fn sampler_without_hardware_interface_degrades_to_mock() {
    // In an environment without the hardware management library the sampler
    // must fall back to the fixed two-device mock snapshot; with real
    // hardware present it reports the enumerated devices instead.
    let v = get_all_gpu_data();
    if is_mock_all(&v) {
        assert_eq!(v, mock_all_gpu_data());
        let twice = get_all_gpu_data();
        assert_eq!(v, twice);
    }
    for d in &v {
        assert!(d.usage_percent <= 100);
        assert!(d.memory_percent <= 100);
        assert!(!d.name.is_empty());
    }
}

#[test]
fn bounded_sampler_never_fails_outward() {
    let v = get_gpu_data(4);
    for d in &v {
        assert!(d.usage_percent <= 100);
        assert!(d.memory_percent <= 100);
        assert!(!d.name.is_empty());
    }
}

#[test]
fn usage_values_within_range() {
    let v = generate_random_data(2);
    for u in &v {
        assert!(*u <= 100);
    }
}
