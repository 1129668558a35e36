//! Telemetry snapshots: per-device metrics, the graceful per-field fallback
//! rules, and the deterministic mock data used when no hardware management
//! interface is available.
//!
//! The hardware queries themselves go through small trusted wrappers around
//! `nvml_wrapper`; everything that decides what ends up in a snapshot is
//! verified here.

use vstd::prelude::*;
use vstd::string::StringExecFns;

use crate::text::{dec_digits, u64_to_string};

verus! {

/// Instantaneous metrics for one device, produced fresh on every poll.
///
/// Memory sizes are carried in bytes; the renderer derives the gibibyte
/// labels from them.
#[derive(Debug, Clone, PartialEq)]
pub struct GpuData {
    pub usage_percent: u8,
    pub memory_percent: u8,
    pub memory_used_bytes: u64,
    pub memory_total_bytes: u64,
    pub name: String,
}

impl GpuData {
    /// Every device record carries percentages within [0, 100] and a
    /// non-empty display name.
    pub open spec fn wf(self) -> bool {
        &&& self.usage_percent <= 100
        &&& self.memory_percent <= 100
        &&& self.name@.len() > 0
    }
}

/// Memory usage as a whole-number percentage: `used / total * 100` truncated
/// toward zero, clamped into [0, 100]; zero when the total is unknown.
pub open spec fn memory_percent_of(used: int, total: int) -> u8 {
    if total <= 0 {
        0u8
    } else if used * 100 / total > 100 {
        100u8
    } else {
        (used * 100 / total) as u8
    }
}

/// The memory percentage is always within [0, 100], and is exactly zero
/// whenever the total is zero.
pub proof fn lemma_memory_percent_bounds(used: int, total: int)
    requires
        used >= 0,
        total >= 0,
    ensures
        memory_percent_of(used, total) <= 100,
        total == 0 ==> memory_percent_of(used, total) == 0,
{
    if total > 0 {
        assert(used * 100 >= 0) by (nonlinear_arith)
            requires
                used >= 0,
        ;
        assert(used * 100 / total >= 0) by (nonlinear_arith)
            requires
                used * 100 >= 0,
                total > 0,
        ;
    }
}

/// Compute the memory percentage from raw byte counts.
pub fn compute_memory_percent(used: u64, total: u64) -> (r: u8)
    ensures
        r == memory_percent_of(used as int, total as int),
        r <= 100,
{
    proof {
        lemma_memory_percent_bounds(used as int, total as int);
    }
    if total == 0 {
        0
    } else {
        let p: u128 = (used as u128) * 100 / (total as u128);
        if p > 100 {
            100
        } else {
            p as u8
        }
    }
}

/// The placeholder name used when a device's real name is unavailable.
pub open spec fn default_name_seq(index: int) -> Seq<char> {
    "GPU "@ + dec_digits(index)
}

/// The name of a synthetic mock device, marked so the user can see that no
/// hardware interface was found.
pub open spec fn mock_name_seq(index: int) -> Seq<char> {
    "GPU "@ + dec_digits(index) + " (No NVML)"@
}

/// A decimal rendering never has fewer than one digit.
pub proof fn lemma_dec_digits_len(n: int)
    ensures
        dec_digits(n).len() >= 1,
    decreases n,
{
    if n >= 10 {
        lemma_dec_digits_len(n / 10);
    }
}

/// Build the placeholder name for a device index.
pub fn default_name(index: u64) -> (s: String)
    ensures
        s@ == default_name_seq(index as int),
{
    let mut s = String::from_str("GPU ");
    let digits = u64_to_string(index);
    s.append(digits.as_str());
    assert(s@ =~= default_name_seq(index as int));
    s
}

/// Build the name of a synthetic mock device.
pub fn mock_name(index: u64) -> (s: String)
    ensures
        s@ == mock_name_seq(index as int),
{
    let mut s = default_name(index);
    s.append(" (No NVML)");
    assert(s@ =~= mock_name_seq(index as int));
    s
}

/// What a fetched utilization becomes in the snapshot: the reported figure
/// clamped into [0, 100], or zero when the fetch failed.
pub open spec fn usage_or_default(fetched: Option<u32>) -> u8 {
    match fetched {
        Some(u) => if u > 100 {
            100u8
        } else {
            u as u8
        },
        None => 0u8,
    }
}

/// What fetched memory information (used and total bytes) becomes in the
/// snapshot: the derived percentage with the raw byte counts, or all zero
/// when the fetch failed.
pub open spec fn memory_fields_or_default(fetched: Option<(u64, u64)>) -> (u8, u64, u64) {
    match fetched {
        Some(p) => (memory_percent_of(p.0 as int, p.1 as int), p.0, p.1),
        None => (0u8, 0u64, 0u64),
    }
}

/// What a fetched name becomes in the snapshot: the reported name, unless the
/// fetch failed or reported an empty string, in which case the indexed
/// placeholder stands in.
pub open spec fn name_or_default(index: int, fetched: Option<String>) -> Seq<char> {
    match fetched {
        Some(n) => if n@.len() > 0 {
            n@
        } else {
            default_name_seq(index)
        },
        None => default_name_seq(index),
    }
}

/// Combine the independently fetched fields of one device into its record,
/// substituting the documented default for each field whose fetch failed.
pub fn assemble_device(
    index: u64,
    name: Option<String>,
    usage: Option<u32>,
    memory: Option<(u64, u64)>,
) -> (d: GpuData)
    ensures
        d.wf(),
        d.name@ == name_or_default(index as int, name),
        d.usage_percent == usage_or_default(usage),
        d.memory_percent == memory_fields_or_default(memory).0,
        d.memory_used_bytes == memory_fields_or_default(memory).1,
        d.memory_total_bytes == memory_fields_or_default(memory).2,
{
    proof {
        lemma_dec_digits_len(index as int);
        reveal_strlit("GPU ");
    }
    let usage_percent: u8 = match usage {
        Some(u) => if u > 100 {
            100
        } else {
            u as u8
        },
        None => 0,
    };
    let (memory_percent, memory_used_bytes, memory_total_bytes): (u8, u64, u64) = match memory {
        Some(p) => (compute_memory_percent(p.0, p.1), p.0, p.1),
        None => (0, 0, 0),
    };
    let resolved_name: String = match name {
        Some(n) => if n.as_str().is_empty() {
            default_name(index)
        } else {
            n
        },
        None => default_name(index),
    };
    GpuData {
        usage_percent,
        memory_percent,
        memory_used_bytes,
        memory_total_bytes,
        name: resolved_name,
    }
}

/// The synthetic device shown at `index` by the bounded sampler when the
/// hardware interface is unavailable: a pure function of the index.
pub open spec fn mock_device_basic(index: int, d: GpuData) -> bool {
    &&& d.name@ == mock_name_seq(index)
    &&& d.usage_percent == 25 * index
    &&& d.memory_percent == 30 * index + 20
    &&& d.memory_used_bytes == 536870912 * (3 * index + 4)
    &&& d.memory_total_bytes == 8589934592
}

/// The synthetic device shown at `index` by the all-devices sampler when the
/// hardware interface is unavailable: a pure function of the index.
pub open spec fn mock_device_all(index: int, d: GpuData) -> bool {
    &&& d.name@ == mock_name_seq(index)
    &&& d.usage_percent == 25 * index + 10
    &&& d.memory_percent == 30 * index + 20
    &&& d.memory_used_bytes == 536870912 * (4 * index + 7)
    &&& d.memory_total_bytes == 12884901888
}

/// The full fallback snapshot of the bounded sampler: exactly two synthetic
/// devices, each determined by its index.
pub open spec fn is_mock_snapshot_basic(s: Seq<GpuData>) -> bool {
    &&& s.len() == 2
    &&& forall|i: int| 0 <= i < 2 ==> mock_device_basic(i, #[trigger] s[i])
}

/// The full fallback snapshot of the all-devices sampler: exactly two
/// synthetic devices, each determined by its index.
pub open spec fn is_mock_snapshot_all(s: Seq<GpuData>) -> bool {
    &&& s.len() == 2
    &&& forall|i: int| 0 <= i < 2 ==> mock_device_all(i, #[trigger] s[i])
}

/// The mock fallback is deterministic: any two snapshots that satisfy the
/// same fallback description agree on every field of every device, so two
/// calls of either fallback path yield identical data.
pub proof fn lemma_mock_fallback_deterministic(a: Seq<GpuData>, b: Seq<GpuData>)
    requires
        (is_mock_snapshot_all(a) && is_mock_snapshot_all(b)) || (is_mock_snapshot_basic(a)
            && is_mock_snapshot_basic(b)),
    ensures
        a.len() == b.len(),
        forall|i: int| 0 <= i < a.len() ==> #[trigger] a[i].name@ == b[i].name@,
        forall|i: int| 0 <= i < a.len() ==> #[trigger] a[i].usage_percent == b[i].usage_percent,
        forall|i: int| 0 <= i < a.len() ==> #[trigger] a[i].memory_percent == b[i].memory_percent,
        forall|i: int| 0 <= i < a.len() ==> #[trigger] a[i].memory_used_bytes
            == b[i].memory_used_bytes,
        forall|i: int| 0 <= i < a.len() ==> #[trigger] a[i].memory_total_bytes
            == b[i].memory_total_bytes,
{
}

/// Every synthetic device of either fallback variant is well formed.
pub proof fn lemma_mock_devices_wf(index: int, d: GpuData)
    requires
        0 <= index < 2,
        mock_device_basic(index, d) || mock_device_all(index, d),
    ensures
        d.wf(),
{
    lemma_dec_digits_len(index);
    reveal_strlit("GPU ");
}

fn mock_device_basic_exec(index: u64) -> (d: GpuData)
    requires
        index < 2,
    ensures
        mock_device_basic(index as int, d),
        d.wf(),
{
    let d = GpuData {
        usage_percent: 25 * (index as u8),
        memory_percent: 30 * (index as u8) + 20,
        memory_used_bytes: 536870912 * (3 * index + 4),
        memory_total_bytes: 8589934592,
        name: mock_name(index),
    };
    proof {
        lemma_mock_devices_wf(index as int, d);
    }
    d
}

fn mock_device_all_exec(index: u64) -> (d: GpuData)
    requires
        index < 2,
    ensures
        mock_device_all(index as int, d),
        d.wf(),
{
    let d = GpuData {
        usage_percent: 25 * (index as u8) + 10,
        memory_percent: 30 * (index as u8) + 20,
        memory_used_bytes: 536870912 * (4 * index + 7),
        memory_total_bytes: 12884901888,
        name: mock_name(index),
    };
    proof {
        lemma_mock_devices_wf(index as int, d);
    }
    d
}

/// The fallback snapshot of the bounded sampler, used when the hardware
/// interface cannot be initialized.
pub fn mock_gpu_data() -> (v: Vec<GpuData>)
    ensures
        is_mock_snapshot_basic(v@),
        forall|i: int| 0 <= i < v@.len() ==> (#[trigger] v@[i]).wf(),
{
    let mut v: Vec<GpuData> = Vec::new();
    v.push(mock_device_basic_exec(0));
    v.push(mock_device_basic_exec(1));
    v
}

/// The fallback snapshot of the all-devices sampler, used when the hardware
/// interface cannot be initialized.
pub fn mock_all_gpu_data() -> (v: Vec<GpuData>)
    ensures
        is_mock_snapshot_all(v@),
        forall|i: int| 0 <= i < v@.len() ==> (#[trigger] v@[i]).wf(),
{
    let mut v: Vec<GpuData> = Vec::new();
    v.push(mock_device_all_exec(0));
    v.push(mock_device_all_exec(1));
    v
}

#[verifier::external_type_specification]
#[verifier::external_body]
pub struct ExNvml(nvml_wrapper::Nvml);

#[verifier::external_type_specification]
#[verifier::external_body]
pub struct ExDevice<'nvml>(nvml_wrapper::Device<'nvml>);

/// Relies on `nvml_wrapper::Nvml::init`: loads and initializes the hardware
/// management library, failing when no driver is available. Whether it
/// succeeds depends on the machine, so nothing is promised of the outcome.
#[verifier::external_body]
fn nvml_init() -> (r: Option<nvml_wrapper::Nvml>) {
    match nvml_wrapper::Nvml::init() {
        Ok(nvml) => Some(nvml),
        Err(_) => None,
    }
}

/// Relies on `nvml_wrapper::Nvml::device_count`: reports how many compute
/// devices the system has. The figure depends on the machine, so nothing is
/// promised of the outcome.
#[verifier::external_body]
fn nvml_device_count(nvml: &nvml_wrapper::Nvml) -> (r: Option<u32>) {
    match nvml.device_count() {
        Ok(count) => Some(count),
        Err(_) => None,
    }
}

/// Relies on `nvml_wrapper::Nvml::device_by_index`: obtains the handle of
/// one device, failing for an invalid index or an inaccessible device.
#[verifier::external_body]
fn nvml_device_by_index<'a>(nvml: &'a nvml_wrapper::Nvml, index: u32) -> (r: Option<
    nvml_wrapper::Device<'a>,
>) {
    match nvml.device_by_index(index) {
        Ok(device) => Some(device),
        Err(_) => None,
    }
}

/// Relies on `nvml_wrapper::Device::name`: fetches the device's product
/// name, a machine-dependent string.
#[verifier::external_body]
fn nvml_device_name<'a>(device: &nvml_wrapper::Device<'a>) -> (r: Option<String>) {
    match device.name() {
        Ok(name) => Some(name),
        Err(_) => None,
    }
}

/// Relies on `nvml_wrapper::Device::utilization_rates`: fetches the current
/// compute utilization percentage, a machine-dependent figure.
#[verifier::external_body]
fn nvml_device_utilization<'a>(device: &nvml_wrapper::Device<'a>) -> (r: Option<u32>) {
    match device.utilization_rates() {
        Ok(rates) => Some(rates.gpu),
        Err(_) => None,
    }
}

/// Relies on `nvml_wrapper::Device::memory_info`: fetches the used and total
/// framebuffer memory in bytes, machine-dependent figures.
#[verifier::external_body]
fn nvml_device_memory<'a>(device: &nvml_wrapper::Device<'a>) -> (r: Option<(u64, u64)>) {
    match device.memory_info() {
        Ok(info) => Some((info.used, info.total)),
        Err(_) => None,
    }
}

fn collect_devices(nvml: &nvml_wrapper::Nvml) -> (v: Vec<GpuData>)
    ensures
        forall|i: int| 0 <= i < v@.len() ==> (#[trigger] v@[i]).wf(),
{
    let count: u32 = match nvml_device_count(nvml) {
        Some(count) => count,
        None => 0,
    };
    let mut v: Vec<GpuData> = Vec::new();
    let mut index: u32 = 0;
    while index < count
        invariant
            forall|i: int| 0 <= i < v@.len() ==> (#[trigger] v@[i]).wf(),
        decreases count - index,
    {
        match nvml_device_by_index(nvml, index) {
            Some(device) => {
                let name = nvml_device_name(&device);
                let usage = nvml_device_utilization(&device);
                let memory = nvml_device_memory(&device);
                v.push(assemble_device(index as u64, name, usage, memory));
            },
            None => {},
        }
        index = index + 1;
    }
    v
}

/// One poll of the telemetry source. Enumerates the devices the hardware
/// interface reports, substituting the documented default for every field
/// whose fetch fails; a device is dropped only when its handle cannot be
/// obtained. When the interface itself cannot be initialized, the fixed
/// two-device mock snapshot is returned instead, so the call never fails
/// outward.
pub fn get_gpu_data(_max_gpus: usize) -> (v: Vec<GpuData>)
    ensures
        forall|i: int| 0 <= i < v@.len() ==> (#[trigger] v@[i]).wf(),
{
    match nvml_init() {
        Some(nvml) => collect_devices(&nvml),
        None => mock_gpu_data(),
    }
}

/// One poll of the telemetry source over all available devices, degrading to
/// the all-devices mock snapshot when the hardware interface is unavailable.
/// Like [`get_gpu_data`], it never fails outward.
pub fn get_all_gpu_data() -> (v: Vec<GpuData>)
    ensures
        forall|i: int| 0 <= i < v@.len() ==> (#[trigger] v@[i]).wf(),
{
    match nvml_init() {
        Some(nvml) => collect_devices(&nvml),
        None => mock_all_gpu_data(),
    }
}

/// The utilization percentages of one poll, in device order; every value is
/// within [0, 100].
pub fn generate_random_data(n: usize) -> (v: Vec<u8>)
    ensures
        forall|i: int| 0 <= i < v@.len() ==> (#[trigger] v@[i]) <= 100,
{
    let data = get_gpu_data(n);
    let mut v: Vec<u8> = Vec::new();
    let mut index: usize = 0;
    while index < data.len()
        invariant
            forall|i: int| 0 <= i < data@.len() ==> (#[trigger] data@[i]).wf(),
            forall|i: int| 0 <= i < v@.len() ==> (#[trigger] v@[i]) <= 100,
        decreases data@.len() - index,
    {
        v.push(data[index].usage_percent);
        index = index + 1;
    }
    v
}

} // verus!
