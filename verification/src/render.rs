//! The frame renderer's verified half: given a snapshot, compute the whole
//! frame as data — the vertical layout, every panel's text, and the gauge
//! fill values — with the counting, pluralization and clamping rules proved.
//! Committing the computed frame to a terminal is left to the surrounding
//! binary.

use vstd::prelude::*;
use vstd::string::StringExecFns;

use crate::data::{default_name, default_name_seq, GpuData};
use crate::spec_clamp_percent;
use crate::text::{dec_digits, gb_number, gb_number_seq, u64_to_string};

verus! {

/// One layout constraint, mirroring the terminal library's vocabulary:
/// a fixed height or width in cells, a minimum in cells, or a percentage
/// of the enclosing area.
#[derive(Debug, Clone, Copy, PartialEq, Eq, Structural)]
pub enum LayoutConstraint {
    Exact(u16),
    AtLeast(u16),
    Fraction(u16),
}

/// One gauge: a fill value already clamped into [0, 100], the panel title,
/// and the text label drawn over the bar.
#[derive(Debug, Clone, PartialEq)]
pub struct GaugePlan {
    pub percent: u8,
    pub title: String,
    pub label: String,
}

/// One device row: its three-column split, the name/info panel, and the two
/// gauges.
#[derive(Debug, Clone, PartialEq)]
pub struct DeviceRowPlan {
    pub columns: Vec<LayoutConstraint>,
    pub panel_title: String,
    pub info_text: String,
    pub usage: GaugePlan,
    pub memory: GaugePlan,
}

/// A complete frame, computed once per tick: the vertical regions and the
/// content of every panel. With no devices the frame carries an explanatory
/// message instead of rows.
#[derive(Debug, Clone, PartialEq)]
pub struct FramePlan {
    pub regions: Vec<LayoutConstraint>,
    pub title_text: String,
    pub message_text: Option<String>,
    pub rows: Vec<DeviceRowPlan>,
    pub quit_text: String,
}

/// The vertical regions of a frame showing `n` devices: a fixed-height title,
/// one fixed-height row per device and a one-line quit hint, or the fixed
/// three-region layout when there are no devices.
pub open spec fn frame_regions_seq(n: int) -> Seq<LayoutConstraint> {
    if n == 0 {
        seq![
            LayoutConstraint::Exact(5),
            LayoutConstraint::AtLeast(5),
            LayoutConstraint::Exact(1),
        ]
    } else {
        seq![LayoutConstraint::Exact(3)] + Seq::new(n as nat, |i: int| LayoutConstraint::Exact(6))
            + seq![LayoutConstraint::Exact(1)]
    }
}

/// A frame for `n` devices has exactly `n + 2` vertical regions when `n > 0`
/// and exactly 3 when `n == 0`.
pub proof fn lemma_frame_region_count(n: int)
    requires
        n >= 0,
    ensures
        n == 0 ==> frame_regions_seq(n).len() == 3,
        n > 0 ==> frame_regions_seq(n).len() == n + 2,
{
}

/// The three-column split of one device row: a fixed-width info panel and
/// two percentage-width gauges.
pub open spec fn device_columns_seq() -> Seq<LayoutConstraint> {
    seq![
        LayoutConstraint::Exact(25),
        LayoutConstraint::Fraction(37),
        LayoutConstraint::Fraction(37),
    ]
}

/// The title text over a non-empty snapshot: the device count with the
/// correct singular or plural wording.
pub open spec fn title_text_seq(n: int) -> Seq<char> {
    dec_digits(n) + if n == 1 {
        " GPU detected"@
    } else {
        " GPUs detected"@
    }
}

/// The info panel's text: the device name with its usage and memory
/// percentages, one per line.
pub open spec fn info_text_seq(d: GpuData) -> Seq<char> {
    d.name@ + "\nUsage: "@ + dec_digits(d.usage_percent as int) + "%\nMemory: "@ + dec_digits(
        d.memory_percent as int,
    ) + "%"@
}

/// The usage gauge's label: the clamped percentage.
pub open spec fn usage_label_seq(p: u8) -> Seq<char> {
    dec_digits(spec_clamp_percent(p) as int) + "%"@
}

/// The memory gauge's title, carrying the memory percentage.
pub open spec fn memory_title_seq(p: u8) -> Seq<char> {
    "Memory Usage "@ + dec_digits(p as int) + "%"@
}

/// The memory gauge's label: used and total gibibytes to one decimal place.
pub open spec fn memory_label_seq(used: int, total: int) -> Seq<char> {
    gb_number_seq(used) + " GB / "@ + gb_number_seq(total) + " GB"@
}

/// How one device row of the frame reflects one device of the snapshot.
pub open spec fn row_plan_matches(row: DeviceRowPlan, d: GpuData, index: int) -> bool {
    &&& row.columns@ == device_columns_seq()
    &&& row.panel_title@ == default_name_seq(index)
    &&& row.info_text@ == info_text_seq(d)
    &&& row.usage.percent == spec_clamp_percent(d.usage_percent)
    &&& row.usage.title@ == "GPU Usage %"@
    &&& row.usage.label@ == usage_label_seq(d.usage_percent)
    &&& row.memory.percent == spec_clamp_percent(d.memory_percent)
    &&& row.memory.title@ == memory_title_seq(d.memory_percent)
    &&& row.memory.label@ == memory_label_seq(
        d.memory_used_bytes as int,
        d.memory_total_bytes as int,
    )
}

fn build_title_text(n: usize) -> (s: String)
    ensures
        s@ == title_text_seq(n as int),
{
    let mut s = u64_to_string(n as u64);
    if n == 1 {
        s.append(" GPU detected");
    } else {
        s.append(" GPUs detected");
    }
    assert(s@ =~= title_text_seq(n as int));
    s
}

fn build_info_text(d: &GpuData) -> (s: String)
    ensures
        s@ == info_text_seq(*d),
{
    let mut s = d.name.clone();
    s.append("\nUsage: ");
    let usage_digits = u64_to_string(d.usage_percent as u64);
    s.append(usage_digits.as_str());
    s.append("%\nMemory: ");
    let memory_digits = u64_to_string(d.memory_percent as u64);
    s.append(memory_digits.as_str());
    s.append("%");
    assert(s@ =~= info_text_seq(*d));
    s
}

fn build_usage_gauge(p: u8) -> (g: GaugePlan)
    ensures
        g.percent == spec_clamp_percent(p),
        g.title@ == "GPU Usage %"@,
        g.label@ == usage_label_seq(p),
{
    let clamped = crate::clamp_percent(p);
    let mut label = u64_to_string(clamped as u64);
    label.append("%");
    assert(label@ =~= usage_label_seq(p));
    GaugePlan { percent: clamped, title: String::from_str("GPU Usage %"), label }
}

fn build_memory_gauge(p: u8, used: u64, total: u64) -> (g: GaugePlan)
    ensures
        g.percent == spec_clamp_percent(p),
        g.title@ == memory_title_seq(p),
        g.label@ == memory_label_seq(used as int, total as int),
{
    let clamped = crate::clamp_percent(p);
    let mut title = String::from_str("Memory Usage ");
    let percent_digits = u64_to_string(p as u64);
    title.append(percent_digits.as_str());
    title.append("%");
    assert(title@ =~= memory_title_seq(p));
    let mut label = gb_number(used);
    label.append(" GB / ");
    let total_number = gb_number(total);
    label.append(total_number.as_str());
    label.append(" GB");
    assert(label@ =~= memory_label_seq(used as int, total as int));
    GaugePlan { percent: clamped, title, label }
}

fn build_device_columns() -> (v: Vec<LayoutConstraint>)
    ensures
        v@ == device_columns_seq(),
{
    let mut v: Vec<LayoutConstraint> = Vec::new();
    v.push(LayoutConstraint::Exact(25));
    v.push(LayoutConstraint::Fraction(37));
    v.push(LayoutConstraint::Fraction(37));
    assert(v@ =~= device_columns_seq());
    v
}

fn build_device_row(d: &GpuData, index: usize) -> (row: DeviceRowPlan)
    ensures
        row_plan_matches(row, *d, index as int),
{
    DeviceRowPlan {
        columns: build_device_columns(),
        panel_title: default_name(index as u64),
        info_text: build_info_text(d),
        usage: build_usage_gauge(d.usage_percent),
        memory: build_memory_gauge(d.memory_percent, d.memory_used_bytes, d.memory_total_bytes),
    }
}

fn build_frame_regions(n: usize) -> (v: Vec<LayoutConstraint>)
    requires
        n + 2 <= usize::MAX,
    ensures
        v@ == frame_regions_seq(n as int),
{
    let mut v: Vec<LayoutConstraint> = Vec::new();
    if n == 0 {
        v.push(LayoutConstraint::Exact(5));
        v.push(LayoutConstraint::AtLeast(5));
        v.push(LayoutConstraint::Exact(1));
        assert(v@ =~= frame_regions_seq(0));
    } else {
        v.push(LayoutConstraint::Exact(3));
        let mut i: usize = 0;
        while i < n
            invariant
                v@ =~= seq![LayoutConstraint::Exact(3)] + Seq::new(
                    i as nat,
                    |j: int| LayoutConstraint::Exact(6),
                ),
                i <= n,
            decreases n - i,
        {
            v.push(LayoutConstraint::Exact(6));
            assert(v@ =~= seq![LayoutConstraint::Exact(3)] + Seq::new(
                (i + 1) as nat,
                |j: int| LayoutConstraint::Exact(6),
            ));
            i = i + 1;
        }
        v.push(LayoutConstraint::Exact(1));
        assert(v@ =~= frame_regions_seq(n as int));
    }
    v
}

/// Compute one complete frame from a snapshot. The vertical layout has
/// exactly three regions for an empty snapshot and exactly one region per
/// device plus title and quit hint otherwise; the title pluralizes the
/// device count; every gauge fill value is clamped into [0, 100] whatever
/// the snapshot holds.
pub fn plan_frame(snapshot: &Vec<GpuData>) -> (p: FramePlan)
    requires
        snapshot@.len() + 2 <= usize::MAX,
    ensures
        p.regions@ == frame_regions_seq(snapshot@.len() as int),
        p.rows@.len() == snapshot@.len(),
        forall|i: int|
            0 <= i < snapshot@.len() ==> row_plan_matches(
                #[trigger] p.rows@[i],
                snapshot@[i],
                i,
            ),
        snapshot@.len() == 0 ==> {
            &&& p.regions@.len() == 3
            &&& p.title_text@ == "GPU Monitor - No GPUs detected or NVML unavailable"@
            &&& p.message_text matches Some(m) && m@
                == "No GPU data available.\nMake sure NVIDIA drivers and NVML are properly installed."@
        },
        snapshot@.len() > 0 ==> {
            &&& p.regions@.len() == snapshot@.len() + 2
            &&& p.title_text@ == title_text_seq(snapshot@.len() as int)
            &&& p.message_text is None
        },
        p.quit_text@ == "Press 'q' to quit"@,
{
    proof {
        lemma_frame_region_count(snapshot@.len() as int);
    }
    let n = snapshot.len();
    let regions = build_frame_regions(n);
    let quit_text = String::from_str("Press 'q' to quit");
    if n == 0 {
        FramePlan {
            regions,
            title_text: String::from_str("GPU Monitor - No GPUs detected or NVML unavailable"),
            message_text: Some(
                String::from_str(
                    "No GPU data available.\nMake sure NVIDIA drivers and NVML are properly installed.",
                ),
            ),
            rows: Vec::new(),
            quit_text,
        }
    } else {
        let mut rows: Vec<DeviceRowPlan> = Vec::new();
        let mut i: usize = 0;
        while i < n
            invariant
                n == snapshot@.len(),
                i <= n,
                rows@.len() == i,
                forall|j: int|
                    0 <= j < i ==> row_plan_matches(#[trigger] rows@[j], snapshot@[j], j),
            decreases n - i,
        {
            rows.push(build_device_row(&snapshot[i], i));
            i = i + 1;
        }
        FramePlan {
            regions,
            title_text: build_title_text(n),
            message_text: None,
            rows,
            quit_text,
        }
    }
}

/// A piece of text repeated `n` times.
pub open spec fn repeat_seq(s: Seq<char>, n: int) -> Seq<char>
    decreases n,
{
    if n <= 0 {
        Seq::empty()
    } else {
        repeat_seq(s, n - 1) + s
    }
}

/// A decimal rendering padded with a leading space to at least two columns.
pub open spec fn pad2_digits(n: int) -> Seq<char> {
    if 0 <= n < 10 {
        seq![' '] + dec_digits(n)
    } else {
        dec_digits(n)
    }
}

/// One line of the plain text-bar view: the padded index, a separator, and
/// a two-column block glyph repeated once per percentage point.
pub open spec fn bar_line_seq(index: int, val: int) -> Seq<char> {
    pad2_digits(index) + ": "@ + repeat_seq("██"@, val)
}

fn build_bar(val: u8) -> (s: String)
    ensures
        s@ == repeat_seq("██"@, val as int),
{
    let mut s = String::new();
    let mut i: u8 = 0;
    while i < val
        invariant
            i <= val,
            s@ =~= repeat_seq("██"@, i as int),
        decreases val - i,
    {
        s.append("██");
        i = i + 1;
    }
    assert(s@ =~= repeat_seq("██"@, val as int));
    s
}

fn build_bar_line(index: usize, val: u8) -> (s: String)
    ensures
        s@ == bar_line_seq(index as int, val as int),
{
    let mut s = if index < 10 {
        let mut padded = String::from_str(" ");
        let digits = u64_to_string(index as u64);
        padded.append(digits.as_str());
        proof {
            reveal_strlit(" ");
        }
        assert(padded@ =~= pad2_digits(index as int));
        padded
    } else {
        let digits = u64_to_string(index as u64);
        assert(digits@ =~= pad2_digits(index as int));
        digits
    };
    s.append(": ");
    let bar = build_bar(val);
    s.append(bar.as_str());
    assert(s@ =~= bar_line_seq(index as int, val as int));
    s
}

/// The plain text-bar view of a list of percentages: one line per value, in
/// order, each holding its padded index and a bar of block glyphs scaled by
/// the value.
pub fn bar_lines(data: &Vec<u8>) -> (lines: Vec<String>)
    ensures
        lines@.len() == data@.len(),
        forall|i: int|
            0 <= i < data@.len() ==> (#[trigger] lines@[i])@ == bar_line_seq(i, data@[i] as int),
{
    let mut lines: Vec<String> = Vec::new();
    let mut i: usize = 0;
    while i < data.len()
        invariant
            i <= data@.len(),
            lines@.len() == i,
            forall|j: int|
                0 <= j < i ==> (#[trigger] lines@[j])@ == bar_line_seq(j, data@[j] as int),
        decreases data@.len() - i,
    {
        lines.push(build_bar_line(i, data[i]));
        i = i + 1;
    }
    lines
}

} // verus!
