use gpu_monitor::data::GpuData;
use gpu_monitor::render::{bar_lines, plan_frame, LayoutConstraint};

fn device(name: &str, usage: u8, memory: u8, used: u64, total: u64) -> GpuData {
    GpuData {
        usage_percent: usage,
        memory_percent: memory,
        memory_used_bytes: used,
        memory_total_bytes: total,
        name: String::from(name),
    }
}

#[test]
fn empty_snapshot_has_three_regions() {
    let p = plan_frame(&Vec::new());
    assert_eq!(p.regions.len(), 3);
    assert_eq!(
        p.regions,
        vec![
            LayoutConstraint::Exact(5),
            LayoutConstraint::AtLeast(5),
            LayoutConstraint::Exact(1),
        ]
    );
    assert_eq!(p.title_text, "GPU Monitor - No GPUs detected or NVML unavailable");
    assert_eq!(
        p.message_text.as_deref(),
        Some("No GPU data available.\nMake sure NVIDIA drivers and NVML are properly installed.")
    );
    assert!(p.rows.is_empty());
    assert_eq!(p.quit_text, "Press 'q' to quit");
}

#[test]
fn nonempty_snapshot_has_count_plus_two_regions() {
    for n in 1..5usize {
        let snapshot: Vec<GpuData> =
            (0..n).map(|i| device("A", i as u8, 0, 0, 0)).collect();
        let p = plan_frame(&snapshot);
        assert_eq!(p.regions.len(), n + 2);
        assert_eq!(p.regions[0], LayoutConstraint::Exact(3));
        for i in 0..n {
            assert_eq!(p.regions[1 + i], LayoutConstraint::Exact(6));
        }
        assert_eq!(p.regions[n + 1], LayoutConstraint::Exact(1));
        assert_eq!(p.rows.len(), n);
        assert!(p.message_text.is_none());
    }
}

#[test]
fn title_pluralization() {
    let one = vec![device("A", 1, 2, 0, 0)];
    let p = plan_frame(&one);
    assert_eq!(p.title_text, "1 GPU detected");

    let two = vec![device("A", 1, 2, 0, 0), device("B", 3, 4, 0, 0)];
    let p = plan_frame(&two);
    assert_eq!(p.title_text, "2 GPUs detected");

    let p = plan_frame(&Vec::new());
    assert_ne!(p.title_text, "0 GPUs detected");
}

#[test]
fn row_texts_and_gauges() {
    let snapshot = vec![device("RTX 3080", 73, 29, 3758096384, 12884901888)];
    let p = plan_frame(&snapshot);
    let row = &p.rows[0];
    assert_eq!(row.panel_title, "GPU 0");
    assert_eq!(row.info_text, "RTX 3080\nUsage: 73%\nMemory: 29%");
    assert_eq!(
        row.columns,
        vec![
            LayoutConstraint::Exact(25),
            LayoutConstraint::Fraction(37),
            LayoutConstraint::Fraction(37),
        ]
    );
    assert_eq!(row.usage.percent, 73);
    assert_eq!(row.usage.title, "GPU Usage %");
    assert_eq!(row.usage.label, "73%");
    assert_eq!(row.memory.percent, 29);
    assert_eq!(row.memory.title, "Memory Usage 29%");
    assert_eq!(row.memory.label, "3.5 GB / 12.0 GB");
}

#[test]
fn gauges_clamp_out_of_range_values() {
    let snapshot = vec![device("A", 150, 255, 0, 0)];
    let p = plan_frame(&snapshot);
    let row = &p.rows[0];
    assert_eq!(row.usage.percent, 100);
    assert_eq!(row.usage.label, "100%");
    assert_eq!(row.memory.percent, 100);
    let snapshot = vec![device("A", 100, 0, 0, 0)];
    let p = plan_frame(&snapshot);
    assert_eq!(p.rows[0].usage.percent, 100);
    assert_eq!(p.rows[0].memory.percent, 0);
}

#[test]
fn text_bars_scale_with_values() {
    let lines = bar_lines(&vec![2, 0, 1]);
    assert_eq!(lines.len(), 3);
    assert_eq!(lines[0], " 0: ████");
    assert_eq!(lines[1], " 1: ");
    assert_eq!(lines[2], " 2: ██");
}

#[test]
fn text_bar_indices_align() {
    let lines = bar_lines(&vec![0; 11]);
    assert_eq!(lines[9], " 9: ");
    assert_eq!(lines[10], "10: ");
}
