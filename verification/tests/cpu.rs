use crossinfo::charts::Color;
use crossinfo::cpu::{
    copy_cores, cpu_groups, cpu_pane, cpu_tab, pane_share, sort_by_manufacturer, text_precedes,
};
use crossinfo::info::{CpuInfo, Frequency, Reading};

fn a_core(model: &str, manufacturer: &str, usage: f32, megahertz: u64) -> CpuInfo {
    CpuInfo {
        usage: Reading::new(usage.to_bits(), format!("{usage:.2}"), format!("{usage}")),
        model: model.to_string(),
        manufacturer: manufacturer.to_string(),
        frequency: Frequency {
            megahertz,
            gigahertz: format!("{:.2}", megahertz as f64 / 1000.0),
        },
    }
}

fn models(cores: &[CpuInfo]) -> Vec<&str> {
    cores.iter().map(|c| c.model.as_str()).collect()
}

#[test]
fn strings_are_ordered_by_their_bytes() {
    let samples = ["", "A", "AMD", "AMDX", "Intel", "intel", "Zhaoxin", "é", "日本"];
    for a in samples {
        for b in samples {
            assert_eq!(text_precedes(a, b), a < b, "{a:?} {b:?}");
        }
    }
}

#[test]
fn cores_are_ordered_by_manufacturer_and_keep_their_order_within() {
    let mut cores = vec![
        a_core("i0", "Intel", 1.0, 1000),
        a_core("a0", "AMD", 1.0, 1000),
        a_core("i1", "Intel", 1.0, 1000),
        a_core("a1", "AMD", 1.0, 1000),
        a_core("z0", "Zhaoxin", 1.0, 1000),
        a_core("a2", "AMD", 1.0, 1000),
    ];
    sort_by_manufacturer(&mut cores);
    assert_eq!(models(&cores), vec!["a0", "a1", "a2", "i0", "i1", "z0"]);
}

#[test]
fn groups_are_cut_where_the_manufacturer_changes() {
    let cores = vec![
        a_core("i0", "Intel", 1.0, 1000),
        a_core("a0", "AMD", 1.0, 1000),
        a_core("i1", "Intel", 1.0, 1000),
    ];
    let groups = cpu_groups(cores);
    assert_eq!(groups.len(), 2);
    assert_eq!(models(&groups[0]), vec!["a0"]);
    assert_eq!(models(&groups[1]), vec!["i0", "i1"]);
    assert!(cpu_groups(Vec::new()).is_empty());
    let one = cpu_groups(vec![a_core("c0", "X", 1.0, 1), a_core("c1", "X", 1.0, 1)]);
    assert_eq!(one.len(), 1);
    assert_eq!(models(&one[0]), vec!["c0", "c1"]);
}

#[test]
fn pane_rows_header_and_lines() {
    let cores = vec![a_core("cpu0", "GenuineIntel", 12.345, 2400), a_core("cpu10", "GenuineIntel", 100.0, 800)];
    let pane = cpu_pane(&cores);
    let (usage_label, model_label, manufacturer_label, frequency_label) =
        ("Usage", "Model/Core Nr.", "Manufacturer", "Frequency (GHz)");
    let usage_width = "100.00".len();
    let model_width = model_label.len();
    let manufacturer_width = manufacturer_label.len();
    let frequency_width = frequency_label.len();
    assert_eq!(
        pane.list.title,
        format!(
            "{:manufacturer_width$}  {model_label:model_width$}  {frequency_label:frequency_width$}  {usage_label:usage_width$}",
            "GenuineIntel"
        )
    );
    assert_eq!(
        pane.list.items,
        vec![
            format!(
                "{:manufacturer_width$}  {:model_width$}  {:frequency_width$.2}  {:usage_width$.2}%",
                "", "cpu0", 2.4f64, 12.345f32
            ),
            format!(
                "{:manufacturer_width$}  {:model_width$}  {:frequency_width$.2}  {:usage_width$.2}%",
                "", "cpu10", 0.8f64, 100.0f32
            ),
        ]
    );
    assert_eq!(pane.lines.len(), 2);
    assert_eq!(pane.lines[0].name, "cpu0");
    assert_eq!(pane.lines[0].color, Color::Red);
    assert_eq!(pane.lines[1].color, Color::Green);
    assert_eq!(pane.lines[1].key.model, "cpu10");
    assert_eq!(pane.lines[1].key.manufacturer, "GenuineIntel");
}

#[test]
fn cpu_tab_has_a_pane_per_manufacturer() {
    let cores = vec![
        a_core("i0", "Intel", 1.0, 1000),
        a_core("a0", "AMD", 2.0, 2000),
        a_core("i1", "Intel", 3.0, 3000),
    ];
    let fetched = Some(cores);
    let panes = cpu_tab(&fetched);
    assert_eq!(models(fetched.as_ref().unwrap()), vec!["i0", "a0", "i1"]);
    assert_eq!(panes.len(), 2);
    assert!(panes[0].list.title.starts_with("AMD"));
    assert_eq!(panes[0].list.items.len(), 1);
    assert!(panes[1].list.title.starts_with("Intel"));
    assert_eq!(panes[1].list.items.len(), 2);
    assert_eq!(panes[1].lines[0].name, "i0");
    assert_eq!(panes[1].lines[1].name, "i1");
}

#[test]
fn cpu_tab_without_cores_is_one_blank_pane() {
    for fetched in [None, Some(Vec::new())] {
        let panes = cpu_tab(&fetched);
        assert_eq!(panes.len(), 1);
        assert_eq!(panes[0].list.title, "");
        assert!(panes[0].list.items.is_empty());
        assert!(panes[0].lines.is_empty());
    }
}

#[test]
fn a_copy_of_the_cores() {
    let cores = vec![a_core("i0", "Intel", 1.25, 1000), a_core("a0", "AMD", 2.0, 2400)];
    let copy = copy_cores(&cores);
    assert_eq!(models(&copy), vec!["i0", "a0"]);
    assert_eq!(copy[0].usage.text, "1.25");
    assert_eq!(copy[1].manufacturer, "AMD");
    assert_eq!(copy[1].frequency.megahertz, 2400);
    assert_eq!(copy[1].frequency.gigahertz, "2.40");
}

#[test]
fn every_pane_gets_an_equal_share_of_the_width() {
    assert_eq!(pane_share(0), 100);
    assert_eq!(pane_share(1), 100);
    assert_eq!(pane_share(2), 50);
    assert_eq!(pane_share(3), 33);
    assert_eq!(pane_share(100), 1);
    assert_eq!(pane_share(101), 0);
    assert_eq!(pane_share(usize::MAX), 0);
}
