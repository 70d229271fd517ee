use crossinfo::info::{ComponentInfo, ProcessInfo, Reading};
use crossinfo::lists::{
    component_list, component_tab, copy_components, copy_processes, find_process,
    process_details, process_list, process_selection, process_tab,
};
use crossinfo::sort::{SortByComponent, SortByProcess, SortOrder};

fn reading(value: f32) -> Reading {
    Reading::new(value.to_bits(), format!("{value:.2}"), format!("{value}"))
}

fn component(name: &str, temperature: f32, critical: Option<f32>) -> ComponentInfo {
    ComponentInfo {
        name: name.to_string(),
        temperature: reading(temperature),
        critical_temperature: critical.map(reading),
    }
}

fn process(name: &str, pid: u32, parent: Option<u32>, cpu: f32, memory: u64) -> ProcessInfo {
    ProcessInfo {
        name: name.to_string(),
        path: Some(format!("/usr/bin/{name}")),
        memory_usage: memory,
        swap_usage: 2_000,
        cpu_usage: reading(cpu),
        run_time: 3661,
        pid,
        parent,
    }
}

#[test]
fn component_rows_and_header() {
    let components = vec![component("CPU0", 40.0, Some(90.0)), component("Sensor 17", 85.5, None)];
    let view = component_list(&components, false);
    let temperature_label = "Temperature [t]";
    let critical_label = "Critical Temperature [c]";
    let name_width = 9;
    let temperature_width = temperature_label.len();
    let critical_width = critical_label.len();
    assert_eq!(
        view.title,
        format!(
            "{:1}{:name_width$}  {:temperature_width$}    {:critical_width$}",
            "", "Name", temperature_label, critical_label
        )
    );
    assert_eq!(
        view.items,
        vec![
            format!(
                "{:name_width$}  {:temperature_width$.2}°C  {:critical_width$}",
                "CPU0", 40.0f32, "90.00°C"
            ),
            format!(
                "{:name_width$}  {:temperature_width$.2}°C  {:critical_width$}",
                "Sensor 17", 85.5f32, "None"
            ),
        ]
    );
    assert_eq!(view.highlight_symbol, ">");
    assert!(view.bordered);
}

#[test]
fn component_labels_follow_shift() {
    let view = component_list(&vec![component("a", 1.0, None)], true);
    assert!(view.title.contains("Temperature [T]"));
    assert!(view.title.contains("Critical Temperature [C]"));
}

#[test]
fn component_tab_sorts_before_it_lists() {
    let components = vec![component("CPU0", 40.0, Some(90.0)), component("CPU1", 85.0, None)];
    let fetched = Some(components);
    let view =
        component_tab(&fetched, SortByComponent::Temperature(SortOrder::Descending), false);
    assert!(view.items[0].starts_with("CPU1"));
    assert!(view.items[1].starts_with("CPU0"));
    let view = component_tab(&fetched, SortByComponent::Critical(SortOrder::Descending), false);
    assert!(view.items[0].starts_with("CPU0"));
    assert!(view.items[1].starts_with("CPU1"));
    let names: Vec<&str> = fetched.as_ref().unwrap().iter().map(|c| c.name.as_str()).collect();
    assert_eq!(names, vec!["CPU0", "CPU1"]);
}

#[test]
fn component_tab_without_components() {
    for components in [None, Some(Vec::new())] {
        let view =
            component_tab(&components, SortByComponent::Temperature(SortOrder::Ascending), false);
        assert_eq!(view.items, vec!["No information available!"]);
        assert_eq!(view.title, "");
        assert_eq!(view.highlight_symbol, "");
        assert!(!view.bordered);
    }
}

#[test]
fn process_rows_and_header() {
    let processes =
        vec![process("init", 1, None, 0.5, 1_500_000), process("a-long-name", 20, Some(1), 12.345, 999)];
    let view = process_list(&processes, false);
    let (cpu_label, memory_label, swap_label, runtime_label) =
        ("CPU usage [c]", "Memory usage [m]", "SWAP usage [s]", "Runtime [r]");
    let selected_width = "Kill [k]   ".len();
    let name_width = "a-long-name".len();
    let cpu_width = cpu_label.len();
    let memory_width = memory_label.len();
    let swap_width = swap_label.len();
    let runtime_width = runtime_label.len();
    assert_eq!(
        view.title,
        format!(
            "{:selected_width$}{:name_width$}  {:cpu_width$}   {:memory_width$}  {:swap_width$}  {:runtime_width$}",
            "", "Name", cpu_label, memory_label, swap_label, runtime_label
        )
    );
    assert_eq!(
        view.items,
        vec![
            format!(
                "{:name_width$}  {:cpu_width$.2}%  {:memory_width$}  {:swap_width$}  {:runtime_width$}",
                "init", 0.5f32, "1.50 MB", "2 kB", "01:01:01"
            ),
            format!(
                "{:name_width$}  {:cpu_width$.2}%  {:memory_width$}  {:swap_width$}  {:runtime_width$}",
                "a-long-name", 12.345f32, "999 B", "2 kB", "01:01:01"
            ),
        ]
    );
    assert_eq!(view.highlight_symbol, "Kill [k]   ");
}

#[test]
fn process_labels_follow_shift() {
    let view = process_list(&vec![process("a", 1, None, 1.0, 1)], true);
    for label in ["CPU usage [C]", "Memory usage [M]", "SWAP usage [S]", "Runtime [R]"] {
        assert!(view.title.contains(label));
    }
}

#[test]
fn finding_a_process_by_identity() {
    let processes = vec![
        process("init", 1, None, 0.0, 0),
        process("bash", 20, Some(1), 0.0, 0),
        process("twin", 20, Some(1), 0.0, 0),
    ];
    assert_eq!(find_process(&processes, 1), Some(0));
    assert_eq!(find_process(&processes, 20), Some(1));
    assert_eq!(find_process(&processes, 21), None);
    assert_eq!(find_process(&Vec::new(), 1), None);
}

#[test]
fn process_details_name_the_parent() {
    let processes = vec![
        process("init", 1, None, 0.0, 0),
        process("bash", 20, Some(1), 12.5, 1_000_000),
        process("orphan", 30, Some(999), 0.0, 0),
    ];
    assert_eq!(
        process_details(&processes, 1),
        "Name: bash\nPath: /usr/bin/bash\nMemory Usage: 1 MB\nSWAP Usage: 2 kB\nCPU Usage: 12.5%\nRuntime: 01:01:01\nPID: 20\nParent: init"
    );
    assert!(process_details(&processes, 0).ends_with("\nPID: 1\nParent: No parent"));
    assert!(process_details(&processes, 2).ends_with("\nPID: 30\nParent: unknown"));
    let mut pathless = processes.clone();
    pathless[0].path = None;
    assert!(process_details(&pathless, 0).starts_with("Name: init\nPath: unknown\n"));
}

#[test]
fn selection_is_the_process_under_the_cursor() {
    let processes = vec![process("init", 1, None, 0.0, 0), process("bash", 20, Some(1), 0.0, 0)];
    let selection = process_selection(&processes, 1);
    assert_eq!(selection.line_count, 2);
    let target = selection.process.unwrap();
    assert_eq!((target.pid, target.name.as_str()), (20, "bash"));
    assert_eq!(selection.details.unwrap(), process_details(&processes, 1));
    let beyond = process_selection(&processes, 2);
    assert_eq!(beyond.line_count, 2);
    assert!(beyond.process.is_none());
    assert!(beyond.details.is_none());
}

#[test]
fn process_tab_shows_a_sorted_copy_and_leaves_the_list_as_fetched() {
    let fetched = Some(vec![
        process("small", 1, None, 0.0, 10),
        process("large", 2, None, 0.0, 30),
        process("medium", 3, None, 0.0, 20),
    ]);
    let (view, selection) =
        process_tab(&fetched, SortByProcess::MemoryUsage(SortOrder::Descending), false, 0);
    assert!(view.items[0].starts_with("large"));
    assert!(view.items[1].starts_with("medium"));
    assert!(view.items[2].starts_with("small"));
    assert_eq!(selection.process.unwrap().pid, 2);
    assert_eq!(selection.line_count, 3);
    let names: Vec<&str> = fetched.as_ref().unwrap().iter().map(|p| p.name.as_str()).collect();
    assert_eq!(names, vec!["small", "large", "medium"]);
}

#[test]
fn ties_follow_the_order_of_the_probe_whatever_was_shown_before() {
    let fetched = Some(vec![
        process("first", 1, None, 1.0, 7),
        process("second", 2, None, 3.0, 7),
        process("third", 3, None, 2.0, 7),
    ]);
    let (by_cpu, _) =
        process_tab(&fetched, SortByProcess::CpuUsage(SortOrder::Descending), false, 0);
    assert!(by_cpu.items[0].starts_with("second"));
    let (by_memory, _) =
        process_tab(&fetched, SortByProcess::MemoryUsage(SortOrder::Descending), false, 0);
    assert!(by_memory.items[0].starts_with("first"));
    assert!(by_memory.items[1].starts_with("second"));
    assert!(by_memory.items[2].starts_with("third"));
}

#[test]
fn a_copy_holds_what_the_list_holds() {
    let list = vec![process("a", 1, Some(9), 1.5, 7), process("b", 2, None, 0.0, 0)];
    let copy = copy_processes(&list);
    assert_eq!(copy.len(), 2);
    assert_eq!(copy[0].name, "a");
    assert_eq!(copy[0].path.as_deref(), Some("/usr/bin/a"));
    assert_eq!(copy[0].parent, Some(9));
    assert_eq!(copy[0].cpu_usage.bits, 1.5f32.to_bits());
    assert_eq!(copy[0].cpu_usage.text, "1.50");
    assert_eq!(copy[0].cpu_usage.plain, "1.5");
    assert_eq!(copy[1].pid, 2);
    let components = vec![component("x", 1.0, Some(2.0)), component("y", 3.0, None)];
    let copy = copy_components(&components);
    assert_eq!(copy.len(), 2);
    assert_eq!(copy[0].critical_temperature.as_ref().unwrap().text, "2.00");
    assert!(copy[1].critical_temperature.is_none());
    assert_eq!(copy[1].name, "y");
}

#[test]
fn process_tab_without_processes() {
    for fetched in [None, Some(Vec::new())] {
        let (view, selection) =
            process_tab(&fetched, SortByProcess::CpuUsage(SortOrder::Descending), false, 0);
        assert_eq!(view.title, "Processes");
        assert_eq!(view.items, vec!["No information available!"]);
        assert!(view.bordered);
        assert_eq!(selection.line_count, 0);
        assert!(selection.process.is_none());
        assert!(selection.details.is_none());
    }
}
