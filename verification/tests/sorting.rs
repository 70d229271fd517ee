use crossinfo::info::{ComponentInfo, ProcessInfo, Reading};
use crossinfo::sort::{
    sort, sort_components, sort_processes, Comparison, SortByComponent, SortByProcess, SortOrder,
};

fn reading(value: f32) -> Reading {
    Reading::new(value.to_bits(), format!("{value:.2}"), format!("{value}"))
}

fn component(name: &str, temperature: f32, critical: Option<f32>) -> ComponentInfo {
    ComponentInfo {
        name: name.to_string(),
        temperature: reading(temperature),
        critical_temperature: critical.map(reading),
    }
}

fn process(name: &str, cpu: f32, memory: u64, swap: u64, run_time: u64) -> ProcessInfo {
    ProcessInfo {
        name: name.to_string(),
        path: None,
        memory_usage: memory,
        swap_usage: swap,
        cpu_usage: reading(cpu),
        run_time,
        pid: 1,
        parent: None,
    }
}

fn names_of_components(components: &[ComponentInfo]) -> Vec<&str> {
    components.iter().map(|c| c.name.as_str()).collect()
}

fn names_of_processes(processes: &[ProcessInfo]) -> Vec<&str> {
    processes.iter().map(|p| p.name.as_str()).collect()
}

#[test]
fn components_by_temperature_descending() {
    let mut components = vec![component("CPU0", 40.0, Some(90.0)), component("CPU1", 85.0, None)];
    sort_components(&mut components, SortByComponent::Temperature(SortOrder::Descending));
    assert_eq!(names_of_components(&components), vec!["CPU1", "CPU0"]);
}

#[test]
fn components_by_critical_ascending_treats_absent_as_zero() {
    let mut components = vec![component("CPU0", 40.0, Some(90.0)), component("CPU1", 85.0, None)];
    sort_components(&mut components, SortByComponent::Critical(SortOrder::Ascending));
    assert_eq!(names_of_components(&components), vec!["CPU1", "CPU0"]);
}

#[test]
fn components_by_critical_descending() {
    let mut components = vec![
        component("a", 1.0, None),
        component("b", 1.0, Some(70.0)),
        component("c", 1.0, Some(-5.0)),
        component("d", 1.0, Some(105.5)),
    ];
    sort_components(&mut components, SortByComponent::Critical(SortOrder::Descending));
    assert_eq!(names_of_components(&components), vec!["d", "b", "a", "c"]);
}

#[test]
fn ascending_then_descending_is_the_reverse_for_distinct_keys() {
    let mut processes = vec![
        process("c", 3.0, 30, 0, 0),
        process("a", 1.0, 10, 0, 0),
        process("e", 5.0, 50, 0, 0),
        process("b", 2.0, 20, 0, 0),
        process("d", 4.0, 40, 0, 0),
    ];
    sort_processes(&mut processes, SortByProcess::MemoryUsage(SortOrder::Ascending));
    assert_eq!(names_of_processes(&processes), vec!["a", "b", "c", "d", "e"]);
    sort_processes(&mut processes, SortByProcess::MemoryUsage(SortOrder::Descending));
    assert_eq!(names_of_processes(&processes), vec!["e", "d", "c", "b", "a"]);
}

#[test]
fn equal_keys_keep_their_order_in_both_directions() {
    let unsorted = vec![
        process("x1", 0.0, 7, 0, 0),
        process("low", 0.0, 1, 0, 0),
        process("x2", 0.0, 7, 0, 0),
        process("high", 0.0, 9, 0, 0),
        process("x3", 0.0, 7, 0, 0),
    ];
    let mut ascending = unsorted.clone();
    sort_processes(&mut ascending, SortByProcess::MemoryUsage(SortOrder::Ascending));
    assert_eq!(names_of_processes(&ascending), vec!["low", "x1", "x2", "x3", "high"]);
    let mut descending = unsorted.clone();
    sort_processes(&mut descending, SortByProcess::MemoryUsage(SortOrder::Descending));
    assert_eq!(names_of_processes(&descending), vec!["high", "x1", "x2", "x3", "low"]);
}

#[test]
fn processes_by_each_field() {
    let mut processes = vec![
        process("a", 50.5, 100, 3, 20),
        process("b", 0.25, 300, 2, 10),
        process("c", 99.0, 200, 1, 30),
    ];
    sort_processes(&mut processes, SortByProcess::CpuUsage(SortOrder::Descending));
    assert_eq!(names_of_processes(&processes), vec!["c", "a", "b"]);
    sort_processes(&mut processes, SortByProcess::MemoryUsage(SortOrder::Descending));
    assert_eq!(names_of_processes(&processes), vec!["b", "c", "a"]);
    sort_processes(&mut processes, SortByProcess::SwapUsage(SortOrder::Ascending));
    assert_eq!(names_of_processes(&processes), vec!["c", "b", "a"]);
    sort_processes(&mut processes, SortByProcess::Runtime(SortOrder::Ascending));
    assert_eq!(names_of_processes(&processes), vec!["b", "a", "c"]);
}

#[test]
fn memory_above_the_signed_range_is_ordered() {
    let mut processes = vec![
        process("huge", 0.0, u64::MAX, 0, 0),
        process("small", 0.0, 1, 0, 0),
        process("large", 0.0, u64::MAX - 1, 0, 0),
    ];
    sort_processes(&mut processes, SortByProcess::MemoryUsage(SortOrder::Ascending));
    assert_eq!(names_of_processes(&processes), vec!["small", "large", "huge"]);
}

#[test]
fn sorting_nothing_and_one() {
    let mut none: Vec<ProcessInfo> = Vec::new();
    sort(&mut none, &SortByProcess::CpuUsage(SortOrder::Ascending));
    assert!(none.is_empty());
    let mut one = vec![process("only", 1.0, 1, 1, 1)];
    sort(&mut one, &SortByProcess::CpuUsage(SortOrder::Descending));
    assert_eq!(names_of_processes(&one), vec!["only"]);
}

#[test]
fn sort_by_compares_in_the_direction() {
    assert_eq!(SortOrder::Ascending.sort_by(1, 2), Comparison::Less);
    assert_eq!(SortOrder::Ascending.sort_by(2, 2), Comparison::Equal);
    assert_eq!(SortOrder::Ascending.sort_by(3, 2), Comparison::Greater);
    assert_eq!(SortOrder::Descending.sort_by(1, 2), Comparison::Greater);
    assert_eq!(SortOrder::Descending.sort_by(2, 2), Comparison::Equal);
    assert_eq!(SortOrder::Descending.sort_by(3, 2), Comparison::Less);
    assert_eq!(SortOrder::Ascending.sort_by(i128::MIN, i128::MAX), Comparison::Less);
}

#[test]
fn rank_orders_as_the_numbers_do() {
    let values = [
        f32::NEG_INFINITY,
        -1.0e30,
        -85.5,
        -1.0,
        -1.0e-40,
        0.0,
        1.0e-40,
        0.25,
        1.0,
        40.0,
        85.0,
        90.0,
        1.0e30,
        f32::INFINITY,
    ];
    for a in values {
        for b in values {
            let ra = reading(a).rank();
            let rb = reading(b).rank();
            assert_eq!(a < b, ra < rb);
            assert_eq!(a == b, ra == rb);
        }
    }
}

#[test]
fn both_zeros_have_rank_zero() {
    assert_eq!(reading(0.0).rank(), 0);
    assert_eq!(reading(-0.0).rank(), 0);
    assert_eq!(reading(1.0).rank(), 0x3f80_0000);
    assert_eq!(reading(-1.0).rank(), -0x3f80_0000);
}
