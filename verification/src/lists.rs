//! The tabs that are a sortable list: components and processes.

use vstd::prelude::*;
use vstd::string::*;
use crate::info::{ComponentInfo, ProcessInfo, Reading};
use crate::interaction::{KillTarget, Selection};
use crate::paragraphs::{no_information, or_unknown};
use crate::sort::{
    is_stable_sort, key_fn, sort_components, sort_processes, sorted_by, SortByComponent,
    SortByProcess, SortSpec,
};
use crate::text::{
    byte_len, column_width, decimal, decimal_text, duration_text, format_duration, human_size,
    human_size_text, left_aligned, pad_left, pad_right, right_aligned, texts, unknown_text, widest,
};

verus! {

/// A list of rows under a header.
#[derive(Debug, Clone)]
pub struct ListView {
    /// The header with the column labels; empty where there is none.
    pub title: String,
    /// Whether the list stands in a bordered block.
    pub bordered: bool,
    pub items: Vec<String>,
    /// What marks the selected row; empty where rows cannot be selected.
    pub highlight_symbol: String,
}

pub(crate) fn push_text(rows: &mut Vec<String>, row: String)
    ensures
        texts(final(rows)@) == texts(old(rows)@).push(row@),
{
    let ghost before = rows@;
    rows.push(row);
    assert(texts(rows@) =~= texts(before).push(row@));
}

pub(crate) fn append_left(row: &mut String, text: &str, width: usize)
    ensures
        final(row)@ == old(row)@ + left_aligned(text@, width as nat),
{
    let cell = pad_right(text, width);
    row.append(cell.as_str());
}

pub(crate) fn append_right(row: &mut String, text: &str, width: usize)
    ensures
        final(row)@ == old(row)@ + right_aligned(text@, width as nat),
{
    let cell = pad_left(text, width);
    row.append(cell.as_str());
}

/// A list of the single row that says that nothing is known.
pub(crate) fn empty_list(title: &str, bordered: bool) -> (view: ListView)
    ensures
        view.title@ == title@,
        view.bordered == bordered,
        texts(view.items@) == seq![no_information()],
        view.highlight_symbol@ == ""@,
{
    let mut items: Vec<String> = Vec::new();
    assert(texts(items@) =~= Seq::<Seq<char>>::empty());
    push_text(&mut items, String::from_str("No information available!"));
    assert(texts(items@) =~= seq![no_information()]);
    ListView { title: String::from_str(title), bordered, items, highlight_symbol: String::from_str("") }
}

/// The label of the temperature column, with the key that sorts by it.
pub open spec fn temperature_label(shift: bool) -> Seq<char> {
    if shift {
        "Temperature [T]"@
    } else {
        "Temperature [t]"@
    }
}

/// The label of the critical-temperature column, with the key that sorts
/// by it.
pub open spec fn critical_label(shift: bool) -> Seq<char> {
    if shift {
        "Critical Temperature [C]"@
    } else {
        "Critical Temperature [c]"@
    }
}

/// The names of the components, in their order.
pub open spec fn component_names(components: Seq<ComponentInfo>) -> Seq<Seq<char>> {
    Seq::new(components.len(), |i: int| components[i].name@)
}

/// The width of the name column of the component list.
pub open spec fn component_name_width(components: Seq<ComponentInfo>) -> usize {
    widest(component_names(components), byte_len("Name"@))
}

/// The critical temperature as the list shows it.
pub open spec fn critical_text(critical: Option<Reading>) -> Seq<char> {
    match critical {
        Some(reading) => reading.text@ + "°C"@,
        None => "None"@,
    }
}

/// The row of one component.
pub open spec fn component_row(component: ComponentInfo, name_width: usize, shift: bool) -> Seq<
    char,
> {
    left_aligned(component.name@, name_width as nat) + "  "@ + right_aligned(
        component.temperature.text@,
        byte_len(temperature_label(shift)) as nat,
    ) + "°C  "@ + left_aligned(
        critical_text(component.critical_temperature),
        byte_len(critical_label(shift)) as nat,
    )
}

/// The rows of the component list.
pub open spec fn component_rows(components: Seq<ComponentInfo>, shift: bool) -> Seq<Seq<char>> {
    Seq::new(
        components.len(),
        |i: int| component_row(components[i], component_name_width(components), shift),
    )
}

/// The header of the component list.
pub open spec fn component_header(components: Seq<ComponentInfo>, shift: bool) -> Seq<char> {
    left_aligned(""@, byte_len(">"@) as nat) + left_aligned(
        "Name"@,
        component_name_width(components) as nat,
    ) + "  "@ + left_aligned(temperature_label(shift), byte_len(temperature_label(shift)) as nat)
        + "    "@ + left_aligned(critical_label(shift), byte_len(critical_label(shift)) as nat)
}

/// The component list of `components` as they stand.
pub fn component_list(components: &Vec<ComponentInfo>, shift_pressed: bool) -> (view: ListView)
    ensures
        view.title@ == component_header(components@, shift_pressed),
        view.bordered,
        texts(view.items@) == component_rows(components@, shift_pressed),
        view.highlight_symbol@ == ">"@,
{
    let temperature_head = if shift_pressed {
        "Temperature [T]"
    } else {
        "Temperature [t]"
    };
    let critical_head = if shift_pressed {
        "Critical Temperature [C]"
    } else {
        "Critical Temperature [c]"
    };
    let n = components.len();
    let mut names: Vec<String> = Vec::new();
    assert(texts(names@) =~= component_names(components@).take(0));
    let mut i: usize = 0;
    while i < n
        invariant
            n == components@.len(),
            i <= n,
            texts(names@) == component_names(components@).take(i as int),
        decreases n - i,
    {
        push_text(&mut names, components[i].name.clone());
        i += 1;
        assert(texts(names@) =~= component_names(components@).take(i as int));
    }
    assert(component_names(components@).take(n as int) =~= component_names(components@));
    let name_width = column_width(&names, "Name");
    let temperature_width = temperature_head.len();
    let critical_width = critical_head.len();

    let mut items: Vec<String> = Vec::new();
    assert(texts(items@) =~= component_rows(components@, shift_pressed).take(0));
    let mut i: usize = 0;
    while i < n
        invariant
            n == components@.len(),
            i <= n,
            name_width == component_name_width(components@),
            temperature_width == byte_len(temperature_label(shift_pressed)),
            critical_width == byte_len(critical_label(shift_pressed)),
            texts(items@) == component_rows(components@, shift_pressed).take(i as int),
        decreases n - i,
    {
        let component = &components[i];
        let mut row = String::new();
        append_left(&mut row, component.name.as_str(), name_width);
        row.append("  ");
        append_right(&mut row, component.temperature.text.as_str(), temperature_width);
        row.append("°C  ");
        let critical = match &component.critical_temperature {
            Some(reading) => {
                let mut text = reading.text.clone();
                text.append("°C");
                text
            },
            None => String::from_str("None"),
        };
        append_left(&mut row, critical.as_str(), critical_width);
        proof {
            assert(row@ =~= component_row(components@[i as int], name_width, shift_pressed));
        }
        push_text(&mut items, row);
        i += 1;
        assert(texts(items@) =~= component_rows(components@, shift_pressed).take(i as int));
    }
    assert(component_rows(components@, shift_pressed).take(n as int) =~= component_rows(
        components@,
        shift_pressed,
    ));

    let mut title = String::new();
    append_left(&mut title, "", ">".len());
    append_left(&mut title, "Name", name_width);
    title.append("  ");
    append_left(&mut title, temperature_head, temperature_width);
    title.append("    ");
    append_left(&mut title, critical_head, critical_width);
    assert(title@ =~= component_header(components@, shift_pressed));
    ListView { title, bordered: true, items, highlight_symbol: String::from_str(">") }
}

/// A copy of the components, in their order.
pub fn copy_components(components: &Vec<ComponentInfo>) -> (copy: Vec<ComponentInfo>)
    ensures
        copy@ == components@,
{
    let mut copy: Vec<ComponentInfo> = Vec::new();
    let mut i: usize = 0;
    while i < components.len()
        invariant
            i <= components@.len(),
            copy@ == components@.take(i as int),
        decreases components@.len() - i,
    {
        copy.push(components[i].clone());
        i += 1;
        assert(copy@ =~= components@.take(i as int));
    }
    assert(components@.take(components@.len() as int) =~= components@);
    copy
}

/// The component tab: the components in the selected order, or a note
/// that nothing is known when there is no list or an empty one. The list
/// that is handed in stays as it was fetched: a copy of it is put into
/// order.
pub fn component_tab(
    components: &Option<Vec<ComponentInfo>>,
    ordering: SortByComponent,
    shift_pressed: bool,
) -> (view: ListView)
    ensures
        match *components {
            Some(list) if list@.len() > 0 => {
                let sorted = sorted_by(list@, key_fn(ordering), ordering.direction());
                &&& is_stable_sort(list@, sorted, key_fn(ordering), ordering.direction())
                &&& view.title@ == component_header(sorted, shift_pressed)
                &&& view.bordered
                &&& texts(view.items@) == component_rows(sorted, shift_pressed)
                &&& view.highlight_symbol@ == ">"@
            },
            _ => {
                &&& view.title@ == ""@
                &&& !view.bordered
                &&& texts(view.items@) == seq![no_information()]
                &&& view.highlight_symbol@ == ""@
            },
        },
{
    match components {
        Some(list) => {
            if list.len() > 0 {
                let mut shown = copy_components(list);
                sort_components(&mut shown, ordering);
                component_list(&shown, shift_pressed)
            } else {
                empty_list("", false)
            }
        },
        None => empty_list("", false),
    }
}

/// The label of the CPU column, with the key that sorts by it.
pub open spec fn cpu_label(shift: bool) -> Seq<char> {
    if shift {
        "CPU usage [C]"@
    } else {
        "CPU usage [c]"@
    }
}

/// The label of the memory column, with the key that sorts by it.
pub open spec fn memory_label(shift: bool) -> Seq<char> {
    if shift {
        "Memory usage [M]"@
    } else {
        "Memory usage [m]"@
    }
}

/// The label of the swap column, with the key that sorts by it.
pub open spec fn swap_label(shift: bool) -> Seq<char> {
    if shift {
        "SWAP usage [S]"@
    } else {
        "SWAP usage [s]"@
    }
}

/// The label of the run-time column, with the key that sorts by it.
pub open spec fn runtime_label(shift: bool) -> Seq<char> {
    if shift {
        "Runtime [R]"@
    } else {
        "Runtime [r]"@
    }
}

/// What marks the selected process.
pub open spec fn kill_marker() -> Seq<char> {
    "Kill [k]   "@
}

/// The names of the processes, in their order.
pub open spec fn process_names(processes: Seq<ProcessInfo>) -> Seq<Seq<char>> {
    Seq::new(processes.len(), |i: int| processes[i].name@)
}

/// The memory use of the processes as the list shows it.
pub open spec fn process_memories(processes: Seq<ProcessInfo>) -> Seq<Seq<char>> {
    Seq::new(processes.len(), |i: int| human_size_text(processes[i].memory_usage))
}

/// The swap use of the processes as the list shows it.
pub open spec fn process_swaps(processes: Seq<ProcessInfo>) -> Seq<Seq<char>> {
    Seq::new(processes.len(), |i: int| human_size_text(processes[i].swap_usage))
}

/// The run times of the processes as the list shows them.
pub open spec fn process_runtimes(processes: Seq<ProcessInfo>) -> Seq<Seq<char>> {
    Seq::new(processes.len(), |i: int| duration_text(processes[i].run_time as nat))
}

/// The widths of the columns of the process list.
pub struct ProcessWidths {
    pub name: usize,
    pub cpu: usize,
    pub memory: usize,
    pub swap: usize,
    pub runtime: usize,
}

/// Every column is as wide as its widest cell or its label, but for the
/// CPU column, which is as wide as its label.
pub open spec fn process_widths(processes: Seq<ProcessInfo>, shift: bool) -> ProcessWidths {
    ProcessWidths {
        name: widest(process_names(processes), byte_len("Name"@)),
        cpu: byte_len(cpu_label(shift)),
        memory: widest(process_memories(processes), byte_len(memory_label(shift))),
        swap: widest(process_swaps(processes), byte_len(swap_label(shift))),
        runtime: widest(process_runtimes(processes), byte_len(runtime_label(shift))),
    }
}

/// The row of one process.
pub open spec fn process_row(process: ProcessInfo, widths: ProcessWidths) -> Seq<char> {
    left_aligned(process.name@, widths.name as nat) + "  "@ + right_aligned(
        process.cpu_usage.text@,
        widths.cpu as nat,
    ) + "%  "@ + left_aligned(human_size_text(process.memory_usage), widths.memory as nat) + "  "@
        + left_aligned(human_size_text(process.swap_usage), widths.swap as nat) + "  "@
        + left_aligned(duration_text(process.run_time as nat), widths.runtime as nat)
}

/// The rows of the process list.
pub open spec fn process_rows(processes: Seq<ProcessInfo>, shift: bool) -> Seq<Seq<char>> {
    Seq::new(
        processes.len(),
        |i: int| process_row(processes[i], process_widths(processes, shift)),
    )
}

/// The header of the process list.
pub open spec fn process_header(processes: Seq<ProcessInfo>, shift: bool) -> Seq<char> {
    let widths = process_widths(processes, shift);
    left_aligned(""@, byte_len(kill_marker()) as nat) + left_aligned("Name"@, widths.name as nat)
        + "  "@ + left_aligned(cpu_label(shift), widths.cpu as nat) + "   "@ + left_aligned(
        memory_label(shift),
        widths.memory as nat,
    ) + "  "@ + left_aligned(swap_label(shift), widths.swap as nat) + "  "@ + left_aligned(
        runtime_label(shift),
        widths.runtime as nat,
    )
}

/// The process list of `processes` as they stand.
pub fn process_list(processes: &Vec<ProcessInfo>, shift_pressed: bool) -> (view: ListView)
    ensures
        view.title@ == process_header(processes@, shift_pressed),
        view.bordered,
        texts(view.items@) == process_rows(processes@, shift_pressed),
        view.highlight_symbol@ == kill_marker(),
{
    let cpu_head = if shift_pressed {
        "CPU usage [C]"
    } else {
        "CPU usage [c]"
    };
    let memory_head = if shift_pressed {
        "Memory usage [M]"
    } else {
        "Memory usage [m]"
    };
    let swap_head = if shift_pressed {
        "SWAP usage [S]"
    } else {
        "SWAP usage [s]"
    };
    let runtime_head = if shift_pressed {
        "Runtime [R]"
    } else {
        "Runtime [r]"
    };
    let n = processes.len();
    let mut names: Vec<String> = Vec::new();
    let mut memories: Vec<String> = Vec::new();
    let mut swaps: Vec<String> = Vec::new();
    let mut runtimes: Vec<String> = Vec::new();
    proof {
        assert(texts(names@) =~= process_names(processes@).take(0));
        assert(texts(memories@) =~= process_memories(processes@).take(0));
        assert(texts(swaps@) =~= process_swaps(processes@).take(0));
        assert(texts(runtimes@) =~= process_runtimes(processes@).take(0));
    }
    let mut i: usize = 0;
    while i < n
        invariant
            n == processes@.len(),
            i <= n,
            names@.len() == i,
            memories@.len() == i,
            swaps@.len() == i,
            runtimes@.len() == i,
            texts(names@) == process_names(processes@).take(i as int),
            texts(memories@) == process_memories(processes@).take(i as int),
            texts(swaps@) == process_swaps(processes@).take(i as int),
            texts(runtimes@) == process_runtimes(processes@).take(i as int),
        decreases n - i,
    {
        let process = &processes[i];
        push_text(&mut names, process.name.clone());
        push_text(&mut memories, human_size(process.memory_usage));
        push_text(&mut swaps, human_size(process.swap_usage));
        push_text(&mut runtimes, format_duration(process.run_time));
        i += 1;
        proof {
            assert(texts(names@) =~= process_names(processes@).take(i as int));
            assert(texts(memories@) =~= process_memories(processes@).take(i as int));
            assert(texts(swaps@) =~= process_swaps(processes@).take(i as int));
            assert(texts(runtimes@) =~= process_runtimes(processes@).take(i as int));
        }
    }
    proof {
        assert(process_names(processes@).take(n as int) =~= process_names(processes@));
        assert(process_memories(processes@).take(n as int) =~= process_memories(processes@));
        assert(process_swaps(processes@).take(n as int) =~= process_swaps(processes@));
        assert(process_runtimes(processes@).take(n as int) =~= process_runtimes(processes@));
    }
    let widths = ProcessWidths {
        name: column_width(&names, "Name"),
        cpu: cpu_head.len(),
        memory: column_width(&memories, memory_head),
        swap: column_width(&swaps, swap_head),
        runtime: column_width(&runtimes, runtime_head),
    };
    assert(widths == process_widths(processes@, shift_pressed));

    let mut items: Vec<String> = Vec::new();
    assert(texts(items@) =~= process_rows(processes@, shift_pressed).take(0));
    let mut i: usize = 0;
    while i < n
        invariant
            n == processes@.len(),
            i <= n,
            memories@.len() == n,
            swaps@.len() == n,
            runtimes@.len() == n,
            texts(memories@) == process_memories(processes@),
            texts(swaps@) == process_swaps(processes@),
            texts(runtimes@) == process_runtimes(processes@),
            widths == process_widths(processes@, shift_pressed),
            texts(items@) == process_rows(processes@, shift_pressed).take(i as int),
        decreases n - i,
    {
        let process = &processes[i];
        let mut row = String::new();
        append_left(&mut row, process.name.as_str(), widths.name);
        row.append("  ");
        append_right(&mut row, process.cpu_usage.text.as_str(), widths.cpu);
        row.append("%  ");
        append_left(&mut row, memories[i].as_str(), widths.memory);
        row.append("  ");
        append_left(&mut row, swaps[i].as_str(), widths.swap);
        row.append("  ");
        append_left(&mut row, runtimes[i].as_str(), widths.runtime);
        proof {
            assert(memories@[i as int]@ == texts(memories@)[i as int]);
            assert(swaps@[i as int]@ == texts(swaps@)[i as int]);
            assert(runtimes@[i as int]@ == texts(runtimes@)[i as int]);
            assert(row@ =~= process_row(processes@[i as int], widths));
        }
        push_text(&mut items, row);
        i += 1;
        assert(texts(items@) =~= process_rows(processes@, shift_pressed).take(i as int));
    }
    assert(process_rows(processes@, shift_pressed).take(n as int) =~= process_rows(
        processes@,
        shift_pressed,
    ));

    let mut title = String::new();
    append_left(&mut title, "", "Kill [k]   ".len());
    append_left(&mut title, "Name", widths.name);
    title.append("  ");
    append_left(&mut title, cpu_head, widths.cpu);
    title.append("   ");
    append_left(&mut title, memory_head, widths.memory);
    title.append("  ");
    append_left(&mut title, swap_head, widths.swap);
    title.append("  ");
    append_left(&mut title, runtime_head, widths.runtime);
    assert(title@ =~= process_header(processes@, shift_pressed));
    ListView { title, bordered: true, items, highlight_symbol: String::from_str("Kill [k]   ") }
}

/// `i` is the place of the first process with `pid`.
pub open spec fn is_first_with_pid(processes: Seq<ProcessInfo>, pid: u32, i: int) -> bool {
    &&& 0 <= i < processes.len()
    &&& processes[i].pid == pid
    &&& forall|j: int| 0 <= j < i ==> (#[trigger] processes[j]).pid != pid
}

/// The first process with `pid`, if there is one.
pub fn find_process(processes: &Vec<ProcessInfo>, pid: u32) -> (found: Option<usize>)
    ensures
        match found {
            Some(i) => is_first_with_pid(processes@, pid, i as int),
            None => forall|j: int| 0 <= j < processes@.len() ==> (#[trigger] processes@[j]).pid != pid,
        },
{
    let mut i: usize = 0;
    while i < processes.len()
        invariant
            i <= processes@.len(),
            forall|j: int| 0 <= j < i ==> (#[trigger] processes@[j]).pid != pid,
        decreases processes@.len() - i,
    {
        if processes[i].pid == pid {
            return Some(i);
        }
        i += 1;
    }
    None
}

/// What stands for the parent in the details of a process: a note when it
/// has none, the name of the first listed process with the parent's
/// identity, or `unknown` when no such process is listed.
pub open spec fn parent_text(processes: Seq<ProcessInfo>, parent: Option<u32>) -> Seq<char> {
    match parent {
        None => "No parent"@,
        Some(pid) => if exists|i: int| is_first_with_pid(processes, pid, i) {
            processes[choose|i: int| is_first_with_pid(processes, pid, i)].name@
        } else {
            unknown_text()
        },
    }
}

/// The details of one process.
pub open spec fn process_details_text(processes: Seq<ProcessInfo>, process: ProcessInfo) -> Seq<
    char,
> {
    "Name: "@ + process.name@ + "\nPath: "@ + or_unknown(process.path) + "\nMemory Usage: "@
        + human_size_text(process.memory_usage) + "\nSWAP Usage: "@ + human_size_text(
        process.swap_usage,
    ) + "\nCPU Usage: "@ + process.cpu_usage.plain@ + "%\nRuntime: "@ + duration_text(
        process.run_time as nat,
    ) + "\nPID: "@ + decimal_text(process.pid as nat) + "\nParent: "@ + parent_text(
        processes,
        process.parent,
    )
}

/// Renders the details of the process at `line`.
pub fn process_details(processes: &Vec<ProcessInfo>, line: usize) -> (details: String)
    requires
        line < processes@.len(),
    ensures
        details@ == process_details_text(processes@, processes@[line as int]),
{
    let process = &processes[line];
    let mut details = String::from_str("Name: ");
    details.append(process.name.as_str());
    details.append("\nPath: ");
    match &process.path {
        Some(path) => details.append(path.as_str()),
        None => details.append("unknown"),
    }
    details.append("\nMemory Usage: ");
    let memory = human_size(process.memory_usage);
    details.append(memory.as_str());
    details.append("\nSWAP Usage: ");
    let swap = human_size(process.swap_usage);
    details.append(swap.as_str());
    details.append("\nCPU Usage: ");
    details.append(process.cpu_usage.plain.as_str());
    details.append("%\nRuntime: ");
    let runtime = format_duration(process.run_time);
    details.append(runtime.as_str());
    details.append("\nPID: ");
    let pid = decimal(process.pid as u64);
    details.append(pid.as_str());
    details.append("\nParent: ");
    match process.parent {
        None => details.append("No parent"),
        Some(parent) => match find_process(processes, parent) {
            Some(i) => {
                proof {
                    let chosen = choose|c: int| is_first_with_pid(processes@, parent, c);
                    assert(is_first_with_pid(processes@, parent, i as int));
                    assert(is_first_with_pid(processes@, parent, chosen));
                    assert(chosen == i);
                }
                details.append(processes[i].name.as_str());
            },
            None => {
                details.append("unknown");
            },
        },
    }
    assert(details@ =~= process_details_text(processes@, processes@[line as int]));
    details
}

/// What is under the cursor of the process list: the process at `line`
/// with its details, or nothing when the line is beyond the list.
pub fn process_selection(processes: &Vec<ProcessInfo>, line: u16) -> (selection: Selection)
    ensures
        selection.line_count == processes@.len(),
        line < processes@.len() ==> {
            &&& selection.process matches Some(target)
            &&& target.pid == processes@[line as int].pid
            &&& target.name@ == processes@[line as int].name@
            &&& selection.details matches Some(details)
            &&& details@ == process_details_text(processes@, processes@[line as int])
        },
        line >= processes@.len() ==> selection.process is None && selection.details is None,
{
    let at = line as usize;
    if at < processes.len() {
        let target = KillTarget { pid: processes[at].pid, name: processes[at].name.clone() };
        Selection {
            line_count: processes.len(),
            process: Some(target),
            details: Some(process_details(processes, at)),
        }
    } else {
        Selection { line_count: processes.len(), process: None, details: None }
    }
}

/// A copy of the processes, in their order.
pub fn copy_processes(processes: &Vec<ProcessInfo>) -> (copy: Vec<ProcessInfo>)
    ensures
        copy@ == processes@,
{
    let mut copy: Vec<ProcessInfo> = Vec::new();
    let mut i: usize = 0;
    while i < processes.len()
        invariant
            i <= processes@.len(),
            copy@ == processes@.take(i as int),
        decreases processes@.len() - i,
    {
        copy.push(processes[i].clone());
        i += 1;
        assert(copy@ =~= processes@.take(i as int));
    }
    assert(processes@.take(processes@.len() as int) =~= processes@);
    copy
}

/// The process tab: the processes in the selected order, with what is
/// under the cursor; or a note that nothing is known when there is no
/// list or an empty one. The list that is handed in stays as it was
/// fetched: a copy of it is put into order.
pub fn process_tab(
    processes: &Option<Vec<ProcessInfo>>,
    ordering: SortByProcess,
    shift_pressed: bool,
    current_line: u16,
) -> (result: (ListView, Selection))
    ensures
        match *processes {
            Some(list) if list@.len() > 0 => {
                let sorted = sorted_by(list@, key_fn(ordering), ordering.direction());
                &&& is_stable_sort(list@, sorted, key_fn(ordering), ordering.direction())
                &&& result.0.title@ == process_header(sorted, shift_pressed)
                &&& result.0.bordered
                &&& texts(result.0.items@) == process_rows(sorted, shift_pressed)
                &&& result.0.highlight_symbol@ == kill_marker()
                &&& result.1.line_count == list@.len()
                &&& current_line < list@.len() ==> {
                    &&& result.1.process matches Some(target)
                    &&& target.pid == sorted[current_line as int].pid
                    &&& target.name@ == sorted[current_line as int].name@
                    &&& result.1.details matches Some(details)
                    &&& details@ == process_details_text(sorted, sorted[current_line as int])
                }
                &&& current_line >= list@.len() ==> result.1.process is None
                    && result.1.details is None
            },
            _ => {
                &&& result.0.title@ == "Processes"@
                &&& result.0.bordered
                &&& texts(result.0.items@) == seq![no_information()]
                &&& result.0.highlight_symbol@ == ""@
                &&& result.1.line_count == 0
                &&& result.1.process is None
                &&& result.1.details is None
            },
        },
{
    match processes {
        Some(list) => {
            if list.len() > 0 {
                let mut shown = copy_processes(list);
                sort_processes(&mut shown, ordering);
                let view = process_list(&shown, shift_pressed);
                let selection = process_selection(&shown, current_line);
                (view, selection)
            } else {
                (
                    empty_list("Processes", true),
                    Selection { line_count: 0, process: None, details: None },
                )
            }
        },
        None => (
            empty_list("Processes", true),
            Selection { line_count: 0, process: None, details: None },
        ),
    }
}

} // verus!
