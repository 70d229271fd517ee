//! One frame of the dashboard: the tab bar, the content of the active
//! tab, and the popup over it.

use vstd::prelude::*;
use vstd::string::*;
use crate::charts::{memory_axis_texts, memory_tab, memory_title, larger, MemoryChart};
use crate::cpu::{by_manufacturer, cpu_tab, panes_show, runs, CpuPane};
use crate::info::{
    BatteryInfo, ComponentInfo, CpuInfo, DiskInfo, MemoryInfo, NetworkInfo, ProcessInfo, SystemInfo,
};
use crate::interaction::{clamp_line, clamped_line, Cursor, Dashboard, PopupState, Selection};
use crate::lists::{
    component_header, component_rows, component_tab, kill_marker, process_details_text,
    process_header, process_rows, process_tab, ListView,
};
use crate::network::{
    info_marker, network_count, network_popup_text, network_tab, shows_loading, shows_network,
    wifi_count, NetworkView,
};
use crate::paragraphs::{
    batteries_lines, battery_tab, disk_tab, disks_lines, line_views, no_information, plain,
    system_lines, system_tab, ParagraphView, TextLine,
};
use crate::sort::{is_stable_sort, key_fn, sorted_by, SortSpec};
use crate::tab::{tab_at, Tab};
use crate::text::{texts};

verus! {

/// A kind of telemetry that a tab shows.
#[derive(Debug, Clone, Copy, PartialEq, Eq, Structural)]
pub enum Category {
    System,
    Cpu,
    Memory,
    Disk,
    Battery,
    Network,
    Processes,
    Components,
}

/// The category that the tab at `tab` shows; none for a tab without a
/// view.
pub open spec fn category_at(tab: usize) -> Option<Category> {
    if tab == 0 {
        Some(Category::System)
    } else if tab == 1 {
        Some(Category::Cpu)
    } else if tab == 2 {
        Some(Category::Memory)
    } else if tab == 3 {
        Some(Category::Disk)
    } else if tab == 4 {
        Some(Category::Battery)
    } else if tab == 5 {
        Some(Category::Network)
    } else if tab == 6 {
        Some(Category::Processes)
    } else if tab == 7 {
        Some(Category::Components)
    } else {
        None
    }
}

/// The category to fetch for the active tab.
pub fn category_of(tab: usize) -> (category: Option<Category>)
    ensures
        category == category_at(tab),
{
    match tab {
        0 => Some(Category::System),
        1 => Some(Category::Cpu),
        2 => Some(Category::Memory),
        3 => Some(Category::Disk),
        4 => Some(Category::Battery),
        5 => Some(Category::Network),
        6 => Some(Category::Processes),
        7 => Some(Category::Components),
        _ => None,
    }
}

/// The latest value of the category of the active tab. `None` inside is
/// a category without data; for the network it is a snapshot that has
/// not been published yet.
#[derive(Debug, Clone)]
pub enum Probed {
    System(Option<SystemInfo>),
    Cpu(Option<Vec<CpuInfo>>),
    Memory { info: Option<MemoryInfo>, ram_scale: u64, swap_scale: u64 },
    Disks(Option<Vec<DiskInfo>>),
    Batteries(Option<Vec<BatteryInfo>>),
    Network(Option<NetworkInfo>),
    Processes(Option<Vec<ProcessInfo>>),
    Components(Option<Vec<ComponentInfo>>),
}

impl Probed {
    /// The category of the value.
    pub open spec fn category(self) -> Category {
        match self {
            Probed::System(_) => Category::System,
            Probed::Cpu(_) => Category::Cpu,
            Probed::Memory { .. } => Category::Memory,
            Probed::Disks(_) => Category::Disk,
            Probed::Batteries(_) => Category::Battery,
            Probed::Network(_) => Category::Network,
            Probed::Processes(_) => Category::Processes,
            Probed::Components(_) => Category::Components,
        }
    }
}

/// The content of a tab.
#[derive(Debug, Clone)]
pub enum Content {
    Paragraph(ParagraphView),
    Cpu(Vec<CpuPane>),
    Memory(MemoryChart),
    Network(NetworkView),
    List(ListView),
}

/// A popup over the content.
#[derive(Debug, Clone)]
pub struct PopupView {
    pub title: String,
    pub body: String,
    /// Whether the body is centred; it is set flush left otherwise.
    pub centered: bool,
}

/// The question of the kill popup.
pub open spec fn kill_question(name: Seq<char>) -> Seq<char> {
    "Do you really want to kill the process \""@ + name
        + "\"?\n                        \n[y]es        [n]o"@
}

/// Title, body and alignment of the popup over a tab. The process tab
/// shows every popup; the network tab shows only details, untitled and
/// flush left; no other tab shows a popup.
pub open spec fn popup_text(popup: PopupState, category: Category) -> Option<
    (Seq<char>, Seq<char>, bool),
> {
    match category {
        Category::Processes => match popup {
            PopupState::Inactive => None,
            PopupState::ConfirmKill { target } => Some(
                ("Kill process?"@, kill_question(target.name@), true),
            ),
            PopupState::MoreInfo { contents } => Some(("More information"@, contents@, true)),
            PopupState::NoSelectionWarning => Some(
                ("No process selected!"@, "You don't have a process selected!"@, true),
            ),
        },
        Category::Network => match popup {
            PopupState::MoreInfo { contents } => Some((""@, contents@, false)),
            _ => None,
        },
        _ => None,
    }
}

/// `view` is the popup that `popup_text` describes.
pub open spec fn popup_is(view: Option<PopupView>, text: Option<(Seq<char>, Seq<char>, bool)>) -> bool {
    match text {
        Some((title, body, centered)) => {
            &&& view matches Some(shown)
            &&& shown.title@ == title
            &&& shown.body@ == body
            &&& shown.centered == centered
        },
        None => view is None,
    }
}

/// The popup over a tab.
pub fn popup_view(popup: &PopupState, category: Category) -> (view: Option<PopupView>)
    ensures
        popup_is(view, popup_text(*popup, category)),
{
    match category {
        Category::Processes => match popup {
            PopupState::Inactive => None,
            PopupState::ConfirmKill { target } => {
                let mut body = String::from_str("Do you really want to kill the process \"");
                body.append(target.name.as_str());
                body.append("\"?\n                        \n[y]es        [n]o");
                Some(PopupView { title: String::from_str("Kill process?"), body, centered: true })
            },
            PopupState::MoreInfo { contents } => Some(
                PopupView {
                    title: String::from_str("More information"),
                    body: contents.clone(),
                    centered: true,
                },
            ),
            PopupState::NoSelectionWarning => Some(
                PopupView {
                    title: String::from_str("No process selected!"),
                    body: String::from_str("You don't have a process selected!"),
                    centered: true,
                },
            ),
        },
        Category::Network => match popup {
            PopupState::MoreInfo { contents } => Some(
                PopupView { title: String::from_str(""), body: contents.clone(), centered: false },
            ),
            _ => None,
        },
        _ => None,
    }
}

/// The labels of the tab bar.
pub open spec fn tab_titles() -> Seq<Seq<char>> {
    Seq::new(Tab::COUNT as nat, |i: int| tab_at(i).title())
}

/// The labels of the tab bar, in display order.
pub fn titles() -> (labels: Vec<String>)
    ensures
        texts(labels@) == tab_titles(),
{
    let tabs = Tab::all();
    let mut labels: Vec<String> = Vec::new();
    let mut i: usize = 0;
    while i < tabs.len()
        invariant
            tabs@.len() == Tab::COUNT,
            forall|t: int| 0 <= t < Tab::COUNT ==> #[trigger] tabs@[t] == tab_at(t),
            i <= tabs@.len(),
            labels@.len() == i,
            forall|t: int| 0 <= t < i ==> (#[trigger] labels@[t])@ == tab_at(t).title(),
        decreases tabs@.len() - i,
    {
        labels.push(tabs[i].to_string());
        i += 1;
    }
    assert(texts(labels@) =~= tab_titles());
    labels
}

/// One frame: what the renderer is handed in a tick.
#[derive(Debug, Clone)]
pub struct Frame {
    pub titles: Vec<String>,
    pub active_tab: usize,
    pub selected_line: u16,
    pub content: Content,
    pub popup: Option<PopupView>,
    /// What is under the cursor, for the event that may follow.
    pub selection: Selection,
}

/// Whether the detail popup follows the cursor on the tabs of a
/// category: it does where rows have details.
pub open spec fn has_details(category: Category) -> bool {
    category == Category::Network || category == Category::Processes
}

/// The number of lines that the cursor can move over.
pub open spec fn line_count_of(probed: Probed) -> nat {
    match probed {
        Probed::System(info) => match info {
            Some(info) => system_lines(info).len(),
            None => 1,
        },
        Probed::Cpu(cores) => match cores {
            Some(cores) => cores@.len(),
            None => 0,
        },
        Probed::Memory { .. } => 0,
        Probed::Disks(disks) => match disks {
            Some(disks) => disks_lines(disks@, disks@.len()).len(),
            None => 1,
        },
        Probed::Batteries(batteries) => match batteries {
            Some(batteries) => batteries_lines(batteries@, batteries@.len()).len(),
            None => 1,
        },
        Probed::Network(info) => if wifi_count(info) >= network_count(info) {
            wifi_count(info)
        } else {
            network_count(info)
        },
        Probed::Processes(processes) => match processes {
            Some(processes) => processes@.len(),
            None => 0,
        },
        Probed::Components(components) => match components {
            Some(components) => components@.len(),
            None => 0,
        },
    }
}

/// The content shows the value of its category, with the cursor on
/// `line`.
pub open spec fn content_shows(
    content: Content,
    probed: Probed,
    line: u16,
    state: Dashboard,
) -> bool {
    match probed {
        Probed::System(info) => {
            &&& content matches Content::Paragraph(view)
            &&& view.title@ == "System"@
            &&& match info {
                Some(info) => line_views(view.lines@) == system_lines(info) && view.scroll == line,
                None => line_views(view.lines@) == seq![plain(no_information())] && view.scroll == 0,
            }
        },
        Probed::Cpu(cores) => {
            &&& content matches Content::Cpu(panes)
            &&& panes@.len() > 0
            &&& match cores {
                Some(list) if list@.len() > 0 => panes_show(panes@, runs(by_manufacturer(list@))),
                _ => panes@.len() == 1 && panes@[0].is_blank(),
            }
        },
        Probed::Memory { info, ram_scale, swap_scale } => {
            &&& content matches Content::Memory(chart)
            &&& match info {
                Some(info) => {
                    &&& chart.title@ == memory_title(info)
                    &&& chart.bound == larger(ram_scale, swap_scale)
                    &&& texts(chart.labels@) == memory_axis_texts(info)
                },
                None => {
                    &&& chart.title@ == "No memory/SWAP information was able to be obtained!"@
                    &&& chart.bound == 0
                    &&& chart.labels@.len() == 0
                },
            }
        },
        Probed::Disks(disks) => {
            &&& content matches Content::Paragraph(view)
            &&& view.title@ == "Disks"@
            &&& match disks {
                Some(disks) => line_views(view.lines@) == disks_lines(disks@, disks@.len())
                    && view.scroll == line,
                None => line_views(view.lines@) == seq![plain(no_information())] && view.scroll == 0,
            }
        },
        Probed::Batteries(batteries) => {
            &&& content matches Content::Paragraph(view)
            &&& view.title@ == "Batteries"@
            &&& match batteries {
                Some(batteries) => line_views(view.lines@) == batteries_lines(
                    batteries@,
                    batteries@.len(),
                ) && view.scroll == line,
                None => line_views(view.lines@) == seq![
                    plain("No battery information was able to be obtained!"@),
                ] && view.scroll == 0,
            }
        },
        Probed::Network(info) => {
            &&& content matches Content::Network(view)
            &&& view.summary.title@ == "Networks"@
            &&& view.summary.scroll == 0
            &&& view.wifis.highlight_symbol@ == ""@
            &&& view.networks.highlight_symbol@ == info_marker()
            &&& match info {
                Some(info) => shows_network(view, info),
                None => shows_loading(view),
            }
        },
        Probed::Processes(processes) => {
            &&& content matches Content::List(view)
            &&& view.bordered
            &&& match processes {
                Some(list) if list@.len() > 0 => {
                    let sorted = sorted_by(
                        list@,
                        key_fn(state.process_ordering),
                        state.process_ordering.direction(),
                    );
                    &&& is_stable_sort(
                        list@,
                        sorted,
                        key_fn(state.process_ordering),
                        state.process_ordering.direction(),
                    )
                    &&& view.title@ == process_header(sorted, state.shift_pressed)
                    &&& texts(view.items@) == process_rows(sorted, state.shift_pressed)
                    &&& view.highlight_symbol@ == kill_marker()
                },
                _ => {
                    &&& view.title@ == "Processes"@
                    &&& texts(view.items@) == seq![no_information()]
                    &&& view.highlight_symbol@ == ""@
                },
            }
        },
        Probed::Components(components) => {
            &&& content matches Content::List(view)
            &&& match components {
                Some(list) if list@.len() > 0 => {
                    let sorted = sorted_by(
                        list@,
                        key_fn(state.component_ordering),
                        state.component_ordering.direction(),
                    );
                    &&& is_stable_sort(
                        list@,
                        sorted,
                        key_fn(state.component_ordering),
                        state.component_ordering.direction(),
                    )
                    &&& view.title@ == component_header(sorted, state.shift_pressed)
                    &&& view.bordered
                    &&& texts(view.items@) == component_rows(sorted, state.shift_pressed)
                    &&& view.highlight_symbol@ == ">"@
                },
                _ => {
                    &&& view.title@ == ""@
                    &&& !view.bordered
                    &&& texts(view.items@) == seq![no_information()]
                    &&& view.highlight_symbol@ == ""@
                },
            }
        },
    }
}

/// What is under the cursor on `line`.
pub open spec fn selection_is(selection: Selection, probed: Probed, line: u16, state: Dashboard) -> bool {
    &&& selection.line_count == line_count_of(probed)
    &&& match probed {
        Probed::Network(info) => {
            &&& selection.process is None
            &&& selection.details matches Some(details)
            &&& details@ == network_popup_text(info, line)
        },
        Probed::Processes(Some(list)) if (line as int) < list@.len() => {
            let sorted = sorted_by(
                list@,
                key_fn(state.process_ordering),
                state.process_ordering.direction(),
            );
            &&& selection.process matches Some(target)
            &&& target.pid == sorted[line as int].pid
            &&& target.name@ == sorted[line as int].name@
            &&& selection.details matches Some(details)
            &&& details@ == process_details_text(sorted, sorted[line as int])
        },
        _ => selection.process is None && selection.details is None,
    }
}

fn copy_of(details: &Option<String>) -> (copy: Option<String>)
    ensures
        copy == *details,
{
    match details {
        Some(text) => Some(text.clone()),
        None => None,
    }
}

fn nothing_selected(line_count: usize) -> (selection: Selection)
    ensures
        selection.line_count == line_count,
        selection.process is None,
        selection.details is None,
{
    Selection { line_count, process: None, details: None }
}

/// Makes the frame of a tick from the state and the latest value of the
/// category of the active tab. The selected line is brought into the
/// collection that the tab shows, and an open detail popup is made to
/// follow it, before anything is drawn. The value is only read: what is
/// shown in another order is a copy.
pub fn ui(state: &mut Dashboard, probed: &Probed) -> (frame: Frame)
    requires
        old(state).wf(),
    ensures
        final(state).wf(),
        *final(state) == (Dashboard {
            cursor: Cursor {
                active_tab: old(state).cursor.active_tab,
                selected_line: frame.selected_line,
            },
            popup: if has_details(probed.category()) {
                old(state).popup.following(frame.selection.details)
            } else {
                old(state).popup
            },
            ..*old(state)
        }),
        frame.selected_line == clamped_line(
            old(state).cursor.selected_line as int,
            frame.selection.line_count,
        ),
        frame.active_tab == old(state).cursor.active_tab,
        texts(frame.titles@) == tab_titles(),
        content_shows(frame.content, *probed, frame.selected_line, *old(state)),
        selection_is(frame.selection, *probed, frame.selected_line, *old(state)),
        popup_is(frame.popup, popup_text(final(state).popup, probed.category())),
{
    let line = state.cursor.selected_line;
    let (content, selection, at, category) = match probed {
        Probed::System(info) => {
            let mut view = system_tab(info.as_ref(), 0);
            let count = view.lines.len();
            assert(line_views(view.lines@).len() == view.lines@.len());
            let at = clamp_line(line, count);
            if info.is_some() {
                view.scroll = at;
            }
            (Content::Paragraph(view), nothing_selected(count), at, Category::System)
        },
        Probed::Cpu(cores) => {
            let count = match cores {
                Some(list) => list.len(),
                None => 0,
            };
            let panes = cpu_tab(cores);
            (Content::Cpu(panes), nothing_selected(count), clamp_line(line, count), Category::Cpu)
        },
        Probed::Memory { info, ram_scale, swap_scale } => {
            let chart = memory_tab(info.as_ref(), *ram_scale, *swap_scale);
            (Content::Memory(chart), nothing_selected(0), clamp_line(line, 0), Category::Memory)
        },
        Probed::Disks(disks) => {
            let mut view = disk_tab(disks.as_ref(), 0);
            let count = view.lines.len();
            assert(line_views(view.lines@).len() == view.lines@.len());
            let at = clamp_line(line, count);
            if disks.is_some() {
                view.scroll = at;
            }
            (Content::Paragraph(view), nothing_selected(count), at, Category::Disk)
        },
        Probed::Batteries(batteries) => {
            let mut view = battery_tab(batteries.as_ref(), 0);
            let count = view.lines.len();
            assert(line_views(view.lines@).len() == view.lines@.len());
            let at = clamp_line(line, count);
            if batteries.is_some() {
                view.scroll = at;
            }
            (Content::Paragraph(view), nothing_selected(count), at, Category::Battery)
        },
        Probed::Network(info) => {
            let mut count: usize = 0;
            match info {
                Some(snapshot) => {
                    match &snapshot.wifis {
                        Some(wifis) => {
                            count = wifis.len();
                        },
                        None => {},
                    }
                    match &snapshot.networks {
                        Some(networks) => {
                            if networks.len() > count {
                                count = networks.len();
                            }
                        },
                        None => {},
                    }
                },
                None => {},
            }
            let at = clamp_line(line, count);
            let (view, selection) = network_tab(info.as_ref(), at);
            (Content::Network(view), selection, at, Category::Network)
        },
        Probed::Processes(processes) => {
            let count = match processes {
                Some(list) => list.len(),
                None => 0,
            };
            let at = clamp_line(line, count);
            let (view, selection) = process_tab(processes, state.process_ordering, state.shift_pressed, at);
            (Content::List(view), selection, at, Category::Processes)
        },
        Probed::Components(components) => {
            let count = match components {
                Some(list) => list.len(),
                None => 0,
            };
            let view = component_tab(components, state.component_ordering, state.shift_pressed);
            (Content::List(view), nothing_selected(count), clamp_line(line, count), Category::Components)
        },
    };
    state.cursor.selected_line = at;
    match category {
        Category::Network | Category::Processes => {
            state.follow_selection(copy_of(&selection.details));
        },
        _ => {},
    }
    let popup = popup_view(&state.popup, category);
    Frame {
        titles: titles(),
        active_tab: state.cursor.active_tab,
        selected_line: at,
        content,
        popup,
        selection,
    }
}

/// The frame of a tab that has no view: the tab bar, a note that nothing
/// is known under the label of the tab, the cursor on line zero, and no
/// popup. Whatever popup is open stays open, unseen.
pub fn blank(state: &mut Dashboard) -> (frame: Frame)
    requires
        old(state).wf(),
    ensures
        final(state).wf(),
        *final(state) == old(state).with_line(0, 0),
        frame.selected_line == 0,
        frame.active_tab == old(state).cursor.active_tab,
        texts(frame.titles@) == tab_titles(),
        frame.content matches Content::Paragraph(view) && view.title@ == tab_at(
            old(state).cursor.active_tab as int,
        ).title() && line_views(view.lines@) == seq![plain(no_information())] && view.scroll == 0,
        frame.popup is None,
        frame.selection.line_count == 0,
        frame.selection.process is None,
        frame.selection.details is None,
{
    state.cursor.selected_line = 0;
    let labels = titles();
    let tab = state.cursor.active_tab;
    assert(texts(labels@).len() == labels@.len());
    assert(labels@[tab as int]@ == texts(labels@)[tab as int]);
    let mut lines: Vec<TextLine> = Vec::new();
    lines.push(TextLine { text: String::from_str("No information available!"), bold: false });
    assert(line_views(lines@) =~= seq![plain(no_information())]);
    let view = ParagraphView { title: labels[tab].clone(), lines, scroll: 0 };
    Frame {
        titles: labels,
        active_tab: tab,
        selected_line: 0,
        content: Content::Paragraph(view),
        popup: None,
        selection: nothing_selected(0),
    }
}

} // verus!
