//! What the charts need besides their samples: colours, axis labels, and
//! the memory chart.

use vstd::prelude::*;
use vstd::string::*;
use crate::info::MemoryInfo;
use crate::lists::push_text;
use crate::series::MetricKey;
use crate::text::{decimal, decimal_text, human_size, human_size_text, texts};

verus! {

/// Nanoseconds in a second.
pub const NANOS_PER_SECOND: u64 = 1_000_000_000;

/// A colour of the terminal.
#[derive(Debug, Clone, Copy, PartialEq, Eq, Structural)]
pub enum Color {
    Red,
    Green,
    Yellow,
    Blue,
    Magenta,
    Cyan,
    Gray,
    DarkGray,
    LightRed,
    LightGreen,
    LightYellow,
    LightBlue,
    LightMagenta,
    LightCyan,
    White,
    Rgb(u8, u8, u8),
}

/// The colour of the chart line at `index`: one of fifteen named colours,
/// then a colour computed from the index.
pub open spec fn line_color(index: nat) -> Color {
    if index == 0 {
        Color::Red
    } else if index == 1 {
        Color::Green
    } else if index == 2 {
        Color::Yellow
    } else if index == 3 {
        Color::Blue
    } else if index == 4 {
        Color::Magenta
    } else if index == 5 {
        Color::Cyan
    } else if index == 6 {
        Color::Gray
    } else if index == 7 {
        Color::DarkGray
    } else if index == 8 {
        Color::LightRed
    } else if index == 9 {
        Color::LightGreen
    } else if index == 10 {
        Color::LightYellow
    } else if index == 11 {
        Color::LightBlue
    } else if index == 12 {
        Color::LightMagenta
    } else if index == 13 {
        Color::LightCyan
    } else if index == 14 {
        Color::White
    } else {
        Color::Rgb(
            ((index * 100) % 255) as u8,
            ((index * 50) % 255) as u8,
            ((index * 75) % 255) as u8,
        )
    }
}

/// The colour of the chart line at `index`.
pub fn color_of(index: usize) -> (color: Color)
    ensures
        color == line_color(index as nat),
{
    match index {
        0 => Color::Red,
        1 => Color::Green,
        2 => Color::Yellow,
        3 => Color::Blue,
        4 => Color::Magenta,
        5 => Color::Cyan,
        6 => Color::Gray,
        7 => Color::DarkGray,
        8 => Color::LightRed,
        9 => Color::LightGreen,
        10 => Color::LightYellow,
        11 => Color::LightBlue,
        12 => Color::LightMagenta,
        13 => Color::LightCyan,
        14 => Color::White,
        _ => {
            let wide = index as u128;
            Color::Rgb(
                ((wide * 100) % 255) as u8,
                ((wide * 50) % 255) as u8,
                ((wide * 75) % 255) as u8,
            )
        },
    }
}

/// One line of a chart: its legend, its colour, and the key under which
/// its samples are recorded.
#[derive(Debug, Clone)]
pub struct ChartLine {
    pub name: String,
    pub color: Color,
    pub key: MetricKey,
}

impl View for ChartLine {
    type V = (Seq<char>, Color, (Seq<char>, Seq<char>));

    open spec fn view(&self) -> (Seq<char>, Color, (Seq<char>, Seq<char>)) {
        (self.name@, self.color, self.key@)
    }
}

/// The labels of a time axis that ends at `elapsed` nanoseconds: zero,
/// the whole seconds of half the time, the whole seconds of the time.
pub open spec fn time_axis_texts(elapsed: u64) -> Seq<Seq<char>> {
    seq![
        "0"@,
        decimal_text(((elapsed / 2) / NANOS_PER_SECOND) as nat),
        decimal_text((elapsed / NANOS_PER_SECOND) as nat),
    ]
}

/// The labels of the time axis.
pub fn time_axis_labels(elapsed: u64) -> (labels: Vec<String>)
    ensures
        texts(labels@) == time_axis_texts(elapsed),
{
    let mut labels: Vec<String> = Vec::new();
    assert(texts(labels@) =~= Seq::<Seq<char>>::empty());
    push_text(&mut labels, String::from_str("0"));
    push_text(&mut labels, decimal((elapsed / 2) / NANOS_PER_SECOND));
    push_text(&mut labels, decimal(elapsed / NANOS_PER_SECOND));
    assert(texts(labels@) =~= time_axis_texts(elapsed));
    labels
}

/// The frame of the memory chart.
#[derive(Debug, Clone)]
pub struct MemoryChart {
    pub title: String,
    /// Upper bound of the value axis; zero where nothing is known.
    pub bound: u64,
    /// Labels of the value axis, lowest first; none where nothing is
    /// known.
    pub labels: Vec<String>,
}

/// The greater of two numbers.
pub open spec fn larger(a: u64, b: u64) -> u64 {
    if a >= b {
        a
    } else {
        b
    }
}

/// The title of the memory chart.
pub open spec fn memory_title(info: MemoryInfo) -> Seq<char> {
    "Memory: "@ + human_size_text(info.used_memory) + "/"@ + human_size_text(info.total_memory)
        + ", SWAP: "@ + human_size_text(info.used_swap) + "/"@ + human_size_text(info.total_swap)
}

/// The labels of the value axis of the memory chart: nothing, half of the
/// larger capacity, the larger capacity.
pub open spec fn memory_axis_texts(info: MemoryInfo) -> Seq<Seq<char>> {
    let top = larger(info.total_memory, info.total_swap);
    seq![human_size_text(0), human_size_text(top / 2), human_size_text(top)]
}

/// The memory tab: the title with the current use, and the value axis,
/// which ends at the larger of the two scales and is labelled by the
/// larger of the two capacities; or a note that nothing is known.
pub fn memory_tab(info: Option<&MemoryInfo>, ram_scale: u64, swap_scale: u64) -> (chart: MemoryChart)
    ensures
        match info {
            Some(info) => {
                &&& chart.title@ == memory_title(*info)
                &&& chart.bound == larger(ram_scale, swap_scale)
                &&& texts(chart.labels@) == memory_axis_texts(*info)
            },
            None => {
                &&& chart.title@ == "No memory/SWAP information was able to be obtained!"@
                &&& chart.bound == 0
                &&& chart.labels@.len() == 0
            },
        },
{
    match info {
        None => MemoryChart {
            title: String::from_str("No memory/SWAP information was able to be obtained!"),
            bound: 0,
            labels: Vec::new(),
        },
        Some(info) => {
            let mut title = String::from_str("Memory: ");
            let used = human_size(info.used_memory);
            title.append(used.as_str());
            title.append("/");
            let total = human_size(info.total_memory);
            title.append(total.as_str());
            title.append(", SWAP: ");
            let used_swap = human_size(info.used_swap);
            title.append(used_swap.as_str());
            title.append("/");
            let total_swap = human_size(info.total_swap);
            title.append(total_swap.as_str());
            assert(title@ =~= memory_title(*info));
            let top = if info.total_memory >= info.total_swap {
                info.total_memory
            } else {
                info.total_swap
            };
            let bound = if ram_scale >= swap_scale {
                ram_scale
            } else {
                swap_scale
            };
            let mut labels: Vec<String> = Vec::new();
            assert(texts(labels@) =~= Seq::<Seq<char>>::empty());
            push_text(&mut labels, human_size(0));
            push_text(&mut labels, human_size(top / 2));
            push_text(&mut labels, human_size(top));
            assert(texts(labels@) =~= memory_axis_texts(*info));
            MemoryChart { title, bound, labels }
        },
    }
}

} // verus!
