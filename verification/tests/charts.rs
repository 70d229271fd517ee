use crossinfo::charts::{color_of, memory_tab, time_axis_labels, Color, NANOS_PER_SECOND};
use crossinfo::info::MemoryInfo;

#[test]
fn the_first_fifteen_lines_have_named_colours() {
    let named = [
        Color::Red,
        Color::Green,
        Color::Yellow,
        Color::Blue,
        Color::Magenta,
        Color::Cyan,
        Color::Gray,
        Color::DarkGray,
        Color::LightRed,
        Color::LightGreen,
        Color::LightYellow,
        Color::LightBlue,
        Color::LightMagenta,
        Color::LightCyan,
        Color::White,
    ];
    for (index, color) in named.iter().enumerate() {
        assert_eq!(color_of(index), *color);
    }
}

#[test]
fn later_lines_have_computed_colours() {
    assert_eq!(color_of(15), Color::Rgb(225, 240, 105));
    assert_eq!(color_of(16), Color::Rgb(70, 35, 180));
    for index in [15usize, 100, 255, 1000, 123_456] {
        assert_eq!(
            color_of(index),
            Color::Rgb(
                ((index * 100) % 255) as u8,
                ((index * 50) % 255) as u8,
                ((index * 75) % 255) as u8
            )
        );
    }
    assert!(matches!(color_of(usize::MAX), Color::Rgb(..)));
}

#[test]
fn time_axis_is_labelled_in_whole_seconds() {
    assert_eq!(time_axis_labels(0), vec!["0", "0", "0"]);
    assert_eq!(time_axis_labels(7 * NANOS_PER_SECOND), vec!["0", "3", "7"]);
    assert_eq!(time_axis_labels(7 * NANOS_PER_SECOND - 1), vec!["0", "3", "6"]);
    assert_eq!(time_axis_labels(120 * NANOS_PER_SECOND + 5), vec!["0", "60", "120"]);
}

#[test]
fn memory_chart_frame() {
    let info = MemoryInfo {
        total_memory: 16_000_000_000,
        used_memory: 4_500_000_000,
        total_swap: 2_000_000_000,
        used_swap: 0,
    };
    let chart = memory_tab(Some(&info), 16, 2);
    assert_eq!(chart.title, "Memory: 4.50 GB/16 GB, SWAP: 0 B/2 GB");
    assert_eq!(chart.bound, 16);
    assert_eq!(chart.labels, vec!["0 B", "8 GB", "16 GB"]);
    let swapped = memory_tab(Some(&info), 3, 900);
    assert_eq!(swapped.bound, 900);
}

#[test]
fn memory_chart_without_data() {
    let chart = memory_tab(None, 16, 2);
    assert_eq!(chart.title, "No memory/SWAP information was able to be obtained!");
    assert_eq!(chart.bound, 0);
    assert!(chart.labels.is_empty());
}
