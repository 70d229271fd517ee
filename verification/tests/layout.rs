use crossinfo::layout::{
    centered_rect, centered_rect_checked, middle_of, shares_for, Rect,
};
use ratatui::layout::{Constraint, Direction, Layout};

fn by_ratatui(percent_x: u16, percent_y: u16, r: Rect) -> Rect {
    let whole = ratatui::layout::Rect { x: r.x, y: r.y, width: r.width, height: r.height };
    let rows = Layout::default()
        .direction(Direction::Vertical)
        .constraints([
            Constraint::Percentage((100 - percent_y) / 2),
            Constraint::Percentage(percent_y),
            Constraint::Percentage((100 - percent_y) / 2),
        ])
        .split(whole);
    let middle = Layout::default()
        .direction(Direction::Horizontal)
        .constraints([
            Constraint::Percentage((100 - percent_x) / 2),
            Constraint::Percentage(percent_x),
            Constraint::Percentage((100 - percent_x) / 2),
        ])
        .split(rows[1])[1];
    Rect { x: middle.x, y: middle.y, width: middle.width, height: middle.height }
}

#[test]
fn shares_leave_the_percentage_in_the_middle() {
    assert_eq!(shares_for(70), (15, 70, 15));
    assert_eq!(shares_for(50), (25, 50, 25));
    assert_eq!(shares_for(100), (0, 100, 0));
    assert_eq!(shares_for(0), (50, 0, 50));
    assert_eq!(shares_for(33), (33, 33, 33));
}

#[test]
fn the_popup_stands_in_the_middle() {
    let area = Rect { x: 0, y: 3, width: 100, height: 40 };
    let popup = centered_rect(50, 70, area);
    assert_eq!(popup, by_ratatui(50, 70, area));
    assert_eq!(popup, Rect { x: 25, y: 9, width: 50, height: 28 });
    assert_ne!(popup, area);
}

#[test]
fn the_popup_agrees_with_the_layout_engine() {
    for (x, y, area) in [
        (50, 70, Rect { x: 0, y: 0, width: 80, height: 24 }),
        (100, 100, Rect { x: 2, y: 2, width: 10, height: 10 }),
        (0, 0, Rect { x: 0, y: 0, width: 10, height: 10 }),
        (33, 67, Rect { x: 5, y: 1, width: 211, height: 57 }),
        (50, 50, Rect { x: 0, y: 0, width: 0, height: 0 }),
    ] {
        assert_eq!(centered_rect(x, y, area), by_ratatui(x, y, area));
    }
}

#[test]
fn percentages_above_a_hundred_give_no_popup() {
    let area = Rect { x: 0, y: 0, width: 80, height: 24 };
    assert_eq!(centered_rect_checked(50, 70, area), Some(centered_rect(50, 70, area)));
    assert_eq!(centered_rect_checked(101, 70, area), None);
    assert_eq!(centered_rect_checked(50, 101, area), None);
}

#[test]
fn the_middle_column_is_taken() {
    let rect = |x| Rect { x, y: 0, width: 1, height: 1 };
    let rows = vec![rect(0), rect(1), rect(2)];
    let columns = vec![rect(10), rect(11), rect(12)];
    assert_eq!(middle_of(&rows, &columns), rect(11));
}

fn lies_inside(part: Rect, area: Rect) -> bool {
    let (left, top) = (u32::from(area.x), u32::from(area.y));
    let (right, bottom) = (left + u32::from(area.width), top + u32::from(area.height));
    left <= u32::from(part.x)
        && u32::from(part.x) + u32::from(part.width) <= right
        && top <= u32::from(part.y)
        && u32::from(part.y) + u32::from(part.height) <= bottom
}

#[test]
fn the_popup_lies_inside_the_area() {
    let areas = [
        Rect { x: 0, y: 0, width: 80, height: 24 },
        Rect { x: 0, y: 3, width: 100, height: 40 },
        Rect { x: 7, y: 11, width: 1, height: 1 },
        Rect { x: 5, y: 1, width: 211, height: 57 },
        Rect { x: 0, y: 0, width: 0, height: 0 },
        Rect { x: 300, y: 200, width: 0, height: 9 },
        Rect { x: 0, y: 0, width: 255, height: 255 },
        Rect { x: 65_000, y: 65_000, width: 535, height: 535 },
        Rect { x: 65_535, y: 65_535, width: 0, height: 0 },
        Rect { x: 65_530, y: 65_530, width: 300, height: 300 },
    ];
    for area in areas {
        for x in [0u16, 1, 33, 50, 67, 99, 100] {
            for y in [0u16, 1, 33, 50, 70, 99, 100] {
                let popup = centered_rect(x, y, area);
                assert!(lies_inside(popup, area), "{popup:?} in {area:?} by {x}, {y}");
                assert_eq!(centered_rect_checked(x, y, area), Some(popup));
            }
        }
    }
}

#[test]
fn the_whole_area_is_taken_at_a_hundred_percent() {
    let area = Rect { x: 4, y: 2, width: 60, height: 20 };
    assert_eq!(centered_rect(100, 100, area), area);
}
