use crossinfo::tab::Tab;
use crossinfo::welcome::{welcome_text, welcome_text_checked, Logo, WELCOME_HEAD, WELCOME_TAIL};

fn logo() -> Logo {
    Logo::new("mini".to_string(), "twenty".to_string(), "forty".to_string(), "eighty".to_string())
}

#[test]
fn the_logo_grows_with_the_free_rows() {
    let logo = logo();
    for (rows, art) in [
        (0, "mini"),
        (19, "mini"),
        (20, "twenty"),
        (39, "twenty"),
        (40, "forty"),
        (79, "forty"),
        (80, "eighty"),
        (usize::MAX, "eighty"),
    ] {
        assert_eq!(logo.get(rows), art);
    }
}

#[test]
fn the_welcome_text_fits_the_screen() {
    let logo = logo();
    assert_eq!(welcome_text(&logo, 50, 100), format!("{WELCOME_HEAD}twenty{WELCOME_TAIL}"));
    assert_eq!(welcome_text(&logo, 50, 1400), format!("{WELCOME_HEAD}forty{WELCOME_TAIL}"));
    assert_eq!(welcome_text(&logo, 50, 10), format!("{WELCOME_HEAD}mini{WELCOME_TAIL}"));
    assert_eq!(welcome_text(&logo, 200, 1), format!("{WELCOME_HEAD}mini{WELCOME_TAIL}"));
    assert_eq!(welcome_text(&logo, 200, 20), format!("{WELCOME_HEAD}eighty{WELCOME_TAIL}"));
}

#[test]
fn the_welcome_text_opens_and_closes_as_written() {
    assert!(WELCOME_HEAD.starts_with("Welcome to the Crossinfo TUI"));
    assert!(WELCOME_HEAD.ends_with("command-line!\n\n"));
    assert!(WELCOME_TAIL.starts_with("\n\nPress Enter to continue"));
    assert!(WELCOME_TAIL.ends_with("To exit the program, press 'q' or Esc.\n"));
}

#[test]
fn a_screen_without_columns_has_no_welcome_text() {
    let logo = logo();
    assert_eq!(welcome_text_checked(&logo, 50, 0), None);
    assert_eq!(welcome_text_checked(&logo, 50, 100), Some(welcome_text(&logo, 50, 100)));
}

#[test]
fn the_tabs_in_display_order() {
    let labels: Vec<String> = Tab::all().iter().map(|tab| tab.to_string()).collect();
    assert_eq!(
        labels,
        vec![
            "System",
            "CPU",
            "Memory/SWAP",
            "Disks",
            "Battery",
            "Networks",
            "Processes",
            "Components",
            "Display",
            "Bluetooth"
        ]
    );
    assert_eq!(Tab::COUNT, 10);
    for (index, tab) in Tab::all().into_iter().enumerate() {
        assert_eq!(tab.index(), index);
        assert_eq!(Tab::from_index(index), Some(tab));
    }
    assert_eq!(Tab::from_index(10), None);
}
