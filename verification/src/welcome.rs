//! The introduction that is shown before the dashboard.

use vstd::prelude::*;
use vstd::string::*;

verus! {

/// What the introduction opens with.
pub const WELCOME_HEAD: &'static str = "Welcome to the Crossinfo TUI, the place to get infos about your system at the command-line!\n\n";

/// The instructions of the introduction.
pub const WELCOME_TAIL: &'static str = "\n\nPress Enter to continue using the program if you're already familiar with it.\n\nOtherwise, read carefully!\n\nThis program uses three major interactive elements: Tabs, Paragraphs and Lists\n\nThe tabs can be navigated using the left and right arrow keys. They are shown at the top of the screen.\n\nThe paragraphs can be scrolled using either the up and down arrow or the scroll wheel.\n\nThe lists can be scrolled in the same way paragraphs can be, but they (sometimes) offer an extra element of interactivity: sorting. If you want to sort a list by a certain property, look out for the list header, where different properties are listed. If the list can be sorted after a certain property, there is a pair of square brackets containing a letter next to it. If you press this letter in its small form (without shift), the list is sorted after that property in ascending order. If you press the letter in its capital form (with shift), the list is sorted in descending order.\n\nTo exit the program, press 'q' or Esc.\n";

/// Fewer rows are left for the logo on a narrow screen, where the
/// instructions wrap: this many columns' worth of rows.
pub const WIDTH_NUMERATOR: usize = 1400;

/// The logo in four sizes.
#[derive(Debug, Clone)]
pub struct Logo {
    pub mini: String,
    pub small: String,
    pub medium: String,
    pub large: String,
}

impl Logo {
    /// The size of the logo for `rows` free rows: the smallest below
    /// twenty, then one size up from twenty, from forty and from eighty.
    pub open spec fn art_for(self, rows: usize) -> String {
        if rows < 20 {
            self.mini
        } else if rows < 40 {
            self.small
        } else if rows < 80 {
            self.medium
        } else {
            self.large
        }
    }

    pub fn new(mini: String, small: String, medium: String, large: String) -> (logo: Logo)
        ensures
            logo.mini == mini,
            logo.small == small,
            logo.medium == medium,
            logo.large == large,
    {
        Logo { mini, small, medium, large }
    }

    /// The logo that fits into `index` free rows.
    pub fn get(&self, index: usize) -> (art: &String)
        ensures
            *art == self.art_for(index),
    {
        if index < 20 {
            &self.mini
        } else if index < 40 {
            &self.small
        } else if index < 80 {
            &self.medium
        } else {
            &self.large
        }
    }
}

/// The rows that are free for the logo on a screen of `height` rows and
/// `width` columns.
pub open spec fn free_rows(height: usize, width: usize) -> usize {
    if WIDTH_NUMERATOR / width >= height {
        0
    } else {
        (height - WIDTH_NUMERATOR / width) as usize
    }
}

/// The text of the introduction: the opening, the logo in the size that
/// fits the screen, and the instructions.
pub fn welcome_text(logo: &Logo, height: usize, width: usize) -> (text: String)
    requires
        width > 0,
    ensures
        text@ == WELCOME_HEAD@ + logo.art_for(free_rows(height, width))@ + WELCOME_TAIL@,
{
    let taken = WIDTH_NUMERATOR / width;
    let rows = if taken >= height {
        0
    } else {
        height - taken
    };
    let mut text = String::from_str(WELCOME_HEAD);
    text.append(logo.get(rows).as_str());
    text.append(WELCOME_TAIL);
    text
}

/// The text of the introduction, or none on a screen without columns.
pub fn welcome_text_checked(logo: &Logo, height: usize, width: usize) -> (text: Option<String>)
    ensures
        match text {
            Some(text) => width > 0 && text@ == WELCOME_HEAD@ + logo.art_for(
                free_rows(height, width),
            )@ + WELCOME_TAIL@,
            None => width == 0,
        },
{
    if width > 0 {
        Some(welcome_text(logo, height, width))
    } else {
        None
    }
}

} // verus!
