//! The interaction state machine: which screen is shown, where the cursor
//! stands, how the lists are ordered, and which popup is open. Input
//! events go in, the next state and an action for the caller come out.

use vstd::prelude::*;
use crate::sort::{SortByComponent, SortByProcess, SortOrder};
use crate::tab::Tab;

verus! {

/// A key of the keyboard.
#[derive(Debug, Clone, Copy, PartialEq, Eq, Structural)]
pub enum Key {
    Char(char),
    Esc,
    Enter,
    Up,
    Down,
    Left,
    Right,
    Shift,
    Other,
}

/// One input event.
#[derive(Debug, Clone, Copy, PartialEq, Eq, Structural)]
pub enum InputEvent {
    Key(Key),
    ScrollUp,
    ScrollDown,
    Other,
}

/// The screen that is shown.
#[derive(Debug, Clone, Copy, PartialEq, Eq, Structural)]
pub enum Screen {
    /// The introduction, shown first.
    Welcome,
    /// The tabs; there is no way back to the introduction.
    Dashboard,
}

/// The active tab and the selected line.
#[derive(Debug, Clone, Copy, PartialEq, Eq, Structural)]
pub struct Cursor {
    pub active_tab: usize,
    pub selected_line: u16,
}

/// The process that a kill would hit.
#[derive(Debug, Clone)]
pub struct KillTarget {
    pub pid: u32,
    pub name: String,
}

/// The popup that is open, if any.
#[derive(Debug, Clone)]
pub enum PopupState {
    /// No popup is open.
    Inactive,
    /// The question whether to kill the target.
    ConfirmKill { target: KillTarget },
    /// Details of what was under the cursor.
    MoreInfo { contents: String },
    /// A popup was asked for while nothing was selected.
    NoSelectionWarning,
}

/// What is under the cursor when an event arrives.
#[derive(Debug, Clone)]
pub struct Selection {
    /// Length of the collection that the active tab shows.
    pub line_count: usize,
    /// The selected process, where the active tab lists processes and the
    /// cursor is on one.
    pub process: Option<KillTarget>,
    /// The details of the selected item, where the active tab has any.
    pub details: Option<String>,
}

/// What the caller has to do after an event.
#[derive(Debug, Clone, Copy, PartialEq, Eq, Structural)]
pub enum Action {
    /// Nothing; go on with the loop.
    Continue,
    /// Stop the background task, wait for it, and leave.
    Quit,
    /// Ask the platform to kill the process, once, whatever it answers.
    Kill { pid: u32 },
}

/// The whole state of the interaction.
#[derive(Debug, Clone)]
pub struct Dashboard {
    pub screen: Screen,
    pub cursor: Cursor,
    pub popup: PopupState,
    pub process_ordering: SortByProcess,
    pub component_ordering: SortByComponent,
    pub shift_pressed: bool,
}

/// The last line that can be selected in a collection of `line_count`
/// lines; line zero in an empty one.
pub open spec fn last_line(line_count: usize) -> u16 {
    if line_count == 0 {
        0
    } else if line_count - 1 > u16::MAX {
        u16::MAX
    } else {
        (line_count - 1) as u16
    }
}

/// `line` brought into the collection.
pub open spec fn clamped_line(line: int, line_count: usize) -> u16 {
    if line < 0 {
        0
    } else if line > last_line(line_count) {
        last_line(line_count)
    } else {
        line as u16
    }
}

/// The direction that the case of a sort key selects: ascending for the
/// small letter, descending for the capital.
pub open spec fn order_of_case(capital: bool) -> SortOrder {
    if capital {
        SortOrder::Descending
    } else {
        SortOrder::Ascending
    }
}

impl PopupState {
    /// The kill trigger asks about the selected process, or warns when
    /// there is none. A question that is already open stays as it is.
    pub open spec fn on_kill_trigger(self, process: Option<KillTarget>) -> PopupState {
        match self {
            PopupState::ConfirmKill { .. } => self,
            _ => match process {
                Some(target) => PopupState::ConfirmKill { target },
                None => PopupState::NoSelectionWarning,
            },
        }
    }

    /// The info trigger shows the details of the selected item, or warns
    /// when there is none. An open kill question stays as it is.
    pub open spec fn on_info_trigger(self, details: Option<String>) -> PopupState {
        match self {
            PopupState::ConfirmKill { .. } => self,
            _ => match details {
                Some(contents) => PopupState::MoreInfo { contents },
                None => PopupState::NoSelectionWarning,
            },
        }
    }

    /// Confirm and deny close the kill question and leave every other
    /// popup alone.
    pub open spec fn on_answer(self) -> PopupState {
        match self {
            PopupState::ConfirmKill { .. } => PopupState::Inactive,
            _ => self,
        }
    }

    /// An open detail popup follows the cursor.
    pub open spec fn following(self, details: Option<String>) -> PopupState {
        match self {
            PopupState::MoreInfo { .. } => match details {
                Some(contents) => PopupState::MoreInfo { contents },
                None => PopupState::NoSelectionWarning,
            },
            _ => self,
        }
    }

    /// Whether a popup is open.
    pub open spec fn is_open(self) -> bool {
        !(self is Inactive)
    }
}

impl Dashboard {
    /// The state at startup: the introduction, the first tab, no popup,
    /// processes by CPU usage and components by temperature, both
    /// descending.
    pub open spec fn initial() -> Dashboard {
        Dashboard {
            screen: Screen::Welcome,
            cursor: Cursor { active_tab: 0, selected_line: 0 },
            popup: PopupState::Inactive,
            process_ordering: SortByProcess::CpuUsage(SortOrder::Descending),
            component_ordering: SortByComponent::Temperature(SortOrder::Descending),
            shift_pressed: false,
        }
    }

    /// The active tab exists.
    pub open spec fn wf(self) -> bool {
        self.cursor.active_tab < Tab::COUNT
    }

    pub fn new() -> (state: Dashboard)
        ensures
            state == Dashboard::initial(),
            state.wf(),
    {
        Dashboard {
            screen: Screen::Welcome,
            cursor: Cursor { active_tab: 0, selected_line: 0 },
            popup: PopupState::Inactive,
            process_ordering: SortByProcess::CpuUsage(SortOrder::Descending),
            component_ordering: SortByComponent::Temperature(SortOrder::Descending),
            shift_pressed: false,
        }
    }

    /// The state with the selected line put on `line`, or as near to it as
    /// the collection reaches.
    pub open spec fn with_line(self, line: int, line_count: usize) -> Dashboard {
        Dashboard {
            cursor: Cursor {
                active_tab: self.cursor.active_tab,
                selected_line: clamped_line(line, line_count),
            },
            ..self
        }
    }

    /// The state on another tab, at its first line.
    pub open spec fn on_tab(self, tab: usize) -> Dashboard {
        Dashboard { cursor: Cursor { active_tab: tab, selected_line: 0 }, ..self }
    }

    /// The state with another popup.
    pub open spec fn with_popup(self, popup: PopupState) -> Dashboard {
        Dashboard { popup, ..self }
    }

    /// The state after a character key on the dashboard.
    pub open spec fn after_char(self, c: char, selection: Selection) -> Dashboard {
        let tab = self.cursor.active_tab;
        if c == 'c' || c == 'C' {
            if tab == Tab::Processes.position() {
                Dashboard {
                    process_ordering: SortByProcess::CpuUsage(order_of_case(c == 'C')),
                    ..self
                }
            } else if tab == Tab::Components.position() {
                Dashboard {
                    component_ordering: SortByComponent::Critical(order_of_case(c == 'C')),
                    ..self
                }
            } else {
                self
            }
        } else if c == 'm' || c == 'M' {
            Dashboard { process_ordering: SortByProcess::MemoryUsage(order_of_case(c == 'M')), ..self }
        } else if c == 's' || c == 'S' {
            Dashboard { process_ordering: SortByProcess::SwapUsage(order_of_case(c == 'S')), ..self }
        } else if c == 'r' || c == 'R' {
            Dashboard { process_ordering: SortByProcess::Runtime(order_of_case(c == 'R')), ..self }
        } else if c == 't' || c == 'T' {
            Dashboard {
                component_ordering: SortByComponent::Temperature(order_of_case(c == 'T')),
                ..self
            }
        } else if c == 'k' {
            self.with_popup(self.popup.on_kill_trigger(selection.process))
        } else if c == 'i' {
            self.with_popup(self.popup.on_info_trigger(selection.details))
        } else if c == 'x' {
            self.with_popup(PopupState::Inactive)
        } else if c == 'y' || c == 'n' {
            self.with_popup(self.popup.on_answer())
        } else {
            self
        }
    }

    /// The state after an event on the dashboard, before the selected
    /// line is brought into the collection.
    pub open spec fn after_dashboard_event(self, event: InputEvent, selection: Selection) -> Dashboard {
        let line = self.cursor.selected_line as int;
        match event {
            InputEvent::Key(Key::Char(c)) => self.after_char(c, selection),
            InputEvent::Key(Key::Shift) => Dashboard { shift_pressed: true, ..self },
            InputEvent::Key(Key::Up) | InputEvent::ScrollUp => self.with_line(
                line - 1,
                selection.line_count,
            ),
            InputEvent::Key(Key::Down) | InputEvent::ScrollDown => self.with_line(
                line + 1,
                selection.line_count,
            ),
            InputEvent::Key(Key::Left) => self.on_tab(
                if self.cursor.active_tab == 0 {
                    0
                } else {
                    (self.cursor.active_tab - 1) as usize
                },
            ),
            InputEvent::Key(Key::Right) => self.on_tab(
                if self.cursor.active_tab + 1 < Tab::COUNT {
                    (self.cursor.active_tab + 1) as usize
                } else {
                    self.cursor.active_tab
                },
            ),
            _ => self,
        }
    }

    /// Whether the event asks to leave the program.
    pub open spec fn is_quit(event: InputEvent) -> bool {
        event == InputEvent::Key(Key::Char('q')) || event == InputEvent::Key(Key::Esc)
    }

    /// The state after an event. On the dashboard the selected line ends
    /// inside the collection whatever the event was; a tab change puts it
    /// on line zero.
    pub open spec fn after(self, event: InputEvent, selection: Selection) -> Dashboard {
        if Self::is_quit(event) {
            self
        } else {
            match self.screen {
                Screen::Welcome => if event == InputEvent::Key(Key::Enter) {
                    Dashboard { screen: Screen::Dashboard, ..self }
                } else {
                    self
                },
                Screen::Dashboard => {
                    let next = self.after_dashboard_event(event, selection);
                    if next.cursor.active_tab == self.cursor.active_tab {
                        next.with_line(next.cursor.selected_line as int, selection.line_count)
                    } else {
                        next
                    }
                },
            }
        }
    }

    /// What the caller has to do after an event: leave on a quit key,
    /// kill on the confirm key while the kill question is open, and
    /// nothing otherwise.
    pub open spec fn action_for(self, event: InputEvent) -> Action {
        if Self::is_quit(event) {
            Action::Quit
        } else if self.screen == Screen::Dashboard && event == InputEvent::Key(Key::Char('y')) {
            match self.popup {
                PopupState::ConfirmKill { target } => Action::Kill { pid: target.pid },
                _ => Action::Continue,
            }
        } else {
            Action::Continue
        }
    }
}

/// The last line that can be selected in a collection.
pub fn last_line_of(line_count: usize) -> (line: u16)
    ensures
        line == last_line(line_count),
{
    if line_count == 0 {
        0
    } else if line_count - 1 > 0xffff {
        0xffff
    } else {
        (line_count - 1) as u16
    }
}

/// Brings a line into a collection.
pub fn clamp_line(line: u16, line_count: usize) -> (clamped: u16)
    ensures
        clamped == clamped_line(line as int, line_count),
        clamped <= last_line(line_count),
{
    let last = last_line_of(line_count);
    if line > last {
        last
    } else {
        line
    }
}

impl Dashboard {
    fn handle_char(&mut self, c: char, selection: Selection)
        requires
            old(self).wf(),
        ensures
            final(self).wf(),
            *final(self) == old(self).after_char(c, selection),
    {
        let tab = self.cursor.active_tab;
        let capital = c == 'C' || c == 'M' || c == 'S' || c == 'R' || c == 'T';
        let order = if capital {
            SortOrder::Descending
        } else {
            SortOrder::Ascending
        };
        if c == 'c' || c == 'C' {
            if tab == 6 {
                self.process_ordering = SortByProcess::CpuUsage(order);
            } else if tab == 7 {
                self.component_ordering = SortByComponent::Critical(order);
            }
        } else if c == 'm' || c == 'M' {
            self.process_ordering = SortByProcess::MemoryUsage(order);
        } else if c == 's' || c == 'S' {
            self.process_ordering = SortByProcess::SwapUsage(order);
        } else if c == 'r' || c == 'R' {
            self.process_ordering = SortByProcess::Runtime(order);
        } else if c == 't' || c == 'T' {
            self.component_ordering = SortByComponent::Temperature(order);
        } else if c == 'k' {
            let asking = match &self.popup {
                PopupState::ConfirmKill { .. } => true,
                _ => false,
            };
            if !asking {
                self.popup = match selection.process {
                    Some(target) => PopupState::ConfirmKill { target },
                    None => PopupState::NoSelectionWarning,
                };
            }
        } else if c == 'i' {
            let asking = match &self.popup {
                PopupState::ConfirmKill { .. } => true,
                _ => false,
            };
            if !asking {
                self.popup = match selection.details {
                    Some(contents) => PopupState::MoreInfo { contents },
                    None => PopupState::NoSelectionWarning,
                };
            }
        } else if c == 'x' {
            self.popup = PopupState::Inactive;
        } else if c == 'y' || c == 'n' {
            let asking = match &self.popup {
                PopupState::ConfirmKill { .. } => true,
                _ => false,
            };
            if asking {
                self.popup = PopupState::Inactive;
            }
        }
    }

    /// Takes one input event: moves to the next state and says what the
    /// caller has to do.
    pub fn handle(&mut self, event: InputEvent, selection: Selection) -> (action: Action)
        requires
            old(self).wf(),
        ensures
            final(self).wf(),
            *final(self) == old(self).after(event, selection),
            action == old(self).action_for(event),
    {
        let quit = match event {
            InputEvent::Key(Key::Char(c)) => c == 'q',
            InputEvent::Key(Key::Esc) => true,
            _ => false,
        };
        if quit {
            return Action::Quit;
        }
        match self.screen {
            Screen::Welcome => {
                match event {
                    InputEvent::Key(Key::Enter) => {
                        self.screen = Screen::Dashboard;
                    },
                    _ => {},
                }
                Action::Continue
            },
            Screen::Dashboard => {
                let action = match event {
                    InputEvent::Key(Key::Char(c)) => {
                        if c == 'y' {
                            match &self.popup {
                                PopupState::ConfirmKill { target } => Action::Kill {
                                    pid: target.pid,
                                },
                                _ => Action::Continue,
                            }
                        } else {
                            Action::Continue
                        }
                    },
                    _ => Action::Continue,
                };
                let line_count = selection.line_count;
                let tab = self.cursor.active_tab;
                let line = self.cursor.selected_line;
                match event {
                    InputEvent::Key(Key::Char(c)) => {
                        self.handle_char(c, selection);
                    },
                    InputEvent::Key(Key::Shift) => {
                        self.shift_pressed = true;
                    },
                    InputEvent::Key(Key::Up) | InputEvent::ScrollUp => {
                        self.cursor.selected_line = clamp_line(line.saturating_sub(1), line_count);
                    },
                    InputEvent::Key(Key::Down) | InputEvent::ScrollDown => {
                        self.cursor.selected_line = clamp_line(line.saturating_add(1), line_count);
                    },
                    InputEvent::Key(Key::Left) => {
                        self.cursor.active_tab = tab.saturating_sub(1);
                        self.cursor.selected_line = 0;
                    },
                    InputEvent::Key(Key::Right) => {
                        if tab + 1 < Tab::COUNT {
                            self.cursor.active_tab = tab + 1;
                        }
                        self.cursor.selected_line = 0;
                    },
                    _ => {},
                }
                if self.cursor.active_tab == tab {
                    self.cursor.selected_line = clamp_line(self.cursor.selected_line, line_count);
                }
                action
            },
        }
    }

    /// Lets an open detail popup follow the cursor: it shows the details
    /// of what is selected now, or the warning when nothing is.
    pub fn follow_selection(&mut self, details: Option<String>)
        ensures
            *final(self) == old(self).with_popup(old(self).popup.following(details)),
    {
        let showing = match &self.popup {
            PopupState::MoreInfo { .. } => true,
            _ => false,
        };
        if showing {
            self.popup = match details {
                Some(contents) => PopupState::MoreInfo { contents },
                None => PopupState::NoSelectionWarning,
            };
        }
    }

    /// Brings the selected line into a collection that may have shrunk
    /// since the last event.
    pub fn fit_cursor(&mut self, line_count: usize)
        ensures
            *final(self) == old(self).with_line(old(self).cursor.selected_line as int, line_count),
            final(self).cursor.selected_line <= last_line(line_count),
    {
        self.cursor.selected_line = clamp_line(self.cursor.selected_line, line_count);
    }

    /// Forgets the shift key once a frame has shown it.
    pub fn frame_drawn(&mut self)
        ensures
            *final(self) == (Dashboard { shift_pressed: false, ..*old(self) }),
    {
        self.shift_pressed = false;
    }
}

/// The state after a whole trace of events, each with what was under the
/// cursor when it arrived.
pub open spec fn run(start: Dashboard, trace: Seq<(InputEvent, Selection)>) -> Dashboard
    decreases trace.len(),
{
    if trace.len() == 0 {
        start
    } else {
        run(start, trace.drop_last()).after(trace.last().0, trace.last().1)
    }
}

/// Whatever the event, on the dashboard the selected line ends inside the
/// collection that was shown when the event arrived.
pub proof fn lemma_event_fits_line(state: Dashboard, event: InputEvent, selection: Selection)
    requires
        state.screen == Screen::Dashboard,
        !Dashboard::is_quit(event),
    ensures
        state.after(event, selection).cursor.selected_line <= last_line(selection.line_count),
        state.after(event, selection).screen == Screen::Dashboard,
{
}

/// Through any sequence of events on a collection of a fixed length, the
/// selected line never leaves the collection: it stays at or below the
/// last line, or at line zero when the collection is empty.
pub proof fn lemma_line_stays_in_collection(
    start: Dashboard,
    trace: Seq<(InputEvent, Selection)>,
    line_count: usize,
)
    requires
        start.cursor.selected_line <= last_line(line_count),
        forall|i: int| 0 <= i < trace.len() ==> (#[trigger] trace[i]).1.line_count == line_count,
    ensures
        run(start, trace).cursor.selected_line <= last_line(line_count),
    decreases trace.len(),
{
    if trace.len() > 0 {
        let earlier = trace.drop_last();
        assert forall|i: int| 0 <= i < earlier.len() implies (#[trigger] earlier[i]).1.line_count
            == line_count by {
            assert(earlier[i] == trace[i]);
        }
        lemma_line_stays_in_collection(start, earlier, line_count);
        assert(trace.last() == trace[trace.len() - 1]);
    }
}

/// The active tab stays one of the tabs through any sequence of events.
pub proof fn lemma_tab_stays_valid(start: Dashboard, trace: Seq<(InputEvent, Selection)>)
    requires
        start.wf(),
    ensures
        run(start, trace).wf(),
    decreases trace.len(),
{
    if trace.len() > 0 {
        lemma_tab_stays_valid(start, trace.drop_last());
    }
}

/// The dismiss key closes whatever popup is open.
pub proof fn lemma_dismiss_closes(state: Dashboard, selection: Selection)
    requires
        state.screen == Screen::Dashboard,
    ensures
        state.after(InputEvent::Key(Key::Char('x')), selection).popup == PopupState::Inactive,
        state.action_for(InputEvent::Key(Key::Char('x'))) == Action::Continue,
{
}

/// A kill is asked of the caller only by the confirm key while the kill
/// question is open, only for the process in question, and the question
/// is closed with it. The deny key closes the question and asks nothing.
pub proof fn lemma_kill_needs_confirmation(
    state: Dashboard,
    event: InputEvent,
    selection: Selection,
    pid: u32,
)
    ensures
        state.action_for(event) == (Action::Kill { pid }) ==> {
            &&& event == InputEvent::Key(Key::Char('y'))
            &&& state.popup matches PopupState::ConfirmKill { target }
            &&& target.pid == pid
            &&& state.after(event, selection).popup == PopupState::Inactive
        },
        state.screen == Screen::Dashboard && state.popup is ConfirmKill ==> {
            &&& state.after(InputEvent::Key(Key::Char('n')), selection).popup == PopupState::Inactive
            &&& state.action_for(InputEvent::Key(Key::Char('n'))) == Action::Continue
        },
{
}

/// A popup opens only on the kill and info triggers: every other event
/// leaves a closed popup closed.
pub proof fn lemma_popup_opens_on_trigger(state: Dashboard, event: InputEvent, selection: Selection)
    requires
        state.popup == PopupState::Inactive,
        state.after(event, selection).popup.is_open(),
    ensures
        state.screen == Screen::Dashboard,
        event == InputEvent::Key(Key::Char('k')) || event == InputEvent::Key(Key::Char('i')),
        event == InputEvent::Key(Key::Char('k')) ==> state.after(event, selection).popup == (
        match selection.process {
            Some(target) => PopupState::ConfirmKill { target },
            None => PopupState::NoSelectionWarning,
        }),
{
}

/// What the background task does in one turn of its loop.
#[derive(Debug, Clone, Copy, PartialEq, Eq, Structural)]
pub enum WorkerTurn {
    /// Probe the network and publish what was found.
    Probe,
    /// Leave the loop; the task ends.
    Stop,
}

/// One turn of the background task: it looks at the stop signal before
/// each probe and never during one.
pub fn worker_turn(stop_signalled: bool) -> (turn: WorkerTurn)
    ensures
        turn == if stop_signalled {
            WorkerTurn::Stop
        } else {
            WorkerTurn::Probe
        },
{
    if stop_signalled {
        WorkerTurn::Stop
    } else {
        WorkerTurn::Probe
    }
}

} // verus!
