//! The fixed, ordered set of dashboard tabs.

use vstd::prelude::*;
use vstd::string::*;

verus! {

/// One tab of the dashboard, in display order.
#[derive(Debug, Copy, Clone, PartialEq, Eq, Structural)]
pub enum Tab {
    /// OS information, users, kernel version.
    System,
    /// CPU usage, model, manufacturer.
    Cpu,
    /// RAM and swap amounts and usage.
    Memory,
    /// Disk amounts and usage.
    Disk,
    /// Installed batteries: charge, capacity, cycles, state, health.
    Battery,
    /// Connectivity, interfaces, WiFi networks.
    Network,
    /// Per-process usage, with the kill and detail popups.
    Processes,
    /// Temperatures of hardware components.
    Components,
    /// Display resolution, rotation and scale factor.
    Display,
    /// Bluetooth peripherals.
    Bluetooth,
}

/// The tab at position `index` of the tab bar, for an index below the
/// number of tabs.
pub open spec fn tab_at(index: int) -> Tab {
    if index == 0 {
        Tab::System
    } else if index == 1 {
        Tab::Cpu
    } else if index == 2 {
        Tab::Memory
    } else if index == 3 {
        Tab::Disk
    } else if index == 4 {
        Tab::Battery
    } else if index == 5 {
        Tab::Network
    } else if index == 6 {
        Tab::Processes
    } else if index == 7 {
        Tab::Components
    } else if index == 8 {
        Tab::Display
    } else {
        Tab::Bluetooth
    }
}

impl Tab {
    /// Number of tabs.
    pub const COUNT: usize = 10;

    /// Position of the tab in the tab bar.
    pub open spec fn position(self) -> int {
        match self {
            Tab::System => 0,
            Tab::Cpu => 1,
            Tab::Memory => 2,
            Tab::Disk => 3,
            Tab::Battery => 4,
            Tab::Network => 5,
            Tab::Processes => 6,
            Tab::Components => 7,
            Tab::Display => 8,
            Tab::Bluetooth => 9,
        }
    }

    /// The label shown in the tab bar.
    pub open spec fn title(self) -> Seq<char> {
        match self {
            Tab::System => "System"@,
            Tab::Cpu => "CPU"@,
            Tab::Memory => "Memory/SWAP"@,
            Tab::Disk => "Disks"@,
            Tab::Battery => "Battery"@,
            Tab::Network => "Networks"@,
            Tab::Processes => "Processes"@,
            Tab::Components => "Components"@,
            Tab::Display => "Display"@,
            Tab::Bluetooth => "Bluetooth"@,
        }
    }

    /// The label shown in the tab bar.
    pub fn to_string(&self) -> (label: String)
        ensures
            label@ == self.title(),
    {
        let text: &str = match self {
            Tab::System => "System",
            Tab::Cpu => "CPU",
            Tab::Memory => "Memory/SWAP",
            Tab::Disk => "Disks",
            Tab::Battery => "Battery",
            Tab::Network => "Networks",
            Tab::Processes => "Processes",
            Tab::Components => "Components",
            Tab::Display => "Display",
            Tab::Bluetooth => "Bluetooth",
        };
        String::from_str(text)
    }

    /// Position of the tab in the tab bar.
    pub fn index(&self) -> (i: usize)
        ensures
            i == self.position(),
            i < Tab::COUNT,
            tab_at(i as int) == *self,
    {
        match self {
            Tab::System => 0,
            Tab::Cpu => 1,
            Tab::Memory => 2,
            Tab::Disk => 3,
            Tab::Battery => 4,
            Tab::Network => 5,
            Tab::Processes => 6,
            Tab::Components => 7,
            Tab::Display => 8,
            Tab::Bluetooth => 9,
        }
    }

    /// The tab at a position of the tab bar, if there is one.
    pub fn from_index(index: usize) -> (tab: Option<Tab>)
        ensures
            index < Tab::COUNT ==> tab == Some(tab_at(index as int)),
            index >= Tab::COUNT ==> tab is None,
            tab matches Some(t) ==> t.position() == index,
    {
        match index {
            0 => Some(Tab::System),
            1 => Some(Tab::Cpu),
            2 => Some(Tab::Memory),
            3 => Some(Tab::Disk),
            4 => Some(Tab::Battery),
            5 => Some(Tab::Network),
            6 => Some(Tab::Processes),
            7 => Some(Tab::Components),
            8 => Some(Tab::Display),
            9 => Some(Tab::Bluetooth),
            _ => None,
        }
    }

    /// Every tab, in display order.
    pub fn all() -> (tabs: Vec<Tab>)
        ensures
            tabs@.len() == Tab::COUNT,
            forall|i: int| 0 <= i < Tab::COUNT ==> #[trigger] tabs@[i] == tab_at(i),
    {
        let mut tabs: Vec<Tab> = Vec::new();
        tabs.push(Tab::System);
        tabs.push(Tab::Cpu);
        tabs.push(Tab::Memory);
        tabs.push(Tab::Disk);
        tabs.push(Tab::Battery);
        tabs.push(Tab::Network);
        tabs.push(Tab::Processes);
        tabs.push(Tab::Components);
        tabs.push(Tab::Display);
        tabs.push(Tab::Bluetooth);
        tabs
    }
}

} // verus!
