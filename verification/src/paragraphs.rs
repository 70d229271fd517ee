//! The tabs that are a scrolling paragraph: system, disks, batteries.

use vstd::prelude::*;
use vstd::string::*;
use crate::info::{BatteryInfo, BatteryState, BatteryTechnology, DiskInfo, SystemInfo};
use crate::text::{
    decimal, decimal_text, duration_text, format_duration, human_size, human_size_text, labelled,
    text_or_unknown, unknown_text,
};

verus! {

/// One line of a paragraph.
#[derive(Debug, Clone)]
pub struct TextLine {
    pub text: String,
    pub bold: bool,
}

impl View for TextLine {
    type V = (Seq<char>, bool);

    open spec fn view(&self) -> (Seq<char>, bool) {
        (self.text@, self.bold)
    }
}

/// A titled paragraph, scrolled down by some lines.
#[derive(Debug, Clone)]
pub struct ParagraphView {
    pub title: String,
    pub lines: Vec<TextLine>,
    pub scroll: u16,
}

/// The views of the lines of a paragraph.
pub open spec fn line_views(lines: Seq<TextLine>) -> Seq<(Seq<char>, bool)> {
    lines.map_values(|line: TextLine| line@)
}

/// A line in the regular face.
pub open spec fn plain(text: Seq<char>) -> (Seq<char>, bool) {
    (text, false)
}

/// A line in the bold face.
pub open spec fn bold(text: Seq<char>) -> (Seq<char>, bool) {
    (text, true)
}

/// The text, or `unknown` when there is none.
pub open spec fn or_unknown(opt: Option<String>) -> Seq<char> {
    match opt {
        Some(text) => text@,
        None => unknown_text(),
    }
}

/// What a tab shows when its category has no data.
pub open spec fn no_information() -> Seq<char> {
    "No information available!"@
}

fn push_line(lines: &mut Vec<TextLine>, text: String, bold: bool)
    ensures
        line_views(final(lines)@) == line_views(old(lines)@).push((text@, bold)),
{
    let ghost before = lines@;
    lines.push(TextLine { text, bold });
    assert(line_views(lines@) =~= line_views(before).push((text@, bold)));
}

fn labelled_or_unknown(label: &str, value: &Option<String>) -> (s: String)
    ensures
        s@ == label@ + or_unknown(*value),
{
    let text = text_or_unknown(value);
    labelled(label, text.as_str())
}

fn placeholder(title: &str, message: &str) -> (view: ParagraphView)
    ensures
        view.title@ == title@,
        line_views(view.lines@) == seq![plain(message@)],
        view.scroll == 0,
{
    let mut lines: Vec<TextLine> = Vec::new();
    assert(line_views(lines@) =~= Seq::<(Seq<char>, bool)>::empty());
    push_line(&mut lines, String::from_str(message), false);
    assert(line_views(lines@) =~= seq![plain(message@)]);
    ParagraphView { title: String::from_str(title), lines, scroll: 0 }
}

/// The line of one user account.
pub open spec fn user_line(user: Seq<char>) -> (Seq<char>, bool) {
    plain("   "@ + user + "\n"@)
}

/// The lines of the system tab.
pub open spec fn system_lines(info: SystemInfo) -> Seq<(Seq<char>, bool)> {
    seq![
        plain("Operating System: "@ + or_unknown(info.os)),
        plain("Operating System Version: "@ + or_unknown(info.os_version)),
        plain("Kernel Version: "@ + or_unknown(info.kernel_version)),
        plain("Uptime: "@ + duration_text(info.uptime as nat)),
        plain("Users: "@),
    ] + Seq::new(info.users@.len(), |i: int| user_line(info.users@[i]@))
}

/// The system tab: the identity of the system and its users, or a note
/// that nothing is known.
pub fn system_tab(info: Option<&SystemInfo>, scroll: u16) -> (view: ParagraphView)
    ensures
        view.title@ == "System"@,
        match info {
            Some(info) => line_views(view.lines@) == system_lines(*info) && view.scroll == scroll,
            None => line_views(view.lines@) == seq![plain(no_information())] && view.scroll == 0,
        },
{
    match info {
        None => placeholder("System", "No information available!"),
        Some(info) => {
            let mut lines: Vec<TextLine> = Vec::new();
            assert(line_views(lines@) =~= Seq::<(Seq<char>, bool)>::empty());
            push_line(&mut lines, labelled_or_unknown("Operating System: ", &info.os), false);
            push_line(
                &mut lines,
                labelled_or_unknown("Operating System Version: ", &info.os_version),
                false,
            );
            push_line(&mut lines, labelled_or_unknown("Kernel Version: ", &info.kernel_version), false);
            let uptime = format_duration(info.uptime);
            push_line(&mut lines, labelled("Uptime: ", uptime.as_str()), false);
            push_line(&mut lines, String::from_str("Users: "), false);
            let ghost head = line_views(lines@);
            let mut i: usize = 0;
            while i < info.users.len()
                invariant
                    i <= info.users@.len(),
                    line_views(lines@) == head + Seq::new(
                        i as nat,
                        |j: int| user_line(info.users@[j]@),
                    ),
                decreases info.users@.len() - i,
            {
                let mut line = labelled("   ", info.users[i].as_str());
                line.append("\n");
                let ghost before = line_views(lines@);
                push_line(&mut lines, line, false);
                i += 1;
                assert(line_views(lines@) =~= head + Seq::new(
                    i as nat,
                    |j: int| user_line(info.users@[j]@),
                ));
            }
            assert(line_views(lines@) =~= system_lines(*info));
            ParagraphView { title: String::from_str("System"), lines, scroll }
        },
    }
}

/// The lines of one disk.
pub open spec fn disk_lines(disk: DiskInfo) -> Seq<(Seq<char>, bool)> {
    seq![
        bold(disk.name@),
        plain("Used Space: "@ + human_size_text(disk.used)),
        plain("Total Space: "@ + human_size_text(disk.total)),
        plain("Mount Point: "@ + disk.mount_point@),
        plain("Filesystem: "@ + or_unknown(disk.file_system)),
        plain("\n"@),
    ]
}

/// The lines of the first `count` disks, one block after the other.
pub open spec fn disks_lines(disks: Seq<DiskInfo>, count: nat) -> Seq<(Seq<char>, bool)>
    decreases count,
{
    if count == 0 {
        Seq::empty()
    } else {
        disks_lines(disks, (count - 1) as nat) + disk_lines(disks[count - 1])
    }
}

fn push_disk(lines: &mut Vec<TextLine>, disk: &DiskInfo)
    ensures
        line_views(final(lines)@) == line_views(old(lines)@) + disk_lines(*disk),
{
    let ghost before = line_views(lines@);
    push_line(lines, disk.name.clone(), true);
    let used = human_size(disk.used);
    push_line(lines, labelled("Used Space: ", used.as_str()), false);
    let total = human_size(disk.total);
    push_line(lines, labelled("Total Space: ", total.as_str()), false);
    push_line(lines, labelled("Mount Point: ", disk.mount_point.as_str()), false);
    push_line(lines, labelled_or_unknown("Filesystem: ", &disk.file_system), false);
    push_line(lines, String::from_str("\n"), false);
    assert(line_views(lines@) =~= before + disk_lines(*disk));
}

/// The disk tab: a block of lines per disk, or a note that nothing is
/// known.
pub fn disk_tab(disks: Option<&Vec<DiskInfo>>, scroll: u16) -> (view: ParagraphView)
    ensures
        view.title@ == "Disks"@,
        match disks {
            Some(disks) => line_views(view.lines@) == disks_lines(disks@, disks@.len())
                && view.scroll == scroll,
            None => line_views(view.lines@) == seq![plain(no_information())] && view.scroll == 0,
        },
{
    match disks {
        None => placeholder("Disks", "No information available!"),
        Some(disks) => {
            let mut lines: Vec<TextLine> = Vec::new();
            assert(line_views(lines@) =~= Seq::<(Seq<char>, bool)>::empty());
            let mut i: usize = 0;
            while i < disks.len()
                invariant
                    i <= disks@.len(),
                    line_views(lines@) == disks_lines(disks@, i as nat),
                decreases disks@.len() - i,
            {
                push_disk(&mut lines, &disks[i]);
                i += 1;
            }
            ParagraphView { title: String::from_str("Disks"), lines, scroll }
        },
    }
}

impl BatteryState {
    /// The name of the state.
    pub open spec fn name(self) -> Seq<char> {
        match self {
            BatteryState::Unknown => "unknown"@,
            BatteryState::Charging => "charging"@,
            BatteryState::Discharging => "discharging"@,
            BatteryState::Empty => "empty"@,
            BatteryState::Full => "full"@,
        }
    }
}

impl BatteryTechnology {
    /// The name of the chemistry.
    pub open spec fn name(self) -> Seq<char> {
        match self {
            BatteryTechnology::Unknown => "unknown"@,
            BatteryTechnology::LithiumIon => "lithium-ion"@,
            BatteryTechnology::LeadAcid => "lead-acid"@,
            BatteryTechnology::LithiumPolymer => "lithium-polymer"@,
            BatteryTechnology::NickelMetalHydride => "nickel-metal-hydride"@,
            BatteryTechnology::NickelCadmium => "nickel-cadmium"@,
            BatteryTechnology::NickelZinc => "nickel-zinc"@,
            BatteryTechnology::LithiumIronPhosphate => "lithium-iron-phosphate"@,
            BatteryTechnology::RechargeableAlkalineManganese => "rechargeable-alkaline-manganese"@,
        }
    }
}

/// Asks the battery crate to print a charging state. Its `Display` for
/// `State` writes one fixed lower-case word per state; the contract
/// claims exactly those words.
#[verifier::external_body]
pub(crate) fn state_name(state: BatteryState) -> (s: String)
    ensures
        s@ == state.name(),
{
    let outside = match state {
        BatteryState::Unknown => battery::State::Unknown,
        BatteryState::Charging => battery::State::Charging,
        BatteryState::Discharging => battery::State::Discharging,
        BatteryState::Empty => battery::State::Empty,
        BatteryState::Full => battery::State::Full,
    };
    outside.to_string()
}

/// Asks the battery crate to print a chemistry. Its `Display` for
/// `Technology` writes one fixed hyphenated name per chemistry; the
/// contract claims exactly those names.
#[verifier::external_body]
pub(crate) fn technology_name(technology: BatteryTechnology) -> (s: String)
    ensures
        s@ == technology.name(),
{
    let outside = match technology {
        BatteryTechnology::Unknown => battery::Technology::Unknown,
        BatteryTechnology::LithiumIon => battery::Technology::LithiumIon,
        BatteryTechnology::LeadAcid => battery::Technology::LeadAcid,
        BatteryTechnology::LithiumPolymer => battery::Technology::LithiumPolymer,
        BatteryTechnology::NickelMetalHydride => battery::Technology::NickelMetalHydride,
        BatteryTechnology::NickelCadmium => battery::Technology::NickelCadmium,
        BatteryTechnology::NickelZinc => battery::Technology::NickelZinc,
        BatteryTechnology::LithiumIronPhosphate => battery::Technology::LithiumIronPhosphate,
        BatteryTechnology::RechargeableAlkalineManganese => battery::Technology::RechargeableAlkalineManganese,
    };
    outside.to_string()
}

/// The cycle count in decimal, or `unknown`.
pub open spec fn cycles_text(cycle_count: Option<u32>) -> Seq<char> {
    match cycle_count {
        Some(n) => decimal_text(n as nat),
        None => unknown_text(),
    }
}

/// The lines of one battery.
pub open spec fn battery_lines(battery: BatteryInfo) -> Seq<(Seq<char>, bool)> {
    seq![
        bold(or_unknown(battery.model)),
        plain("Manufacturer: "@ + or_unknown(battery.manufacturer)),
        plain("Charge: "@ + battery.charge.text@ + "%"@),
        plain("Status: "@ + battery.state.name()),
        plain("Capacity: "@ + battery.capacity_wh.text@ + "kWh"@),
        plain("Intended Capacity: "@ + battery.capacity_new_wh.text@ + "kWh"@),
        plain("Health: "@ + battery.health.text@ + "%"@),
        plain("Voltage: "@ + battery.voltage.text@ + "V"@),
        plain("Technology: "@ + battery.technology.name()),
        plain("Cycle Count: "@ + cycles_text(battery.cycle_count)),
        plain("\n\n\n"@),
    ]
}

/// The lines of the first `count` batteries, one block after the other.
pub open spec fn batteries_lines(batteries: Seq<BatteryInfo>, count: nat) -> Seq<(Seq<char>, bool)>
    decreases count,
{
    if count == 0 {
        Seq::empty()
    } else {
        batteries_lines(batteries, (count - 1) as nat) + battery_lines(batteries[count - 1])
    }
}

fn measured(label: &str, value: &str, unit: &str) -> (s: String)
    ensures
        s@ == label@ + value@ + unit@,
{
    let mut s = labelled(label, value);
    s.append(unit);
    s
}

fn push_battery(lines: &mut Vec<TextLine>, battery: &BatteryInfo)
    ensures
        line_views(final(lines)@) == line_views(old(lines)@) + battery_lines(*battery),
{
    let ghost before = line_views(lines@);
    push_line(lines, labelled_or_unknown("", &battery.model), true);
    push_line(lines, labelled_or_unknown("Manufacturer: ", &battery.manufacturer), false);
    push_line(lines, measured("Charge: ", battery.charge.text.as_str(), "%"), false);
    let state = state_name(battery.state);
    push_line(lines, labelled("Status: ", state.as_str()), false);
    push_line(lines, measured("Capacity: ", battery.capacity_wh.text.as_str(), "kWh"), false);
    let ghost half = line_views(lines@);
    proof {
        reveal_strlit("");
        assert(""@ + or_unknown(battery.model) =~= or_unknown(battery.model));
        assert(half =~= before + battery_lines(*battery).take(5));
    }
    push_line(
        lines,
        measured("Intended Capacity: ", battery.capacity_new_wh.text.as_str(), "kWh"),
        false,
    );
    push_line(lines, measured("Health: ", battery.health.text.as_str(), "%"), false);
    push_line(lines, measured("Voltage: ", battery.voltage.text.as_str(), "V"), false);
    let technology = technology_name(battery.technology);
    push_line(lines, labelled("Technology: ", technology.as_str()), false);
    let cycles = match battery.cycle_count {
        Some(n) => decimal(n as u64),
        None => String::from_str("unknown"),
    };
    push_line(lines, labelled("Cycle Count: ", cycles.as_str()), false);
    push_line(lines, String::from_str("\n\n\n"), false);
    proof {
        assert(line_views(lines@) =~= half + battery_lines(*battery).skip(5));
        assert(battery_lines(*battery) =~= battery_lines(*battery).take(5) + battery_lines(
            *battery,
        ).skip(5));
    }
}

/// The battery tab: a block of lines per battery, or a note that nothing
/// is known.
pub fn battery_tab(batteries: Option<&Vec<BatteryInfo>>, scroll: u16) -> (view: ParagraphView)
    ensures
        view.title@ == "Batteries"@,
        match batteries {
            Some(batteries) => line_views(view.lines@) == batteries_lines(
                batteries@,
                batteries@.len(),
            ) && view.scroll == scroll,
            None => line_views(view.lines@) == seq![
                plain("No battery information was able to be obtained!"@),
            ] && view.scroll == 0,
        },
{
    match batteries {
        None => placeholder("Batteries", "No battery information was able to be obtained!"),
        Some(batteries) => {
            let mut lines: Vec<TextLine> = Vec::new();
            assert(line_views(lines@) =~= Seq::<(Seq<char>, bool)>::empty());
            let mut i: usize = 0;
            while i < batteries.len()
                invariant
                    i <= batteries@.len(),
                    line_views(lines@) == batteries_lines(batteries@, i as nat),
                decreases batteries@.len() - i,
            {
                push_battery(&mut lines, &batteries[i]);
                i += 1;
            }
            ParagraphView { title: String::from_str("Batteries"), lines, scroll }
        },
    }
}

} // verus!
