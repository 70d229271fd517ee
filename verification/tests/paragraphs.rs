use crossinfo::info::{
    BatteryInfo, BatteryState, BatteryTechnology, DiskInfo, Reading, SystemInfo,
};
use crossinfo::paragraphs::{battery_tab, disk_tab, system_tab, ParagraphView};

fn reading(value: f32) -> Reading {
    Reading::new(value.to_bits(), format!("{value:.2}"), format!("{value}"))
}

fn texts(view: &ParagraphView) -> Vec<&str> {
    view.lines.iter().map(|line| line.text.as_str()).collect()
}

fn bold_lines(view: &ParagraphView) -> Vec<usize> {
    view.lines.iter().enumerate().filter(|(_, line)| line.bold).map(|(i, _)| i).collect()
}

#[test]
fn system_tab_lists_identity_and_users() {
    let info = SystemInfo {
        os: Some("Debian".to_string()),
        os_version: None,
        kernel_version: Some("6.1.0".to_string()),
        users: vec!["root".to_string(), "ada".to_string()],
        uptime: 3725,
    };
    let view = system_tab(Some(&info), 3);
    assert_eq!(view.title, "System");
    assert_eq!(view.scroll, 3);
    assert_eq!(
        texts(&view),
        vec![
            "Operating System: Debian",
            "Operating System Version: unknown",
            "Kernel Version: 6.1.0",
            "Uptime: 01:02:05",
            "Users: ",
            "   root\n",
            "   ada\n",
        ]
    );
    assert!(bold_lines(&view).is_empty());
}

#[test]
fn system_tab_without_data() {
    let view = system_tab(None, 3);
    assert_eq!(view.title, "System");
    assert_eq!(view.scroll, 0);
    assert_eq!(texts(&view), vec!["No information available!"]);
}

#[test]
fn disk_space_in_use() {
    let disk = DiskInfo::from_space(500, 120, "sda".to_string(), None, "/".to_string());
    assert_eq!(disk.total, 500);
    assert_eq!(disk.used, 380);
    let full = DiskInfo::from_space(500, 0, "sdb".to_string(), None, "/".to_string());
    assert_eq!(full.used, 500);
    let empty = DiskInfo::from_space(500, 500, "sdc".to_string(), None, "/".to_string());
    assert_eq!(empty.used, 0);
}

#[test]
fn disk_tab_has_a_block_per_disk() {
    let disks = vec![
        DiskInfo {
            total: 2_000_000,
            used: 1_500_000,
            name: "sda1".to_string(),
            file_system: Some("ext4".to_string()),
            mount_point: "/".to_string(),
        },
        DiskInfo {
            total: 1_000,
            used: 0,
            name: "sdb1".to_string(),
            file_system: None,
            mount_point: "/mnt".to_string(),
        },
    ];
    let view = disk_tab(Some(&disks), 1);
    assert_eq!(view.title, "Disks");
    assert_eq!(view.scroll, 1);
    assert_eq!(
        texts(&view),
        vec![
            "sda1",
            "Used Space: 1.50 MB",
            "Total Space: 2 MB",
            "Mount Point: /",
            "Filesystem: ext4",
            "\n",
            "sdb1",
            "Used Space: 0 B",
            "Total Space: 1 kB",
            "Mount Point: /mnt",
            "Filesystem: unknown",
            "\n",
        ]
    );
    assert_eq!(bold_lines(&view), vec![0, 6]);
}

#[test]
fn disk_tab_without_data_and_without_disks() {
    let view = disk_tab(None, 4);
    assert_eq!(view.scroll, 0);
    assert_eq!(texts(&view), vec!["No information available!"]);
    let none = disk_tab(Some(&Vec::new()), 4);
    assert_eq!(none.scroll, 4);
    assert!(none.lines.is_empty());
}

fn battery(state: BatteryState, technology: BatteryTechnology) -> BatteryInfo {
    BatteryInfo {
        charge: Reading::new(0.8765f32.to_bits(), "87".to_string(), "0.8765".to_string()),
        capacity_wh: reading(45.125),
        capacity_new_wh: reading(50.0),
        health: reading(90.25),
        voltage: reading(12.0),
        state,
        technology,
        cycle_count: Some(312),
        manufacturer: Some("ACME".to_string()),
        model: None,
    }
}

#[test]
fn battery_tab_has_a_block_per_battery() {
    let batteries = vec![battery(BatteryState::Charging, BatteryTechnology::LithiumIon)];
    let view = battery_tab(Some(&batteries), 0);
    assert_eq!(view.title, "Batteries");
    assert_eq!(
        texts(&view),
        vec![
            "unknown",
            "Manufacturer: ACME",
            "Charge: 87%",
            "Status: charging",
            "Capacity: 45.12kWh",
            "Intended Capacity: 50.00kWh",
            "Health: 90.25%",
            "Voltage: 12.00V",
            "Technology: lithium-ion",
            "Cycle Count: 312",
            "\n\n\n",
        ]
    );
    assert_eq!(bold_lines(&view), vec![0]);
}

#[test]
fn every_battery_state_has_its_name() {
    for (state, name) in [
        (BatteryState::Unknown, "unknown"),
        (BatteryState::Charging, "charging"),
        (BatteryState::Discharging, "discharging"),
        (BatteryState::Empty, "empty"),
        (BatteryState::Full, "full"),
    ] {
        let view = battery_tab(Some(&vec![battery(state, BatteryTechnology::Unknown)]), 0);
        assert_eq!(view.lines[3].text, format!("Status: {name}"));
    }
}

#[test]
fn every_battery_technology_has_its_name() {
    for (technology, name) in [
        (BatteryTechnology::Unknown, "unknown"),
        (BatteryTechnology::LithiumIon, "lithium-ion"),
        (BatteryTechnology::LeadAcid, "lead-acid"),
        (BatteryTechnology::LithiumPolymer, "lithium-polymer"),
        (BatteryTechnology::NickelMetalHydride, "nickel-metal-hydride"),
        (BatteryTechnology::NickelCadmium, "nickel-cadmium"),
        (BatteryTechnology::NickelZinc, "nickel-zinc"),
        (BatteryTechnology::LithiumIronPhosphate, "lithium-iron-phosphate"),
        (BatteryTechnology::RechargeableAlkalineManganese, "rechargeable-alkaline-manganese"),
    ] {
        let view = battery_tab(Some(&vec![battery(BatteryState::Full, technology)]), 0);
        assert_eq!(view.lines[8].text, format!("Technology: {name}"));
    }
}

#[test]
fn battery_tab_without_data() {
    let view = battery_tab(None, 2);
    assert_eq!(view.scroll, 0);
    assert_eq!(texts(&view), vec!["No battery information was able to be obtained!"]);
    let mut unknown_cycles = battery(BatteryState::Full, BatteryTechnology::Unknown);
    unknown_cycles.cycle_count = None;
    let view = battery_tab(Some(&vec![unknown_cycles]), 2);
    assert_eq!(view.lines[9].text, "Cycle Count: unknown");
}
