use crossinfo::info::{Network, NetworkFlags, NetworkInfo, Wifi};
use crossinfo::network::{
    interface_list, merge_interfaces, network_details, network_info, network_tab, wifi_list,
    Interface,
};

fn flags(raw: u32) -> NetworkFlags {
    NetworkFlags {
        raw,
        is_up: true,
        is_broadcast: false,
        is_loopback: true,
        is_point_to_point: false,
        is_multicast: true,
    }
}

fn counted(name: &str, received: u64) -> Network {
    Network {
        name: name.to_string(),
        description: None,
        index: None,
        ips: None,
        flags: None,
        received_recently: Some(1),
        received_total: Some(received),
        transmitted_recently: Some(2),
        transmitted_total: Some(2_500),
        packets_received_recently: Some(3),
        packets_received_total: Some(30),
        packets_transmitted_recently: Some(4),
        packets_transmitted_total: Some(40),
        mac_address: Some([0x00, 0x1a, 0x2b, 0x3c, 0xde, 0xff]),
    }
}

fn interface(name: &str, index: u32) -> Interface {
    Interface {
        name: name.to_string(),
        description: format!("{name} described"),
        index,
        ips: vec!["10.0.0.1".to_string(), "fe80::1".to_string()],
        flags: flags(0b1000101),
    }
}

fn wifi(ssid: &str, mac: &str) -> Wifi {
    Wifi {
        mac: mac.to_string(),
        ssid: ssid.to_string(),
        channel: "11".to_string(),
        signal_level: "-42".to_string(),
        security: "WPA2".to_string(),
    }
}

#[test]
fn an_interface_describes_the_network_of_its_name() {
    let merged = merge_interfaces(
        vec![counted("lo", 5), counted("eth0", 6)],
        vec![interface("eth0", 2)],
    );
    assert_eq!(merged.len(), 2);
    assert_eq!(merged[0].name, "lo");
    assert_eq!(merged[0].description, None);
    assert_eq!(merged[1].name, "eth0");
    assert_eq!(merged[1].description.as_deref(), Some("eth0 described"));
    assert_eq!(merged[1].index, Some(2));
    assert_eq!(merged[1].ips, Some(vec!["10.0.0.1".to_string(), "fe80::1".to_string()]));
    assert_eq!(merged[1].flags.unwrap().raw, 0b1000101);
    assert_eq!(merged[1].received_total, Some(6));
    assert_eq!(merged[1].mac_address, Some([0x00, 0x1a, 0x2b, 0x3c, 0xde, 0xff]));
}

#[test]
fn an_unknown_interface_becomes_a_network_at_the_end() {
    let merged = merge_interfaces(vec![counted("lo", 5)], vec![interface("wlan0", 3)]);
    assert_eq!(merged.len(), 2);
    assert_eq!(merged[1].name, "wlan0");
    assert_eq!(merged[1].index, Some(3));
    assert_eq!(merged[1].received_total, None);
    assert_eq!(merged[1].packets_transmitted_total, None);
    assert_eq!(merged[1].mac_address, None);
}

#[test]
fn interfaces_are_merged_in_their_order() {
    let merged = merge_interfaces(
        vec![counted("eth0", 1), counted("eth0", 2)],
        vec![interface("b", 1), interface("eth0", 7), interface("a", 2), interface("b", 9)],
    );
    let names: Vec<&str> = merged.iter().map(|n| n.name.as_str()).collect();
    assert_eq!(names, vec!["eth0", "eth0", "b", "a"]);
    assert_eq!(merged[0].index, Some(7));
    assert_eq!(merged[1].index, None);
    assert_eq!(merged[2].index, Some(9));
    assert!(merge_interfaces(Vec::new(), Vec::new()).is_empty());
}

#[test]
fn no_networks_count_as_none() {
    let info = network_info(true, None, Vec::new(), Some("10.0.0.1".to_string()), None);
    assert!(info.connected);
    assert!(info.networks.is_none());
    assert_eq!(info.ip_address_v4.as_deref(), Some("10.0.0.1"));
    let info = network_info(false, Some(Vec::new()), vec![counted("lo", 1)], None, None);
    assert_eq!(info.networks.unwrap().len(), 1);
    assert!(info.wifis.unwrap().is_empty());
}

#[test]
fn wifi_rows_and_header() {
    let wifis = vec![wifi("home", "aa:bb:cc:dd:ee:ff"), wifi("a-very-long-network-name", "")];
    let view = wifi_list(&wifis);
    let (name_width, mac_width, channel_width, security_width, signal_width) =
        ("a-very-long-network-name".len(), 17, 7, 8, 12);
    assert_eq!(
        view.title,
        format!(
            "{:name_width$}  {:mac_width$}  {:channel_width$}  {:security_width$}  {:signal_width$}",
            "Name", "MAC Address", "Channel", "Security", "Signal Level"
        )
    );
    assert_eq!(
        view.items,
        vec![
            format!(
                "{:name_width$}  {:mac_width$}  {:channel_width$}  {:security_width$}  {:signal_width$}",
                "home", "aa:bb:cc:dd:ee:ff", "11", "WPA2", "-42"
            ),
            format!(
                "{:name_width$}  {:mac_width$}  {:channel_width$}  {:security_width$}  {:signal_width$}",
                "a-very-long-network-name", "unknown", "11", "WPA2", "-42"
            ),
        ]
    );
    assert_eq!(view.highlight_symbol, "");
}

#[test]
fn interface_rows_and_header() {
    let mut described = counted("eth0", 1);
    described.index = Some(12);
    described.flags = Some(flags(0b1000101));
    let plain = Network { mac_address: None, ..counted("lo", 1) };
    let view = interface_list(&vec![described, plain]);
    let (name_width, index_width, mac_width, flags_width) = (4, 7, 17, 7);
    assert_eq!(
        view.title,
        format!(
            "{} {:name_width$}  {:index_width$}  {:mac_width$}  {:flags_width$}",
            "─".repeat("Display more [i]nformation   ".len()),
            "Name",
            "Index",
            "MAC Address",
            "Flags"
        )
    );
    assert_eq!(
        view.items,
        vec![
            format!(
                "{:name_width$}  {:index_width$}  {:mac_width$}  {:flags_width$}",
                "eth0", "12", "00:1a:2b:3c:de:ff", "1000101"
            ),
            format!(
                "{:name_width$}  {:index_width$}  {:mac_width$}  {:flags_width$}",
                "lo", "unknown", "unknown", "unknown"
            ),
        ]
    );
    assert_eq!(view.highlight_symbol, "Display more [i]nformation   ");
}

#[test]
fn details_of_a_described_network() {
    let merged = merge_interfaces(vec![counted("eth0", 1_000_000)], vec![interface("eth0", 2)]);
    assert_eq!(
        network_details(&merged[0]),
        "Name: eth0\nDescription: eth0 described\nMAC-Address: 00:1a:2b:3c:de:ff\nIndex: 2\nIP-addresses: \n10.0.0.1\nfe80::1\n\nFlags (Raw): 1000101\n    Is up? true\n    Is broadcast? false\n    Is loopback interface? true\n    Is point-to-point interface? false\n    Is multicast interface? true\n                \nReceived: 1 MB\nTransmitted: 2.50 kB\nPackets received: 30\nPackets transmitted: 40"
    );
}

#[test]
fn details_of_an_undescribed_network() {
    let bare = Network {
        received_total: None,
        transmitted_total: None,
        packets_received_total: None,
        packets_transmitted_total: None,
        mac_address: None,
        ..counted("lo", 0)
    };
    assert_eq!(
        network_details(&bare),
        "Name: lo\nDescription: unknown\nMAC-Address: unknown\nIndex: unknown\nIP-addresses: \nunknown\nFlags: unknown\nReceived: unknown\nTransmitted: unknown\nPackets received: unknown\nPackets transmitted: unknown"
    );
    let no_address = Network { ips: Some(Vec::new()), ..counted("lo", 0) };
    assert!(network_details(&no_address).contains("\nIP-addresses: \n\nFlags: unknown\n"));
    let one_address = Network { ips: Some(vec!["::1".to_string()]), ..counted("lo", 0) };
    assert!(network_details(&one_address).contains("\nIP-addresses: \n::1\nFlags: unknown\n"));
}

#[test]
fn network_tab_while_loading() {
    let (view, selection) = network_tab(None, 0);
    assert_eq!(view.summary.title, "Networks");
    assert_eq!(view.summary.lines.len(), 1);
    assert_eq!(view.summary.lines[0].text, "Loading...");
    assert_eq!(view.wifis.title, "WiFi Networks");
    assert_eq!(view.wifis.items, vec!["Loading..."]);
    assert_eq!(view.networks.title, "Networks/Interfaces");
    assert_eq!(view.networks.items, vec!["Loading..."]);
    assert_eq!(view.networks.highlight_symbol, "Display more [i]nformation   ");
    assert_eq!(selection.line_count, 0);
    assert!(selection.process.is_none());
    assert_eq!(
        selection.details.as_deref(),
        Some("Select a network to display information about it!")
    );
}

#[test]
fn network_tab_with_a_snapshot() {
    let info = NetworkInfo {
        connected: true,
        wifis: Some(vec![wifi("home", "aa"), wifi("work", "bb"), wifi("cafe", "cc")]),
        networks: Some(vec![counted("lo", 1), counted("eth0", 2)]),
        ip_address_v4: Some("192.168.0.2".to_string()),
        ip_address_v6: None,
    };
    let (view, selection) = network_tab(Some(&info), 1);
    let summary: Vec<&str> = view.summary.lines.iter().map(|l| l.text.as_str()).collect();
    assert_eq!(
        summary,
        vec![
            "Connected to the internet: true",
            "IP Address (IPv4): 192.168.0.2",
            "IP Address (IPv6): unknown",
        ]
    );
    assert_eq!(view.wifis.items.len(), 3);
    assert_eq!(view.networks.items.len(), 2);
    assert_eq!(selection.line_count, 3);
    assert_eq!(selection.details.unwrap(), network_details(&info.networks.as_ref().unwrap()[1]));
    let (_, beyond) = network_tab(Some(&info), 2);
    assert_eq!(
        beyond.details.as_deref(),
        Some("Select a network to display information about it!")
    );
}

#[test]
fn network_tab_without_lists() {
    let info = NetworkInfo {
        connected: false,
        wifis: None,
        networks: None,
        ip_address_v4: None,
        ip_address_v6: Some("::1".to_string()),
    };
    let (view, selection) = network_tab(Some(&info), 0);
    assert_eq!(view.summary.lines[0].text, "Connected to the internet: false");
    assert_eq!(view.summary.lines[2].text, "IP Address (IPv6): ::1");
    assert_eq!(view.wifis.title, "WiFi networks");
    assert_eq!(view.wifis.items, vec!["No WiFi information available!"]);
    assert_eq!(view.networks.title, "Networks/Interfaces");
    assert_eq!(view.networks.items, vec!["No network/interface information available!"]);
    assert_eq!(selection.line_count, 0);
}
