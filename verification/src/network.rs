//! The network tab, and how the two interface probes are put together.

use itertools::Itertools;
use vstd::prelude::*;
use vstd::string::*;
use crate::info::{Network, NetworkFlags, NetworkInfo, Wifi};
use crate::interaction::Selection;
use crate::lists::{append_left, push_text, ListView};
use crate::paragraphs::{line_views, or_unknown, plain, ParagraphView, TextLine};
use crate::text::{
    binary, binary_text, byte_len, column_width, decimal, decimal_or_unknown, decimal_text,
    digit_char, human_size_or_unknown, human_size_text, joined, labelled, left_aligned, repeat,
    repeated, text_or_unknown, texts, unknown_text, widest,
};

verus! {

/// What the interface probe reports of one interface.
#[derive(Debug, Clone)]
pub struct Interface {
    pub name: String,
    pub description: String,
    pub index: u32,
    /// The addresses of the interface, each in its textual form.
    pub ips: Vec<String>,
    pub flags: NetworkFlags,
}

/// `i` is the place of the first network named `name`.
pub open spec fn is_first_named(networks: Seq<Network>, name: Seq<char>, i: int) -> bool {
    &&& 0 <= i < networks.len()
    &&& networks[i].name@ == name
    &&& forall|j: int| 0 <= j < i ==> (#[trigger] networks[j]).name@ != name
}

/// The network with what the interface probe knows of it.
pub open spec fn described(network: Network, interface: Interface) -> Network {
    Network {
        description: Some(interface.description),
        index: Some(interface.index),
        ips: Some(interface.ips),
        flags: Some(interface.flags),
        ..network
    }
}

/// A network that only the interface probe knows.
pub open spec fn undescribed(interface: Interface) -> Network {
    Network {
        name: interface.name,
        description: Some(interface.description),
        index: Some(interface.index),
        ips: Some(interface.ips),
        flags: Some(interface.flags),
        received_recently: None,
        received_total: None,
        transmitted_recently: None,
        transmitted_total: None,
        packets_received_recently: None,
        packets_received_total: None,
        packets_transmitted_recently: None,
        packets_transmitted_total: None,
        mac_address: None,
    }
}

/// The networks with one interface merged in: the first network of its
/// name takes its description, or a new network is added at the end.
pub open spec fn merged_one(networks: Seq<Network>, interface: Interface) -> Seq<Network> {
    if exists|i: int| is_first_named(networks, interface.name@, i) {
        let i = choose|i: int| is_first_named(networks, interface.name@, i);
        networks.update(i, described(networks[i], interface))
    } else {
        networks.push(undescribed(interface))
    }
}

/// The networks with the interfaces merged in, one after the other.
pub open spec fn merged(networks: Seq<Network>, interfaces: Seq<Interface>) -> Seq<Network>
    decreases interfaces.len(),
{
    if interfaces.len() == 0 {
        networks
    } else {
        merged_one(merged(networks, interfaces.drop_last()), interfaces.last())
    }
}

fn find_named(networks: &Vec<Network>, name: &String) -> (found: Option<usize>)
    ensures
        match found {
            Some(i) => is_first_named(networks@, name@, i as int),
            None => forall|j: int| 0 <= j < networks@.len() ==> (#[trigger] networks@[j]).name@ != name@,
        },
{
    let mut i: usize = 0;
    while i < networks.len()
        invariant
            i <= networks@.len(),
            forall|j: int| 0 <= j < i ==> (#[trigger] networks@[j]).name@ != name@,
        decreases networks@.len() - i,
    {
        if networks[i].name == *name {
            return Some(i);
        }
        i += 1;
    }
    None
}

fn merge_one(networks: &mut Vec<Network>, interface: Interface)
    ensures
        final(networks)@ == merged_one(old(networks)@, interface),
{
    let ghost before = networks@;
    match find_named(networks, &interface.name) {
        Some(i) => {
            proof {
                let chosen = choose|c: int| is_first_named(before, interface.name@, c);
                assert(is_first_named(before, interface.name@, i as int));
                assert(is_first_named(before, interface.name@, chosen));
                assert(chosen == i);
            }
            let network = networks.remove(i);
            let updated = Network {
                description: Some(interface.description),
                index: Some(interface.index),
                ips: Some(interface.ips),
                flags: Some(interface.flags),
                ..network
            };
            networks.insert(i, updated);
            assert(networks@ =~= before.update(i as int, described(before[i as int], interface)));
        },
        None => {
            assert forall|i: int| !is_first_named(before, interface.name@, i) by {}
            networks.push(
                Network {
                    name: interface.name,
                    description: Some(interface.description),
                    index: Some(interface.index),
                    ips: Some(interface.ips),
                    flags: Some(interface.flags),
                    received_recently: None,
                    received_total: None,
                    transmitted_recently: None,
                    transmitted_total: None,
                    packets_received_recently: None,
                    packets_received_total: None,
                    packets_transmitted_recently: None,
                    packets_transmitted_total: None,
                    mac_address: None,
                },
            );
        },
    }
}

/// Puts what the interface probe reports into the networks that the
/// traffic probe reports: each interface describes the first network of
/// its name, or becomes a network of its own at the end of the list.
pub fn merge_interfaces(networks: Vec<Network>, interfaces: Vec<Interface>) -> (all: Vec<Network>)
    ensures
        all@ == merged(networks@, interfaces@),
{
    let mut all = networks;
    let mut rest = interfaces;
    let ghost done: int = 0;
    proof {
        assert(interfaces@.take(0) =~= Seq::<Interface>::empty());
        assert(interfaces@.skip(0) =~= interfaces@);
    }
    while rest.len() > 0
        invariant
            0 <= done <= interfaces@.len(),
            rest@ == interfaces@.skip(done),
            all@ == merged(networks@, interfaces@.take(done)),
        decreases rest@.len(),
    {
        let interface = rest.remove(0);
        merge_one(&mut all, interface);
        proof {
            let upto = interfaces@.take(done + 1);
            assert(upto.drop_last() =~= interfaces@.take(done));
            assert(upto.last() == interfaces@[done]);
            assert(interface == interfaces@.skip(done)[0]);
            assert(rest@ =~= interfaces@.skip(done + 1));
            done = done + 1;
        }
    }
    proof {
        assert(interfaces@.take(interfaces@.len() as int) =~= interfaces@);
    }
    all
}

/// Puts the findings of the network probes together. An empty list of
/// networks counts as none.
pub fn network_info(
    connected: bool,
    wifis: Option<Vec<Wifi>>,
    networks: Vec<Network>,
    ip_address_v4: Option<String>,
    ip_address_v6: Option<String>,
) -> (info: NetworkInfo)
    ensures
        info.connected == connected,
        info.wifis == wifis,
        info.networks == if networks@.len() == 0 {
            None
        } else {
            Some(networks)
        },
        info.ip_address_v4 == ip_address_v4,
        info.ip_address_v6 == ip_address_v6,
{
    let networks = if networks.len() == 0 {
        None
    } else {
        Some(networks)
    };
    NetworkInfo { connected, wifis, networks, ip_address_v4, ip_address_v6 }
}

/// `true` or `false`.
pub open spec fn truth_text(b: bool) -> Seq<char> {
    if b {
        "true"@
    } else {
        "false"@
    }
}

fn truth(b: bool) -> (s: &'static str)
    ensures
        s@ == truth_text(b),
{
    if b {
        "true"
    } else {
        "false"
    }
}

/// The two hexadecimal digits of a byte.
pub open spec fn hex_pair(byte: u8) -> Seq<char> {
    seq![digit_char((byte / 16) as nat), digit_char((byte % 16) as nat)]
}

/// A hardware address: the hexadecimal pairs of its six bytes, with
/// colons between them.
pub open spec fn mac_address_text(bytes: Seq<u8>) -> Seq<char> {
    hex_pair(bytes[0]) + seq![':'] + hex_pair(bytes[1]) + seq![':'] + hex_pair(bytes[2]) + seq![':']
        + hex_pair(bytes[3]) + seq![':'] + hex_pair(bytes[4]) + seq![':'] + hex_pair(bytes[5])
}

/// Asks sysinfo to print a hardware address. Its `Display` for `MacAddr`
/// writes the six bytes as two lower-case hexadecimal digits each, with
/// colons between them; the contract claims exactly that.
#[verifier::external_body]
pub(crate) fn mac_text(bytes: &[u8; 6]) -> (s: String)
    ensures
        s@ == mac_address_text(bytes@),
{
    sysinfo::MacAddr(*bytes).to_string()
}

/// Asks itertools to join strings. Its `join` writes the elements in
/// their order with the separator between each two of them, and nothing
/// for no elements; the contract claims exactly that.
#[verifier::external_body]
pub(crate) fn join_texts(parts: &Vec<String>, separator: &str) -> (s: String)
    ensures
        s@ == joined(texts(parts@), separator@),
{
    parts.iter().join(separator)
}

/// What marks the selected network.
pub open spec fn info_marker() -> Seq<char> {
    "Display more [i]nformation   "@
}

/// What the detail popup says when no network is selected.
pub open spec fn select_a_network() -> Seq<char> {
    "Select a network to display information about it!"@
}

/// The three lines above the lists.
pub open spec fn summary_lines(info: NetworkInfo) -> Seq<(Seq<char>, bool)> {
    seq![
        plain("Connected to the internet: "@ + truth_text(info.connected)),
        plain("IP Address (IPv4): "@ + or_unknown(info.ip_address_v4)),
        plain("IP Address (IPv6): "@ + or_unknown(info.ip_address_v6)),
    ]
}

/// The hardware address of a WiFi network as the list shows it.
pub open spec fn wifi_mac_text(wifi: Wifi) -> Seq<char> {
    if wifi.mac@.len() == 0 {
        unknown_text()
    } else {
        wifi.mac@
    }
}

/// The widths of the columns of the WiFi list.
pub struct WifiWidths {
    pub name: usize,
    pub mac: usize,
    pub channel: usize,
    pub security: usize,
    pub signal: usize,
}

/// Every column is as wide as its widest value or its label.
pub open spec fn wifi_widths(wifis: Seq<Wifi>) -> WifiWidths {
    WifiWidths {
        name: widest(Seq::new(wifis.len(), |i: int| wifis[i].ssid@), byte_len("Name"@)),
        mac: widest(Seq::new(wifis.len(), |i: int| wifis[i].mac@), byte_len("MAC Address"@)),
        channel: widest(Seq::new(wifis.len(), |i: int| wifis[i].channel@), byte_len("Channel"@)),
        security: widest(Seq::new(wifis.len(), |i: int| wifis[i].security@), byte_len("Security"@)),
        signal: widest(
            Seq::new(wifis.len(), |i: int| wifis[i].signal_level@),
            byte_len("Signal Level"@),
        ),
    }
}

/// The row of one WiFi network.
pub open spec fn wifi_row(wifi: Wifi, widths: WifiWidths) -> Seq<char> {
    left_aligned(wifi.ssid@, widths.name as nat) + "  "@ + left_aligned(
        wifi_mac_text(wifi),
        widths.mac as nat,
    ) + "  "@ + left_aligned(wifi.channel@, widths.channel as nat) + "  "@ + left_aligned(
        wifi.security@,
        widths.security as nat,
    ) + "  "@ + left_aligned(wifi.signal_level@, widths.signal as nat)
}

/// The rows of the WiFi list.
pub open spec fn wifi_rows(wifis: Seq<Wifi>) -> Seq<Seq<char>> {
    Seq::new(wifis.len(), |i: int| wifi_row(wifis[i], wifi_widths(wifis)))
}

/// The header of the WiFi list.
pub open spec fn wifi_header(wifis: Seq<Wifi>) -> Seq<char> {
    let widths = wifi_widths(wifis);
    left_aligned("Name"@, widths.name as nat) + "  "@ + left_aligned(
        "MAC Address"@,
        widths.mac as nat,
    ) + "  "@ + left_aligned("Channel"@, widths.channel as nat) + "  "@ + left_aligned(
        "Security"@,
        widths.security as nat,
    ) + "  "@ + left_aligned("Signal Level"@, widths.signal as nat)
}

/// The WiFi list.
pub fn wifi_list(wifis: &Vec<Wifi>) -> (view: ListView)
    ensures
        view.title@ == wifi_header(wifis@),
        view.bordered,
        texts(view.items@) == wifi_rows(wifis@),
        view.highlight_symbol@ == ""@,
{
    let n = wifis.len();
    let mut names: Vec<String> = Vec::new();
    let mut macs: Vec<String> = Vec::new();
    let mut channels: Vec<String> = Vec::new();
    let mut securities: Vec<String> = Vec::new();
    let mut signals: Vec<String> = Vec::new();
    let ghost name_cells = Seq::new(wifis@.len(), |i: int| wifis@[i].ssid@);
    let ghost mac_cells = Seq::new(wifis@.len(), |i: int| wifis@[i].mac@);
    let ghost channel_cells = Seq::new(wifis@.len(), |i: int| wifis@[i].channel@);
    let ghost security_cells = Seq::new(wifis@.len(), |i: int| wifis@[i].security@);
    let ghost signal_cells = Seq::new(wifis@.len(), |i: int| wifis@[i].signal_level@);
    proof {
        assert(texts(names@) =~= name_cells.take(0));
        assert(texts(macs@) =~= mac_cells.take(0));
        assert(texts(channels@) =~= channel_cells.take(0));
        assert(texts(securities@) =~= security_cells.take(0));
        assert(texts(signals@) =~= signal_cells.take(0));
    }
    let mut i: usize = 0;
    while i < n
        invariant
            n == wifis@.len(),
            i <= n,
            name_cells == Seq::new(wifis@.len(), |i: int| wifis@[i].ssid@),
            mac_cells == Seq::new(wifis@.len(), |i: int| wifis@[i].mac@),
            channel_cells == Seq::new(wifis@.len(), |i: int| wifis@[i].channel@),
            security_cells == Seq::new(wifis@.len(), |i: int| wifis@[i].security@),
            signal_cells == Seq::new(wifis@.len(), |i: int| wifis@[i].signal_level@),
            texts(names@) == name_cells.take(i as int),
            texts(macs@) == mac_cells.take(i as int),
            texts(channels@) == channel_cells.take(i as int),
            texts(securities@) == security_cells.take(i as int),
            texts(signals@) == signal_cells.take(i as int),
        decreases n - i,
    {
        let wifi = &wifis[i];
        push_text(&mut names, wifi.ssid.clone());
        push_text(&mut macs, wifi.mac.clone());
        push_text(&mut channels, wifi.channel.clone());
        push_text(&mut securities, wifi.security.clone());
        push_text(&mut signals, wifi.signal_level.clone());
        i += 1;
        proof {
            assert(texts(names@) =~= name_cells.take(i as int));
            assert(texts(macs@) =~= mac_cells.take(i as int));
            assert(texts(channels@) =~= channel_cells.take(i as int));
            assert(texts(securities@) =~= security_cells.take(i as int));
            assert(texts(signals@) =~= signal_cells.take(i as int));
        }
    }
    proof {
        assert(name_cells.take(n as int) =~= name_cells);
        assert(mac_cells.take(n as int) =~= mac_cells);
        assert(channel_cells.take(n as int) =~= channel_cells);
        assert(security_cells.take(n as int) =~= security_cells);
        assert(signal_cells.take(n as int) =~= signal_cells);
    }
    let widths = WifiWidths {
        name: column_width(&names, "Name"),
        mac: column_width(&macs, "MAC Address"),
        channel: column_width(&channels, "Channel"),
        security: column_width(&securities, "Security"),
        signal: column_width(&signals, "Signal Level"),
    };
    assert(widths == wifi_widths(wifis@));

    let mut items: Vec<String> = Vec::new();
    assert(texts(items@) =~= wifi_rows(wifis@).take(0));
    let mut i: usize = 0;
    while i < n
        invariant
            n == wifis@.len(),
            i <= n,
            widths == wifi_widths(wifis@),
            texts(items@) == wifi_rows(wifis@).take(i as int),
        decreases n - i,
    {
        let wifi = &wifis[i];
        let mut row = String::new();
        append_left(&mut row, wifi.ssid.as_str(), widths.name);
        row.append("  ");
        if wifi.mac.as_str().is_empty() {
            append_left(&mut row, "unknown", widths.mac);
        } else {
            append_left(&mut row, wifi.mac.as_str(), widths.mac);
        }
        row.append("  ");
        append_left(&mut row, wifi.channel.as_str(), widths.channel);
        row.append("  ");
        append_left(&mut row, wifi.security.as_str(), widths.security);
        row.append("  ");
        append_left(&mut row, wifi.signal_level.as_str(), widths.signal);
        assert(row@ =~= wifi_row(wifis@[i as int], widths));
        push_text(&mut items, row);
        i += 1;
        assert(texts(items@) =~= wifi_rows(wifis@).take(i as int));
    }
    assert(wifi_rows(wifis@).take(n as int) =~= wifi_rows(wifis@));
    let mut title = String::new();
    append_left(&mut title, "Name", widths.name);
    title.append("  ");
    append_left(&mut title, "MAC Address", widths.mac);
    title.append("  ");
    append_left(&mut title, "Channel", widths.channel);
    title.append("  ");
    append_left(&mut title, "Security", widths.security);
    title.append("  ");
    append_left(&mut title, "Signal Level", widths.signal);
    assert(title@ =~= wifi_header(wifis@));
    ListView { title, bordered: true, items, highlight_symbol: String::from_str("") }
}

/// The index of a network as the list shows it.
pub open spec fn index_text(network: Network) -> Seq<char> {
    match network.index {
        Some(index) => decimal_text(index as nat),
        None => unknown_text(),
    }
}

/// The hardware address of a network as the list shows it.
pub open spec fn network_mac_text(network: Network) -> Seq<char> {
    match network.mac_address {
        Some(bytes) => mac_address_text(bytes@),
        None => unknown_text(),
    }
}

/// The flags of a network as the list shows them: the raw flags in
/// binary.
pub open spec fn raw_flags_text(network: Network) -> Seq<char> {
    match network.flags {
        Some(flags) => binary_text(flags.raw as nat),
        None => unknown_text(),
    }
}

fn index_of(network: &Network) -> (s: String)
    ensures
        s@ == index_text(*network),
{
    match network.index {
        Some(index) => decimal(index as u64),
        None => String::from_str("unknown"),
    }
}

fn mac_of(network: &Network) -> (s: String)
    ensures
        s@ == network_mac_text(*network),
{
    match &network.mac_address {
        Some(bytes) => mac_text(bytes),
        None => String::from_str("unknown"),
    }
}

fn raw_flags_of(network: &Network) -> (s: String)
    ensures
        s@ == raw_flags_text(*network),
{
    match &network.flags {
        Some(flags) => binary(flags.raw),
        None => String::from_str("unknown"),
    }
}

/// The widths of the columns of the interface list.
pub struct InterfaceWidths {
    pub name: usize,
    pub index: usize,
    pub mac: usize,
    pub flags: usize,
}

/// Every column is as wide as its widest cell or its label.
pub open spec fn interface_widths(networks: Seq<Network>) -> InterfaceWidths {
    InterfaceWidths {
        name: widest(Seq::new(networks.len(), |i: int| networks[i].name@), byte_len("Name"@)),
        index: widest(Seq::new(networks.len(), |i: int| index_text(networks[i])), byte_len("Index"@)),
        mac: widest(
            Seq::new(networks.len(), |i: int| network_mac_text(networks[i])),
            byte_len("MAC Address"@),
        ),
        flags: widest(
            Seq::new(networks.len(), |i: int| raw_flags_text(networks[i])),
            byte_len("Flags"@),
        ),
    }
}

/// The row of one network.
pub open spec fn interface_row(network: Network, widths: InterfaceWidths) -> Seq<char> {
    left_aligned(network.name@, widths.name as nat) + "  "@ + left_aligned(
        index_text(network),
        widths.index as nat,
    ) + "  "@ + left_aligned(network_mac_text(network), widths.mac as nat) + "  "@ + left_aligned(
        raw_flags_text(network),
        widths.flags as nat,
    )
}

/// The rows of the interface list.
pub open spec fn interface_rows(networks: Seq<Network>) -> Seq<Seq<char>> {
    Seq::new(networks.len(), |i: int| interface_row(networks[i], interface_widths(networks)))
}

/// The header of the interface list: a rule as long as the marker of
/// the selected row, then the labels.
pub open spec fn interface_header(networks: Seq<Network>) -> Seq<char> {
    let widths = interface_widths(networks);
    repeated('─', byte_len(info_marker()) as nat) + " "@ + left_aligned("Name"@, widths.name as nat)
        + "  "@ + left_aligned("Index"@, widths.index as nat) + "  "@ + left_aligned(
        "MAC Address"@,
        widths.mac as nat,
    ) + "  "@ + left_aligned("Flags"@, widths.flags as nat)
}

/// The interface list.
pub fn interface_list(networks: &Vec<Network>) -> (view: ListView)
    ensures
        view.title@ == interface_header(networks@),
        view.bordered,
        texts(view.items@) == interface_rows(networks@),
        view.highlight_symbol@ == info_marker(),
{
    let n = networks.len();
    let mut names: Vec<String> = Vec::new();
    let mut indices: Vec<String> = Vec::new();
    let mut macs: Vec<String> = Vec::new();
    let mut flags: Vec<String> = Vec::new();
    let ghost name_cells = Seq::new(networks@.len(), |i: int| networks@[i].name@);
    let ghost index_cells = Seq::new(networks@.len(), |i: int| index_text(networks@[i]));
    let ghost mac_cells = Seq::new(networks@.len(), |i: int| network_mac_text(networks@[i]));
    let ghost flag_cells = Seq::new(networks@.len(), |i: int| raw_flags_text(networks@[i]));
    proof {
        assert(texts(names@) =~= name_cells.take(0));
        assert(texts(indices@) =~= index_cells.take(0));
        assert(texts(macs@) =~= mac_cells.take(0));
        assert(texts(flags@) =~= flag_cells.take(0));
    }
    let mut i: usize = 0;
    while i < n
        invariant
            n == networks@.len(),
            i <= n,
            names@.len() == i,
            indices@.len() == i,
            macs@.len() == i,
            flags@.len() == i,
            name_cells == Seq::new(networks@.len(), |i: int| networks@[i].name@),
            index_cells == Seq::new(networks@.len(), |i: int| index_text(networks@[i])),
            mac_cells == Seq::new(networks@.len(), |i: int| network_mac_text(networks@[i])),
            flag_cells == Seq::new(networks@.len(), |i: int| raw_flags_text(networks@[i])),
            texts(names@) == name_cells.take(i as int),
            texts(indices@) == index_cells.take(i as int),
            texts(macs@) == mac_cells.take(i as int),
            texts(flags@) == flag_cells.take(i as int),
        decreases n - i,
    {
        let network = &networks[i];
        push_text(&mut names, network.name.clone());
        push_text(&mut indices, index_of(network));
        push_text(&mut macs, mac_of(network));
        push_text(&mut flags, raw_flags_of(network));
        i += 1;
        proof {
            assert(texts(names@) =~= name_cells.take(i as int));
            assert(texts(indices@) =~= index_cells.take(i as int));
            assert(texts(macs@) =~= mac_cells.take(i as int));
            assert(texts(flags@) =~= flag_cells.take(i as int));
        }
    }
    proof {
        assert(name_cells.take(n as int) =~= name_cells);
        assert(index_cells.take(n as int) =~= index_cells);
        assert(mac_cells.take(n as int) =~= mac_cells);
        assert(flag_cells.take(n as int) =~= flag_cells);
    }
    let widths = InterfaceWidths {
        name: column_width(&names, "Name"),
        index: column_width(&indices, "Index"),
        mac: column_width(&macs, "MAC Address"),
        flags: column_width(&flags, "Flags"),
    };
    assert(widths == interface_widths(networks@));

    let mut items: Vec<String> = Vec::new();
    assert(texts(items@) =~= interface_rows(networks@).take(0));
    let mut i: usize = 0;
    while i < n
        invariant
            n == networks@.len(),
            i <= n,
            indices@.len() == n,
            macs@.len() == n,
            flags@.len() == n,
            index_cells == Seq::new(networks@.len(), |i: int| index_text(networks@[i])),
            mac_cells == Seq::new(networks@.len(), |i: int| network_mac_text(networks@[i])),
            flag_cells == Seq::new(networks@.len(), |i: int| raw_flags_text(networks@[i])),
            texts(indices@) == index_cells,
            texts(macs@) == mac_cells,
            texts(flags@) == flag_cells,
            widths == interface_widths(networks@),
            texts(items@) == interface_rows(networks@).take(i as int),
        decreases n - i,
    {
        let network = &networks[i];
        let mut row = String::new();
        append_left(&mut row, network.name.as_str(), widths.name);
        row.append("  ");
        append_left(&mut row, indices[i].as_str(), widths.index);
        row.append("  ");
        append_left(&mut row, macs[i].as_str(), widths.mac);
        row.append("  ");
        append_left(&mut row, flags[i].as_str(), widths.flags);
        proof {
            assert(indices@[i as int]@ == texts(indices@)[i as int]);
            assert(macs@[i as int]@ == texts(macs@)[i as int]);
            assert(flags@[i as int]@ == texts(flags@)[i as int]);
            assert(row@ =~= interface_row(networks@[i as int], widths));
        }
        push_text(&mut items, row);
        i += 1;
        assert(texts(items@) =~= interface_rows(networks@).take(i as int));
    }
    assert(interface_rows(networks@).take(n as int) =~= interface_rows(networks@));
    proof {
        reveal_strlit("─");
    }
    let mut title = repeat("─", "Display more [i]nformation   ".len());
    title.append(" ");
    append_left(&mut title, "Name", widths.name);
    title.append("  ");
    append_left(&mut title, "Index", widths.index);
    title.append("  ");
    append_left(&mut title, "MAC Address", widths.mac);
    title.append("  ");
    append_left(&mut title, "Flags", widths.flags);
    assert(title@ =~= interface_header(networks@));
    ListView {
        title,
        bordered: true,
        items,
        highlight_symbol: String::from_str("Display more [i]nformation   "),
    }
}

/// The flags of a network in the detail popup.
pub open spec fn flags_details_text(flags: Option<NetworkFlags>) -> Seq<char> {
    match flags {
        None => "Flags: unknown"@,
        Some(flags) => "\nFlags (Raw): "@ + binary_text(flags.raw as nat) + "\n    Is up? "@
            + truth_text(flags.is_up) + "\n    Is broadcast? "@ + truth_text(flags.is_broadcast)
            + "\n    Is loopback interface? "@ + truth_text(flags.is_loopback)
            + "\n    Is point-to-point interface? "@ + truth_text(flags.is_point_to_point)
            + "\n    Is multicast interface? "@ + truth_text(flags.is_multicast)
            + "\n                "@,
    }
}

/// The addresses of a network in the detail popup, one per line.
pub open spec fn addresses_text(ips: Option<Vec<String>>) -> Seq<char> {
    match ips {
        Some(ips) => joined(texts(ips@), "\n"@),
        None => unknown_text(),
    }
}

/// A byte count in the detail popup.
pub open spec fn size_or_unknown(bytes: Option<u64>) -> Seq<char> {
    match bytes {
        Some(n) => human_size_text(n),
        None => unknown_text(),
    }
}

/// A count in the detail popup.
pub open spec fn count_or_unknown(count: Option<u64>) -> Seq<char> {
    match count {
        Some(n) => decimal_text(n as nat),
        None => unknown_text(),
    }
}

/// The details of one network.
pub open spec fn network_details_text(network: Network) -> Seq<char> {
    "Name: "@ + network.name@ + "\nDescription: "@ + or_unknown(network.description)
        + "\nMAC-Address: "@ + network_mac_text(network) + "\nIndex: "@ + index_text(network)
        + "\nIP-addresses: \n"@ + addresses_text(network.ips) + "\n"@ + flags_details_text(
        network.flags,
    ) + "\nReceived: "@ + size_or_unknown(network.received_total) + "\nTransmitted: "@
        + size_or_unknown(network.transmitted_total) + "\nPackets received: "@ + count_or_unknown(
        network.packets_received_total,
    ) + "\nPackets transmitted: "@ + count_or_unknown(network.packets_transmitted_total)
}

fn flags_details(flags: &Option<NetworkFlags>) -> (s: String)
    ensures
        s@ == flags_details_text(*flags),
{
    match flags {
        None => String::from_str("Flags: unknown"),
        Some(flags) => {
            let mut s = String::from_str("\nFlags (Raw): ");
            let raw = binary(flags.raw);
            s.append(raw.as_str());
            s.append("\n    Is up? ");
            s.append(truth(flags.is_up));
            s.append("\n    Is broadcast? ");
            s.append(truth(flags.is_broadcast));
            s.append("\n    Is loopback interface? ");
            s.append(truth(flags.is_loopback));
            s.append("\n    Is point-to-point interface? ");
            s.append(truth(flags.is_point_to_point));
            s.append("\n    Is multicast interface? ");
            s.append(truth(flags.is_multicast));
            s.append("\n                ");
            assert(s@ =~= flags_details_text(Some(*flags)));
            s
        },
    }
}

fn append_size(s: &mut String, bytes: Option<u64>)
    ensures
        final(s)@ == old(s)@ + size_or_unknown(bytes),
{
    let text = human_size_or_unknown(bytes);
    s.append(text.as_str());
}

fn append_count(s: &mut String, count: Option<u64>)
    ensures
        final(s)@ == old(s)@ + count_or_unknown(count),
{
    let text = decimal_or_unknown(count);
    s.append(text.as_str());
}

/// Renders the details of a network.
pub fn network_details(network: &Network) -> (details: String)
    ensures
        details@ == network_details_text(*network),
{
    let mut details = String::from_str("Name: ");
    details.append(network.name.as_str());
    details.append("\nDescription: ");
    let description = text_or_unknown(&network.description);
    details.append(description.as_str());
    details.append("\nMAC-Address: ");
    let mac = mac_of(network);
    details.append(mac.as_str());
    details.append("\nIndex: ");
    let index = index_of(network);
    details.append(index.as_str());
    details.append("\nIP-addresses: \n");
    match &network.ips {
        Some(ips) => {
            let addresses = join_texts(ips, "\n");
            details.append(addresses.as_str());
        },
        None => details.append("unknown"),
    }
    details.append("\n");
    let flags = flags_details(&network.flags);
    details.append(flags.as_str());
    details.append("\nReceived: ");
    append_size(&mut details, network.received_total);
    details.append("\nTransmitted: ");
    append_size(&mut details, network.transmitted_total);
    details.append("\nPackets received: ");
    append_count(&mut details, network.packets_received_total);
    details.append("\nPackets transmitted: ");
    append_count(&mut details, network.packets_transmitted_total);
    assert(details@ =~= network_details_text(*network));
    details
}

/// The three parts of the network tab.
#[derive(Debug, Clone)]
pub struct NetworkView {
    pub summary: ParagraphView,
    pub wifis: ListView,
    pub networks: ListView,
}

/// A bordered list of a single row that cannot be selected.
pub open spec fn is_note(view: ListView, title: Seq<char>, note: Seq<char>) -> bool {
    &&& view.title@ == title
    &&& view.bordered
    &&& texts(view.items@) == seq![note]
}

fn note_list(title: &str, note: &str, highlight_symbol: &str) -> (view: ListView)
    ensures
        is_note(view, title@, note@),
        view.highlight_symbol@ == highlight_symbol@,
{
    let mut items: Vec<String> = Vec::new();
    assert(texts(items@) =~= Seq::<Seq<char>>::empty());
    push_text(&mut items, String::from_str(note));
    assert(texts(items@) =~= seq![note@]);
    ListView {
        title: String::from_str(title),
        bordered: true,
        items,
        highlight_symbol: String::from_str(highlight_symbol),
    }
}

/// The snapshot itself.
pub open spec fn snapshot_of(info: Option<&NetworkInfo>) -> Option<NetworkInfo> {
    match info {
        Some(info) => Some(*info),
        None => None,
    }
}

/// The number of WiFi networks of a snapshot.
pub open spec fn wifi_count(info: Option<NetworkInfo>) -> nat {
    match info {
        Some(info) => match info.wifis {
            Some(wifis) => wifis@.len(),
            None => 0,
        },
        None => 0,
    }
}

/// The number of networks of a snapshot.
pub open spec fn network_count(info: Option<NetworkInfo>) -> nat {
    match info {
        Some(info) => match info.networks {
            Some(networks) => networks@.len(),
            None => 0,
        },
        None => 0,
    }
}

/// What the detail popup of the network tab says: the details of the
/// network at `selected`, or the request to select one.
pub open spec fn network_popup_text(info: Option<NetworkInfo>, selected: u16) -> Seq<char> {
    match info {
        Some(info) => match info.networks {
            Some(networks) => if selected < networks@.len() {
                network_details_text(networks@[selected as int])
            } else {
                select_a_network()
            },
            None => select_a_network(),
        },
        None => select_a_network(),
    }
}

/// The network tab shows the snapshot `info`.
pub open spec fn shows_network(view: NetworkView, info: NetworkInfo) -> bool {
    &&& line_views(view.summary.lines@) == summary_lines(info)
    &&& match info.wifis {
        Some(wifis) => {
            &&& view.wifis.title@ == wifi_header(wifis@)
            &&& view.wifis.bordered
            &&& texts(view.wifis.items@) == wifi_rows(wifis@)
        },
        None => is_note(view.wifis, "WiFi networks"@, "No WiFi information available!"@),
    }
    &&& match info.networks {
        Some(networks) => {
            &&& view.networks.title@ == interface_header(networks@)
            &&& view.networks.bordered
            &&& texts(view.networks.items@) == interface_rows(networks@)
        },
        None => is_note(
            view.networks,
            "Networks/Interfaces"@,
            "No network/interface information available!"@,
        ),
    }
}

/// The network tab is waiting for the first snapshot.
pub open spec fn shows_loading(view: NetworkView) -> bool {
    &&& line_views(view.summary.lines@) == seq![plain("Loading..."@)]
    &&& is_note(view.wifis, "WiFi Networks"@, "Loading..."@)
    &&& is_note(view.networks, "Networks/Interfaces"@, "Loading..."@)
}

/// The network tab: the latest published snapshot as a summary and two
/// lists, or a note that it is still loading when none has been
/// published; and what is under the cursor, which is the network at
/// `selected`.
pub fn network_tab(info: Option<&NetworkInfo>, selected: u16) -> (result: (NetworkView, Selection))
    ensures
        result.0.summary.title@ == "Networks"@,
        result.0.summary.scroll == 0,
        result.0.wifis.highlight_symbol@ == ""@,
        result.0.networks.highlight_symbol@ == info_marker(),
        match info {
            Some(info) => shows_network(result.0, *info),
            None => shows_loading(result.0),
        },
        result.1.line_count == if wifi_count(snapshot_of(info)) >= network_count(snapshot_of(info)) {
            wifi_count(snapshot_of(info))
        } else {
            network_count(snapshot_of(info))
        },
        result.1.process is None,
        result.1.details matches Some(details) && details@ == network_popup_text(
            snapshot_of(info),
            selected,
        ),
{
    let mut lines: Vec<TextLine> = Vec::new();
    assert(line_views(lines@) =~= Seq::<(Seq<char>, bool)>::empty());
    match info {
        None => {
            lines.push(TextLine { text: String::from_str("Loading..."), bold: false });
            assert(line_views(lines@) =~= seq![plain("Loading..."@)]);
            let view = NetworkView {
                summary: ParagraphView { title: String::from_str("Networks"), lines, scroll: 0 },
                wifis: note_list("WiFi Networks", "Loading...", ""),
                networks: note_list(
                    "Networks/Interfaces",
                    "Loading...",
                    "Display more [i]nformation   ",
                ),
            };
            let selection = Selection {
                line_count: 0,
                process: None,
                details: Some(
                    String::from_str("Select a network to display information about it!"),
                ),
            };
            (view, selection)
        },
        Some(info) => {
            lines.push(
                TextLine {
                    text: labelled("Connected to the internet: ", truth(info.connected)),
                    bold: false,
                },
            );
            let v4 = match &info.ip_address_v4 {
                Some(address) => labelled("IP Address (IPv4): ", address.as_str()),
                None => labelled("IP Address (IPv4): ", "unknown"),
            };
            lines.push(TextLine { text: v4, bold: false });
            let v6 = match &info.ip_address_v6 {
                Some(address) => labelled("IP Address (IPv6): ", address.as_str()),
                None => labelled("IP Address (IPv6): ", "unknown"),
            };
            lines.push(TextLine { text: v6, bold: false });
            assert(line_views(lines@) =~= summary_lines(*info));
            let mut line_count: usize = 0;
            let wifis = match &info.wifis {
                Some(wifis) => {
                    line_count = wifis.len();
                    wifi_list(wifis)
                },
                None => note_list("WiFi networks", "No WiFi information available!", ""),
            };
            let mut details = String::from_str("Select a network to display information about it!");
            let networks = match &info.networks {
                Some(networks) => {
                    if networks.len() > line_count {
                        line_count = networks.len();
                    }
                    let at = selected as usize;
                    if at < networks.len() {
                        details = network_details(&networks[at]);
                    }
                    interface_list(networks)
                },
                None => note_list(
                    "Networks/Interfaces",
                    "No network/interface information available!",
                    "Display more [i]nformation   ",
                ),
            };
            let view = NetworkView {
                summary: ParagraphView { title: String::from_str("Networks"), lines, scroll: 0 },
                wifis,
                networks,
            };
            (view, Selection { line_count, process: None, details: Some(details) })
        },
    }
}

} // verus!
