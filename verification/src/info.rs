//! What the platform probes deliver, one bundle per category, as plain
//! values.

use vstd::prelude::*;

verus! {

/// A measured quantity as the probe hands it over: the bit pattern of the
/// IEEE-754 single-precision value, the text that the lists and
/// paragraphs print for it, and the value printed in full, as the
/// details of a process show it.
#[derive(Debug)]
pub struct Reading {
    pub bits: u32,
    pub text: String,
    pub plain: String,
}

/// Where a single-precision bit pattern stands in the numeric order: the
/// magnitude bits, negated when the sign bit is set. Two patterns that are
/// numbers compare as their ranks do, and both zeros have rank zero; the
/// patterns that are not numbers lie beyond the infinities.
pub open spec fn rank_of_bits(bits: u32) -> int {
    if bits >= 0x8000_0000 {
        0x8000_0000 - bits
    } else {
        bits as int
    }
}

impl Reading {
    /// The place of the reading in the numeric order.
    pub open spec fn order_rank(self) -> int {
        rank_of_bits(self.bits)
    }

    pub fn new(bits: u32, text: String, plain: String) -> (reading: Reading)
        ensures
            reading.bits == bits,
            reading.text == text,
            reading.plain == plain,
    {
        Reading { bits, text, plain }
    }

    /// The place of the reading in the numeric order.
    pub fn rank(&self) -> (r: i64)
        ensures
            r == self.order_rank(),
    {
        if self.bits >= 0x8000_0000 {
            -((self.bits - 0x8000_0000) as i64)
        } else {
            self.bits as i64
        }
    }
}

impl Clone for Reading {
    fn clone(&self) -> (copy: Self)
        ensures
            copy == *self,
    {
        Reading { bits: self.bits, text: self.text.clone(), plain: self.plain.clone() }
    }
}

/// Identity of the running system.
#[derive(Debug, Clone)]
pub struct SystemInfo {
    pub os: Option<String>,
    pub os_version: Option<String>,
    pub kernel_version: Option<String>,
    pub users: Vec<String>,
    /// Whole seconds since boot.
    pub uptime: u64,
}

/// Clock frequency of a core: the reported megahertz, and the text of the
/// same in gigahertz.
#[derive(Debug)]
pub struct Frequency {
    pub megahertz: u64,
    pub gigahertz: String,
}

impl Clone for Frequency {
    fn clone(&self) -> (copy: Self)
        ensures
            copy == *self,
    {
        Frequency { megahertz: self.megahertz, gigahertz: self.gigahertz.clone() }
    }
}

/// One CPU core.
#[derive(Debug)]
pub struct CpuInfo {
    pub usage: Reading,
    pub model: String,
    pub manufacturer: String,
    pub frequency: Frequency,
}

impl Clone for CpuInfo {
    fn clone(&self) -> (copy: Self)
        ensures
            copy == *self,
    {
        CpuInfo {
            usage: self.usage.clone(),
            model: self.model.clone(),
            manufacturer: self.manufacturer.clone(),
            frequency: self.frequency.clone(),
        }
    }
}

/// RAM and swap, in bytes.
#[derive(Debug, Clone, Copy)]
pub struct MemoryInfo {
    pub total_memory: u64,
    pub used_memory: u64,
    pub total_swap: u64,
    pub used_swap: u64,
}

/// One mounted disk, sizes in bytes.
#[derive(Debug, Clone)]
pub struct DiskInfo {
    pub total: u64,
    pub used: u64,
    pub name: String,
    pub file_system: Option<String>,
    pub mount_point: String,
}

impl DiskInfo {
    /// A disk of `total` bytes of which `available` are free.
    pub fn from_space(
        total: u64,
        available: u64,
        name: String,
        file_system: Option<String>,
        mount_point: String,
    ) -> (disk: DiskInfo)
        requires
            available <= total,
        ensures
            disk.total == total,
            disk.used == total - available,
            disk.name == name,
            disk.file_system == file_system,
            disk.mount_point == mount_point,
    {
        DiskInfo { total, used: total - available, name, file_system, mount_point }
    }
}

/// Charging state of a battery.
#[derive(Debug, Clone, Copy, PartialEq, Eq, Structural)]
pub enum BatteryState {
    Unknown,
    Charging,
    Discharging,
    Empty,
    Full,
}

/// Chemistry of a battery.
#[derive(Debug, Clone, Copy, PartialEq, Eq, Structural)]
pub enum BatteryTechnology {
    Unknown,
    LithiumIon,
    LeadAcid,
    LithiumPolymer,
    NickelMetalHydride,
    NickelCadmium,
    NickelZinc,
    LithiumIronPhosphate,
    RechargeableAlkalineManganese,
}

/// One battery.
#[derive(Debug, Clone)]
pub struct BatteryInfo {
    /// State of charge, printed as a whole percentage.
    pub charge: Reading,
    pub capacity_wh: Reading,
    pub capacity_new_wh: Reading,
    /// State of health in percent.
    pub health: Reading,
    pub voltage: Reading,
    pub state: BatteryState,
    pub technology: BatteryTechnology,
    pub cycle_count: Option<u32>,
    pub manufacturer: Option<String>,
    pub model: Option<String>,
}

/// Flags of a network interface.
#[derive(Debug, Clone, Copy)]
pub struct NetworkFlags {
    pub raw: u32,
    pub is_up: bool,
    pub is_broadcast: bool,
    pub is_loopback: bool,
    pub is_point_to_point: bool,
    pub is_multicast: bool,
}

/// One network interface. Everything but the name is optional, because
/// the traffic counters and the interface description come from two
/// probes that need not know the same interfaces.
#[derive(Debug, Clone)]
pub struct Network {
    pub name: String,
    pub description: Option<String>,
    pub index: Option<u32>,
    /// The addresses of the interface, each in its textual form.
    pub ips: Option<Vec<String>>,
    pub flags: Option<NetworkFlags>,
    pub received_recently: Option<u64>,
    pub received_total: Option<u64>,
    pub transmitted_recently: Option<u64>,
    pub transmitted_total: Option<u64>,
    pub packets_received_recently: Option<u64>,
    pub packets_received_total: Option<u64>,
    pub packets_transmitted_recently: Option<u64>,
    pub packets_transmitted_total: Option<u64>,
    pub mac_address: Option<[u8; 6]>,
}

/// One WiFi network in range.
#[derive(Debug, Clone)]
pub struct Wifi {
    pub mac: String,
    pub ssid: String,
    pub channel: String,
    pub signal_level: String,
    pub security: String,
}

/// Connectivity of the host.
#[derive(Debug, Clone)]
pub struct NetworkInfo {
    pub connected: bool,
    pub wifis: Option<Vec<Wifi>>,
    pub networks: Option<Vec<Network>>,
    pub ip_address_v4: Option<String>,
    pub ip_address_v6: Option<String>,
}

/// One running process.
#[derive(Debug)]
pub struct ProcessInfo {
    pub name: String,
    pub path: Option<String>,
    pub memory_usage: u64,
    pub swap_usage: u64,
    pub cpu_usage: Reading,
    /// Whole seconds the process has been running.
    pub run_time: u64,
    pub pid: u32,
    pub parent: Option<u32>,
}

impl Clone for ProcessInfo {
    fn clone(&self) -> (copy: Self)
        ensures
            copy == *self,
    {
        ProcessInfo {
            name: self.name.clone(),
            path: match &self.path {
                Some(path) => Some(path.clone()),
                None => None,
            },
            memory_usage: self.memory_usage,
            swap_usage: self.swap_usage,
            cpu_usage: self.cpu_usage.clone(),
            run_time: self.run_time,
            pid: self.pid,
            parent: self.parent,
        }
    }
}

/// One hardware component with a temperature sensor.
#[derive(Debug)]
pub struct ComponentInfo {
    pub name: String,
    pub temperature: Reading,
    pub critical_temperature: Option<Reading>,
}

impl Clone for ComponentInfo {
    fn clone(&self) -> (copy: Self)
        ensures
            copy == *self,
    {
        ComponentInfo {
            name: self.name.clone(),
            temperature: self.temperature.clone(),
            critical_temperature: match &self.critical_temperature {
                Some(reading) => Some(reading.clone()),
                None => None,
            },
        }
    }
}

/// Resolution of a display in pixels.
#[derive(Debug, Clone, Copy)]
pub struct DisplaySize {
    pub width: u32,
    pub height: u32,
}

/// One display.
#[derive(Debug, Clone)]
pub struct DisplayInfo {
    pub id: u32,
    pub size: DisplaySize,
    pub scale_factor: Reading,
    pub rotation: Reading,
    pub is_primary: bool,
}

/// One Bluetooth peripheral.
#[derive(Debug, Clone)]
pub struct BluetoothInfo {
    pub id: String,
    pub address: [u8; 6],
    pub local_name: Option<String>,
    pub transmission_power_level: Option<i16>,
    pub signal_strength: Option<i16>,
    pub is_connected: bool,
}

} // verus!
