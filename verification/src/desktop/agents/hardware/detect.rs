//! Naming the devices found on the one-wire, GPIO and I2C buses.
use vstd::prelude::*;
use crate::text::{
    contains, has_prefix, has_sub, same_text, starts_with, strip_prefixes, trim, trim_of, trim_start_matches,
};

verus! {

/// A device found on one of the buses.
#[derive(Debug, Clone)]
pub struct DiscoveredDevice {
    pub name: String,
    pub bus_type: String,
    pub address: String,
    pub description: String,
}

/// The device views as (name, bus, address, description).
pub open spec fn device_view(d: DiscoveredDevice) -> (Seq<char>, Seq<char>, Seq<char>, Seq<char>) {
    (d.name@, d.bus_type@, d.address@, d.description@)
}

/// The one-wire temperature sensor at `addr`: family 28 is a DS18B20,
/// family 10 a DS18S20; other families are not reported.
pub open spec fn onewire_of(addr: Seq<char>) -> Option<(Seq<char>, Seq<char>, Seq<char>, Seq<char>)> {
    if has_prefix(addr, "28-"@) {
        Some(
            (
                "DS18B20 ("@ + addr + ")"@,
                "onewire"@,
                addr,
                "Sicaklik sensoru, -55..125C"@,
            ),
        )
    } else if has_prefix(addr, "10-"@) {
        Some(("DS18S20 ("@ + addr + ")"@, "onewire"@, addr, "Sicaklik sensoru (eski model)"@))
    } else {
        None
    }
}

/// Names a one-wire device from its bus address.
pub fn onewire_device(addr: &str) -> (r: Option<DiscoveredDevice>)
    ensures
        match r {
            Some(d) => onewire_of(addr@) == Some(device_view(d)),
            None => onewire_of(addr@) is None,
        },
{
    if starts_with(addr, "28-") {
        Some(
            DiscoveredDevice {
                name: "DS18B20 (".to_string().concat(addr).concat(")"),
                bus_type: "onewire".to_string(),
                address: addr.to_string(),
                description: "Sicaklik sensoru, -55..125C".to_string(),
            },
        )
    } else if starts_with(addr, "10-") {
        Some(
            DiscoveredDevice {
                name: "DS18S20 (".to_string().concat(addr).concat(")"),
                bus_type: "onewire".to_string(),
                address: addr.to_string(),
                description: "Sicaklik sensoru (eski model)".to_string(),
            },
        )
    } else {
        None
    }
}

/// The GPIO chip `entry` with the given label text: the chip number is the
/// entry name without its "gpiochip" prefix.
pub open spec fn gpio_chip_of(entry: Seq<char>, label: Seq<char>) -> Option<
    (Seq<char>, Seq<char>, Seq<char>, Seq<char>),
> {
    if has_prefix(entry, "gpiochip"@) {
        let num = strip_prefixes(entry, "gpiochip"@);
        Some(
            (
                "GPIO Chip "@ + num + " ("@ + trim_of(label) + ")"@,
                "gpio"@,
                entry,
                num + " pin GPIO yongasi"@,
            ),
        )
    } else {
        None
    }
}

/// Names a GPIO chip found in `/sys/class/gpio` from its entry name and label.
pub fn gpio_chip_device(entry: &str, label: &str) -> (r: Option<DiscoveredDevice>)
    ensures
        match r {
            Some(d) => gpio_chip_of(entry@, label@) == Some(device_view(d)),
            None => gpio_chip_of(entry@, label@) is None,
        },
{
    if starts_with(entry, "gpiochip") {
        proof {
            reveal_strlit("gpiochip");
        }
        let num = trim_start_matches(entry, "gpiochip");
        let l = trim(label);
        Some(
            DiscoveredDevice {
                name: "GPIO Chip ".to_string().concat(num.as_str()).concat(" (").concat(
                    l.as_str(),
                ).concat(")"),
                bus_type: "gpio".to_string(),
                address: entry.to_string(),
                description: num.concat(" pin GPIO yongasi"),
            },
        )
    } else {
        None
    }
}

/// Whether some device already has `address`.
pub fn has_address(devices: &Vec<DiscoveredDevice>, address: &str) -> (r: bool)
    ensures
        r == exists|i: int| 0 <= i < devices@.len() && devices@[i].address@ == address@,
{
    let mut i: usize = 0;
    while i < devices.len()
        invariant
            i <= devices.len(),
            forall|k: int| 0 <= k < i ==> devices@[k].address@ != address@,
        decreases devices.len() - i,
    {
        if same_text(devices[i].address.as_str(), address) {
            return true;
        }
        i += 1;
    }
    false
}

/// The character-device fallback for the first GPIO chip.
pub fn gpiochip0_chardev() -> (r: DiscoveredDevice)
    ensures
        device_view(r) == (
            "GPIO Chip 0 (chardev)"@,
            "gpio"@,
            "gpiochip0"@,
            "/dev/gpiochip0 uzerinden GPIO"@,
        ),
{
    DiscoveredDevice {
        name: "GPIO Chip 0 (chardev)".to_string(),
        bus_type: "gpio".to_string(),
        address: "gpiochip0".to_string(),
        description: "/dev/gpiochip0 uzerinden GPIO".to_string(),
    }
}

/// The I2C device `entry` (names with a '-') with the text of its `name` file.
pub open spec fn i2c_of(entry: Seq<char>, name_file: Seq<char>) -> Option<
    (Seq<char>, Seq<char>, Seq<char>, Seq<char>),
> {
    if has_sub(entry, "-"@) {
        Some(
            (
                "I2C "@ + entry + " ("@ + trim_of(name_file) + ")"@,
                "i2c"@,
                entry,
                "I2C cihazi "@ + entry,
            ),
        )
    } else {
        None
    }
}

/// Names an I2C device from its entry name and the text of its `name` file.
pub fn i2c_device(entry: &str, name_file: &str) -> (r: Option<DiscoveredDevice>)
    ensures
        match r {
            Some(d) => i2c_of(entry@, name_file@) == Some(device_view(d)),
            None => i2c_of(entry@, name_file@) is None,
        },
{
    if contains(entry, "-") {
        let n = trim(name_file);
        Some(
            DiscoveredDevice {
                name: "I2C ".to_string().concat(entry).concat(" (").concat(n.as_str()).concat(")"),
                bus_type: "i2c".to_string(),
                address: entry.to_string(),
                description: "I2C cihazi ".to_string().concat(entry),
            },
        )
    } else {
        None
    }
}

} // verus!
