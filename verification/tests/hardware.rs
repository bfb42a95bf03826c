use adler::desktop::agents::hardware::backend::{ds18b20_millidegrees, GpioBackend, RelayBackend, SensorBackend, SimGpio, SimRelay};
use adler::desktop::agents::hardware::detect::{
    gpio_chip_device, gpiochip0_chardev, has_address, i2c_device, onewire_device,
};
use adler::desktop::agents::hardware::gpio::gpio_path;
use adler::desktop::agents::hardware::safety::{SafetyLimits, SafetyMonitor};
use adler::desktop::agents::hardware::{parse_command, parse_pin, HardwareCommand, HardwareController};
use adler::desktop::agents::Agent;

struct FixedSensor {
    text: String,
    fail: bool,
}

impl SensorBackend for FixedSensor {
    fn read_all(&mut self) -> Result<String, String> {
        if self.fail {
            Err("sensor arizali".to_string())
        } else {
            Ok(self.text.clone())
        }
    }
}

fn test_controller() -> HardwareController {
    HardwareController::new(
        Box::new(SimGpio::new()),
        Box::new(FixedSensor { text: "Sicaklik: 25.0C".to_string(), fail: false }),
        Box::new(SimRelay::new(SimGpio::new())),
    )
}

#[test]
fn sim_gpio_read_write_roundtrip() {
    let mut gpio = SimGpio::new();
    gpio.write(17, true).unwrap();
    assert_eq!(gpio.read(17).unwrap(), "1");
    gpio.write(17, false).unwrap();
    assert_eq!(gpio.read(17).unwrap(), "0");
}

#[test]
fn sim_gpio_default_is_low() {
    let mut gpio = SimGpio::new();
    assert_eq!(gpio.read(99).unwrap(), "0");
}

#[test]
fn sim_gpio_reset_clears_state() {
    let mut gpio = SimGpio::new();
    gpio.write(17, true).unwrap();
    gpio.reset();
    assert_eq!(gpio.read(17).unwrap(), "0");
}

#[test]
fn sim_gpio_set_pin_direct() {
    let mut gpio = SimGpio::new();
    gpio.set_pin(27, true);
    assert_eq!(gpio.get_pin(27), Some(true));
    assert_eq!(gpio.get_pin(99), None);
}

#[test]
fn sim_gpio_write_leaves_other_pins() {
    let mut gpio = SimGpio::new();
    gpio.write(4, true).unwrap();
    gpio.write(5, false).unwrap();
    assert_eq!(gpio.read(4).unwrap(), "1");
    assert_eq!(gpio.get_pin(5), Some(false));
    assert_eq!(gpio.get_pin(6), None);
}

#[test]
fn sim_relay_drives_its_gpio() {
    let mut relay = SimRelay::new(SimGpio::new());
    relay.set(22, true).unwrap();
    assert_eq!(relay.gpio().get_pin(22), Some(true));
    relay.set(22, false).unwrap();
    assert_eq!(relay.gpio().get_pin(22), Some(false));
}

#[test]
fn mod_name_is_hardware_controller() {
    let agent = test_controller();
    assert_eq!(agent.name(), "Hardware Controller");
}

#[test]
fn can_handle_matches_hardware_keywords() {
    let agent = test_controller();
    assert!(agent.can_handle("role ac"));
    assert!(agent.can_handle("gpio pin 17 oku"));
    assert!(agent.can_handle("sensor sicaklik"));
    assert!(agent.can_handle("kapı zili"));
    assert!(!agent.can_handle("borsa analizi"));
}

#[test]
fn execute_relay_on() {
    let mut agent = test_controller();
    let result = agent.execute("role ac").unwrap();
    assert!(result.contains("ACIK"));
    assert_eq!(result, "[Hardware] Role pin 17 — ACIK");
}

#[test]
fn execute_relay_off() {
    let mut agent = test_controller();
    let result = agent.execute("role kapa").unwrap();
    assert!(result.contains("KAPALI"));
}

#[test]
fn execute_gpio_read() {
    let mut agent = test_controller();
    let result = agent.execute("gpio pin 17 oku").unwrap();
    assert!(result.contains("GPIO pin 17"));
    assert_eq!(result, "[Hardware] GPIO pin 17 = 0");
}

#[test]
fn execute_gpio_write_high() {
    let mut agent = test_controller();
    let result = agent.execute("gpio pin 17 high").unwrap();
    assert!(result.contains("high"));
    assert_eq!(result, "[Hardware] GPIO pin 17 -> high");
}

#[test]
fn execute_sensor_read() {
    let mut agent = test_controller();
    let result = agent.execute("sensor sicaklik").unwrap();
    assert!(result.contains("Sensor okumalari"));
    assert_eq!(result, "[Hardware] Sensor okumalari:\nSicaklik: 25.0C");
}

#[test]
fn execute_sensor_failure_passes_error_through() {
    let mut agent = HardwareController::new(
        Box::new(SimGpio::new()),
        Box::new(FixedSensor { text: String::new(), fail: true }),
        Box::new(SimRelay::new(SimGpio::new())),
    );
    assert_eq!(agent.execute("sensor oku"), Err("sensor arizali".to_string()));
}

#[test]
fn execute_unknown_command() {
    let mut agent = test_controller();
    let result = agent.execute("xyzzy").unwrap();
    assert!(result.contains("Bilinmeyen komut"));
    assert_eq!(
        result,
        "[Hardware] Bilinmeyen komut: 'xyzzy'\nKullanimi: 'role ac/kapa', 'sensor oku', 'gpio pin N oku/yaz'"
    );
}

#[test]
fn sim_gpio_tracks_state_across_execute() {
    let mut agent = test_controller();
    agent.execute("gpio pin 17 high").unwrap();
    let result = agent.execute("gpio pin 17 oku").unwrap();
    assert!(result.contains("= 1"));
}

#[test]
fn parse_pin_takes_first_byte_number() {
    assert_eq!(parse_pin("gpio pin 300 27 oku"), Some(27));
    assert_eq!(parse_pin("role ac"), None);
    assert_eq!(parse_pin("pin 0"), Some(0));
    assert_eq!(parse_pin("pin 255"), Some(255));
    assert_eq!(parse_pin("pin +5"), Some(5));
    assert_eq!(parse_pin("pin 5x"), None);
}

#[test]
fn parse_command_orders_relay_sensor_gpio() {
    assert_eq!(parse_command("ROLE 22 AC"), HardwareCommand::Relay { pin: 22, on: true });
    assert_eq!(parse_command("relay sensor"), HardwareCommand::Relay { pin: 17, on: false });
    assert_eq!(parse_command("basinc olc"), HardwareCommand::SensorRead);
    assert_eq!(parse_command("pin 4 oku"), HardwareCommand::GpioRead { pin: 4 });
    assert_eq!(parse_command("gpio 4 yuksek"), HardwareCommand::GpioWrite { pin: 4, high: true });
    assert_eq!(parse_command("gpio 14 low"), HardwareCommand::GpioWrite { pin: 14, high: true });
    assert_eq!(parse_command("gpio 5 low"), HardwareCommand::GpioWrite { pin: 5, high: false });
    assert_eq!(parse_command("merhaba"), HardwareCommand::Unknown);
}

#[test]
fn gpio_path_formats_pin() {
    assert_eq!(gpio_path(1), "/sys/class/gpio/gpio1/");
    assert_eq!(gpio_path(255), "/sys/class/gpio/gpio255/");
}

#[test]
fn onewire_devices_by_family() {
    let d = onewire_device("28-00000a1b2c3d").unwrap();
    assert_eq!(d.name, "DS18B20 (28-00000a1b2c3d)");
    assert_eq!(d.bus_type, "onewire");
    assert_eq!(d.address, "28-00000a1b2c3d");
    assert_eq!(d.description, "Sicaklik sensoru, -55..125C");
    let old = onewire_device("10-abc").unwrap();
    assert_eq!(old.name, "DS18S20 (10-abc)");
    assert_eq!(old.description, "Sicaklik sensoru (eski model)");
    assert!(onewire_device("w1_bus_master1").is_none());
}

#[test]
fn gpio_chip_devices() {
    let d = gpio_chip_device("gpiochip512", "pinctrl-bcm2835\n").unwrap();
    assert_eq!(d.name, "GPIO Chip 512 (pinctrl-bcm2835)");
    assert_eq!(d.bus_type, "gpio");
    assert_eq!(d.address, "gpiochip512");
    assert_eq!(d.description, "512 pin GPIO yongasi");
    assert!(gpio_chip_device("export", "x").is_none());
    let c = gpiochip0_chardev();
    assert_eq!(c.address, "gpiochip0");
    assert!(has_address(&vec![c.clone()], "gpiochip0"));
    assert!(!has_address(&vec![d], "gpiochip0"));
}

#[test]
fn i2c_devices_need_a_dash() {
    let d = i2c_device("1-0048", " ads1115\n").unwrap();
    assert_eq!(d.name, "I2C 1-0048 (ads1115)");
    assert_eq!(d.bus_type, "i2c");
    assert_eq!(d.description, "I2C cihazi 1-0048");
    assert!(i2c_device("i2c-1", "x").is_some());
    assert!(i2c_device("i2c1", "x").is_none());
}

const MS: u64 = 1_000_000;

#[test]
fn heartbeat_within_timeout() {
    let monitor = SafetyMonitor::new(SafetyLimits::default());
    assert!(monitor.check_heartbeat(10_000 * MS));
}

#[test]
fn heartbeat_expires_after_timeout() {
    let monitor = SafetyMonitor::new_at(SafetyLimits::default(), 1_000 * MS);
    assert!(monitor.check_heartbeat_at(1_500 * MS, 1_000 * MS));
    assert!(!monitor.check_heartbeat_at(2_000 * MS, 1_000 * MS));
    assert!(!monitor.check_heartbeat_at(5_000 * MS, 1_000 * MS));
}

#[test]
fn heartbeat_counts_below_a_millisecond() {
    let mut monitor = SafetyMonitor::new_at(SafetyLimits::default(), 0);
    monitor.pet_at(1_000_900_000);
    assert!(monitor.check_heartbeat_at(1_001_100_000, MS));
    assert!(!monitor.check_heartbeat_at(1_001_900_000, MS));
}

#[test]
fn pet_refreshes_heartbeat_at() {
    let mut monitor = SafetyMonitor::new_at(SafetyLimits::default(), 0);
    assert!(!monitor.check_heartbeat_at(5_000 * MS, 1_000 * MS));
    monitor.pet_at(4_500 * MS);
    assert!(monitor.check_heartbeat_at(5_000 * MS, 1_000 * MS));
}

#[test]
fn pet_by_clock_refreshes_heartbeat() {
    let mut monitor = SafetyMonitor::new(SafetyLimits::default());
    monitor.pet();
    assert!(monitor.check_heartbeat(10_000 * MS));
    assert!(!monitor.check_heartbeat(0));
}

#[test]
fn relay_cycle_limit() {
    let mut monitor = SafetyMonitor::new(SafetyLimits::default());
    for _ in 0..30 {
        assert!(monitor.record_relay_cycle().is_ok());
    }
    assert!(monitor.record_relay_cycle().is_err());
}

#[test]
fn relay_cycle_limit_message() {
    let mut monitor = SafetyMonitor::new_at(SafetyLimits { max_relay_cycles_per_min: 2 }, 0);
    assert!(monitor.record_relay_cycle_at(1_000 * MS).is_ok());
    assert!(monitor.record_relay_cycle_at(2_000 * MS).is_ok());
    assert_eq!(
        monitor.record_relay_cycle_at(3_000 * MS),
        Err("Role asiri kullanim: dakikada 3 (limit: 2)".to_string())
    );
}

#[test]
fn relay_cycles_older_than_a_minute_are_forgotten() {
    let mut monitor = SafetyMonitor::new_at(SafetyLimits { max_relay_cycles_per_min: 2 }, 0);
    assert!(monitor.record_relay_cycle_at(1_000 * MS).is_ok());
    assert!(monitor.record_relay_cycle_at(2_000 * MS).is_ok());
    assert!(monitor.record_relay_cycle_at(61_000 * MS - 1).is_err());
    assert!(monitor.record_relay_cycle_at(61_000 * MS).is_ok());
    assert!(monitor.record_relay_cycle_at(61_500 * MS).is_err());
    assert!(monitor.record_relay_cycle_at(62_000 * MS).is_ok());
}

#[test]
fn failsafe_engage_disengage() {
    let mut monitor = SafetyMonitor::new(SafetyLimits::default());
    assert!(!monitor.is_failsafe());
    monitor.engage_failsafe();
    assert!(monitor.is_failsafe());
    monitor.disengage_failsafe();
    assert!(!monitor.is_failsafe());
}

#[test]
fn relay_cycles_reset() {
    let mut monitor = SafetyMonitor::new(SafetyLimits::default());
    for _ in 0..30 {
        let _ = monitor.record_relay_cycle();
    }
    assert!(monitor.record_relay_cycle().is_err());
    monitor.reset_relay_cycles();
    assert!(monitor.record_relay_cycle().is_ok());
}

#[test]
fn ds18b20_reading_from_w1_slave() {
    let content = "72 01 4b 46 7f ff 0e 10 57 : crc=57 YES\n72 01 4b 46 7f ff 0e 10 57 t=23125\n";
    assert_eq!(ds18b20_millidegrees(content), Some(23125));
    assert_eq!(ds18b20_millidegrees("aa : crc=00 NO\nbb t=-1062\n"), Some(-1062));
    assert_eq!(ds18b20_millidegrees("t=abc\nx t= +85000 \n"), Some(85000));
    assert_eq!(ds18b20_millidegrees("no reading here\n"), None);
    assert_eq!(ds18b20_millidegrees("t=99999999999999999999\n"), None);
    assert_eq!(ds18b20_millidegrees(""), None);
}

#[derive(Clone)]
struct SharedBank(std::sync::Arc<std::sync::Mutex<SimGpio>>);

impl GpioBackend for SharedBank {
    fn read(&mut self, pin: u8) -> Result<String, String> {
        self.0.lock().unwrap().read(pin)
    }

    fn write(&mut self, pin: u8, value: bool) -> Result<(), String> {
        self.0.lock().unwrap().write(pin, value)
    }
}

impl RelayBackend for SharedBank {
    fn set(&mut self, pin: u8, state: bool) -> Result<(), String> {
        self.0.lock().unwrap().write(pin, state)
    }
}

#[test]
fn relay_switch_is_seen_by_gpio_read_on_shared_bank() {
    let bank = SharedBank(std::sync::Arc::new(std::sync::Mutex::new(SimGpio::new())));
    let mut agent = HardwareController::new(
        Box::new(bank.clone()),
        Box::new(FixedSensor { text: String::new(), fail: false }),
        Box::new(bank.clone()),
    );
    assert_eq!(agent.execute("role 17 ac").unwrap(), "[Hardware] Role pin 17 — ACIK");
    assert_eq!(agent.execute("gpio pin 17 oku").unwrap(), "[Hardware] GPIO pin 17 = 1");
    assert_eq!(bank.0.lock().unwrap().get_pin(17), Some(true));
    bank.0.lock().unwrap().reset();
    assert_eq!(agent.execute("gpio pin 17 oku").unwrap(), "[Hardware] GPIO pin 17 = 0");
}
