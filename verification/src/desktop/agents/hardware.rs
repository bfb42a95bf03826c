//! The hardware controller agent: turns a spoken or typed command into a
//! relay, sensor or GPIO operation and reports the outcome.
use vstd::prelude::*;
use crate::desktop::agents::Agent;
use crate::desktop::agents::hardware::backend::{GpioBackend, RelayBackend, SensorBackend};
use crate::text::{
    contains, dec_of, dec_string, first_u8, first_u8_word, has_sub, lowercase_of, to_lowercase,
    words_of,
};

pub mod backend;
pub mod detect;
pub mod gpio;
pub mod safety;

verus! {

/// What a hardware task asks for.
#[derive(Debug, Clone, Copy, PartialEq, Eq, Structural)]
pub enum HardwareCommand {
    Relay { pin: u8, on: bool },
    SensorRead,
    GpioRead { pin: u8 },
    GpioWrite { pin: u8, high: bool },
    Unknown,
}

/// The first number in the command that fits a byte, pin 17 otherwise.
pub open spec fn pin_of(action: Seq<char>) -> u8 {
    match first_u8(words_of(action)) {
        Some(p) => p,
        None => 17,
    }
}

/// The command a lower-cased task asks for: relays first, then sensors, then
/// GPIO pins (read when asked to read, otherwise high or low).
pub open spec fn command_of_lowered(a: Seq<char>) -> HardwareCommand {
    if has_sub(a, "role"@) || has_sub(a, "relay"@) {
        HardwareCommand::Relay { pin: pin_of(a), on: has_sub(a, "ac"@) || has_sub(a, "on"@) }
    } else if has_sub(a, "sensor"@) || has_sub(a, "sicaklik"@) || has_sub(a, "basinc"@) {
        HardwareCommand::SensorRead
    } else if has_sub(a, "gpio"@) || has_sub(a, "pin"@) {
        if has_sub(a, "read"@) || has_sub(a, "oku"@) {
            HardwareCommand::GpioRead { pin: pin_of(a) }
        } else {
            HardwareCommand::GpioWrite {
                pin: pin_of(a),
                high: has_sub(a, "high"@) || has_sub(a, "yuksek"@) || has_sub(a, "1"@),
            }
        }
    } else {
        HardwareCommand::Unknown
    }
}

/// The command `task` asks for, ignoring case.
pub open spec fn command_of(task: Seq<char>) -> HardwareCommand {
    command_of_lowered(lowercase_of(task))
}

/// The text views of a result.
pub open spec fn result_view(r: Result<String, String>) -> Result<Seq<char>, Seq<char>> {
    match r {
        Ok(t) => Ok(t@),
        Err(e) => Err(e@),
    }
}

/// The help text for a command that was not understood.
pub open spec fn unknown_reply(task: Seq<char>) -> Seq<char> {
    "[Hardware] Bilinmeyen komut: '"@ + task
        + "'\nKullanimi: 'role ac/kapa', 'sensor oku', 'gpio pin N oku/yaz'"@
}

/// The agent's answer to `task` given what the backend returned for its
/// command (the text read, or empty for a switch); backend errors pass through.
pub open spec fn reply_of(
    cmd: HardwareCommand,
    task: Seq<char>,
    outcome: Result<Seq<char>, Seq<char>>,
) -> Result<Seq<char>, Seq<char>> {
    match cmd {
        HardwareCommand::Unknown => Ok(unknown_reply(task)),
        _ => match outcome {
            Err(e) => Err(e),
            Ok(v) => Ok(
                match cmd {
                    HardwareCommand::Relay { pin, on } => "[Hardware] Role pin "@ + dec_of(
                        pin as nat,
                    ) + " — "@ + if on {
                        "ACIK"@
                    } else {
                        "KAPALI"@
                    },
                    HardwareCommand::SensorRead => "[Hardware] Sensor okumalari:\n"@ + v,
                    HardwareCommand::GpioRead { pin } => "[Hardware] GPIO pin "@ + dec_of(
                        pin as nat,
                    ) + " = "@ + v,
                    HardwareCommand::GpioWrite { pin, high } => "[Hardware] GPIO pin "@ + dec_of(
                        pin as nat,
                    ) + " -> "@ + if high {
                        "high"@
                    } else {
                        "low"@
                    },
                    HardwareCommand::Unknown => Seq::empty(),
                },
            ),
        },
    }
}

/// Words that mark a hardware task (in lower case).
pub open spec fn hardware_task(a: Seq<char>) -> bool {
    has_sub(a, "role"@) || has_sub(a, "gpio"@) || has_sub(a, "sensor"@) || has_sub(a, "hardware"@)
        || has_sub(a, "kap"@) || has_sub(a, "zil"@) || has_sub(a, "pin"@) || has_sub(
        a,
        "sicaklik"@,
    ) || has_sub(a, "basinc"@)
}

/// The first number word of `action` that fits a byte, if any.
pub fn parse_pin(action: &str) -> (r: Option<u8>)
    ensures
        r == first_u8(words_of(action@)),
{
    first_u8_word(action)
}

/// Parses a lower-cased hardware command.
pub fn parse_command_lowered(a: &str) -> (r: HardwareCommand)
    ensures
        r == command_of_lowered(a@),
{
    let pin = match parse_pin(a) {
        Some(p) => p,
        None => 17,
    };
    if contains(a, "role") || contains(a, "relay") {
        HardwareCommand::Relay { pin, on: contains(a, "ac") || contains(a, "on") }
    } else if contains(a, "sensor") || contains(a, "sicaklik") || contains(a, "basinc") {
        HardwareCommand::SensorRead
    } else if contains(a, "gpio") || contains(a, "pin") {
        if contains(a, "read") || contains(a, "oku") {
            HardwareCommand::GpioRead { pin }
        } else {
            HardwareCommand::GpioWrite {
                pin,
                high: contains(a, "high") || contains(a, "yuksek") || contains(a, "1"),
            }
        }
    } else {
        HardwareCommand::Unknown
    }
}

/// Parses a hardware command, ignoring case.
pub fn parse_command(task: &str) -> (r: HardwareCommand)
    ensures
        r == command_of(task@),
{
    let a = to_lowercase(task);
    parse_command_lowered(a.as_str())
}

/// The agent's answer for `cmd` on `task` given the backend's outcome.
pub fn reply(cmd: HardwareCommand, task: &str, outcome: Result<String, String>) -> (r: Result<
    String,
    String,
>)
    ensures
        result_view(r) == reply_of(cmd, task@, result_view(outcome)),
{
    match cmd {
        HardwareCommand::Unknown => Ok(
            "[Hardware] Bilinmeyen komut: '".to_string().concat(task).concat(
                "'\nKullanimi: 'role ac/kapa', 'sensor oku', 'gpio pin N oku/yaz'",
            ),
        ),
        _ => match outcome {
            Err(e) => Err(e),
            Ok(v) => {
                let text = match cmd {
                    HardwareCommand::Relay { pin, on } => {
                        let n = dec_string(pin as u64);
                        "[Hardware] Role pin ".to_string().concat(n.as_str()).concat(" — ").concat(
                            if on {
                                "ACIK"
                            } else {
                                "KAPALI"
                            },
                        )
                    },
                    HardwareCommand::SensorRead => "[Hardware] Sensor okumalari:\n".to_string().concat(
                        v.as_str(),
                    ),
                    HardwareCommand::GpioRead { pin } => {
                        let n = dec_string(pin as u64);
                        "[Hardware] GPIO pin ".to_string().concat(n.as_str()).concat(" = ").concat(
                            v.as_str(),
                        )
                    },
                    HardwareCommand::GpioWrite { pin, high } => {
                        let n = dec_string(pin as u64);
                        "[Hardware] GPIO pin ".to_string().concat(n.as_str()).concat(" -> ").concat(
                            if high {
                                "high"
                            } else {
                                "low"
                            },
                        )
                    },
                    HardwareCommand::Unknown => String::new(),
                };
                Ok(text)
            },
        },
    }
}

/// The hardware controller: one backend each for pins, sensors and relays.
pub struct HardwareController {
    pub gpio: Box<dyn GpioBackend>,
    pub sensor: Box<dyn SensorBackend>,
    pub relay: Box<dyn RelayBackend>,
}

impl HardwareController {
    pub fn new(
        gpio: Box<dyn GpioBackend>,
        sensor: Box<dyn SensorBackend>,
        relay: Box<dyn RelayBackend>,
    ) -> (r: Self)
        ensures
            r == (HardwareController { gpio, sensor, relay }),
    {
        HardwareController { gpio, sensor, relay }
    }

    /// Carries out `task`: the command parsed from it goes to its backend and
    /// the answer is formed from what the backend returned.
    pub fn execute(&mut self, task: &str) -> (r: Result<String, String>)
        ensures
            command_of(task@) is Unknown ==> result_view(r) == Ok::<Seq<char>, Seq<char>>(
                unknown_reply(task@),
            ),
            exists|o: Result<Seq<char>, Seq<char>>|
                result_view(r) == reply_of(command_of(task@), task@, o),
    {
        let cmd = parse_command(task);
        let outcome: Result<String, String> = match cmd {
            HardwareCommand::Relay { pin, on } => match self.relay.set(pin, on) {
                Ok(()) => Ok(String::new()),
                Err(e) => Err(e),
            },
            HardwareCommand::SensorRead => self.sensor.read_all(),
            HardwareCommand::GpioRead { pin } => self.gpio.read(pin),
            HardwareCommand::GpioWrite { pin, high } => match self.gpio.write(pin, high) {
                Ok(()) => Ok(String::new()),
                Err(e) => Err(e),
            },
            HardwareCommand::Unknown => Ok(String::new()),
        };
        let ghost o = result_view(outcome);
        let r = reply(cmd, task, outcome);
        assert(result_view(r) == reply_of(command_of(task@), task@, o));
        r
    }
}

impl Agent for HardwareController {
    fn name(&self) -> (r: String)
        ensures
            r@ == "Hardware Controller"@,
    {
        "Hardware Controller".to_string()
    }

    fn description(&self) -> (r: String)
        ensures
            r@ == "GPIO, role, sensor, 12V devre kontrolu"@,
    {
        "GPIO, role, sensor, 12V devre kontrolu".to_string()
    }

    fn can_handle(&self, task: &str) -> (r: bool)
        ensures
            r == hardware_task(lowercase_of(task@)),
    {
        let t = to_lowercase(task);
        let a = t.as_str();
        contains(a, "role") || contains(a, "gpio") || contains(a, "sensor") || contains(
            a,
            "hardware",
        ) || contains(a, "kap") || contains(a, "zil") || contains(a, "pin") || contains(
            a,
            "sicaklik",
        ) || contains(a, "basinc")
    }
}

/// A task that names a relay ("role" or "relay") is a relay command on the
/// first byte-sized number it holds (pin 17 when there is none); it asks to
/// switch on exactly when the text contains "ac" or "on", so for instance
/// "relay 22 on" switches on and "role 22 kapa" switches off.
pub proof fn lemma_relay_command(a: Seq<char>)
    requires
        has_sub(a, "role"@) || has_sub(a, "relay"@),
    ensures
        command_of_lowered(a) matches HardwareCommand::Relay { pin, on } && pin == pin_of(a) && on
            == (has_sub(a, "ac"@) || has_sub(a, "on"@)),
        has_sub(a, "on"@) ==> (command_of_lowered(a) matches HardwareCommand::Relay { on, .. }
            && on),
        has_sub(a, "ac"@) ==> (command_of_lowered(a) matches HardwareCommand::Relay { on, .. }
            && on),
        !has_sub(a, "ac"@) && !has_sub(a, "on"@) ==> (command_of_lowered(a) matches HardwareCommand::Relay {
            on,
            ..
        } && !on),
        first_u8(words_of(a)) is None ==> (command_of_lowered(a) matches HardwareCommand::Relay {
            pin,
            ..
        } && pin == 17),
{
}

} // verus!
