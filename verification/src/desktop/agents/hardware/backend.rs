//! Hardware backends: the interfaces the controller drives, and a simulated
//! GPIO bank.
use vstd::prelude::*;
use std::collections::HashMap;
use crate::text::{
    chars_of, find_sub, first_match, lemma_first_match, lines_of, matches_at, parse_i64, parse_i64_of, split_lines, trim_chars,
    trim_of,
};

verus! {

/// Digital pins.
pub trait GpioBackend {
    /// The pin level as text ("0" or "1").
    fn read(&mut self, pin: u8) -> Result<String, String>;

    /// Drives the pin high (`true`) or low.
    fn write(&mut self, pin: u8, value: bool) -> Result<(), String>;
}

/// Sensors.
pub trait SensorBackend {
    /// A readable summary of every sensor.
    fn read_all(&mut self) -> Result<String, String>;
}

/// Relays.
pub trait RelayBackend {
    /// Switches the relay on `pin` on (`true`) or off.
    fn set(&mut self, pin: u8, state: bool) -> Result<(), String>;
}

/// A simulated GPIO bank: pins never written read low.
#[derive(Debug)]
pub struct SimGpio {
    pins: HashMap<u8, bool>,
}

/// The level a simulated pin reads: its last written value, low if never written.
pub open spec fn sim_level(pins: Map<u8, bool>, pin: u8) -> bool {
    pins.contains_key(pin) && pins[pin]
}

impl SimGpio {
    /// The written pin levels.
    pub closed spec fn pins_view(&self) -> Map<u8, bool> {
        self.pins@
    }

    /// A bank with no pin written.
    pub fn new() -> (r: Self)
        ensures
            r.pins_view() == Map::<u8, bool>::empty(),
    {
        SimGpio { pins: HashMap::new() }
    }

    /// Sets a pin directly.
    pub fn set_pin(&mut self, pin: u8, value: bool)
        ensures
            final(self).pins_view() == old(self).pins_view().insert(pin, value),
    {
        self.pins.insert(pin, value);
    }

    /// The level last written to `pin`, if any.
    pub fn get_pin(&self, pin: u8) -> (r: Option<bool>)
        ensures
            r == if self.pins_view().contains_key(pin) {
                Some(self.pins_view()[pin])
            } else {
                None
            },
    {
        match self.pins.get(&pin) {
            Some(v) => Some(*v),
            None => None,
        }
    }

    /// Forgets every pin.
    pub fn reset(&mut self)
        ensures
            final(self).pins_view() == Map::<u8, bool>::empty(),
    {
        self.pins.clear();
    }
}

impl GpioBackend for SimGpio {
    fn read(&mut self, pin: u8) -> (r: Result<String, String>)
        ensures
            *final(self) == *old(self),
            r matches Ok(t) && t@ == if sim_level(old(self).pins_view(), pin) {
                "1"@
            } else {
                "0"@
            },
    {
        let value = match self.pins.get(&pin) {
            Some(v) => *v,
            None => false,
        };
        Ok(
            if value {
                "1".to_string()
            } else {
                "0".to_string()
            },
        )
    }

    fn write(&mut self, pin: u8, value: bool) -> (r: Result<(), String>)
        ensures
            r is Ok,
            final(self).pins_view() == old(self).pins_view().insert(pin, value),
    {
        self.pins.insert(pin, value);
        Ok(())
    }
}

/// A simulated relay board wired to its own simulated GPIO bank.
#[derive(Debug)]
pub struct SimRelay {
    gpio: SimGpio,
}

impl SimRelay {
    pub closed spec fn gpio_view(&self) -> SimGpio {
        self.gpio
    }

    pub fn new(gpio: SimGpio) -> (r: Self)
        ensures
            r.gpio_view() == gpio,
    {
        SimRelay { gpio }
    }

    /// The GPIO bank the relays drive.
    pub fn gpio(&self) -> (r: &SimGpio)
        ensures
            *r == self.gpio_view(),
    {
        &self.gpio
    }
}

impl RelayBackend for SimRelay {
    fn set(&mut self, pin: u8, state: bool) -> (r: Result<(), String>)
        ensures
            r is Ok,
            final(self).gpio_view().pins_view() == old(self).gpio_view().pins_view().insert(
                pin,
                state,
            ),
    {
        self.gpio.write(pin, state)
    }
}

/// Reading `pin` after writing `value` to it gives back `value`.
pub proof fn lemma_sim_read_after_write(pins: Map<u8, bool>, pin: u8, value: bool)
    ensures
        sim_level(pins.insert(pin, value), pin) == value,
{
}

/// Writing one pin leaves every other pin's level unchanged.
pub proof fn lemma_sim_write_other_pin(pins: Map<u8, bool>, pin: u8, other: u8, value: bool)
    requires
        pin != other,
    ensures
        sim_level(pins.insert(pin, value), other) == sim_level(pins, other),
{
}

/// After a reset every pin reads low.
pub proof fn lemma_sim_reset_reads_low(pin: u8)
    ensures
        !sim_level(Map::<u8, bool>::empty(), pin),
{
}


/// The reading on one line of a DS18B20 `w1_slave` file: the text after the
/// first "t=", trimmed, as a whole number of thousandths of a degree.
pub open spec fn w1_line_value(l: Seq<char>) -> Option<i64> {
    match first_match(l, "t="@, 0) {
        Some(pos) => parse_i64_of(trim_of(l.skip(pos + 2))),
        None => None,
    }
}

/// The first line of the file that holds a reading.
pub open spec fn w1_reading_of(ls: Seq<Seq<char>>) -> Option<i64>
    decreases ls.len(),
{
    if ls.len() == 0 {
        None
    } else {
        match w1_line_value(ls[0]) {
            Some(v) => Some(v),
            None => w1_reading_of(ls.drop_first()),
        }
    }
}

/// The temperature in a DS18B20 `w1_slave` file, in thousandths of a degree
/// Celsius, from the first line that carries one.
pub fn ds18b20_millidegrees(content: &str) -> (r: Option<i64>)
    ensures
        r == w1_reading_of(lines_of(content@)),
{
    proof {
        reveal_strlit("t=");
    }
    let cv = chars_of(content);
    let ls = split_lines(&cv);
    let pat = chars_of("t=");
    let ghost lv = ls.deep_view();
    let mut i: usize = 0;
    assert(lv.skip(0) =~= lv);
    while i < ls.len()
        invariant
            i <= ls.len(),
            lv == ls.deep_view(),
            lv == lines_of(content@),
            pat@ == "t="@,
            w1_reading_of(lv) == w1_reading_of(lv.skip(i as int)),
        decreases ls.len() - i,
    {
        let line = &ls[i];
        assert(lv[i as int] == line@);
        assert(lv.skip(i as int)[0] == lv[i as int]);
        assert(lv.skip(i as int).drop_first() =~= lv.skip(i as int + 1));
        match find_sub(line, &pat) {
            Some(pos) => {
                proof {
                    lemma_first_match(line@, pat@, 0);
                    reveal_strlit("t=");
                    assert(pat@.len() == 2);
                    assert(matches_at(line@, pat@, pos as int));
                }
                let mut rest: Vec<char> = Vec::new();
                let mut k = pos + 2;
                while k < line.len()
                    invariant
                        pos + 2 <= k <= line.len(),
                        rest@ == line@.subrange(pos + 2, k as int),
                    decreases line.len() - k,
                {
                    rest.push(line[k]);
                    k += 1;
                }
                assert(rest@ == line@.skip(pos + 2));
                let t = trim_chars(&rest);
                let v = parse_i64(&t);
                if v.is_some() {
                    return v;
                }
            },
            None => {},
        }
        i += 1;
    }
    None
}
} // verus!
