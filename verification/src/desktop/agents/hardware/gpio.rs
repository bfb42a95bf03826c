//! Paths of the Linux sysfs GPIO interface.
use vstd::prelude::*;
use crate::text::{dec_of, dec_string};

verus! {

/// The sysfs directory of `pin`: `/sys/class/gpio/gpio<pin>/`.
pub open spec fn gpio_path_of(pin: u8) -> Seq<char> {
    "/sys/class/gpio/gpio"@ + dec_of(pin as nat) + "/"@
}

/// The sysfs directory of `pin`.
pub fn gpio_path(pin: u8) -> (r: String)
    ensures
        r@ == gpio_path_of(pin),
{
    let n = dec_string(pin as u64);
    "/sys/class/gpio/gpio".to_string().concat(n.as_str()).concat("/")
}

} // verus!
