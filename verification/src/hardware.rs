//! Hardware revisions of the device and the GPIO lines of each: the power
//! and reset buttons and the power and disk LEDs.

use vstd::prelude::*;
use crate::textscan::{spec_trim, str_eq, trim};

verus! {

/// Hardware revision.
#[derive(Clone, Copy, Debug, PartialEq, Eq, Structural)]
pub enum HardwareVersion {
    Alpha,
    Beta,
    Pcie,
}

/// The revision named by the trimmed text of the revision file; unknown
/// text means the first revision.
pub open spec fn spec_version_from_text(text: Seq<char>) -> HardwareVersion {
    let t = spec_trim(text);
    if t == "beta"@ {
        HardwareVersion::Beta
    } else if t == "pcie"@ {
        HardwareVersion::Pcie
    } else {
        HardwareVersion::Alpha
    }
}

impl HardwareVersion {
    /// Reads the revision file's text.
    pub fn from_text(text: &str) -> (r: HardwareVersion)
        ensures
            r == spec_version_from_text(text@),
    {
        proof {
            reveal_strlit("alpha");
            reveal_strlit("beta");
            reveal_strlit("pcie");
            assert("alpha"@[0] != "beta"@[0] && "alpha"@[0] != "pcie"@[0]);
        }
        let chars = crate::text::chars_of(text);
        let t = crate::text::string_of(trim(chars.as_slice()));
        if str_eq(t.as_str(), "alpha") {
            HardwareVersion::Alpha
        } else if str_eq(t.as_str(), "beta") {
            HardwareVersion::Beta
        } else if str_eq(t.as_str(), "pcie") {
            HardwareVersion::Pcie
        } else {
            HardwareVersion::Alpha
        }
    }

    /// The revision's name as reported to clients.
    pub fn display_name(self) -> (r: &'static str)
        ensures
            self == HardwareVersion::Alpha ==> r@ == "Alpha"@,
            self == HardwareVersion::Beta ==> r@ == "Beta"@,
            self == HardwareVersion::Pcie ==> r@ == "PCIE"@,
    {
        match self {
            HardwareVersion::Alpha => "Alpha",
            HardwareVersion::Beta => "Beta",
            HardwareVersion::Pcie => "PCIE",
        }
    }
}

/// The GPIO value files of a revision.
#[derive(Clone, Copy, Debug)]
pub struct HardwareConfig {
    pub version: HardwareVersion,
    pub gpio_reset: &'static str,
    pub gpio_power: &'static str,
    pub gpio_power_led: &'static str,
    pub gpio_hdd_led: Option<&'static str>,
}

impl HardwareConfig {
    /// The GPIO lines of a revision: the first revision has its reset on
    /// line 507 and a disk LED on 505; later ones reset on 505 and have no
    /// disk LED. Power is on 503 and its LED on 504 throughout.
    pub fn get(version: HardwareVersion) -> (r: HardwareConfig)
        ensures
            r.version == version,
            version == HardwareVersion::Alpha ==> r.gpio_reset@ == "/sys/class/gpio/gpio507/value"@
                && (r.gpio_hdd_led matches Some(p) && p@ == "/sys/class/gpio/gpio505/value"@),
            version != HardwareVersion::Alpha ==> r.gpio_reset@ == "/sys/class/gpio/gpio505/value"@
                && r.gpio_hdd_led is None,
            r.gpio_power@ == "/sys/class/gpio/gpio503/value"@,
            r.gpio_power_led@ == "/sys/class/gpio/gpio504/value"@,
    {
        match version {
            HardwareVersion::Alpha => HardwareConfig {
                version,
                gpio_reset: "/sys/class/gpio/gpio507/value",
                gpio_power: "/sys/class/gpio/gpio503/value",
                gpio_power_led: "/sys/class/gpio/gpio504/value",
                gpio_hdd_led: Some("/sys/class/gpio/gpio505/value"),
            },
            HardwareVersion::Beta => HardwareConfig {
                version,
                gpio_reset: "/sys/class/gpio/gpio505/value",
                gpio_power: "/sys/class/gpio/gpio503/value",
                gpio_power_led: "/sys/class/gpio/gpio504/value",
                gpio_hdd_led: None,
            },
            HardwareVersion::Pcie => HardwareConfig {
                version,
                gpio_reset: "/sys/class/gpio/gpio505/value",
                gpio_power: "/sys/class/gpio/gpio503/value",
                gpio_power_led: "/sys/class/gpio/gpio504/value",
                gpio_hdd_led: None,
            },
        }
    }
}

/// Errors of the GPIO lines; I/O errors are carried as messages.
#[derive(Clone, Debug)]
pub enum GpioError {
    Io(String),
    InvalidState(String),
}

/// The buttons a client can press.
#[derive(Clone, Copy, Debug, PartialEq, Eq, Structural)]
pub enum GpioButton {
    Power,
    Reset,
}

/// Controls the buttons and reads the LEDs of one device.
#[derive(Clone, Copy, Debug)]
pub struct VmController {
    pub config: HardwareConfig,
}

impl VmController {
    /// A controller for a revision.
    pub fn for_version(version: HardwareVersion) -> (r: VmController)
        ensures
            r.config.version == version,
    {
        VmController { config: HardwareConfig::get(version) }
    }

    /// The revision.
    pub fn get_version(&self) -> (r: HardwareVersion)
        ensures
            r == self.config.version,
    {
        self.config.version
    }

    /// The value file of a button.
    pub fn button_line(&self, button: GpioButton) -> (r: &'static str)
        ensures
            button == GpioButton::Power ==> r == self.config.gpio_power,
            button == GpioButton::Reset ==> r == self.config.gpio_reset,
    {
        match button {
            GpioButton::Power => self.config.gpio_power,
            GpioButton::Reset => self.config.gpio_reset,
        }
    }

    /// The LED state a value file reads as: the LEDs are active low, so
    /// the trimmed value `0` means on.
    pub fn led_on(value: &str) -> (r: bool)
        ensures
            r == (spec_trim(value@) == "0"@),
    {
        let chars = crate::text::chars_of(value);
        let t = crate::text::string_of(trim(chars.as_slice()));
        str_eq(t.as_str(), "0")
    }
}

/// The button named in a request (`power` or `reset`).
pub fn gpio_button(kind: &str) -> (r: Option<GpioButton>)
    ensures
        kind@ == "power"@ ==> r == Some(GpioButton::Power),
        kind@ == "reset"@ ==> r == Some(GpioButton::Reset),
        kind@ != "power"@ && kind@ != "reset"@ ==> r is None,
{
    proof {
        reveal_strlit("power");
        reveal_strlit("reset");
        assert("power"@[0] != "reset"@[0]);
    }
    if str_eq(kind, "power") {
        Some(GpioButton::Power)
    } else if str_eq(kind, "reset") {
        Some(GpioButton::Reset)
    } else {
        None
    }
}

} // verus!
