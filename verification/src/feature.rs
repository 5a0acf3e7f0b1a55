//! The registry of controllable monitor features: for each one its display
//! name, its two-byte command code and the largest value it accepts.

use vstd::prelude::*;

verus! {

/// A controllable attribute of the monitor.
#[derive(Clone, Copy, Debug, PartialEq, Eq, Structural)]
pub enum Feature {
    Brightness,
    Contrast,
    Sharpness,
    Freesync,
    BlackEqualizer,
    ProfileSwitch,
    OsdTransparency,
    OsdTime,
    ColorVibrance,
    LowBlueLight,
    SuperResolution,
    Gamma,
    ColorTemperature,
    Overdrive,
    Red,
    Green,
    Blue,
    Input,
    QuickMenuUp,
    QuickMenuDown,
    QuickMenuRight,
    QuickMenuLeft,
}

/// What the registry records of one feature. A value is legal for the feature
/// exactly when it lies in `0..=max_value`.
#[derive(Clone, Copy, Debug)]
pub struct FeatureSpec {
    pub name: &'static str,
    pub command_code: (u8, u8),
    pub max_value: u8,
}

impl Feature {
    /// The two bytes that select this feature in a feature-set payload.
    pub open spec fn spec_command_code(self) -> (u8, u8) {
        match self {
            Feature::Brightness => (0x10u8, 0x00u8),
            Feature::Contrast => (0x12u8, 0x00u8),
            Feature::Sharpness => (0x87u8, 0x00u8),
            Feature::Freesync => (0xE0u8, 0x0Cu8),
            Feature::BlackEqualizer => (0xE0u8, 0x02u8),
            Feature::ProfileSwitch => (0xE0u8, 0x2Cu8),
            Feature::OsdTransparency => (0xE0u8, 0x2Fu8),
            Feature::OsdTime => (0xE0u8, 0x30u8),
            Feature::ColorVibrance => (0xE0u8, 0x08u8),
            Feature::LowBlueLight => (0xE0u8, 0x0Bu8),
            Feature::SuperResolution => (0xE0u8, 0x0Du8),
            Feature::Gamma => (0xE0u8, 0x07u8),
            Feature::ColorTemperature => (0xE0u8, 0x03u8),
            Feature::Overdrive => (0xE0u8, 0x09u8),
            Feature::Red => (0xE0u8, 0x04u8),
            Feature::Green => (0xE0u8, 0x05u8),
            Feature::Blue => (0xE0u8, 0x06u8),
            Feature::Input => (0xE0u8, 0x2Du8),
            Feature::QuickMenuUp => (0xE0u8, 0x32u8),
            Feature::QuickMenuDown => (0xE0u8, 0x33u8),
            Feature::QuickMenuRight => (0xE0u8, 0x34u8),
            Feature::QuickMenuLeft => (0xE0u8, 0x35u8),
        }
    }

    /// The largest value the feature accepts. A profile switch carries a
    /// profile index and is bounded by the width of the value byte alone.
    pub open spec fn spec_max_value(self) -> u8 {
        match self {
            Feature::Brightness => 100u8,
            Feature::Contrast => 100u8,
            Feature::Sharpness => 10u8,
            Feature::Freesync => 1u8,
            Feature::BlackEqualizer => 20u8,
            Feature::ProfileSwitch => 255u8,
            Feature::OsdTransparency => 4u8,
            Feature::OsdTime => 6u8,
            Feature::ColorVibrance => 20u8,
            Feature::LowBlueLight => 10u8,
            Feature::SuperResolution => 4u8,
            Feature::Gamma => 5u8,
            Feature::ColorTemperature => 3u8,
            Feature::Overdrive => 2u8,
            Feature::Red => 100u8,
            Feature::Green => 100u8,
            Feature::Blue => 100u8,
            Feature::Input => 2u8,
            Feature::QuickMenuUp => 7u8,
            Feature::QuickMenuDown => 7u8,
            Feature::QuickMenuRight => 7u8,
            Feature::QuickMenuLeft => 7u8,
        }
    }

    /// The name under which messages cite the feature.
    pub open spec fn spec_name(self) -> Seq<char> {
        match self {
            Feature::Brightness => "Brightness"@,
            Feature::Contrast => "Contrast"@,
            Feature::Sharpness => "Sharpness"@,
            Feature::Freesync => "Freesync"@,
            Feature::BlackEqualizer => "Black Equalizer"@,
            Feature::ProfileSwitch => "Profile"@,
            Feature::OsdTransparency => "OSD transparency"@,
            Feature::OsdTime => "OSD display time"@,
            Feature::ColorVibrance => "Color Vibrance"@,
            Feature::LowBlueLight => "Low Blue Light"@,
            Feature::SuperResolution => "Super Resolution"@,
            Feature::Gamma => "Gamma"@,
            Feature::ColorTemperature => "Color Temperature"@,
            Feature::Overdrive => "Overdrive"@,
            Feature::Red => "Red"@,
            Feature::Green => "Green"@,
            Feature::Blue => "Blue"@,
            Feature::Input => "Input"@,
            Feature::QuickMenuUp => "Quick Menu Up"@,
            Feature::QuickMenuDown => "Quick Menu Down"@,
            Feature::QuickMenuRight => "Quick Menu Right"@,
            Feature::QuickMenuLeft => "Quick Menu Left"@,
        }
    }

    /// Whether `value` lies in the feature's legal range.
    pub open spec fn accepts(self, value: u8) -> bool {
        value <= self.spec_max_value()
    }

    /// The command code of the feature.
    pub fn command_code(self) -> (code: (u8, u8))
        ensures
            code == self.spec_command_code(),
    {
        match self {
            Feature::Brightness => (0x10, 0x00),
            Feature::Contrast => (0x12, 0x00),
            Feature::Sharpness => (0x87, 0x00),
            Feature::Freesync => (0xE0, 0x0C),
            Feature::BlackEqualizer => (0xE0, 0x02),
            Feature::ProfileSwitch => (0xE0, 0x2C),
            Feature::OsdTransparency => (0xE0, 0x2F),
            Feature::OsdTime => (0xE0, 0x30),
            Feature::ColorVibrance => (0xE0, 0x08),
            Feature::LowBlueLight => (0xE0, 0x0B),
            Feature::SuperResolution => (0xE0, 0x0D),
            Feature::Gamma => (0xE0, 0x07),
            Feature::ColorTemperature => (0xE0, 0x03),
            Feature::Overdrive => (0xE0, 0x09),
            Feature::Red => (0xE0, 0x04),
            Feature::Green => (0xE0, 0x05),
            Feature::Blue => (0xE0, 0x06),
            Feature::Input => (0xE0, 0x2D),
            Feature::QuickMenuUp => (0xE0, 0x32),
            Feature::QuickMenuDown => (0xE0, 0x33),
            Feature::QuickMenuRight => (0xE0, 0x34),
            Feature::QuickMenuLeft => (0xE0, 0x35),
        }
    }

    /// The largest value the feature accepts.
    pub fn max_value(self) -> (max: u8)
        ensures
            max == self.spec_max_value(),
    {
        match self {
            Feature::Brightness | Feature::Contrast => 100,
            Feature::Red | Feature::Green | Feature::Blue => 100,
            Feature::Sharpness | Feature::LowBlueLight => 10,
            Feature::Freesync => 1,
            Feature::BlackEqualizer | Feature::ColorVibrance => 20,
            Feature::ProfileSwitch => 255,
            Feature::OsdTransparency | Feature::SuperResolution => 4,
            Feature::OsdTime => 6,
            Feature::Gamma => 5,
            Feature::ColorTemperature => 3,
            Feature::Overdrive | Feature::Input => 2,
            Feature::QuickMenuUp | Feature::QuickMenuDown => 7,
            Feature::QuickMenuRight | Feature::QuickMenuLeft => 7,
        }
    }

    /// The name under which messages cite the feature.
    pub fn name(self) -> (name: &'static str)
        ensures
            name@ == self.spec_name(),
    {
        match self {
            Feature::Brightness => "Brightness",
            Feature::Contrast => "Contrast",
            Feature::Sharpness => "Sharpness",
            Feature::Freesync => "Freesync",
            Feature::BlackEqualizer => "Black Equalizer",
            Feature::ProfileSwitch => "Profile",
            Feature::OsdTransparency => "OSD transparency",
            Feature::OsdTime => "OSD display time",
            Feature::ColorVibrance => "Color Vibrance",
            Feature::LowBlueLight => "Low Blue Light",
            Feature::SuperResolution => "Super Resolution",
            Feature::Gamma => "Gamma",
            Feature::ColorTemperature => "Color Temperature",
            Feature::Overdrive => "Overdrive",
            Feature::Red => "Red",
            Feature::Green => "Green",
            Feature::Blue => "Blue",
            Feature::Input => "Input",
            Feature::QuickMenuUp => "Quick Menu Up",
            Feature::QuickMenuDown => "Quick Menu Down",
            Feature::QuickMenuRight => "Quick Menu Right",
            Feature::QuickMenuLeft => "Quick Menu Left",
        }
    }

    /// The registry entry of the feature.
    pub fn entry(self) -> (entry: FeatureSpec)
        ensures
            entry.name@ == self.spec_name(),
            entry.command_code == self.spec_command_code(),
            entry.max_value == self.spec_max_value(),
    {
        FeatureSpec {
            name: self.name(),
            command_code: self.command_code(),
            max_value: self.max_value(),
        }
    }
}

} // verus!
