//! The encoder: checks a requested value against the feature's range and
//! builds the write that asks the monitor for the change.

use vstd::prelude::*;
use vstd::string::*;
use crate::error::{Error, ErrorModel};
use crate::feature::Feature;
use crate::frame::{
    lemma_set_payload_prefix, set_payload, set_prefix, write_request, write_value_control,
    ControlWrite,
};

verus! {

/// What setting `feature` to `value` comes to: the write that carries the
/// feature's command code and the value when the value is in range, and
/// otherwise the range error, with no write at all.
pub open spec fn set_outcome(
    outcome: Result<ControlWrite, Error>,
    feature: Feature,
    value: u8,
) -> bool {
    if value <= feature.spec_max_value() {
        outcome matches Ok(request) && request@ == write_request(
            set_payload(feature.spec_command_code(), value),
        )
    } else {
        outcome matches Err(error) && error@ == (ErrorModel::OutOfRange {
            feature,
            value,
            max: feature.spec_max_value(),
        })
    }
}

/// Validates `value` against the range of `feature` and encodes the write
/// that sets it. An out-of-range value yields the error and no write.
pub fn set_value(feature: Feature, value: u8) -> (outcome: Result<ControlWrite, Error>)
    ensures
        set_outcome(outcome, feature, value),
        outcome is Ok <==> feature.accepts(value),
        outcome matches Ok(request) ==> request@.payload.len() == 7 && request@.payload.subrange(
            0,
            4,
        ) == set_prefix(),
{
    let max = feature.max_value();
    if value <= max {
        proof {
            lemma_set_payload_prefix(feature.spec_command_code(), value);
        }
        Ok(write_value_control(feature.command_code(), value))
    } else {
        Err(Error::OutOfRange { feature, value, max })
    }
}

/// Encodes the write that sets the brightness.
pub fn set_brightness(value: u8) -> (outcome: Result<ControlWrite, Error>)
    ensures
        set_outcome(outcome, Feature::Brightness, value),
{
    set_value(Feature::Brightness, value)
}

/// Encodes the write that sets the contrast.
pub fn set_contrast(value: u8) -> (outcome: Result<ControlWrite, Error>)
    ensures
        set_outcome(outcome, Feature::Contrast, value),
{
    set_value(Feature::Contrast, value)
}

/// Encodes the write that sets the sharpness.
pub fn set_sharpness(value: u8) -> (outcome: Result<ControlWrite, Error>)
    ensures
        set_outcome(outcome, Feature::Sharpness, value),
{
    set_value(Feature::Sharpness, value)
}

/// Encodes the write that sets the FreeSync switch.
pub fn set_freesync(value: u8) -> (outcome: Result<ControlWrite, Error>)
    ensures
        set_outcome(outcome, Feature::Freesync, value),
{
    set_value(Feature::Freesync, value)
}

/// Encodes the write that sets the black equalizer.
pub fn set_black_equalizer(value: u8) -> (outcome: Result<ControlWrite, Error>)
    ensures
        set_outcome(outcome, Feature::BlackEqualizer, value),
{
    set_value(Feature::BlackEqualizer, value)
}

/// Encodes the write that sets the transparency of the on-screen display.
pub fn set_osd_transparency(value: u8) -> (outcome: Result<ControlWrite, Error>)
    ensures
        set_outcome(outcome, Feature::OsdTransparency, value),
{
    set_value(Feature::OsdTransparency, value)
}

/// Encodes the write that sets the display time of the on-screen display.
pub fn set_osd_time(value: u8) -> (outcome: Result<ControlWrite, Error>)
    ensures
        set_outcome(outcome, Feature::OsdTime, value),
{
    set_value(Feature::OsdTime, value)
}

/// Encodes the write that sets the color vibrance.
pub fn set_color_vibrance(value: u8) -> (outcome: Result<ControlWrite, Error>)
    ensures
        set_outcome(outcome, Feature::ColorVibrance, value),
{
    set_value(Feature::ColorVibrance, value)
}

/// Encodes the write that sets the low-blue-light level.
pub fn set_low_blue_light(value: u8) -> (outcome: Result<ControlWrite, Error>)
    ensures
        set_outcome(outcome, Feature::LowBlueLight, value),
{
    set_value(Feature::LowBlueLight, value)
}

/// Encodes the write that sets the super-resolution level.
pub fn set_super_resolution(value: u8) -> (outcome: Result<ControlWrite, Error>)
    ensures
        set_outcome(outcome, Feature::SuperResolution, value),
{
    set_value(Feature::SuperResolution, value)
}

/// Encodes the write that sets the gamma preset.
pub fn set_gamma(value: u8) -> (outcome: Result<ControlWrite, Error>)
    ensures
        set_outcome(outcome, Feature::Gamma, value),
{
    set_value(Feature::Gamma, value)
}

/// Encodes the write that sets the color-temperature preset.
pub fn set_color_temperature(value: u8) -> (outcome: Result<ControlWrite, Error>)
    ensures
        set_outcome(outcome, Feature::ColorTemperature, value),
{
    set_value(Feature::ColorTemperature, value)
}

/// Encodes the write that sets the overdrive level.
pub fn set_overdrive(value: u8) -> (outcome: Result<ControlWrite, Error>)
    ensures
        set_outcome(outcome, Feature::Overdrive, value),
{
    set_value(Feature::Overdrive, value)
}

/// Encodes the write that sets the red gain.
pub fn set_red(value: u8) -> (outcome: Result<ControlWrite, Error>)
    ensures
        set_outcome(outcome, Feature::Red, value),
{
    set_value(Feature::Red, value)
}

/// Encodes the write that sets the green gain.
pub fn set_green(value: u8) -> (outcome: Result<ControlWrite, Error>)
    ensures
        set_outcome(outcome, Feature::Green, value),
{
    set_value(Feature::Green, value)
}

/// Encodes the write that sets the blue gain.
pub fn set_blue(value: u8) -> (outcome: Result<ControlWrite, Error>)
    ensures
        set_outcome(outcome, Feature::Blue, value),
{
    set_value(Feature::Blue, value)
}

/// Encodes the write that sets the input source.
pub fn set_input(value: u8) -> (outcome: Result<ControlWrite, Error>)
    ensures
        set_outcome(outcome, Feature::Input, value),
{
    set_value(Feature::Input, value)
}

/// Encodes the write that sets the quick-menu entry of the up key.
pub fn set_qm_up(value: u8) -> (outcome: Result<ControlWrite, Error>)
    ensures
        set_outcome(outcome, Feature::QuickMenuUp, value),
{
    set_value(Feature::QuickMenuUp, value)
}

/// Encodes the write that sets the quick-menu entry of the left key.
pub fn set_qm_left(value: u8) -> (outcome: Result<ControlWrite, Error>)
    ensures
        set_outcome(outcome, Feature::QuickMenuLeft, value),
{
    set_value(Feature::QuickMenuLeft, value)
}

/// Encodes the write that sets the quick-menu entry of the down key.
pub fn set_qm_down(value: u8) -> (outcome: Result<ControlWrite, Error>)
    ensures
        set_outcome(outcome, Feature::QuickMenuDown, value),
{
    set_value(Feature::QuickMenuDown, value)
}

/// Encodes the write that sets the quick-menu entry of the right key.
pub fn set_qm_right(value: u8) -> (outcome: Result<ControlWrite, Error>)
    ensures
        set_outcome(outcome, Feature::QuickMenuRight, value),
{
    set_value(Feature::QuickMenuRight, value)
}

/// Encodes the write that switches to the profile with the given index. The
/// index is bounded by its width alone.
pub fn switch_profile(value: u8) -> (request: ControlWrite)
    ensures
        request@ == write_request(set_payload(Feature::ProfileSwitch.spec_command_code(), value)),
{
    write_value_control(Feature::ProfileSwitch.command_code(), value)
}

/// The index of the profile called `name`, if there is one.
pub open spec fn spec_profile_index(name: Seq<char>) -> Option<u8> {
    if name == "standard"@ {
        Some(0u8)
    } else if name == "fps"@ {
        Some(1u8)
    } else if name == "rtsrpg"@ {
        Some(2u8)
    } else if name == "movie"@ {
        Some(3u8)
    } else if name == "reader"@ {
        Some(4u8)
    } else if name == "srgb"@ {
        Some(5u8)
    } else if name == "custom1"@ {
        Some(6u8)
    } else if name == "custom2"@ {
        Some(7u8)
    } else if name == "custom3"@ {
        Some(8u8)
    } else {
        None
    }
}

/// Whether two texts are the same.
fn same_text(left: &str, right: &str) -> (same: bool)
    ensures
        same == (left@ == right@),
{
    String::from_str(left) == String::from_str(right)
}

/// Looks up the index of the profile called `name`.
pub fn profile_index(name: &str) -> (index: Option<u8>)
    ensures
        index == spec_profile_index(name@),
{
    if same_text(name, "standard") {
        Some(0)
    } else if same_text(name, "fps") {
        Some(1)
    } else if same_text(name, "rtsrpg") {
        Some(2)
    } else if same_text(name, "movie") {
        Some(3)
    } else if same_text(name, "reader") {
        Some(4)
    } else if same_text(name, "srgb") {
        Some(5)
    } else if same_text(name, "custom1") {
        Some(6)
    } else if same_text(name, "custom2") {
        Some(7)
    } else if same_text(name, "custom3") {
        Some(8)
    } else {
        None
    }
}

/// What switching to the profile called `name` comes to: the write that
/// carries the profile's index, or the error of an unknown name.
pub open spec fn profile_outcome(outcome: Result<ControlWrite, Error>, name: Seq<char>) -> bool {
    match spec_profile_index(name) {
        Some(index) => outcome matches Ok(request) && request@ == write_request(
            set_payload(Feature::ProfileSwitch.spec_command_code(), index),
        ),
        None => outcome matches Err(error) && error@ == ErrorModel::UnknownProfile,
    }
}

/// Encodes the write that switches to the profile called `name`. An unknown
/// name yields the error and no write.
pub fn switch_profile_by_name(name: &str) -> (outcome: Result<ControlWrite, Error>)
    ensures
        profile_outcome(outcome, name@),
{
    match profile_index(name) {
        Some(index) => Ok(switch_profile(index)),
        None => Err(Error::UnknownProfile),
    }
}

} // verus!
