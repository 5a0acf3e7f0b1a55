use gbmon::control::{
    profile_index, set_black_equalizer, set_blue, set_brightness, set_color_temperature,
    set_color_vibrance, set_contrast, set_freesync, set_gamma, set_green, set_input,
    set_low_blue_light, set_osd_time, set_osd_transparency, set_overdrive, set_qm_down,
    set_qm_left, set_qm_right, set_qm_up, set_red, set_sharpness, set_super_resolution,
    set_value, switch_profile, switch_profile_by_name,
};
use gbmon::error::Error;
use gbmon::feature::Feature;
use gbmon::frame::{
    page_read, page_select, write_value_control, ControlWrite, COMMAND_DELAY_MS, PAGE_LEN,
};

const ALL: [Feature; 22] = [
    Feature::Brightness,
    Feature::Contrast,
    Feature::Sharpness,
    Feature::Freesync,
    Feature::BlackEqualizer,
    Feature::ProfileSwitch,
    Feature::OsdTransparency,
    Feature::OsdTime,
    Feature::ColorVibrance,
    Feature::LowBlueLight,
    Feature::SuperResolution,
    Feature::Gamma,
    Feature::ColorTemperature,
    Feature::Overdrive,
    Feature::Red,
    Feature::Green,
    Feature::Blue,
    Feature::Input,
    Feature::QuickMenuUp,
    Feature::QuickMenuDown,
    Feature::QuickMenuRight,
    Feature::QuickMenuLeft,
];

fn payload_of(outcome: Result<ControlWrite, Error>) -> Vec<u8> {
    match outcome {
        Ok(request) => request.payload,
        Err(error) => panic!("unexpected error: {}", error.message()),
    }
}

#[test]
fn brightness_50_gives_the_documented_payload() {
    let request = set_brightness(50).unwrap();
    assert_eq!(request.payload, vec![0x6E, 0x51, 0x84, 0x03, 0x10, 0x00, 0x32]);
    assert_eq!(request.request_type, 0x40);
    assert_eq!(request.request, 178);
    assert_eq!(request.value, 0x0000);
    assert_eq!(request.index, 0x0000);
    assert_eq!(request.timeout_ms, 100);
    assert_eq!(request.delay_ms, 50);
}

#[test]
fn brightness_101_is_refused_with_the_range_message() {
    let error = set_brightness(101).unwrap_err();
    assert_eq!(
        error,
        Error::OutOfRange { feature: Feature::Brightness, value: 101, max: 100 }
    );
    assert!(error.is_validation());
    let message = error.message();
    assert_eq!(message, "Brightness must be between 0 and 100");
    assert!(message.contains("0 and 100"));
}

#[test]
fn every_value_is_accepted_exactly_up_to_the_maximum() {
    for feature in ALL {
        let max = feature.max_value();
        let code = feature.command_code();
        for value in 0..=255u8 {
            match set_value(feature, value) {
                Ok(request) => {
                    assert!(value <= max);
                    assert_eq!(
                        request.payload,
                        vec![0x6E, 0x51, 0x84, 0x03, code.0, code.1, value]
                    );
                }
                Err(error) => {
                    assert!(value > max);
                    assert_eq!(error, Error::OutOfRange { feature, value, max });
                }
            }
        }
    }
}

#[test]
fn every_payload_opens_with_the_prefix() {
    for feature in ALL {
        let request = set_value(feature, 0).unwrap();
        assert_eq!(request.payload.len(), 7);
        assert_eq!(&request.payload[..4], &[0x6E, 0x51, 0x84, 0x03]);
    }
    let request = write_value_control((0xAB, 0xCD), 0xEF);
    assert_eq!(request.payload, vec![0x6E, 0x51, 0x84, 0x03, 0xAB, 0xCD, 0xEF]);
}

#[test]
fn registered_maxima() {
    let expected: [(Feature, u8); 22] = [
        (Feature::Brightness, 100),
        (Feature::Contrast, 100),
        (Feature::Sharpness, 10),
        (Feature::Freesync, 1),
        (Feature::BlackEqualizer, 20),
        (Feature::ProfileSwitch, 255),
        (Feature::OsdTransparency, 4),
        (Feature::OsdTime, 6),
        (Feature::ColorVibrance, 20),
        (Feature::LowBlueLight, 10),
        (Feature::SuperResolution, 4),
        (Feature::Gamma, 5),
        (Feature::ColorTemperature, 3),
        (Feature::Overdrive, 2),
        (Feature::Red, 100),
        (Feature::Green, 100),
        (Feature::Blue, 100),
        (Feature::Input, 2),
        (Feature::QuickMenuUp, 7),
        (Feature::QuickMenuDown, 7),
        (Feature::QuickMenuRight, 7),
        (Feature::QuickMenuLeft, 7),
    ];
    for (feature, max) in expected {
        assert_eq!(feature.max_value(), max);
        assert_eq!(feature.entry().max_value, max);
    }
}

#[test]
fn registered_command_codes() {
    let expected: [(Feature, (u8, u8)); 22] = [
        (Feature::Brightness, (0x10, 0x00)),
        (Feature::Contrast, (0x12, 0x00)),
        (Feature::Sharpness, (0x87, 0x00)),
        (Feature::Freesync, (0xE0, 0x0C)),
        (Feature::BlackEqualizer, (0xE0, 0x02)),
        (Feature::ProfileSwitch, (0xE0, 0x2C)),
        (Feature::OsdTransparency, (0xE0, 0x2F)),
        (Feature::OsdTime, (0xE0, 0x30)),
        (Feature::ColorVibrance, (0xE0, 0x08)),
        (Feature::LowBlueLight, (0xE0, 0x0B)),
        (Feature::SuperResolution, (0xE0, 0x0D)),
        (Feature::Gamma, (0xE0, 0x07)),
        (Feature::ColorTemperature, (0xE0, 0x03)),
        (Feature::Overdrive, (0xE0, 0x09)),
        (Feature::Red, (0xE0, 0x04)),
        (Feature::Green, (0xE0, 0x05)),
        (Feature::Blue, (0xE0, 0x06)),
        (Feature::Input, (0xE0, 0x2D)),
        (Feature::QuickMenuUp, (0xE0, 0x32)),
        (Feature::QuickMenuDown, (0xE0, 0x33)),
        (Feature::QuickMenuRight, (0xE0, 0x34)),
        (Feature::QuickMenuLeft, (0xE0, 0x35)),
    ];
    for (feature, code) in expected {
        assert_eq!(feature.command_code(), code);
        assert_eq!(feature.entry().command_code, code);
    }
}

#[test]
fn registered_names() {
    assert_eq!(Feature::Brightness.name(), "Brightness");
    assert_eq!(Feature::BlackEqualizer.name(), "Black Equalizer");
    assert_eq!(Feature::OsdTransparency.name(), "OSD transparency");
    assert_eq!(Feature::OsdTime.name(), "OSD display time");
    assert_eq!(Feature::QuickMenuRight.name(), "Quick Menu Right");
    assert_eq!(Feature::Gamma.entry().name, "Gamma");
}

#[test]
fn each_named_setter_uses_its_own_feature() {
    assert_eq!(payload_of(set_contrast(100))[4..], [0x12, 0x00, 100]);
    assert_eq!(payload_of(set_sharpness(10))[4..], [0x87, 0x00, 10]);
    assert_eq!(payload_of(set_freesync(1))[4..], [0xE0, 0x0C, 1]);
    assert_eq!(payload_of(set_black_equalizer(20))[4..], [0xE0, 0x02, 20]);
    assert_eq!(payload_of(set_osd_transparency(4))[4..], [0xE0, 0x2F, 4]);
    assert_eq!(payload_of(set_osd_time(6))[4..], [0xE0, 0x30, 6]);
    assert_eq!(payload_of(set_color_vibrance(20))[4..], [0xE0, 0x08, 20]);
    assert_eq!(payload_of(set_low_blue_light(10))[4..], [0xE0, 0x0B, 10]);
    assert_eq!(payload_of(set_super_resolution(4))[4..], [0xE0, 0x0D, 4]);
    assert_eq!(payload_of(set_gamma(5))[4..], [0xE0, 0x07, 5]);
    assert_eq!(payload_of(set_color_temperature(3))[4..], [0xE0, 0x03, 3]);
    assert_eq!(payload_of(set_overdrive(2))[4..], [0xE0, 0x09, 2]);
    assert_eq!(payload_of(set_red(100))[4..], [0xE0, 0x04, 100]);
    assert_eq!(payload_of(set_green(100))[4..], [0xE0, 0x05, 100]);
    assert_eq!(payload_of(set_blue(100))[4..], [0xE0, 0x06, 100]);
    assert_eq!(payload_of(set_input(2))[4..], [0xE0, 0x2D, 2]);
    assert_eq!(payload_of(set_qm_up(7))[4..], [0xE0, 0x32, 7]);
    assert_eq!(payload_of(set_qm_down(7))[4..], [0xE0, 0x33, 7]);
    assert_eq!(payload_of(set_qm_right(7))[4..], [0xE0, 0x34, 7]);
    assert_eq!(payload_of(set_qm_left(7))[4..], [0xE0, 0x35, 7]);
}

#[test]
fn each_named_setter_refuses_the_value_above_its_maximum() {
    assert_eq!(set_contrast(101).unwrap_err().message(), "Contrast must be between 0 and 100");
    assert_eq!(set_sharpness(11).unwrap_err().message(), "Sharpness must be between 0 and 10");
    assert_eq!(set_freesync(2).unwrap_err().message(), "Freesync must be between 0 and 1");
    assert_eq!(
        set_black_equalizer(21).unwrap_err().message(),
        "Black Equalizer must be between 0 and 20"
    );
    assert_eq!(
        set_osd_transparency(5).unwrap_err().message(),
        "OSD transparency must be between 0 and 4"
    );
    assert_eq!(set_osd_time(7).unwrap_err().message(), "OSD display time must be between 0 and 6");
    assert_eq!(
        set_color_vibrance(21).unwrap_err().message(),
        "Color Vibrance must be between 0 and 20"
    );
    assert_eq!(
        set_low_blue_light(11).unwrap_err().message(),
        "Low Blue Light must be between 0 and 10"
    );
    assert_eq!(
        set_super_resolution(5).unwrap_err().message(),
        "Super Resolution must be between 0 and 4"
    );
    assert_eq!(set_gamma(6).unwrap_err().message(), "Gamma must be between 0 and 5");
    assert_eq!(
        set_color_temperature(4).unwrap_err().message(),
        "Color Temperature must be between 0 and 3"
    );
    assert_eq!(set_overdrive(3).unwrap_err().message(), "Overdrive must be between 0 and 2");
    assert_eq!(set_red(101).unwrap_err().message(), "Red must be between 0 and 100");
    assert_eq!(set_green(255).unwrap_err().message(), "Green must be between 0 and 100");
    assert_eq!(set_blue(200).unwrap_err().message(), "Blue must be between 0 and 100");
    assert_eq!(set_input(3).unwrap_err().message(), "Input must be between 0 and 2");
    assert_eq!(set_qm_up(8).unwrap_err().message(), "Quick Menu Up must be between 0 and 7");
    assert_eq!(set_qm_down(8).unwrap_err().message(), "Quick Menu Down must be between 0 and 7");
    assert_eq!(set_qm_right(8).unwrap_err().message(), "Quick Menu Right must be between 0 and 7");
    assert_eq!(set_qm_left(8).unwrap_err().message(), "Quick Menu Left must be between 0 and 7");
}

#[test]
fn zero_is_accepted_by_every_feature() {
    for feature in ALL {
        assert!(set_value(feature, 0).is_ok());
    }
}

#[test]
fn profile_switch_takes_any_index() {
    for value in [0u8, 5, 8, 9, 255] {
        let request = switch_profile(value);
        assert_eq!(request.payload, vec![0x6E, 0x51, 0x84, 0x03, 0xE0, 0x2C, value]);
        assert_eq!(request.request_type, 0x40);
        assert_eq!(request.request, 178);
        assert_eq!(request.timeout_ms, 100);
        assert_eq!(request.delay_ms, COMMAND_DELAY_MS);
        assert!(set_value(Feature::ProfileSwitch, value).is_ok());
    }
}

#[test]
fn srgb_is_profile_five_and_ultrawide_is_rejected() {
    assert_eq!(profile_index("srgb"), Some(5));
    assert_eq!(profile_index("ultrawide"), None);
    let request = switch_profile_by_name("srgb").unwrap();
    assert_eq!(request.payload, vec![0x6E, 0x51, 0x84, 0x03, 0xE0, 0x2C, 5]);
    let error = switch_profile_by_name("ultrawide").unwrap_err();
    assert_eq!(error, Error::UnknownProfile);
    assert!(error.is_validation());
    assert_eq!(error.message(), "Please use a valid profile name");
}

#[test]
fn every_profile_name_has_its_index() {
    let names = [
        "standard", "fps", "rtsrpg", "movie", "reader", "srgb", "custom1", "custom2", "custom3",
    ];
    for (index, name) in names.iter().enumerate() {
        assert_eq!(profile_index(name), Some(index as u8));
    }
    assert_eq!(profile_index(""), None);
    assert_eq!(profile_index("Standard"), None);
    assert_eq!(profile_index("custom4"), None);
    assert_eq!(profile_index("srgb "), None);
}

#[test]
fn page_select_and_page_read_have_the_documented_shape() {
    let first = page_select(0x50);
    assert_eq!(first.payload, vec![0x6E, 0x51, 0x83, 0x01, 0xE0, 0x50]);
    assert_eq!(first.request_type, 0x40);
    assert_eq!(first.request, 178);
    assert_eq!(first.value, 0);
    assert_eq!(first.index, 0);
    assert_eq!(first.timeout_ms, 100);
    assert_eq!(first.delay_ms, 50);
    let second = page_select(0x51);
    assert_eq!(second.payload, vec![0x6E, 0x51, 0x83, 0x01, 0xE0, 0x51]);
    let read = page_read();
    assert_eq!(read.request_type, 0xC0);
    assert_eq!(read.request, 162);
    assert_eq!(read.value, 0);
    assert_eq!(read.index, 111);
    assert_eq!(read.length, 36);
    assert_eq!(read.length, PAGE_LEN);
    assert_eq!(read.timeout_ms, 1000);
    assert_eq!(read.delay_ms, 50);
}

#[test]
fn transport_errors_carry_their_cause() {
    let error = Error::transport(String::from("Operation timed out"));
    assert!(!error.is_validation());
    assert_eq!(error.message(), "Operation timed out");
    assert_eq!(error, Error::Transport { cause: String::from("Operation timed out") });
    let incomplete = Error::incomplete_read();
    assert!(!incomplete.is_validation());
    assert_eq!(incomplete.message(), "Incomplete page read");
}
