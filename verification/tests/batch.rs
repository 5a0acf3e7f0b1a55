use gbmon::batch::{process_args, requests, step, Options, Request, Step};
use gbmon::error::Error;
use gbmon::feature::Feature;

fn payloads(steps: &[Step]) -> Vec<Vec<u8>> {
    steps
        .iter()
        .map(|step| match step {
            Step::Send(request) => request.payload.clone(),
            other => panic!("expected a write, got {:?}", other),
        })
        .collect()
}

#[test]
fn an_empty_batch_has_no_step() {
    let opt = Options::default();
    assert!(requests(&opt).is_empty());
    assert!(process_args(&opt).is_empty());
}

#[test]
fn requests_come_in_the_fixed_order() {
    let opt = Options {
        brightness: Some(1),
        contrast: Some(2),
        sharpness: Some(3),
        freesync: Some(true),
        black_equalizer: Some(5),
        osd_transparency: Some(4),
        osd_time: Some(6),
        profile: Some(String::from("movie")),
        color_vibrance: Some(8),
        low_blue_light: Some(9),
        super_resolution: Some(4),
        gamma: Some(5),
        color_temperature: Some(3),
        overdrive: Some(2),
        red: Some(14),
        green: Some(15),
        blue: Some(16),
        input: Some(2),
        qm_up: Some(7),
        qm_left: Some(6),
        qm_down: Some(5),
        qm_right: Some(4),
        print: Some(false),
    };
    let set = |feature: Feature, value: u8| Request::SetFeature { feature, value };
    assert_eq!(
        requests(&opt),
        vec![
            Request::Print,
            set(Feature::Brightness, 1),
            set(Feature::Contrast, 2),
            set(Feature::Sharpness, 3),
            set(Feature::Freesync, 1),
            set(Feature::BlackEqualizer, 5),
            set(Feature::OsdTransparency, 4),
            set(Feature::OsdTime, 6),
            set(Feature::ColorVibrance, 8),
            set(Feature::LowBlueLight, 9),
            set(Feature::SuperResolution, 4),
            set(Feature::Gamma, 5),
            set(Feature::ColorTemperature, 3),
            set(Feature::Overdrive, 2),
            set(Feature::Red, 14),
            set(Feature::Green, 15),
            set(Feature::Blue, 16),
            set(Feature::Input, 2),
            set(Feature::QuickMenuUp, 7),
            set(Feature::QuickMenuLeft, 6),
            set(Feature::QuickMenuDown, 5),
            set(Feature::QuickMenuRight, 4),
            Request::Profile { name: String::from("movie") },
        ]
    );
    let steps = process_args(&opt);
    assert_eq!(steps.len(), 23);
    assert!(matches!(steps[0], Step::PrintValues));
    let codes: Vec<(u8, u8, u8)> =
        payloads(&steps[1..]).iter().map(|p| (p[4], p[5], p[6])).collect();
    assert_eq!(
        codes,
        vec![
            (0x10, 0x00, 1),
            (0x12, 0x00, 2),
            (0x87, 0x00, 3),
            (0xE0, 0x0C, 1),
            (0xE0, 0x02, 5),
            (0xE0, 0x2F, 4),
            (0xE0, 0x30, 6),
            (0xE0, 0x08, 8),
            (0xE0, 0x0B, 9),
            (0xE0, 0x0D, 4),
            (0xE0, 0x07, 5),
            (0xE0, 0x03, 3),
            (0xE0, 0x09, 2),
            (0xE0, 0x04, 14),
            (0xE0, 0x05, 15),
            (0xE0, 0x06, 16),
            (0xE0, 0x2D, 2),
            (0xE0, 0x32, 7),
            (0xE0, 0x35, 6),
            (0xE0, 0x33, 5),
            (0xE0, 0x34, 4),
            (0xE0, 0x2C, 3),
        ]
    );
}

#[test]
fn a_batch_stops_at_the_first_refused_request() {
    let opt = Options {
        brightness: Some(50),
        gamma: Some(9),
        blue: Some(1),
        profile: Some(String::from("srgb")),
        ..Options::default()
    };
    assert_eq!(requests(&opt).len(), 4);
    let steps = process_args(&opt);
    assert_eq!(steps.len(), 2);
    assert_eq!(payloads(&steps[..1]), vec![vec![0x6E, 0x51, 0x84, 0x03, 0x10, 0x00, 0x32]]);
    match &steps[1] {
        Step::Fail(error) => {
            assert_eq!(*error, Error::OutOfRange { feature: Feature::Gamma, value: 9, max: 5 });
            assert_eq!(error.message(), "Gamma must be between 0 and 5");
        }
        other => panic!("expected a failure, got {:?}", other),
    }
}

#[test]
fn an_unknown_profile_fails_after_the_writes_before_it() {
    let opt = Options {
        contrast: Some(100),
        profile: Some(String::from("ultrawide")),
        ..Options::default()
    };
    let steps = process_args(&opt);
    assert_eq!(steps.len(), 2);
    assert_eq!(payloads(&steps[..1]), vec![vec![0x6E, 0x51, 0x84, 0x03, 0x12, 0x00, 100]]);
    match &steps[1] {
        Step::Fail(error) => assert_eq!(*error, Error::UnknownProfile),
        other => panic!("expected a failure, got {:?}", other),
    }
}

#[test]
fn a_known_profile_is_switched_by_its_index() {
    let opt = Options { profile: Some(String::from("custom3")), ..Options::default() };
    let steps = process_args(&opt);
    assert_eq!(payloads(&steps), vec![vec![0x6E, 0x51, 0x84, 0x03, 0xE0, 0x2C, 8]]);
}

#[test]
fn freesync_off_is_the_value_zero() {
    let opt = Options { freesync: Some(false), ..Options::default() };
    assert_eq!(
        requests(&opt),
        vec![Request::SetFeature { feature: Feature::Freesync, value: 0 }]
    );
    let steps = process_args(&opt);
    assert_eq!(payloads(&steps), vec![vec![0x6E, 0x51, 0x84, 0x03, 0xE0, 0x0C, 0]]);
}

#[test]
fn any_print_flag_asks_for_the_settings_first() {
    for flag in [true, false] {
        let opt = Options { print: Some(flag), red: Some(3), ..Options::default() };
        let steps = process_args(&opt);
        assert_eq!(steps.len(), 2);
        assert!(matches!(steps[0], Step::PrintValues));
        assert_eq!(payloads(&steps[1..]), vec![vec![0x6E, 0x51, 0x84, 0x03, 0xE0, 0x04, 3]]);
    }
}

#[test]
fn single_requests_become_single_steps() {
    assert!(matches!(step(&Request::Print), Step::PrintValues));
    match step(&Request::SetFeature { feature: Feature::Input, value: 3 }) {
        Step::Fail(error) => {
            assert_eq!(error, Error::OutOfRange { feature: Feature::Input, value: 3, max: 2 })
        }
        other => panic!("expected a failure, got {:?}", other),
    }
    match step(&Request::Profile { name: String::from("fps") }) {
        Step::Send(request) => {
            assert_eq!(request.payload, vec![0x6E, 0x51, 0x84, 0x03, 0xE0, 0x2C, 1])
        }
        other => panic!("expected a write, got {:?}", other),
    }
}
