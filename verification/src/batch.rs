//! A batch of requests, as a command line states it, and the steps that
//! carry it out: which writes to send, in which order, and where to stop.

use vstd::prelude::*;
use crate::control::{set_value, spec_profile_index, switch_profile_by_name};
use crate::error::{Error, ErrorModel};
use crate::feature::Feature;
use crate::frame::{set_payload, write_request, ControlWrite, ControlWriteModel};

verus! {

/// What one invocation asks for. A field that is `None` asks for nothing.
#[derive(Clone, Debug, Default)]
pub struct Options {
    pub brightness: Option<u8>,
    pub contrast: Option<u8>,
    pub sharpness: Option<u8>,
    pub freesync: Option<bool>,
    pub black_equalizer: Option<u8>,
    pub osd_transparency: Option<u8>,
    pub osd_time: Option<u8>,
    pub profile: Option<String>,
    pub color_vibrance: Option<u8>,
    pub low_blue_light: Option<u8>,
    pub super_resolution: Option<u8>,
    pub gamma: Option<u8>,
    pub color_temperature: Option<u8>,
    pub overdrive: Option<u8>,
    pub red: Option<u8>,
    pub green: Option<u8>,
    pub blue: Option<u8>,
    pub input: Option<u8>,
    pub qm_up: Option<u8>,
    pub qm_left: Option<u8>,
    pub qm_down: Option<u8>,
    pub qm_right: Option<u8>,
    pub print: Option<bool>,
}

/// One request of a batch.
#[derive(Clone, Debug, PartialEq, Eq)]
pub enum Request {
    /// Read the settings back and show them.
    Print,
    /// Set a feature to a value.
    SetFeature { feature: Feature, value: u8 },
    /// Switch to the profile with this name.
    Profile { name: String },
}

/// Mathematical model of a [`Request`].
pub ghost enum RequestModel {
    Print,
    SetFeature { feature: Feature, value: u8 },
    Profile { name: Seq<char> },
}

impl View for Request {
    type V = RequestModel;

    open spec fn view(&self) -> RequestModel {
        match *self {
            Request::Print => RequestModel::Print,
            Request::SetFeature { feature, value } => RequestModel::SetFeature { feature, value },
            Request::Profile { name } => RequestModel::Profile { name: name@ },
        }
    }
}

/// One step in carrying out a batch.
#[derive(Clone, Debug)]
pub enum Step {
    /// Read the settings back and show them.
    PrintValues,
    /// Send this write.
    Send(ControlWrite),
    /// Stop here with this error. Nothing is sent for the failed request,
    /// and no step follows.
    Fail(Error),
}

/// Mathematical model of a [`Step`].
pub ghost enum StepModel {
    PrintValues,
    Send(ControlWriteModel),
    Fail(ErrorModel),
}

impl View for Step {
    type V = StepModel;

    open spec fn view(&self) -> StepModel {
        match *self {
            Step::PrintValues => StepModel::PrintValues,
            Step::Send(request) => StepModel::Send(request@),
            Step::Fail(error) => StepModel::Fail(error@),
        }
    }
}

/// The models of a sequence of requests.
pub open spec fn request_models(requests: Seq<Request>) -> Seq<RequestModel> {
    Seq::new(requests.len(), |i: int| requests[i]@)
}

/// The models of a sequence of steps.
pub open spec fn step_models(steps: Seq<Step>) -> Seq<StepModel> {
    Seq::new(steps.len(), |i: int| steps[i]@)
}

/// The request to show the settings, if it is made. Any value of the flag
/// makes it.
pub open spec fn print_request(flag: Option<bool>) -> Seq<RequestModel> {
    match flag {
        Some(_) => seq![RequestModel::Print],
        None => Seq::empty(),
    }
}

/// The request to set `feature`, if a value is given.
pub open spec fn set_request(feature: Feature, value: Option<u8>) -> Seq<RequestModel> {
    match value {
        Some(value) => seq![RequestModel::SetFeature { feature, value }],
        None => Seq::empty(),
    }
}

/// The request to switch a feature that is either on or off, if a choice is
/// given: on is the value 1, off the value 0.
pub open spec fn switch_request(feature: Feature, choice: Option<bool>) -> Seq<RequestModel> {
    match choice {
        Some(on) => seq![RequestModel::SetFeature { feature, value: if on { 1u8 } else { 0u8 } }],
        None => Seq::empty(),
    }
}

/// The request to switch the profile, if a name is given.
pub open spec fn profile_request(name: Option<String>) -> Seq<RequestModel> {
    match name {
        Some(name) => seq![RequestModel::Profile { name: name@ }],
        None => Seq::empty(),
    }
}

/// The requests that `opt` makes, in the order in which they are carried
/// out.
pub open spec fn requested(opt: Options) -> Seq<RequestModel> {
    print_request(opt.print)
        + set_request(Feature::Brightness, opt.brightness)
        + set_request(Feature::Contrast, opt.contrast)
        + set_request(Feature::Sharpness, opt.sharpness)
        + switch_request(Feature::Freesync, opt.freesync)
        + set_request(Feature::BlackEqualizer, opt.black_equalizer)
        + set_request(Feature::OsdTransparency, opt.osd_transparency)
        + set_request(Feature::OsdTime, opt.osd_time)
        + set_request(Feature::ColorVibrance, opt.color_vibrance)
        + set_request(Feature::LowBlueLight, opt.low_blue_light)
        + set_request(Feature::SuperResolution, opt.super_resolution)
        + set_request(Feature::Gamma, opt.gamma)
        + set_request(Feature::ColorTemperature, opt.color_temperature)
        + set_request(Feature::Overdrive, opt.overdrive)
        + set_request(Feature::Red, opt.red)
        + set_request(Feature::Green, opt.green)
        + set_request(Feature::Blue, opt.blue)
        + set_request(Feature::Input, opt.input)
        + set_request(Feature::QuickMenuUp, opt.qm_up)
        + set_request(Feature::QuickMenuLeft, opt.qm_left)
        + set_request(Feature::QuickMenuDown, opt.qm_down)
        + set_request(Feature::QuickMenuRight, opt.qm_right)
        + profile_request(opt.profile)
}

/// The step that a request comes to when its turn is reached.
pub open spec fn step_of(request: RequestModel) -> StepModel {
    match request {
        RequestModel::Print => StepModel::PrintValues,
        RequestModel::SetFeature { feature, value } => if feature.accepts(value) {
            StepModel::Send(write_request(set_payload(feature.spec_command_code(), value)))
        } else {
            StepModel::Fail(
                ErrorModel::OutOfRange { feature, value, max: feature.spec_max_value() },
            )
        },
        RequestModel::Profile { name } => match spec_profile_index(name) {
            Some(index) => StepModel::Send(
                write_request(set_payload(Feature::ProfileSwitch.spec_command_code(), index)),
            ),
            None => StepModel::Fail(ErrorModel::UnknownProfile),
        },
    }
}

/// Whether the steps end in a failure.
pub open spec fn ends_in_failure(steps: Seq<StepModel>) -> bool {
    steps.len() > 0 && steps.last() is Fail
}

/// The steps that carry out `requests`: the step of each request in turn,
/// up to and including the first that fails.
pub open spec fn plan(requests: Seq<RequestModel>) -> Seq<StepModel>
    decreases requests.len(),
{
    if requests.len() == 0 {
        Seq::empty()
    } else {
        let earlier = plan(requests.drop_last());
        if ends_in_failure(earlier) {
            earlier
        } else {
            earlier.push(step_of(requests.last()))
        }
    }
}

/// A plan follows its requests one for one and stops at the first failure:
/// no step but the last is a failure, and requests are left over only when
/// the last step is one.
pub proof fn lemma_plan_stops_at_first_failure(requests: Seq<RequestModel>)
    ensures
        plan(requests).len() <= requests.len(),
        forall|i: int|
            0 <= i < plan(requests).len() ==> #[trigger] plan(requests)[i] == step_of(requests[i]),
        forall|i: int|
            0 <= i < plan(requests).len() - 1 ==> !(#[trigger] plan(requests)[i] is Fail),
        plan(requests).len() < requests.len() ==> ends_in_failure(plan(requests)),
    decreases requests.len(),
{
    if requests.len() > 0 {
        lemma_plan_stops_at_first_failure(requests.drop_last());
    }
}

/// Appends the request to set `feature`, if a value is given.
fn push_set(requests: &mut Vec<Request>, feature: Feature, value: Option<u8>)
    ensures
        request_models(final(requests)@) == request_models(old(requests)@) + set_request(
            feature,
            value,
        ),
{
    match value {
        Some(value) => {
            requests.push(Request::SetFeature { feature, value });
        },
        None => {},
    }
    assert(request_models(requests@) =~= request_models(old(requests)@) + set_request(
        feature,
        value,
    ));
}

/// Lists the requests that `opt` makes, in the order in which they are
/// carried out.
pub fn requests(opt: &Options) -> (requests: Vec<Request>)
    ensures
        request_models(requests@) == requested(*opt),
{
    let mut requests: Vec<Request> = Vec::new();
    if opt.print.is_some() {
        requests.push(Request::Print);
    }
    assert(request_models(requests@) =~= print_request(opt.print));
    push_set(&mut requests, Feature::Brightness, opt.brightness);
    push_set(&mut requests, Feature::Contrast, opt.contrast);
    push_set(&mut requests, Feature::Sharpness, opt.sharpness);
    let ghost before_switch = requests@;
    match opt.freesync {
        Some(on) => {
            let value: u8 = if on { 1 } else { 0 };
            requests.push(Request::SetFeature { feature: Feature::Freesync, value });
        },
        None => {},
    }
    assert(request_models(requests@) =~= request_models(before_switch) + switch_request(
        Feature::Freesync,
        opt.freesync,
    ));
    push_set(&mut requests, Feature::BlackEqualizer, opt.black_equalizer);
    push_set(&mut requests, Feature::OsdTransparency, opt.osd_transparency);
    push_set(&mut requests, Feature::OsdTime, opt.osd_time);
    push_set(&mut requests, Feature::ColorVibrance, opt.color_vibrance);
    push_set(&mut requests, Feature::LowBlueLight, opt.low_blue_light);
    push_set(&mut requests, Feature::SuperResolution, opt.super_resolution);
    push_set(&mut requests, Feature::Gamma, opt.gamma);
    push_set(&mut requests, Feature::ColorTemperature, opt.color_temperature);
    push_set(&mut requests, Feature::Overdrive, opt.overdrive);
    push_set(&mut requests, Feature::Red, opt.red);
    push_set(&mut requests, Feature::Green, opt.green);
    push_set(&mut requests, Feature::Blue, opt.blue);
    push_set(&mut requests, Feature::Input, opt.input);
    push_set(&mut requests, Feature::QuickMenuUp, opt.qm_up);
    push_set(&mut requests, Feature::QuickMenuLeft, opt.qm_left);
    push_set(&mut requests, Feature::QuickMenuDown, opt.qm_down);
    push_set(&mut requests, Feature::QuickMenuRight, opt.qm_right);
    let ghost before_profile = requests@;
    match &opt.profile {
        Some(name) => {
            requests.push(Request::Profile { name: name.clone() });
        },
        None => {},
    }
    assert(request_models(requests@) =~= request_models(before_profile) + profile_request(
        opt.profile,
    ));
    requests
}

/// Works out the step that a request comes to.
pub fn step(request: &Request) -> (step: Step)
    ensures
        step@ == step_of(request@),
{
    match request {
        Request::Print => Step::PrintValues,
        Request::SetFeature { feature, value } => match set_value(*feature, *value) {
            Ok(write) => Step::Send(write),
            Err(error) => Step::Fail(error),
        },
        Request::Profile { name } => match switch_profile_by_name(name.as_str()) {
            Ok(write) => Step::Send(write),
            Err(error) => Step::Fail(error),
        },
    }
}

/// Works out the steps that carry out the requests of `opt`: one step for
/// each request in turn, up to and including the first request that is
/// refused.
pub fn process_args(opt: &Options) -> (steps: Vec<Step>)
    ensures
        step_models(steps@) == plan(requested(*opt)),
{
    let requests = requests(opt);
    let ghost wanted = request_models(requests@);
    let mut steps: Vec<Step> = Vec::new();
    let mut failed = false;
    let mut k: usize = 0;
    assert(step_models(steps@) =~= plan(wanted.take(0)));
    while k < requests.len() && !failed
        invariant
            k <= requests@.len(),
            wanted == request_models(requests@),
            step_models(steps@) == plan(wanted.take(k as int)),
            failed == ends_in_failure(step_models(steps@)),
        decreases requests@.len() - k,
    {
        let next = step(&requests[k]);
        proof {
            assert(wanted.take(k + 1).drop_last() =~= wanted.take(k as int));
            assert(wanted.take(k + 1).last() == requests@[k as int]@);
        }
        failed = match &next {
            Step::Fail(_) => true,
            _ => false,
        };
        let ghost earlier = step_models(steps@);
        steps.push(next);
        assert(step_models(steps@) =~= earlier.push(next@));
        k = k + 1;
    }
    proof {
        lemma_plan_is_final_once_failed(wanted, k as int);
    }
    steps
}

/// Once the plan of the first `upto` requests ends in a failure, the later
/// requests add nothing to it.
proof fn lemma_plan_is_final_once_failed(requests: Seq<RequestModel>, upto: int)
    requires
        0 <= upto <= requests.len(),
        upto < requests.len() ==> ends_in_failure(plan(requests.take(upto))),
    ensures
        plan(requests) == plan(requests.take(upto)),
    decreases requests.len() - upto,
{
    if upto == requests.len() {
        assert(requests.take(upto) =~= requests);
    } else {
        assert(requests.take(upto + 1).drop_last() =~= requests.take(upto));
        lemma_plan_is_final_once_failed(requests, upto + 1);
    }
}

} // verus!
