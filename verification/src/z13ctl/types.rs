//! The messages of the z13ctl daemon. One request and one response, each a JSON
//! object on a line of its own.

use vstd::prelude::*;

verus! {

/// A request. Fields that hold nothing are not sent.
#[derive(Clone, Debug)]
pub struct Request {
    pub cmd: String,
    pub mode: Option<String>,
    pub color: Option<String>,
    pub color2: Option<String>,
    pub speed: Option<String>,
    pub brightness: Option<i32>,
    pub set: Option<String>,
    pub device: Option<String>,
    pub events: Option<Vec<String>>,
    pub pl1: Option<String>,
    pub pl2: Option<String>,
    pub pl3: Option<String>,
    pub force: Option<bool>,
}

/// The model of a [`Request`].
pub struct RequestView {
    pub cmd: Seq<char>,
    pub mode: Option<Seq<char>>,
    pub color: Option<Seq<char>>,
    pub color2: Option<Seq<char>>,
    pub speed: Option<Seq<char>>,
    pub brightness: Option<i32>,
    pub set: Option<Seq<char>>,
    pub device: Option<Seq<char>>,
    pub events: Option<Seq<Seq<char>>>,
    pub pl1: Option<Seq<char>>,
    pub pl2: Option<Seq<char>>,
    pub pl3: Option<Seq<char>>,
    pub force: Option<bool>,
}

impl View for Request {
    type V = RequestView;

    open spec fn view(&self) -> RequestView {
        RequestView {
            cmd: self.cmd@,
            mode: self.mode.deep_view(),
            color: self.color.deep_view(),
            color2: self.color2.deep_view(),
            speed: self.speed.deep_view(),
            brightness: self.brightness,
            set: self.set.deep_view(),
            device: self.device.deep_view(),
            events: self.events.deep_view(),
            pl1: self.pl1.deep_view(),
            pl2: self.pl2.deep_view(),
            pl3: self.pl3.deep_view(),
            force: self.force,
        }
    }
}

/// A request that carries its command only.
pub open spec fn bare_request(cmd: Seq<char>) -> RequestView {
    RequestView {
        cmd,
        mode: None,
        color: None,
        color2: None,
        speed: None,
        brightness: None,
        set: None,
        device: None,
        events: None,
        pl1: None,
        pl2: None,
        pl3: None,
        force: None,
    }
}

impl Request {
    /// A request that carries its command only.
    pub fn bare(cmd: &str) -> (result: Self)
        ensures
            result@ == bare_request(cmd@),
    {
        Request {
            cmd: String::from_str(cmd),
            mode: None,
            color: None,
            color2: None,
            speed: None,
            brightness: None,
            set: None,
            device: None,
            events: None,
            pl1: None,
            pl2: None,
            pl3: None,
            force: None,
        }
    }
}

impl Default for Request {
    fn default() -> (result: Self)
        ensures
            result@ == bare_request(Seq::empty()),
    {
        Request {
            cmd: String::new(),
            mode: None,
            color: None,
            color2: None,
            speed: None,
            brightness: None,
            set: None,
            device: None,
            events: None,
            pl1: None,
            pl2: None,
            pl3: None,
            force: None,
        }
    }
}

/// A response. A field that is missing on the wire holds nothing.
#[derive(Clone, Debug)]
pub struct Response {
    pub ok: bool,
    pub error: Option<String>,
    pub value: Option<String>,
    pub state: Option<State>,
    pub event: Option<String>,
}

/// The state of the machine as the daemon reports it.
#[derive(Clone, Debug)]
pub struct State {
    pub lighting: LightingState,
    /// Lighting by device; no device occurs twice.
    pub devices: Option<Vec<(String, LightingState)>>,
    pub profile: Option<String>,
    pub battery_limit: Option<i32>,
    pub boot_sound: Option<i32>,
    pub panel_overdrive: Option<i32>,
    pub fan_curve: Option<FanCurveState>,
    pub tdp: Option<TdpState>,
    pub undervolt: Option<UndervoltState>,
    pub undervolt_available: bool,
    pub temperature: Option<i32>,
    pub fan_rpm: Option<i32>,
}

impl Default for State {
    fn default() -> (result: Self)
        ensures
            !result.lighting.enabled,
            result.lighting.mode@ == Seq::<char>::empty(),
            result.lighting.color@ == Seq::<char>::empty(),
            result.lighting.color2@ == Seq::<char>::empty(),
            result.lighting.speed@ == Seq::<char>::empty(),
            result.lighting.brightness == 0,
            result.devices is None,
            result.profile is None,
            result.battery_limit is None,
            result.boot_sound is None,
            result.panel_overdrive is None,
            result.fan_curve is None,
            result.tdp is None,
            result.undervolt is None,
            !result.undervolt_available,
            result.temperature is None,
            result.fan_rpm is None,
    {
        State {
            lighting: LightingState::default(),
            devices: None,
            profile: None,
            battery_limit: None,
            boot_sound: None,
            panel_overdrive: None,
            fan_curve: None,
            tdp: None,
            undervolt: None,
            undervolt_available: false,
            temperature: None,
            fan_rpm: None,
        }
    }
}

/// The lighting of a device.
#[derive(Clone, Debug)]
pub struct LightingState {
    pub enabled: bool,
    pub mode: String,
    pub color: String,
    pub color2: String,
    pub speed: String,
    pub brightness: i32,
}

impl Default for LightingState {
    fn default() -> (result: Self)
        ensures
            !result.enabled,
            result.mode@ == Seq::<char>::empty(),
            result.color@ == Seq::<char>::empty(),
            result.color2@ == Seq::<char>::empty(),
            result.speed@ == Seq::<char>::empty(),
            result.brightness == 0,
    {
        LightingState {
            enabled: false,
            mode: String::new(),
            color: String::new(),
            color2: String::new(),
            speed: String::new(),
            brightness: 0,
        }
    }
}

/// A point of a fan curve.
#[derive(Clone, Copy, Debug, PartialEq, Eq)]
pub struct FanCurvePoint {
    pub temp: i32,
    pub pwm: i32,
}

/// The fan curve in force.
#[derive(Clone, Debug)]
pub struct FanCurveState {
    pub mode: i32,
    pub points: Vec<FanCurvePoint>,
}

/// The undervolt in force.
#[derive(Clone, Copy, Debug, PartialEq, Eq)]
pub struct UndervoltState {
    pub cpu_co: i32,
    pub active: bool,
}

/// The power limits in force, in watts.
#[derive(Clone, Copy, Debug, PartialEq, Eq)]
pub struct TdpState {
    pub pl1_spl: i32,
    pub pl2_sppt: i32,
    pub fppt: i32,
    pub apu_sppt: i32,
    pub platform_sppt: i32,
}

} // verus!
