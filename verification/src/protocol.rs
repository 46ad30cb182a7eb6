//! Requests, responses and status of the daemon's socket protocol.

use vstd::prelude::*;

use crate::curve::{curve_valid, Curve, HIGH_POWER_THRESHOLD_W};
use crate::error::WireError;
use crate::profile::{
    check_curve, curve_error_text, is_known_ppd_profile, known_ppd,
    lemma_curve_without_error_is_valid, lemma_valid_curve_has_no_error, profile_error, stock_ppt,
    stock_ppt_of, FanControlMode, Profile, ProfileView,
};
use crate::text::{chars_of, quoted, quoted_text, same};
use crate::text_map::distinct_names;

verus! {

pub const PROTOCOL_VERSION: u32 = 3;

/// Maximum encoded size, including the terminating newline, of one frame in
/// either direction.
pub const MAX_FRAME_BYTES: usize = 65536;

pub const MAX_FAN_TEMPERATURE_AVERAGE_SECONDS: u8 = 15;

// ---------------------------------------------------------------------------
// Identities
// ---------------------------------------------------------------------------

/// The lower-case hexadecimal digit of a value below 16.
pub open spec fn hex_char(value: nat) -> char {
    if value == 10 {
        'a'
    } else if value == 11 {
        'b'
    } else if value == 12 {
        'c'
    } else if value == 13 {
        'd'
    } else if value == 14 {
        'e'
    } else if value == 15 {
        'f'
    } else {
        crate::text::digit_char(value)
    }
}

/// The value of a hexadecimal digit of either case.
pub open spec fn hex_digit(c: char) -> Option<nat> {
    if '0' <= c <= '9' {
        Some((c as u32 - '0' as u32) as nat)
    } else if 'a' <= c <= 'f' {
        Some((c as u32 - 'a' as u32 + 10) as nat)
    } else if 'A' <= c <= 'F' {
        Some((c as u32 - 'A' as u32 + 10) as nat)
    } else {
        None
    }
}

/// The last `width` hexadecimal digits of a value.
pub open spec fn hex_digits(value: nat, width: nat) -> Seq<char>
    decreases width,
{
    if width == 0 {
        Seq::empty()
    } else {
        hex_digits(value / 16, (width - 1) as nat).push(hex_char(value % 16))
    }
}

/// The value of a text of hexadecimal digits.
pub open spec fn hex_value(text: Seq<char>) -> nat
    decreases text.len(),
{
    if text.len() == 0 {
        0
    } else {
        16 * hex_value(text.drop_last()) + hex_digit(text.last())->0
    }
}

pub open spec fn is_hex(text: Seq<char>) -> bool {
    forall|i: int| 0 <= i < text.len() ==> hex_digit(#[trigger] text[i]) is Some
}

/// 16 to the power of `exponent`.
pub open spec fn power_of_16(exponent: nat) -> nat
    decreases exponent,
{
    if exponent == 0 {
        1
    } else {
        16 * power_of_16((exponent - 1) as nat)
    }
}

proof fn lemma_hex_value_bound(text: Seq<char>)
    requires
        is_hex(text),
    ensures
        hex_value(text) < power_of_16(text.len()),
    decreases text.len(),
{
    if text.len() > 0 {
        assert(hex_digit(text[text.len() - 1]) is Some);
        assert forall|i: int| 0 <= i < text.drop_last().len() implies hex_digit(
            #[trigger] text.drop_last()[i],
        ) is Some by {
            assert(text.drop_last()[i] == text[i]);
        }
        lemma_hex_value_bound(text.drop_last());
    }
}

proof fn lemma_u128_has_32_digits()
    ensures
        power_of_16(32) == u128::MAX + 1,
{
    reveal_with_fuel(power_of_16, 33);
}

proof fn lemma_hex_digits(value: nat, width: nat)
    requires
        value < power_of_16(width),
    ensures
        hex_digits(value, width).len() == width,
        is_hex(hex_digits(value, width)),
        hex_value(hex_digits(value, width)) == value,
    decreases width,
{
    if width > 0 {
        lemma_hex_digits(value / 16, (width - 1) as nat);
        let shorter = hex_digits(value / 16, (width - 1) as nat);
        let text = hex_digits(value, width);
        assert(hex_digit(hex_char(value % 16)) == Some(value % 16));
        assert(text.drop_last() =~= shorter);
        assert forall|i: int| 0 <= i < text.len() implies hex_digit(#[trigger] text[i]) is Some by {
            if i < width - 1 {
                assert(text[i] == shorter[i]);
            }
        }
    }
}

fn hex_digit_text(value: u128) -> (result: &'static str)
    requires
        value < 16,
    ensures
        result@ == seq![hex_char(value as nat)],
{
    proof {
        reveal_strlit("0");
        reveal_strlit("1");
        reveal_strlit("2");
        reveal_strlit("3");
        reveal_strlit("4");
        reveal_strlit("5");
        reveal_strlit("6");
        reveal_strlit("7");
        reveal_strlit("8");
        reveal_strlit("9");
        reveal_strlit("a");
        reveal_strlit("b");
        reveal_strlit("c");
        reveal_strlit("d");
        reveal_strlit("e");
        reveal_strlit("f");
    }
    match value {
        0 => "0",
        1 => "1",
        2 => "2",
        3 => "3",
        4 => "4",
        5 => "5",
        6 => "6",
        7 => "7",
        8 => "8",
        9 => "9",
        10 => "a",
        11 => "b",
        12 => "c",
        13 => "d",
        14 => "e",
        _ => "f",
    }
}

fn hex_text(value: u128, width: u32) -> (result: String)
    ensures
        result@ == hex_digits(value as nat, width as nat),
    decreases width,
{
    if width == 0 {
        String::new()
    } else {
        let mut text: String = hex_text(value / 16, width - 1);
        text.append(hex_digit_text(value % 16));
        assert(text@ =~= hex_digits(value as nat, width as nat));
        text
    }
}

fn digit_of(c: char) -> (result: Option<u8>)
    ensures
        match result {
            Some(digit) => hex_digit(c) == Some(digit as nat) && digit < 16,
            None => hex_digit(c) is None,
        },
{
    if '0' <= c && c <= '9' {
        Some((c as u32 - '0' as u32) as u8)
    } else if 'a' <= c && c <= 'f' {
        Some((c as u32 - 'a' as u32 + 10) as u8)
    } else if 'A' <= c && c <= 'F' {
        Some((c as u32 - 'A' as u32 + 10) as u8)
    } else {
        None
    }
}

/// A process-scoped, unpredictable client identity that namespaces request ids
/// in the daemon's outcome cache. It is written as 32 hexadecimal digits.
#[derive(Clone, Copy, Debug, PartialEq, Eq, PartialOrd, Ord, Hash)]
pub struct ClientId {
    value: u128,
}

impl ClientId {
    /// An identity is never zero.
    #[verifier::type_invariant]
    spec fn is_nonzero(self) -> bool {
        self.value != 0
    }

    /// The number behind the identity.
    pub closed spec fn number(self) -> u128 {
        self.value
    }

    /// The written form: 32 lower-case hexadecimal digits.
    pub open spec fn hex(self) -> Seq<char> {
        hex_digits(self.number() as nat, 32)
    }

    pub fn new(value: u128) -> (result: Option<Self>)
        ensures
            match result {
                Some(id) => value != 0 && id.number() == value,
                None => value == 0,
            },
    {
        if value == 0 {
            None
        } else {
            Some(ClientId { value })
        }
    }

    pub fn get(self) -> (result: u128)
        ensures
            result == self.number(),
            result != 0,
    {
        proof {
            use_type_invariant(&self);
        }
        self.value
    }

    /// Whether both are the same identity.
    pub fn same_as(self, other: ClientId) -> (result: bool)
        ensures
            result == (self.number() == other.number()),
            result == (self == other),
    {
        self.value == other.value
    }

    /// The written form: 32 lower-case hexadecimal digits.
    pub fn to_hex(&self) -> (result: String)
        ensures
            result@ == self.hex(),
    {
        hex_text(self.value, 32)
    }

    /// Reads the written form, in either case.
    pub fn parse(text: &str) -> (result: Result<Self, &'static str>)
        ensures
            match result {
                Ok(id) => text@.len() == 32 && is_hex(text@) && id.number() == hex_value(text@)
                    && id.number() != 0,
                Err(message) => if text@.len() == 32 && is_hex(text@) {
                    hex_value(text@) == 0 && message@ == "client ID must be non-zero"@
                } else {
                    message@ == "client ID must be exactly 32 hexadecimal digits"@
                },
            },
    {
        let chars: Vec<char> = chars_of(text);
        if chars.len() != 32 {
            return Err("client ID must be exactly 32 hexadecimal digits");
        }
        let mut value: u128 = 0;
        let mut i: usize = 0;
        while i < chars.len()
            invariant
                chars@ == text@,
                chars@.len() == 32,
                i <= 32,
                is_hex(text@.take(i as int)),
                value == hex_value(text@.take(i as int)),
            decreases 32 - i,
        {
            let ghost sofar = text@.take(i as int);
            let ghost longer = text@.take(i + 1);
            match digit_of(chars[i]) {
                Some(digit) => {
                    proof {
                        assert(longer.drop_last() =~= sofar);
                        assert(longer.last() == text@[i as int]);
                        assert forall|k: int| 0 <= k < longer.len() implies hex_digit(
                            #[trigger] longer[k],
                        ) is Some by {
                            if k < i {
                                assert(longer[k] == sofar[k]);
                            }
                        }
                        lemma_hex_value_bound(longer);
                        lemma_power_grows(longer.len(), 32);
                        lemma_u128_has_32_digits();
                    }
                    value = value * 16 + digit as u128;
                },
                None => {
                    assert(hex_digit(text@[i as int]) is None);
                    return Err("client ID must be exactly 32 hexadecimal digits");
                },
            }
            i = i + 1;
        }
        assert(text@.take(32) =~= text@);
        match ClientId::new(value) {
            Some(id) => Ok(id),
            None => Err("client ID must be non-zero"),
        }
    }
}

proof fn lemma_power_grows(small: nat, large: nat)
    requires
        small <= large,
    ensures
        power_of_16(small) <= power_of_16(large),
    decreases large,
{
    if small < large {
        lemma_power_grows(small, (large - 1) as nat);
    }
}

impl std::str::FromStr for ClientId {
    type Err = &'static str;

    fn from_str(text: &str) -> Result<Self, &'static str> {
        ClientId::parse(text)
    }
}

/// The written form of an identity is 32 hexadecimal digits, and reading it
/// back gives the same number.
pub proof fn law_client_id_survives_writing(id: ClientId)
    ensures
        id.hex().len() == 32,
        is_hex(id.hex()),
        hex_value(id.hex()) == id.number(),
{
    lemma_u128_has_32_digits();
    lemma_hex_digits(id.number() as nat, 32);
}

/// A non-zero identifier of one client request.
///
/// Clients may use the same identifier when reconnecting, to retrieve the
/// outcome of a request that was already accepted.
#[derive(Clone, Copy, Debug, PartialEq, Eq, PartialOrd, Ord, Hash)]
pub struct RequestId {
    value: u64,
}

impl RequestId {
    /// An identifier is never zero.
    #[verifier::type_invariant]
    spec fn is_nonzero(self) -> bool {
        self.value != 0
    }

    /// The number behind the identifier.
    pub closed spec fn number(self) -> u64 {
        self.value
    }

    pub fn new(value: u64) -> (result: Option<Self>)
        ensures
            match result {
                Some(id) => value != 0 && id.number() == value,
                None => value == 0,
            },
    {
        if value == 0 {
            None
        } else {
            Some(RequestId { value })
        }
    }

    pub fn get(self) -> (result: u64)
        ensures
            result == self.number(),
            result != 0,
    {
        proof {
            use_type_invariant(&self);
        }
        self.value
    }

    /// Whether both are the same identifier.
    pub fn same_as(self, other: RequestId) -> (result: bool)
        ensures
            result == (self.number() == other.number()),
            result == (self == other),
    {
        self.value == other.value
    }

    /// Accepts a number read from the wire.
    pub fn from_number(value: u64) -> (result: Result<Self, &'static str>)
        ensures
            match result {
                Ok(id) => value != 0 && id.number() == value,
                Err(message) => value == 0 && message@ == "request ID must be non-zero"@,
            },
    {
        match RequestId::new(value) {
            Some(id) => Ok(id),
            None => Err("request ID must be non-zero"),
        }
    }
}

// ---------------------------------------------------------------------------
// Status
// ---------------------------------------------------------------------------

/// Progress and terminal state of an accepted request.
///
/// A queued request can expire or lose its peer before hardware starts; started
/// work always reaches `Completed`, even if its response socket has gone away.
#[derive(Clone, Copy, Debug, PartialEq, Eq, Structural)]
pub enum RequestOutcome {
    Queued,
    Started,
    Completed,
    Expired,
    Disconnected,
}

/// How far the temperature must reverse before the fans follow, in levels.
#[derive(Clone, Copy, Debug, PartialEq, Eq, Structural)]
pub struct FanHysteresis {
    pub up: u8,
    pub down: u8,
}

impl Default for FanHysteresis {
    fn default() -> (result: Self)
        ensures
            result == (FanHysteresis { up: 3, down: 3 }),
    {
        FanHysteresis { up: 3, down: 3 }
    }
}

impl FanHysteresis {
    /// Both levels lie in 1–5.
    pub open spec fn in_range(self) -> bool {
        1 <= self.up <= 5 && 1 <= self.down <= 5
    }

    pub fn validate(self) -> (result: Result<Self, String>)
        ensures
            match result {
                Ok(same) => self.in_range() && same == self,
                Err(message) => !self.in_range() && message@
                    == "fan hysteresis values must be between 1 and 5"@,
            },
    {
        if self.up < 1 || self.up > 5 || self.down < 1 || self.down > 5 {
            return Err(String::from_str("fan hysteresis values must be between 1 and 5"));
        }
        Ok(self)
    }
}

/// The lighting of one device.
#[derive(Debug, PartialEq, Eq)]
pub struct LightingState {
    pub enabled: bool,
    pub mode: String,
    pub color: String,
    pub color2: String,
    pub speed: String,
    pub brightness: i32,
}

/// The model of a [`LightingState`].
pub struct LightingView {
    pub enabled: bool,
    pub mode: Seq<char>,
    pub color: Seq<char>,
    pub color2: Seq<char>,
    pub speed: Seq<char>,
    pub brightness: i32,
}

impl View for LightingState {
    type V = LightingView;

    open spec fn view(&self) -> LightingView {
        LightingView {
            enabled: self.enabled,
            mode: self.mode@,
            color: self.color@,
            color2: self.color2@,
            speed: self.speed@,
            brightness: self.brightness,
        }
    }
}

impl Clone for LightingState {
    fn clone(&self) -> (result: Self)
        ensures
            result@ == self@,
    {
        LightingState {
            enabled: self.enabled,
            mode: self.mode.clone(),
            color: self.color.clone(),
            color2: self.color2.clone(),
            speed: self.speed.clone(),
            brightness: self.brightness,
        }
    }
}

impl Default for LightingState {
    fn default() -> (result: Self)
        ensures
            result@ == (LightingView {
                enabled: false,
                mode: Seq::empty(),
                color: Seq::empty(),
                color2: Seq::empty(),
                speed: Seq::empty(),
                brightness: 0,
            }),
    {
        LightingState {
            enabled: false,
            mode: String::new(),
            color: String::new(),
            color2: String::new(),
            speed: String::new(),
            brightness: 0,
        }
    }
}

/// The five package power limits in watts.
#[derive(Clone, Copy, Debug, Default, PartialEq, Eq, Structural)]
pub struct TdpState {
    pub pl1_spl: i32,
    pub pl2_sppt: i32,
    pub fppt: i32,
    pub apu_sppt: i32,
    pub platform_sppt: i32,
}

/// The complete stock table of a known power-profiles-daemon profile.
pub open spec fn stock_tdp_of(ppd_profile: Option<Seq<char>>) -> Option<TdpState> {
    if ppd_profile is Some && known_ppd(ppd_profile->0) {
        Some(
            TdpState {
                pl1_spl: stock_ppt_of(ppd_profile).0 as i32,
                pl2_sppt: stock_ppt_of(ppd_profile).1 as i32,
                fppt: stock_ppt_of(ppd_profile).2 as i32,
                apu_sppt: 70,
                platform_sppt: 70,
            },
        )
    } else {
        None
    }
}

/// Measured complete stock table for each selectable firmware policy.
///
/// The firmware retains the last limits written and exposes no factory-read
/// operation, so selecting an unmodified profile rewrites this table explicitly.
pub fn stock_tdp(ppd_profile: Option<&str>) -> (result: Option<TdpState>)
    ensures
        result == stock_tdp_of(ppd_profile.deep_view()),
{
    match ppd_profile {
        Some(profile) => {
            if !is_known_ppd_profile(profile) {
                return None;
            }
            let limits: (u32, u32, u32) = stock_ppt(Some(profile));
            Some(
                TdpState {
                    pl1_spl: limits.0 as i32,
                    pl2_sppt: limits.1 as i32,
                    fppt: limits.2 as i32,
                    apu_sppt: 70,
                    platform_sppt: 70,
                },
            )
        },
        None => None,
    }
}

#[derive(Clone, Copy, Debug, Default, PartialEq, Eq, Structural)]
pub struct UndervoltState {
    pub cpu_co: i32,
    pub active: bool,
}

#[derive(Clone, Copy, Debug, Default, PartialEq, Eq, Structural)]
pub struct OverrideState {
    pub power: bool,
    pub fans: bool,
    pub undervolt: bool,
}

#[derive(Clone, Debug, Default, PartialEq, Eq)]
pub struct Capabilities {
    pub ppd_available: bool,
    pub ppd_profiles: Vec<String>,
    pub firmware_fans: bool,
    pub direct_fans: bool,
    pub undervolt: bool,
    pub keyboard_lighting: bool,
    pub lightbar_lighting: bool,
}

#[derive(Clone, Debug, Default, PartialEq, Eq)]
pub struct Telemetry {
    pub temperature_c: Option<i32>,
    pub fan_rpms: [u32; 2],
}

#[derive(Clone, Debug, Default, PartialEq, Eq)]
pub struct BatteryTelemetry {
    pub charge_percent: Option<u8>,
    pub status: Option<String>,
    pub power_microwatts: Option<u64>,
    pub health_percent: Option<u8>,
}

#[derive(Clone, Debug, Default, PartialEq, Eq)]
pub struct Health {
    pub degraded: bool,
    pub warnings: Vec<String>,
}

/// The persisted machine state.
///
/// `devices` lists the lighting of each device under its name.
#[derive(Clone, Debug)]
pub struct DaemonState {
    pub generation: u64,
    pub profile: Option<String>,
    pub overrides: OverrideState,
    pub ppd_profile: Option<String>,
    pub lighting: LightingState,
    pub devices: Option<Vec<(String, LightingState)>>,
    pub battery_limit: Option<i32>,
    pub battery_one_time_charge: bool,
    pub battery: BatteryTelemetry,
    pub panel_overdrive: Option<i32>,
    pub fan_curves: Option<[Curve; 2]>,
    pub fan_control_mode: FanControlMode,
    pub tdp: Option<TdpState>,
    pub undervolt: Option<UndervoltState>,
    pub cpu_temp_limit: Option<u8>,
    pub undervolt_available: bool,
    pub temperature: Option<i32>,
    pub fan_rpms: [u32; 2],
    pub fan_hysteresis: FanHysteresis,
    pub fan_temperature_average_seconds: u8,
    pub direct_fan_duties: [u8; 2],
    pub high_power_fan_protection: bool,
    pub disable_high_power_fan_protection: bool,
    pub capabilities: Capabilities,
    pub telemetry: Telemetry,
    pub health: Health,
    pub warnings: Vec<String>,
    pub degraded: bool,
}

impl DaemonState {
    /// No device is listed twice.
    pub open spec fn well_formed(self) -> bool {
        self.devices matches Some(devices) ==> distinct_names(devices@)
    }
}

impl Default for DaemonState {
    fn default() -> (result: Self)
        ensures
            result.well_formed(),
            result.generation == 0,
            result.profile.deep_view() == Some("balanced"@),
            result.overrides == (OverrideState { power: false, fans: false, undervolt: false }),
            result.ppd_profile.deep_view() == Some("balanced"@),
            result.lighting@ == (LightingView {
                enabled: true,
                mode: "static"@,
                color: "FF0000"@,
                color2: "000000"@,
                speed: "normal"@,
                brightness: 3,
            }),
            result.devices is None,
            result.battery_limit is None,
            !result.battery_one_time_charge,
            result.battery == (BatteryTelemetry {
                charge_percent: None,
                status: None,
                power_microwatts: None,
                health_percent: None,
            }),
            result.panel_overdrive is None,
            result.fan_curves is None,
            result.fan_control_mode == FanControlMode::Firmware,
            result.tdp is None,
            result.undervolt is None,
            result.cpu_temp_limit is None,
            !result.undervolt_available,
            result.temperature is None,
            result.fan_rpms@ == seq![0u32, 0u32],
            result.fan_hysteresis == (FanHysteresis { up: 3, down: 3 }),
            result.fan_temperature_average_seconds == 6,
            result.direct_fan_duties@ == seq![0u8, 0u8],
            !result.high_power_fan_protection,
            !result.disable_high_power_fan_protection,
            !result.capabilities.ppd_available,
            result.capabilities.ppd_profiles@.len() == 0,
            !result.capabilities.firmware_fans,
            !result.capabilities.direct_fans,
            !result.capabilities.undervolt,
            !result.capabilities.keyboard_lighting,
            !result.capabilities.lightbar_lighting,
            result.telemetry.temperature_c is None,
            result.telemetry.fan_rpms@ == seq![0u32, 0u32],
            !result.health.degraded,
            result.health.warnings@.len() == 0,
            result.warnings@.len() == 0,
            !result.degraded,
    {
        DaemonState {
            generation: 0,
            profile: Some(String::from_str("balanced")),
            overrides: OverrideState { power: false, fans: false, undervolt: false },
            ppd_profile: Some(String::from_str("balanced")),
            lighting: LightingState {
                enabled: true,
                mode: String::from_str("static"),
                color: String::from_str("FF0000"),
                color2: String::from_str("000000"),
                speed: String::from_str("normal"),
                brightness: 3,
            },
            devices: None,
            battery_limit: None,
            battery_one_time_charge: false,
            battery: BatteryTelemetry {
                charge_percent: None,
                status: None,
                power_microwatts: None,
                health_percent: None,
            },
            panel_overdrive: None,
            fan_curves: None,
            fan_control_mode: FanControlMode::Firmware,
            tdp: None,
            undervolt: None,
            cpu_temp_limit: None,
            undervolt_available: false,
            temperature: None,
            fan_rpms: [0, 0],
            fan_hysteresis: FanHysteresis::default(),
            fan_temperature_average_seconds:
                crate::profile::default_fan_temperature_average_seconds(),
            direct_fan_duties: [0, 0],
            high_power_fan_protection: false,
            disable_high_power_fan_protection: false,
            capabilities: Capabilities {
                ppd_available: false,
                ppd_profiles: Vec::new(),
                firmware_fans: false,
                direct_fans: false,
                undervolt: false,
                keyboard_lighting: false,
                lightbar_lighting: false,
            },
            telemetry: Telemetry { temperature_c: None, fan_rpms: [0, 0] },
            health: Health { degraded: false, warnings: Vec::new() },
            warnings: Vec::new(),
            degraded: false,
        }
    }
}

/// The capabilities that a client of the protocol consumes.
#[derive(Clone, Debug, Default, PartialEq, Eq)]
pub struct WireCapabilities {
    pub ppd_profiles: Vec<String>,
    pub direct_fans: bool,
    pub undervolt: bool,
}

/// The status that a response carries.
///
/// `devices` lists the lighting of each device under its name, in the order of
/// the names.
#[derive(Clone, Debug, PartialEq, Eq)]
pub struct WireStatus {
    pub generation: u64,
    pub profile: Option<String>,
    pub overrides: OverrideState,
    pub ppd_profile: Option<String>,
    pub devices: Vec<(String, LightingState)>,
    pub battery_limit: Option<i32>,
    pub battery_one_time_charge: bool,
    pub battery: BatteryTelemetry,
    pub panel_overdrive: Option<bool>,
    pub fan_curves: Option<[Curve; 2]>,
    pub fan_control_mode: FanControlMode,
    pub tdp: Option<TdpState>,
    pub undervolt: Option<UndervoltState>,
    pub cpu_temp_limit: Option<u8>,
    pub fan_hysteresis: FanHysteresis,
    pub fan_temperature_average_seconds: u8,
    pub direct_fan_duties: [u8; 2],
    pub disable_high_power_fan_protection: bool,
    pub capabilities: WireCapabilities,
    pub telemetry: Telemetry,
    pub health: Health,
}

impl WireStatus {
    /// No device is listed twice.
    pub open spec fn well_formed(self) -> bool {
        distinct_names(self.devices@)
    }
}

impl Default for WireStatus {
    fn default() -> (result: Self)
        ensures
            result.well_formed(),
            result.generation == 0,
            result.profile is None,
            result.overrides == (OverrideState { power: false, fans: false, undervolt: false }),
            result.ppd_profile is None,
            result.devices@.len() == 0,
            result.battery_limit is None,
            !result.battery_one_time_charge,
            result.battery == (BatteryTelemetry {
                charge_percent: None,
                status: None,
                power_microwatts: None,
                health_percent: None,
            }),
            result.panel_overdrive is None,
            result.fan_curves is None,
            result.fan_control_mode == FanControlMode::Firmware,
            result.tdp is None,
            result.undervolt is None,
            result.cpu_temp_limit is None,
            result.fan_hysteresis == (FanHysteresis { up: 3, down: 3 }),
            result.fan_temperature_average_seconds == 0,
            result.direct_fan_duties@ == seq![0u8, 0u8],
            !result.disable_high_power_fan_protection,
            result.capabilities.ppd_profiles@.len() == 0,
            !result.capabilities.direct_fans,
            !result.capabilities.undervolt,
            result.telemetry.temperature_c is None,
            result.telemetry.fan_rpms@ == seq![0u32, 0u32],
            !result.health.degraded,
            result.health.warnings@.len() == 0,
    {
        WireStatus {
            generation: 0,
            profile: None,
            overrides: OverrideState { power: false, fans: false, undervolt: false },
            ppd_profile: None,
            devices: Vec::new(),
            battery_limit: None,
            battery_one_time_charge: false,
            battery: BatteryTelemetry {
                charge_percent: None,
                status: None,
                power_microwatts: None,
                health_percent: None,
            },
            panel_overdrive: None,
            fan_curves: None,
            fan_control_mode: FanControlMode::Firmware,
            tdp: None,
            undervolt: None,
            cpu_temp_limit: None,
            fan_hysteresis: FanHysteresis::default(),
            fan_temperature_average_seconds: 0,
            direct_fan_duties: [0, 0],
            disable_high_power_fan_protection: false,
            capabilities: WireCapabilities {
                ppd_profiles: Vec::new(),
                direct_fans: false,
                undervolt: false,
            },
            telemetry: Telemetry { temperature_c: None, fan_rpms: [0, 0] },
            health: Health { degraded: false, warnings: Vec::new() },
        }
    }
}

// ---------------------------------------------------------------------------
// Apply requests
// ---------------------------------------------------------------------------

/// One flattened request: everything the daemon needs to reach a profile's
/// state.
#[derive(Debug, PartialEq)]
pub struct ApplyRequest {
    pub ppd_profile: Option<String>,
    pub power_limits: Option<TdpState>,
    pub fan_mode: FanControlMode,
    pub fan_curves: Option<[Curve; 2]>,
    pub undervolt: Option<i32>,
    pub cpu_temp_limit: u8,
    pub fan_hysteresis: FanHysteresis,
    pub fan_temperature_average_seconds: u8,
    pub disable_high_power_fan_protection: bool,
}

/// The model of an [`ApplyRequest`].
pub struct ApplyRequestView {
    pub ppd_profile: Option<Seq<char>>,
    pub power_limits: Option<TdpState>,
    pub fan_mode: FanControlMode,
    pub fan_curves: Option<[Curve; 2]>,
    pub undervolt: Option<i32>,
    pub cpu_temp_limit: u8,
    pub fan_hysteresis: FanHysteresis,
    pub fan_temperature_average_seconds: u8,
    pub disable_high_power_fan_protection: bool,
}

impl View for ApplyRequest {
    type V = ApplyRequestView;

    open spec fn view(&self) -> ApplyRequestView {
        ApplyRequestView {
            ppd_profile: self.ppd_profile.deep_view(),
            power_limits: self.power_limits,
            fan_mode: self.fan_mode,
            fan_curves: self.fan_curves,
            undervolt: self.undervolt,
            cpu_temp_limit: self.cpu_temp_limit,
            fan_hysteresis: self.fan_hysteresis,
            fan_temperature_average_seconds: self.fan_temperature_average_seconds,
            disable_high_power_fan_protection: self.disable_high_power_fan_protection,
        }
    }
}

impl Clone for ApplyRequest {
    fn clone(&self) -> (result: Self)
        ensures
            result@ == self@,
    {
        ApplyRequest {
            ppd_profile: self.ppd_profile.clone(),
            power_limits: self.power_limits,
            fan_mode: self.fan_mode,
            fan_curves: self.fan_curves,
            undervolt: self.undervolt,
            cpu_temp_limit: self.cpu_temp_limit,
            fan_hysteresis: self.fan_hysteresis,
            fan_temperature_average_seconds: self.fan_temperature_average_seconds,
            disable_high_power_fan_protection: self.disable_high_power_fan_protection,
        }
    }
}

/// The text of an optional string, borrowed.
pub(crate) fn borrowed(text: &Option<String>) -> (result: Option<&str>)
    ensures
        result.deep_view() == text.deep_view(),
{
    match text {
        Some(value) => Some(value.as_str()),
        None => None,
    }
}

/// PL1 as a wattage: a negative limit counts as zero.
pub open spec fn watts_of(limits: TdpState) -> u32 {
    if limits.pl1_spl < 0 {
        0
    } else {
        limits.pl1_spl as u32
    }
}

fn watts(limits: TdpState) -> (result: u32)
    ensures
        result == watts_of(limits),
{
    if limits.pl1_spl < 0 {
        0
    } else {
        limits.pl1_spl as u32
    }
}

/// The limits that a profile asks for, when it asks for custom ones.
pub open spec fn custom_limits(profile: ProfileView) -> Option<TdpState> {
    if profile.apply_power_limits {
        Some(
            TdpState {
                pl1_spl: profile.pl1_spl as i32,
                pl2_sppt: profile.pl2_sppt as i32,
                fppt: profile.fppt as i32,
                apu_sppt: profile.pl2_sppt as i32,
                platform_sppt: profile.pl2_sppt as i32,
            },
        )
    } else {
        None
    }
}

/// Whether a profile reaches high power without the confirmed override, so that
/// its request must carry curves for the protection.
pub open spec fn needs_protected_curve(profile: ProfileView, disable_protection: bool) -> bool {
    let limits = if profile.apply_power_limits {
        custom_limits(profile)
    } else {
        stock_tdp_of(profile.ppd_profile)
    };
    limits is Some && watts_of(limits->0) >= HIGH_POWER_THRESHOLD_W && !disable_protection
}

/// The request of a profile.
pub open spec fn request_of(profile: ProfileView, disable_protection: bool) -> ApplyRequestView {
    ApplyRequestView {
        ppd_profile: profile.ppd_profile,
        power_limits: custom_limits(profile),
        fan_mode: profile.fan_control_mode,
        fan_curves: if profile.apply_fan_curve || needs_protected_curve(
            profile,
            disable_protection,
        ) {
            Some(
                if profile.unified_fan_control {
                    [profile.fan_curves@[0], profile.fan_curves@[0]]
                } else {
                    profile.fan_curves
                },
            )
        } else {
            None
        },
        undervolt: if profile.apply_undervolt {
            Some(profile.cpu_co)
        } else {
            None
        },
        cpu_temp_limit: profile.cpu_temp_limit,
        fan_hysteresis: FanHysteresis {
            up: profile.fan_hysteresis_up,
            down: profile.fan_hysteresis_down,
        },
        fan_temperature_average_seconds: profile.fan_temperature_average_seconds,
        disable_high_power_fan_protection: disable_protection,
    }
}

impl ApplyRequestView {
    /// The limits that the daemon writes: custom ones, else the stock table.
    pub open spec fn effective_limits(self) -> Option<TdpState> {
        if self.power_limits is Some {
            self.power_limits
        } else {
            stock_tdp_of(self.ppd_profile)
        }
    }

    /// The sustained limit that the request leads to, in watts.
    pub open spec fn effective_watts(self) -> u32 {
        match self.effective_limits() {
            Some(limits) => watts_of(limits),
            None => stock_ppt_of(self.ppd_profile).0,
        }
    }

    /// Whether fan protection must stand before the limits are written.
    pub open spec fn is_protected(self) -> bool {
        self.effective_watts() >= HIGH_POWER_THRESHOLD_W && !self.disable_high_power_fan_protection
    }
}

/// The first limit out of its range, as the message it is refused with.
pub open spec fn limits_error(limits: TdpState) -> Option<Seq<char>> {
    if !(5 <= limits.pl1_spl <= 93) {
        Some("PL1 must be between 5 and 93 watts"@)
    } else if !(5 <= limits.pl2_sppt <= 93) {
        Some("PL2 must be between 5 and 93 watts"@)
    } else if !(5 <= limits.fppt <= 120) {
        Some("FPPT must be between 5 and 120 watts"@)
    } else if !(5 <= limits.apu_sppt <= 93) {
        Some("APU SPPT must be between 5 and 93 watts"@)
    } else if !(5 <= limits.platform_sppt <= 93) {
        Some("platform SPPT must be between 5 and 93 watts"@)
    } else if !(limits.pl1_spl <= limits.pl2_sppt <= limits.fppt) {
        Some("power limits must satisfy PL1 <= PL2 <= FPPT"@)
    } else {
        None
    }
}

/// The first rule that a request breaks, as the message it is refused with.
pub open spec fn request_error(request: ApplyRequestView) -> Option<Seq<char>> {
    if request.ppd_profile is Some && !known_ppd(request.ppd_profile->0) {
        Some("unknown PPD profile "@ + quoted_text(request.ppd_profile->0))
    } else if request.fan_mode == FanControlMode::Direct && request.fan_curves is None {
        Some("direct fan mode requires complete CPU and GPU curves"@)
    } else if !request.fan_hysteresis.in_range() {
        Some("fan hysteresis values must be between 1 and 5"@)
    } else if request.fan_temperature_average_seconds > MAX_FAN_TEMPERATURE_AVERAGE_SECONDS {
        Some("fan temperature averaging must be between 0 and 15 seconds"@)
    } else if request.fan_curves is Some && curve_error_text(request.fan_curves->0@[0]) is Some {
        curve_error_text(request.fan_curves->0@[0])
    } else if request.fan_curves is Some && curve_error_text(request.fan_curves->0@[1]) is Some {
        curve_error_text(request.fan_curves->0@[1])
    } else if request.power_limits is Some && limits_error(request.power_limits->0) is Some {
        limits_error(request.power_limits->0)
    } else if request.undervolt is Some && !(-40 <= request.undervolt->0 <= 0) {
        Some("Curve Optimizer offset must be between -40 and 0"@)
    } else if !(80 <= request.cpu_temp_limit <= 99) {
        Some("APU temperature limit must be between 80 and 99°C"@)
    } else {
        None
    }
}

fn check_limits(limits: TdpState) -> (result: Result<(), String>)
    ensures
        match limits_error(limits) {
            Some(text) => result matches Err(message) && message@ == text,
            None => result is Ok,
        },
{
    if limits.pl1_spl < 5 || limits.pl1_spl > 93 {
        return Err(String::from_str("PL1 must be between 5 and 93 watts"));
    }
    if limits.pl2_sppt < 5 || limits.pl2_sppt > 93 {
        return Err(String::from_str("PL2 must be between 5 and 93 watts"));
    }
    if limits.fppt < 5 || limits.fppt > 120 {
        return Err(String::from_str("FPPT must be between 5 and 120 watts"));
    }
    if limits.apu_sppt < 5 || limits.apu_sppt > 93 {
        return Err(String::from_str("APU SPPT must be between 5 and 93 watts"));
    }
    if limits.platform_sppt < 5 || limits.platform_sppt > 93 {
        return Err(String::from_str("platform SPPT must be between 5 and 93 watts"));
    }
    if limits.pl2_sppt < limits.pl1_spl || limits.fppt < limits.pl2_sppt {
        return Err(String::from_str("power limits must satisfy PL1 <= PL2 <= FPPT"));
    }
    Ok(())
}

/// The refusal of an unknown power-profiles-daemon profile, given its quoted
/// name.
pub fn unknown_ppd_message(quoted_profile: &str) -> (result: String)
    ensures
        result@ == "unknown PPD profile "@ + quoted_profile@,
{
    let mut text: String = String::from_str("unknown PPD profile ");
    text.append(quoted_profile);
    text
}

impl ApplyRequest {
    /// Flattens a profile into a request.
    ///
    /// A profile that reaches high power carries its curves for the protection
    /// even when it does not apply them itself, unless the confirmed override
    /// disables the protection.
    pub fn from_profile(profile: &Profile, disable_high_power_fan_protection: bool) -> (result:
        Self)
        ensures
            result@ == request_of(profile@, disable_high_power_fan_protection),
    {
        let power_limits: Option<TdpState> = if profile.apply_power_limits {
            Some(
                TdpState {
                    pl1_spl: profile.pl1_spl as i32,
                    pl2_sppt: profile.pl2_sppt as i32,
                    fppt: profile.fppt as i32,
                    apu_sppt: profile.pl2_sppt as i32,
                    platform_sppt: profile.pl2_sppt as i32,
                },
            )
        } else {
            None
        };
        let limits: Option<TdpState> = match power_limits {
            Some(limits) => Some(limits),
            None => stock_tdp(borrowed(&profile.ppd_profile)),
        };
        let effective_pl1: u32 = match limits {
            Some(limits) => watts(limits),
            None => 0,
        };
        let needs_protected: bool = effective_pl1 >= HIGH_POWER_THRESHOLD_W
            && !disable_high_power_fan_protection;
        let fan_curves: [Curve; 2] = if profile.unified_fan_control {
            [profile.fan_curves[0], profile.fan_curves[0]]
        } else {
            profile.fan_curves
        };
        ApplyRequest {
            ppd_profile: profile.ppd_profile.clone(),
            power_limits,
            fan_mode: profile.fan_control_mode,
            fan_curves: if profile.apply_fan_curve || needs_protected {
                Some(fan_curves)
            } else {
                None
            },
            undervolt: if profile.apply_undervolt {
                Some(profile.cpu_co)
            } else {
                None
            },
            cpu_temp_limit: profile.cpu_temp_limit,
            fan_hysteresis: FanHysteresis {
                up: profile.fan_hysteresis_up,
                down: profile.fan_hysteresis_down,
            },
            fan_temperature_average_seconds: profile.fan_temperature_average_seconds,
            disable_high_power_fan_protection,
        }
    }

    /// The limits that the daemon writes: custom ones, else the stock table.
    pub fn effective_power_limits(&self) -> (result: Option<TdpState>)
        ensures
            result == self@.effective_limits(),
    {
        match self.power_limits {
            Some(limits) => Some(limits),
            None => stock_tdp(borrowed(&self.ppd_profile)),
        }
    }

    /// The sustained limit that the request leads to, in watts.
    pub fn effective_pl1(&self) -> (result: u32)
        ensures
            result == self@.effective_watts(),
    {
        match self.effective_power_limits() {
            Some(limits) => watts(limits),
            None => stock_ppt(borrowed(&self.ppd_profile)).0,
        }
    }

    /// Validates a request. The error is that of the first rule it breaks.
    pub fn validate(&self) -> (result: Result<(), String>)
        ensures
            match request_error(self@) {
                Some(text) => result matches Err(message) && message@ == text,
                None => result is Ok,
            },
    {
        if let Some(profile) = &self.ppd_profile {
            if !is_known_ppd_profile(profile.as_str()) {
                return Err(unknown_ppd_message(quoted(profile.as_str()).as_str()));
            }
        }
        if self.fan_mode == FanControlMode::Direct && self.fan_curves.is_none() {
            return Err(String::from_str("direct fan mode requires complete CPU and GPU curves"));
        }
        match self.fan_hysteresis.validate() {
            Ok(_) => {},
            Err(message) => {
                return Err(message);
            },
        }
        if self.fan_temperature_average_seconds > MAX_FAN_TEMPERATURE_AVERAGE_SECONDS {
            return Err(
                String::from_str("fan temperature averaging must be between 0 and 15 seconds"),
            );
        }
        if let Some(curves) = &self.fan_curves {
            let cpu: Result<(), String> = check_curve(&curves[0]);
            if cpu.is_err() {
                return cpu;
            }
            let gpu: Result<(), String> = check_curve(&curves[1]);
            if gpu.is_err() {
                return gpu;
            }
        }
        if let Some(limits) = self.power_limits {
            let checked: Result<(), String> = check_limits(limits);
            if checked.is_err() {
                return checked;
            }
        }
        if let Some(offset) = self.undervolt {
            if offset < -40 || offset > 0 {
                return Err(String::from_str("Curve Optimizer offset must be between -40 and 0"));
            }
        }
        if self.cpu_temp_limit < 80 || self.cpu_temp_limit > 99 {
            return Err(String::from_str("APU temperature limit must be between 80 and 99°C"));
        }
        Ok(())
    }
}

/// The request of a valid profile is accepted, provided that the daemon knows
/// its power-profiles-daemon profile and that direct fan control has curves to
/// follow.
pub proof fn law_valid_profile_gives_valid_request(profile: ProfileView, disable_protection: bool)
    requires
        profile_error(profile) is None,
        profile.ppd_profile is Some ==> known_ppd(profile.ppd_profile->0),
        profile.fan_control_mode == FanControlMode::Direct ==> profile.apply_fan_curve
            || needs_protected_curve(profile, disable_protection),
    ensures
        request_error(request_of(profile, disable_protection)) is None,
{
}

/// A profile's request that reaches high power carries curves for the
/// protection, unless the confirmed override disables it.
pub proof fn law_high_power_request_carries_curves(profile: ProfileView, disable_protection: bool)
    requires
        request_of(profile, disable_protection).is_protected(),
    ensures
        request_of(profile, disable_protection).fan_curves is Some,
        !disable_protection,
{
}

/// With unified fan control, both fans follow the profile's first curve.
pub proof fn law_unified_control_sends_one_curve(profile: ProfileView, disable_protection: bool)
    requires
        profile.unified_fan_control,
        request_of(profile, disable_protection).fan_curves is Some,
    ensures
        request_of(profile, disable_protection).fan_curves->0@[0] == profile.fan_curves@[0],
        request_of(profile, disable_protection).fan_curves->0@[1] == profile.fan_curves@[0],
{
}

/// The stock table of every known profile stays below the high-power threshold.
pub proof fn law_stock_limits_are_safe(ppd_profile: Option<Seq<char>>)
    requires
        stock_tdp_of(ppd_profile) is Some,
    ensures
        watts_of(stock_tdp_of(ppd_profile)->0) < HIGH_POWER_THRESHOLD_W,
{
}

/// The request of a profile carries the profile's own settings, field by field:
/// the policy, the limits exactly if they are applied, the mode, the offset exactly
/// if it is applied, the thermal limit, the levels and the averaging, and the
/// override that was asked for.
pub proof fn law_request_carries_the_profile(
    profile: Profile,
    disable_protection: bool,
    request: ApplyRequest,
)
    requires
        request@ == request_of(profile@, disable_protection),
    ensures
        request.ppd_profile.deep_view() == profile.ppd_profile.deep_view(),
        request.power_limits is Some <==> profile.apply_power_limits,
        request.power_limits matches Some(limits) ==> profile.pl1_spl <= i32::MAX
            && profile.pl2_sppt <= i32::MAX && profile.fppt <= i32::MAX ==> limits.pl1_spl
            == profile.pl1_spl && limits.pl2_sppt == profile.pl2_sppt && limits.fppt == profile.fppt
            && limits.apu_sppt == profile.pl2_sppt && limits.platform_sppt == profile.pl2_sppt,
        request.fan_mode == profile.fan_control_mode,
        request.undervolt is Some <==> profile.apply_undervolt,
        request.undervolt matches Some(offset) ==> offset == profile.cpu_co,
        request.cpu_temp_limit == profile.cpu_temp_limit,
        request.fan_hysteresis.up == profile.fan_hysteresis_up,
        request.fan_hysteresis.down == profile.fan_hysteresis_down,
        request.fan_temperature_average_seconds == profile.fan_temperature_average_seconds,
        request.disable_high_power_fan_protection == disable_protection,
{
}

/// The request of a profile carries curves if the profile applies them or, without
/// the override, its limits reach 80 W, and not else; they are the profile's own,
/// the first one for both fans under unified control.
pub proof fn law_request_carries_the_curves(
    profile: Profile,
    disable_protection: bool,
    request: ApplyRequest,
)
    requires
        request@ == request_of(profile@, disable_protection),
        profile.pl1_spl <= i32::MAX,
    ensures
        request.fan_curves is Some <==> profile.apply_fan_curve || (profile.apply_power_limits
            && profile.pl1_spl >= 80 && !disable_protection),
        request.fan_curves matches Some(curves) ==> curves@[0] == profile.fan_curves@[0],
        request.fan_curves matches Some(curves) ==> curves@[1] == (if profile.unified_fan_control {
            profile.fan_curves@[0]
        } else {
            profile.fan_curves@[1]
        }),
{
    if stock_tdp_of(profile@.ppd_profile) is Some {
        law_stock_limits_are_safe(profile@.ppd_profile);
    }
}

/// The limits that count are the request's own where it has any; else, under a
/// policy with a measured table, those of the table. The sustained one tells
/// whether the request is protected: from 80 W on, without the override.
pub proof fn law_own_limits_come_first(request: ApplyRequestView)
    ensures
        request.power_limits matches Some(limits) ==> request.effective_limits() == Some(limits),
        request.power_limits matches Some(limits) ==> limits.pl1_spl >= 0
            ==> request.effective_watts() == limits.pl1_spl,
        request.power_limits matches Some(limits) ==> limits.pl1_spl < 0
            ==> request.effective_watts() == 0,
        request.power_limits is None && request.ppd_profile is None ==> request.effective_limits()
            is None,
        request.power_limits is None ==> match request.ppd_profile {
            Some(policy) => request.effective_limits() is Some <==> (policy == "power-saver"@
                || policy == "balanced"@ || policy == "performance"@),
            None => true,
        },
        request.power_limits is None ==> request.effective_watts() == stock_ppt_of(
            request.ppd_profile,
        ).0,
        request.power_limits is None ==> (request.effective_limits() matches Some(limits) ==> (
        limits.pl1_spl, limits.pl2_sppt, limits.fppt) == (
            stock_ppt_of(request.ppd_profile).0 as i32,
            stock_ppt_of(request.ppd_profile).1 as i32,
            stock_ppt_of(request.ppd_profile).2 as i32,
        ) && limits.apu_sppt == 70 && limits.platform_sppt == 70),
        request.is_protected() <==> !request.disable_high_power_fan_protection && (
        request.power_limits matches Some(limits) && limits.pl1_spl >= 80),
{
}

/// A request is accepted exactly within the limits of the machine: a policy with a
/// measured table, curves for direct control, watts in range and in order, and
/// offset, temperature, levels and seconds in their ranges.
pub proof fn law_requests_are_accepted_within_limits(request: ApplyRequestView)
    ensures
        request_error(request) is None <==> {
            &&& request.ppd_profile matches Some(policy) ==> policy == "power-saver"@ || policy
                == "balanced"@ || policy == "performance"@
            &&& request.fan_mode == FanControlMode::Direct ==> request.fan_curves is Some
            &&& 1 <= request.fan_hysteresis.up <= 5
            &&& 1 <= request.fan_hysteresis.down <= 5
            &&& request.fan_temperature_average_seconds <= 15
            &&& request.fan_curves matches Some(curves) ==> curve_valid(curves@[0]) && curve_valid(
                curves@[1],
            )
            &&& request.power_limits matches Some(limits) ==> {
                &&& 5 <= limits.pl1_spl <= limits.pl2_sppt
                &&& limits.pl2_sppt <= 93
                &&& limits.pl2_sppt <= limits.fppt <= 120
                &&& 5 <= limits.apu_sppt <= 93
                &&& 5 <= limits.platform_sppt <= 93
            }
            &&& request.undervolt matches Some(offset) ==> -40 <= offset <= 0
            &&& 80 <= request.cpu_temp_limit <= 99
        },
{
    if let Some(curves) = request.fan_curves {
        if curve_error_text(curves@[0]) is None {
            lemma_curve_without_error_is_valid(curves@[0]);
        }
        if curve_error_text(curves@[1]) is None {
            lemma_curve_without_error_is_valid(curves@[1]);
        }
        if curve_valid(curves@[0]) {
            lemma_valid_curve_has_no_error(curves@[0]);
        }
        if curve_valid(curves@[1]) {
            lemma_valid_curve_has_no_error(curves@[1]);
        }
    }
}

/// Two requests with the same model ask for the same.
pub proof fn law_request_model_is_faithful(a: ApplyRequest, b: ApplyRequest)
    requires
        a@ == b@,
    ensures
        a.ppd_profile.deep_view() == b.ppd_profile.deep_view(),
        a.power_limits == b.power_limits,
        a.fan_mode == b.fan_mode,
        a.fan_curves == b.fan_curves,
        a.undervolt == b.undervolt,
        a.cpu_temp_limit == b.cpu_temp_limit,
        a.fan_hysteresis == b.fan_hysteresis,
        a.fan_temperature_average_seconds == b.fan_temperature_average_seconds,
        a.disable_high_power_fan_protection == b.disable_high_power_fan_protection,
{
}

// ---------------------------------------------------------------------------
// Commands, responses and events
// ---------------------------------------------------------------------------

#[derive(Clone, Debug, PartialEq, Eq)]
pub struct ProbeReply {
    pub model: String,
    pub ec_version: u8,
    pub fan_count: u8,
}

/// The event topics of a subscription.
#[derive(Clone, Copy, Debug, PartialEq, Eq, Structural)]
pub enum DaemonEventKind {
    StateChanged,
    GuiToggle,
    ControllerAction,
    PowerSourceChanged,
}

/// The event topics accepted by the subscription command.
pub type EventTopic = DaemonEventKind;

impl DaemonEventKind {
    pub const ALL: [DaemonEventKind; 4] = [
        DaemonEventKind::StateChanged,
        DaemonEventKind::GuiToggle,
        DaemonEventKind::ControllerAction,
        DaemonEventKind::PowerSourceChanged,
    ];

    /// The wire name.
    pub open spec fn name(self) -> Seq<char> {
        match self {
            DaemonEventKind::StateChanged => "state-changed"@,
            DaemonEventKind::GuiToggle => "gui-toggle"@,
            DaemonEventKind::ControllerAction => "controller-action"@,
            DaemonEventKind::PowerSourceChanged => "power-source-changed"@,
        }
    }

    /// The wire name.
    pub fn as_str(self) -> (result: &'static str)
        ensures
            result@ == self.name(),
    {
        match self {
            DaemonEventKind::StateChanged => "state-changed",
            DaemonEventKind::GuiToggle => "gui-toggle",
            DaemonEventKind::ControllerAction => "controller-action",
            DaemonEventKind::PowerSourceChanged => "power-source-changed",
        }
    }

    /// The topic with a wire name.
    pub fn parse(value: &str) -> (result: Option<Self>)
        ensures
            match result {
                Some(kind) => kind.name() == value@,
                None => forall|kind: DaemonEventKind| #[trigger] kind.name() != value@,
            },
    {
        if same(value, "state-changed") {
            Some(DaemonEventKind::StateChanged)
        } else if same(value, "gui-toggle") {
            Some(DaemonEventKind::GuiToggle)
        } else if same(value, "controller-action") {
            Some(DaemonEventKind::ControllerAction)
        } else if same(value, "power-source-changed") {
            Some(DaemonEventKind::PowerSourceChanged)
        } else {
            None
        }
    }
}

/// No two topics share a wire name, so a topic survives writing and parsing.
pub proof fn law_event_names_are_distinct(a: DaemonEventKind, b: DaemonEventKind)
    requires
        a.name() == b.name(),
    ensures
        a == b,
{
    reveal_strlit("state-changed");
    reveal_strlit("gui-toggle");
    reveal_strlit("controller-action");
    reveal_strlit("power-source-changed");
    assert("state-changed"@.len() == 13 && "gui-toggle"@.len() == 10 && "controller-action"@.len()
        == 17 && "power-source-changed"@.len() == 20);
}

/// A gamepad action while the overlay captures the controller.
#[derive(Clone, Copy, Debug, PartialEq, Eq, Hash, Structural)]
pub enum ControllerAction {
    Up,
    Down,
    Left,
    Right,
    Accept,
    Back,
}

#[derive(Clone, Copy, Debug, PartialEq, Eq)]
pub struct DaemonEvent {
    pub kind: DaemonEventKind,
    pub action: Option<ControllerAction>,
    pub on_battery: Option<bool>,
}

/// What a client asks the daemon to do.
#[derive(Clone, Debug)]
pub enum Command {
    GetState,
    Probe,
    GetFactoryFanCurves { ppd_profiles: Vec<String> },
    Apply { request: ApplyRequest },
    ApplyUndervoltOnce { offset: i32 },
    SetBatteryLimit { limit: i32 },
    SetBatteryOneTimeCharge { enabled: bool },
    SetPanelOverdrive { enabled: bool },
    SetLighting { device: String, state: LightingState },
    ReleaseFans,
    SetControllerCapture { enabled: bool },
    Subscribe { events: Vec<EventTopic> },
    GetOutcome { target_client_id: ClientId, target_request_id: RequestId },
}

/// One request frame.
#[derive(Clone, Debug)]
pub struct WireRequest {
    pub version: u32,
    pub client_id: ClientId,
    pub request_id: RequestId,
    pub command: Command,
}

#[derive(Clone, Debug, PartialEq, Eq)]
pub struct ApplyResponse {
    pub generation: u64,
    pub warnings: Vec<String>,
}

impl Default for ApplyResponse {
    fn default() -> (result: Self)
        ensures
            result.generation == 0,
            result.warnings@.len() == 0,
    {
        ApplyResponse { generation: 0, warnings: Vec::new() }
    }
}

/// One response frame.
///
/// `request_id` is absent only for a malformed frame that did not contain a
/// valid request envelope. `outcome_client_id` and `outcome_request_id` are set
/// only in the response to an outcome query. `factory_fan_curves` lists the CPU
/// and GPU curve of each power-profiles-daemon profile under its name.
#[derive(Clone, Debug)]
pub struct WireResponse {
    pub version: u32,
    pub request_id: Option<RequestId>,
    pub outcome: RequestOutcome,
    pub outcome_client_id: Option<ClientId>,
    pub outcome_request_id: Option<RequestId>,
    pub ok: bool,
    pub state: Option<WireStatus>,
    pub apply: Option<ApplyResponse>,
    pub probe: Option<ProbeReply>,
    pub factory_fan_curves: Option<Vec<(String, [Curve; 2])>>,
    pub event: Option<DaemonEvent>,
    pub error: Option<WireError>,
}

impl WireResponse {
    /// No device and no power profile is listed twice.
    pub open spec fn well_formed(self) -> bool {
        &&& self.state matches Some(state) ==> state.well_formed()
        &&& self.factory_fan_curves matches Some(curves) ==> distinct_names(curves@)
    }

    /// A response without payload that reports `outcome` for a request.
    pub open spec fn is_bare(self, request_id: RequestId, outcome: RequestOutcome) -> bool {
        self == (WireResponse {
            version: PROTOCOL_VERSION,
            request_id: Some(request_id),
            outcome,
            outcome_client_id: None,
            outcome_request_id: None,
            ok: true,
            state: None,
            apply: None,
            probe: None,
            factory_fan_curves: None,
            event: None,
            error: None,
        })
    }

    pub fn success(request_id: RequestId) -> (result: Self)
        ensures
            result.well_formed(),
            result.is_bare(request_id, RequestOutcome::Completed),
    {
        WireResponse {
            version: PROTOCOL_VERSION,
            request_id: Some(request_id),
            outcome: RequestOutcome::Completed,
            outcome_client_id: None,
            outcome_request_id: None,
            ok: true,
            state: None,
            apply: None,
            probe: None,
            factory_fan_curves: None,
            event: None,
            error: None,
        }
    }

    pub fn progress(request_id: RequestId, outcome: RequestOutcome) -> (result: Self)
        ensures
            result.well_formed(),
            result.is_bare(request_id, outcome),
    {
        let mut response: WireResponse = WireResponse::success(request_id);
        response.outcome = outcome;
        response
    }
}

} // verus!
