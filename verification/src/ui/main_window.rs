//! The control panel: labels, lighting and the battery limit.

use vstd::prelude::*;

use crate::config::{has_id, position_of, Config, ConfigView};
use crate::curve::{clamp_i32, clamped};
use crate::label::{mode_label, mode_label_of};
use crate::protocol::{hex_digit, hex_value, is_hex, LightingState, LightingView};
use crate::text::{
    decimal, decimal_text, digit_char, lower_of, lowered, same, signed_decimal,
    signed_decimal_text,
};
use crate::text_map::distinct_names;

verus! {

// ---------------------------------------------------------------------------
// Battery
// ---------------------------------------------------------------------------

/// The title of the charge limit.
pub open spec fn limit_title(one_time_charge: bool, normal_limit: Option<i32>) -> Seq<char> {
    if one_time_charge {
        "Battery Charge Limit: One time to 100%"@
    } else {
        match normal_limit {
            Some(limit) => "Battery Charge Limit: "@ + signed_decimal(limit as int) + "%"@,
            None => "Battery Charge Limit: —%"@,
        }
    }
}

/// The title of the charge limit.
pub fn battery_limit_title(one_time_charge: bool, normal_limit: Option<i32>) -> (result: String)
    ensures
        result@ == limit_title(one_time_charge, normal_limit),
{
    if one_time_charge {
        return String::from_str("Battery Charge Limit: One time to 100%");
    }
    match normal_limit {
        Some(limit) => {
            let mut text: String = String::from_str("Battery Charge Limit: ");
            text.append(signed_decimal_text(limit as i64).as_str());
            text.append("%");
            text
        },
        None => String::from_str("Battery Charge Limit: —%"),
    }
}

/// The hint of the button for a one-time charge.
pub fn one_time_charge_tooltip(active: bool) -> (result: &'static str)
    ensures
        result@ == (if active {
            "Cancel one-time charge"@
        } else {
            "Charge once to 100%"@
        }),
{
    if active {
        "Cancel one-time charge"
    } else {
        "Charge once to 100%"
    }
}

/// What is shown of a status that may be missing or empty.
pub open spec fn known_status(status: Option<Seq<char>>) -> Seq<char> {
    match status {
        Some(text) => if text.len() == 0 {
            "—"@
        } else {
            text
        },
        None => "—"@,
    }
}

/// The battery's status with the power that flows, in watts as text; a full
/// battery shows none.
pub fn battery_status_label(status: Option<&str>, watts: Option<&str>) -> (result: String)
    ensures
        result@ == (if known_status(status.deep_view()) == "Full"@ || watts is None {
            known_status(status.deep_view())
        } else {
            known_status(status.deep_view()) + ": "@ + watts->0@ + " W"@
        }),
{
    let shown: &str = match status {
        Some(text) => {
            if text.unicode_len() == 0 {
                "—"
            } else {
                text
            }
        },
        None => "—",
    };
    let mut label: String = String::from_str(shown);
    if same(shown, "Full") {
        return label;
    }
    if let Some(power) = watts {
        label.append(": ");
        label.append(power);
        label.append(" W");
    }
    label
}

/// The label of the charge.
pub fn charge_label(charge_percent: Option<u8>) -> (result: String)
    ensures
        result@ == (match charge_percent {
            Some(value) => "Charge: "@ + decimal(value as nat) + "%"@,
            None => "Charge: —%"@,
        }),
{
    match charge_percent {
        Some(value) => {
            let mut text: String = String::from_str("Charge: ");
            text.append(decimal_text(value as u128).as_str());
            text.append("%");
            text
        },
        None => String::from_str("Charge: —%"),
    }
}

/// The hint with the battery's health.
pub fn health_label(health_percent: Option<u8>) -> (result: String)
    ensures
        result@ == (match health_percent {
            Some(value) => "Battery health: "@ + decimal(value as nat) + "%"@,
            None => "Battery health: unavailable"@,
        }),
{
    match health_percent {
        Some(value) => {
            let mut text: String = String::from_str("Battery health: ");
            text.append(decimal_text(value as u128).as_str());
            text.append("%");
            text
        },
        None => String::from_str("Battery health: unavailable"),
    }
}

/// The charge limit that the slider stands at: the nearest step of five, between
/// 40 and 100 percent.
pub open spec fn snapped_limit(raw: int) -> int {
    clamped((raw + 2) / 5 * 5, 40, 100)
}

/// Snaps a charge limit to the steps of the slider.
pub fn snap_battery_limit(raw: i32) -> (result: i32)
    ensures
        result == snapped_limit(raw as int),
        40 <= result <= 100,
        result % 5 == 0,
{
    if raw < 40 {
        return 40;
    }
    if raw > 100 {
        return 100;
    }
    clamp_i32((raw + 2) / 5 * 5, 40, 100)
}

/// The slider never moves a limit by more than half a step within its range, and
/// a limit on a step stays where it is.
pub proof fn law_snapping_is_close_and_idempotent(raw: int)
    ensures
        40 <= raw <= 100 ==> -2 <= snapped_limit(raw) - raw <= 2,
        snapped_limit(snapped_limit(raw)) == snapped_limit(raw),
{
}

/// The limit that the slider leads to: the nearest multiple of five, 40 at least and
/// 100 at most.
pub proof fn law_snapped_limits_are_multiples_of_five(raw: int)
    ensures
        snapped_limit(raw) % 5 == 0,
        raw <= 40 ==> snapped_limit(raw) == 40,
        raw >= 100 ==> snapped_limit(raw) == 100,
        40 <= raw <= 100 && raw % 5 == 0 ==> snapped_limit(raw) == raw,
{
}

/// The title tells the limit that is in force: a hundred percent during a one-time
/// charge, whatever the normal one is, else the normal one where it is known.
pub proof fn law_limit_title_tells_the_limit(normal_limit: i32, other: Option<i32>)
    ensures
        limit_title(true, Some(normal_limit)) == limit_title(true, other),
        limit_title(false, Some(normal_limit)) == "Battery Charge Limit: "@ + signed_decimal(
            normal_limit as int,
        ) + "%"@,
{
}

/// Where the slider stands for a limit that the daemon reports.
pub fn shown_battery_limit(limit: i32) -> (result: i32)
    ensures
        result == clamped(limit as int, 40, 100),
{
    clamp_i32(limit, 40, 100)
}

// ---------------------------------------------------------------------------
// Mode
// ---------------------------------------------------------------------------

/// The mode header of a configuration.
pub open spec fn header_of(config: ConfigView) -> Seq<char> {
    if has_id(config.profiles, config.active_profile) {
        mode_label_of(config.profiles[position_of(config.profiles, config.active_profile)])
    } else {
        "Mode: Balanced"@
    }
}

/// The mode header of a configuration.
pub fn current_label(config: &Config) -> (result: String)
    ensures
        result@ == header_of(config@),
{
    match config.find(config.active_profile.as_str()) {
        Some(profile) => mode_label(profile),
        None => String::from_str("Mode: Balanced"),
    }
}

/// The temperature and the fan speeds.
pub fn telemetry_label(temperature: Option<i32>, fan_rpms: [u32; 2]) -> (result: String)
    ensures
        result@ == "APU: "@ + (match temperature {
            Some(value) => signed_decimal(value as int),
            None => "—"@,
        }) + "°C  Fans: "@ + decimal(fan_rpms@[0] as nat) + " / "@ + decimal(fan_rpms@[1] as nat)
            + " RPM"@,
{
    let mut text: String = String::from_str("APU: ");
    match temperature {
        Some(value) => {
            text.append(signed_decimal_text(value as i64).as_str());
        },
        None => {
            text.append("—");
        },
    }
    text.append("°C  Fans: ");
    text.append(decimal_text(fan_rpms[0] as u128).as_str());
    text.append(" / ");
    text.append(decimal_text(fan_rpms[1] as u128).as_str());
    text.append(" RPM");
    text
}

// ---------------------------------------------------------------------------
// Lighting
// ---------------------------------------------------------------------------

/// The choice of the mode menu that shows a lighting: Off, Static, Breathe,
/// Cycle, Rainbow or Strobe.
pub open spec fn mode_choice(lighting: LightingView) -> u32 {
    if !lighting.enabled {
        0
    } else if lighting.mode == "breathe"@ {
        2
    } else if lighting.mode == "cycle"@ {
        3
    } else if lighting.mode == "rainbow"@ {
        4
    } else if lighting.mode == "strobe"@ {
        5
    } else {
        1
    }
}

/// The choice of the mode menu that shows a lighting.
pub fn lighting_mode_index(lighting: &LightingState) -> (result: u32)
    ensures
        result == mode_choice(lighting@),
{
    let mode: &str = lighting.mode.as_str();
    if !lighting.enabled {
        0
    } else if same(mode, "breathe") {
        2
    } else if same(mode, "cycle") {
        3
    } else if same(mode, "rainbow") {
        4
    } else if same(mode, "strobe") {
        5
    } else {
        1
    }
}

/// The choice of the speed menu that shows a speed: Slow, Normal or Fast.
pub open spec fn speed_choice(speed: Seq<char>) -> u32 {
    if speed == "slow"@ {
        0
    } else if speed == "fast"@ {
        2
    } else {
        1
    }
}

/// The choice of the speed menu that shows a speed.
pub fn lighting_speed_index(speed: &str) -> (result: u32)
    ensures
        result == speed_choice(speed@),
{
    if same(speed, "slow") {
        0
    } else if same(speed, "fast") {
        2
    } else {
        1
    }
}

/// Whether a mode choice takes a colour: not Off, Cycle and Rainbow.
pub fn color_is_shown(mode_index: u32) -> (result: bool)
    ensures
        result == (mode_index != 0 && mode_index != 3 && mode_index != 4),
{
    mode_index != 0 && mode_index != 3 && mode_index != 4
}

/// Whether a mode choice takes a speed: not Off and Static.
pub fn speed_is_shown(mode_index: u32) -> (result: bool)
    ensures
        result == (mode_index != 0 && mode_index != 1),
{
    mode_index != 0 && mode_index != 1
}

/// The upper-case hexadecimal digit of a value below sixteen.
pub open spec fn hex_upper(value: nat) -> char {
    if value < 10 {
        digit_char(value)
    } else if value == 10 {
        'A'
    } else if value == 11 {
        'B'
    } else if value == 12 {
        'C'
    } else if value == 13 {
        'D'
    } else if value == 14 {
        'E'
    } else {
        'F'
    }
}

/// Two hexadecimal digits of a colour channel.
pub open spec fn channel_text(value: u8) -> Seq<char> {
    seq![hex_upper((value / 16) as nat), hex_upper((value % 16) as nat)]
}

fn hex_digit_char(value: u8) -> (result: char)
    requires
        value < 16,
    ensures
        result == hex_upper(value as nat),
{
    if value == 0 {
        '0'
    } else if value == 1 {
        '1'
    } else if value == 2 {
        '2'
    } else if value == 3 {
        '3'
    } else if value == 4 {
        '4'
    } else if value == 5 {
        '5'
    } else if value == 6 {
        '6'
    } else if value == 7 {
        '7'
    } else if value == 8 {
        '8'
    } else if value == 9 {
        '9'
    } else if value == 10 {
        'A'
    } else if value == 11 {
        'B'
    } else if value == 12 {
        'C'
    } else if value == 13 {
        'D'
    } else if value == 14 {
        'E'
    } else {
        'F'
    }
}

/// The six hexadecimal digits of a colour.
pub fn color_text(red: u8, green: u8, blue: u8) -> (result: String)
    ensures
        result@ == channel_text(red) + channel_text(green) + channel_text(blue),
{
    let mut text: String = String::new();
    text.push(hex_digit_char(red / 16));
    text.push(hex_digit_char(red % 16));
    text.push(hex_digit_char(green / 16));
    text.push(hex_digit_char(green % 16));
    text.push(hex_digit_char(blue / 16));
    text.push(hex_digit_char(blue % 16));
    assert(text@ =~= channel_text(red) + channel_text(green) + channel_text(blue));
    text
}

/// The mode that a menu label stands for; nothing for Off.
pub open spec fn labelled_mode(label: Seq<char>) -> Option<Seq<char>> {
    if label == "Static"@ {
        Some("static"@)
    } else if label == "Breathe"@ {
        Some("breathe"@)
    } else if label == "Cycle"@ {
        Some("cycle"@)
    } else if label == "Rainbow"@ {
        Some("rainbow"@)
    } else if label == "Strobe"@ {
        Some("strobe"@)
    } else {
        None
    }
}

/// The lighting that the controls ask for; nothing to turn it off.
pub open spec fn intended_lighting(
    mode_label: Option<Seq<char>>,
    speed_label: Option<Seq<char>>,
    color: Seq<char>,
) -> Option<LightingView> {
    match mode_label {
        Some(label) => match labelled_mode(label) {
            Some(mode) => Some(
                LightingView {
                    enabled: true,
                    mode,
                    color,
                    color2: "000000"@,
                    speed: match speed_label {
                        Some(speed) => lower_of(speed),
                        None => "normal"@,
                    },
                    brightness: 3,
                },
            ),
            None => None,
        },
        None => None,
    }
}

/// The lighting that the controls ask for; nothing to turn it off.
pub fn lighting_intent(mode_label: Option<&str>, speed_label: Option<&str>, color: String) -> (result:
    Option<LightingState>)
    ensures
        match intended_lighting(mode_label.deep_view(), speed_label.deep_view(), color@) {
            Some(lighting) => result matches Some(found) && found@ == lighting,
            None => result is None,
        },
{
    let label: &str = match mode_label {
        Some(label) => label,
        None => {
            return None;
        },
    };
    let mode: &str = if same(label, "Static") {
        "static"
    } else if same(label, "Breathe") {
        "breathe"
    } else if same(label, "Cycle") {
        "cycle"
    } else if same(label, "Rainbow") {
        "rainbow"
    } else if same(label, "Strobe") {
        "strobe"
    } else {
        return None;
    };
    let speed: String = match speed_label {
        Some(speed) => lowered(speed),
        None => String::from_str("normal"),
    };
    Some(
        LightingState {
            enabled: true,
            mode: String::from_str(mode),
            color,
            color2: String::from_str("000000"),
            speed,
            brightness: 3,
        },
    )
}

/// The lighting of a device: its own, or the common one where it has none.
pub open spec fn lighting_of(
    devices: Seq<(String, LightingState)>,
    name: Seq<char>,
    common: LightingState,
) -> LightingState
    decreases devices.len(),
{
    if devices.len() == 0 {
        common
    } else if devices[0].0@ == name {
        devices[0].1
    } else {
        lighting_of(devices.drop_first(), name, common)
    }
}

/// The lighting of a device: its own, or the common one where it has none.
pub fn device_lighting<'a>(
    devices: &'a Vec<(String, LightingState)>,
    name: &str,
    common: &'a LightingState,
) -> (result: &'a LightingState)
    ensures
        *result == lighting_of(devices@, name@, *common),
{
    let mut i: usize = 0;
    assert(devices@.skip(0) =~= devices@);
    while i < devices.len()
        invariant
            i <= devices@.len(),
            lighting_of(devices@, name@, *common) == lighting_of(
                devices@.skip(i as int),
                name@,
                *common,
            ),
        decreases devices@.len() - i,
    {
        assert(devices@.skip(i as int).drop_first() =~= devices@.skip(i + 1));
        if same(devices[i].0.as_str(), name) {
            return &devices[i].1;
        }
        i = i + 1;
    }
    common
}

/// Where each device is listed once, every device gets its own lighting, wherever
/// it stands in the list.
pub proof fn law_every_device_has_its_own_lighting(
    devices: Seq<(String, LightingState)>,
    at: int,
    common: LightingState,
)
    requires
        distinct_names(devices),
        0 <= at < devices.len(),
    ensures
        lighting_of(devices, devices[at].0@, common) == devices[at].1,
    decreases devices.len(),
{
    if at > 0 {
        let rest = devices.drop_first();
        assert(devices[0].0@ != devices[at].0@);
        assert forall|i: int, j: int| 0 <= i < j < rest.len() implies (#[trigger] rest[i]).0@ != (
        #[trigger] rest[j]).0@ by {
            assert(rest[i] == devices[i + 1] && rest[j] == devices[j + 1]);
        }
        assert(rest[at - 1] == devices[at]);
        law_every_device_has_its_own_lighting(rest, at - 1, common);
    }
}

/// The mode menu shows what the controls asked for: the lighting of a label is
/// shown by the choice with that label.
pub proof fn law_lighting_choices_agree(
    label: Seq<char>,
    speed_label: Option<Seq<char>>,
    color: Seq<char>,
)
    ensures
        intended_lighting(Some(label), speed_label, color) matches Some(lighting) ==> {
            &&& label == "Static"@ ==> mode_choice(lighting) == 1
            &&& label == "Breathe"@ ==> mode_choice(lighting) == 2
            &&& label == "Cycle"@ ==> mode_choice(lighting) == 3
            &&& label == "Rainbow"@ ==> mode_choice(lighting) == 4
            &&& label == "Strobe"@ ==> mode_choice(lighting) == 5
        },
{
    reveal_strlit("Static");
    reveal_strlit("Breathe");
    reveal_strlit("Cycle");
    reveal_strlit("Rainbow");
    reveal_strlit("Strobe");
    reveal_strlit("static");
    reveal_strlit("breathe");
    reveal_strlit("cycle");
    reveal_strlit("rainbow");
    reveal_strlit("strobe");
    assert("Static"@[1] == 't' && "Breathe"@[1] == 'r' && "Cycle"@[1] == 'y' && "Rainbow"@[1]
        == 'a');
    assert("Strobe"@[2] == 'r' && "Static"@[2] == 'a');
    assert("static"@[2] == 'a' && "strobe"@[2] == 'r');
    assert("static"@[0] == 's' && "breathe"@[0] == 'b' && "cycle"@[0] == 'c' && "rainbow"@[0]
        == 'r' && "strobe"@[0] == 's');
    assert("Strobe"@[0] == 'S' && "Breathe"@[0] == 'B' && "Cycle"@[0] == 'C' && "Rainbow"@[0]
        == 'R' && "Static"@[0] == 'S');
}

/// The color of a channel survives its notation: two hexadecimal digits of its
/// value.
pub proof fn law_channel_survives_writing(value: u8)
    ensures
        channel_text(value).len() == 2,
        is_hex(channel_text(value)),
        hex_value(channel_text(value)) == value,
{
    let text = channel_text(value);
    let high = (value / 16) as nat;
    let low = (value % 16) as nat;
    assert(text.drop_last() =~= seq![hex_upper(high)]);
    assert(text.drop_last().drop_last() =~= Seq::<char>::empty());
    assert(hex_digit(hex_upper(high)) == Some(high));
    assert(hex_digit(hex_upper(low)) == Some(low));
    assert(hex_value(text.drop_last().drop_last()) == 0);
    assert(hex_value(text.drop_last()) == high);
}

/// What the controls ask for is lit at full brightness in the color and, in lower
/// case, the mode and the speed that they show; without a mode nothing is asked for.
pub proof fn law_controls_ask_for_what_they_show(
    label: Seq<char>,
    speed: Seq<char>,
    color: Seq<char>,
)
    ensures
        intended_lighting(None, Some(speed), color) is None,
        label == "Static"@ || label == "Breathe"@ || label == "Cycle"@ || label == "Rainbow"@
            || label == "Strobe"@ <==> intended_lighting(Some(label), Some(speed), color) is Some,
        intended_lighting(Some(label), Some(speed), color) matches Some(lighting) ==> {
            &&& lighting.enabled
            &&& lighting.color == color
            &&& lighting.brightness == 3
            &&& lighting.speed == lower_of(speed)
            &&& label == "Static"@ ==> lighting.mode == "static"@
            &&& label == "Breathe"@ ==> lighting.mode == "breathe"@
            &&& label == "Cycle"@ ==> lighting.mode == "cycle"@
            &&& label == "Rainbow"@ ==> lighting.mode == "rainbow"@
            &&& label == "Strobe"@ ==> lighting.mode == "strobe"@
        },
        intended_lighting(Some("Static"@), None, color) matches Some(lighting) && lighting.speed
            == "normal"@,
{
    law_lighting_choices_agree(label, Some(speed), color);
    reveal_strlit("Static");
    reveal_strlit("Breathe");
    reveal_strlit("Cycle");
    reveal_strlit("Rainbow");
    reveal_strlit("Strobe");
    assert("Static"@[1] == 't' && "Breathe"@[1] == 'r' && "Cycle"@[1] == 'y' && "Rainbow"@[1]
        == 'a');
    assert("Strobe"@[2] == 'r' && "Static"@[2] == 'a');
    assert("Strobe"@[0] == 'S' && "Breathe"@[0] == 'B' && "Cycle"@[0] == 'C' && "Rainbow"@[0]
        == 'R' && "Static"@[0] == 'S');
}

/// A device that is not listed has the lighting that all share, and one that is
/// switched off shows the first choice whatever its mode is.
pub proof fn law_unlisted_devices_share_their_lighting(
    devices: Seq<(String, LightingState)>,
    name: Seq<char>,
    common: LightingState,
    lighting: LightingView,
)
    ensures
        (forall|i: int| 0 <= i < devices.len() ==> (#[trigger] devices[i]).0@ != name)
            ==> lighting_of(devices, name, common) == common,
        mode_choice(lighting) == 0 <==> !lighting.enabled,
    decreases devices.len(),
{
    if devices.len() > 0 && forall|i: int|
        0 <= i < devices.len() ==> (#[trigger] devices[i]).0@ != name {
        let rest = devices.drop_first();
        assert forall|i: int| 0 <= i < rest.len() implies (#[trigger] rest[i]).0@ != name by {
            assert(rest[i] == devices[i + 1]);
        }
        assert(devices[0].0@ != name);
        law_unlisted_devices_share_their_lighting(rest, name, common, lighting);
    }
}

/// The header is that of the active profile.
pub proof fn law_header_is_that_of_the_active_profile(config: ConfigView, at: int)
    requires
        0 <= at < config.profiles.len(),
        config.profiles[at].id == config.active_profile,
        forall|i: int| 0 <= i < at ==> (#[trigger] config.profiles[i]).id != config.active_profile,
    ensures
        header_of(config) == mode_label_of(config.profiles[at]),
{
    crate::config::lemma_position_of(config.profiles, config.active_profile);
}

} // verus!
