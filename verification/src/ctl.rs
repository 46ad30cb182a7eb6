//! The command line of `z13helperctl`: arguments to commands, and commands to
//! requests.

use vstd::prelude::*;

use crate::curve::Curve;
use crate::number::{law_written_numbers_are_read, number_value, parse_i32, parse_u64};
use crate::profile::FanControlMode;
use crate::protocol::{
    hex_digit, hex_value, is_hex, ApplyRequest, ApplyRequestView, ClientId, DaemonEvent,
    DaemonEventKind, EventTopic, LightingState, LightingView, TdpState, WireStatus,
    MAX_FRAME_BYTES,
};
use crate::text::{
    chars_of, decimal, decimal_text, prefixed, quoted, quoted_text, same, signed_decimal,
    signed_decimal_text,
};

verus! {

/// The range of the lighting brightness.
pub const BRIGHTNESS_MAX: i32 = 3;

// ---------------------------------------------------------------------------
// Single arguments
// ---------------------------------------------------------------------------

/// What `on` and `off` mean.
pub open spec fn switch_value(value: Seq<char>) -> Result<bool, Seq<char>> {
    if value == "on"@ {
        Ok(true)
    } else if value == "off"@ {
        Ok(false)
    } else {
        Err("expected on or off, got "@ + quoted_text(value))
    }
}

/// Reads `on` or `off`.
pub fn parse_bool(value: &str) -> (result: Result<bool, String>)
    ensures
        crate::json::value_result(result) == switch_value(value@),
{
    if same(value, "on") {
        Ok(true)
    } else if same(value, "off") {
        Ok(false)
    } else {
        Err(prefixed("expected on or off, got ", quoted(value).as_str()))
    }
}

/// The refusal of a wrong number of arguments.
pub open spec fn arity_error(command: Seq<char>, found: nat, expected: nat) -> Option<Seq<char>> {
    if found == expected {
        None
    } else {
        Some(
            command + ": expected "@ + decimal(expected) + (if expected == 1 {
                " argument, got "@
            } else {
                " arguments, got "@
            }) + decimal(found),
        )
    }
}

/// The refusal of a number of arguments outside a range.
pub open spec fn arity_between_error(
    command: Seq<char>,
    found: nat,
    minimum: nat,
    maximum: nat,
) -> Option<Seq<char>> {
    if minimum <= found <= maximum {
        None
    } else {
        Some(
            command + ": expected between "@ + decimal(minimum) + " and "@ + decimal(maximum)
                + " arguments, got "@ + decimal(found),
        )
    }
}

/// Checks the number of arguments of a command.
pub fn expect_arity(command: &str, args: &[String], expected: usize) -> (result: Result<
    (),
    String,
>)
    ensures
        match arity_error(command@, args@.len(), expected as nat) {
            Some(text) => result matches Err(message) && message@ == text,
            None => result is Ok,
        },
{
    if args.len() == expected {
        return Ok(());
    }
    let mut text: String = String::from_str(command);
    text.append(": expected ");
    text.append(decimal_text(expected as u128).as_str());
    if expected == 1 {
        text.append(" argument, got ");
    } else {
        text.append(" arguments, got ");
    }
    text.append(decimal_text(args.len() as u128).as_str());
    Err(text)
}

/// Checks that the number of arguments of a command lies in a range.
pub fn expect_arity_between(
    command: &str,
    args: &[String],
    minimum: usize,
    maximum: usize,
) -> (result: Result<(), String>)
    ensures
        match arity_between_error(command@, args@.len(), minimum as nat, maximum as nat) {
            Some(text) => result matches Err(message) && message@ == text,
            None => result is Ok,
        },
{
    if minimum <= args.len() && args.len() <= maximum {
        return Ok(());
    }
    let mut text: String = String::from_str(command);
    text.append(": expected between ");
    text.append(decimal_text(minimum as u128).as_str());
    text.append(" and ");
    text.append(decimal_text(maximum as u128).as_str());
    text.append(" arguments, got ");
    text.append(decimal_text(args.len() as u128).as_str());
    Err(text)
}

/// The request identifier that a text denotes.
pub open spec fn request_id_value(value: Seq<char>) -> Result<u64, Seq<char>> {
    match number_value(value, 0, u64::MAX as int) {
        Err(error) => Err("request ID must be an integer: "@ + error.message_text()),
        Ok(number) => if number == 0 {
            Err("request ID must be non-zero"@)
        } else {
            Ok(number as u64)
        },
    }
}

/// Reads a request identifier.
pub fn parse_request_id(value: &str) -> (result: Result<u64, String>)
    ensures
        crate::json::value_result(result) == request_id_value(value@),
{
    match parse_u64(value) {
        Err(error) => Err(prefixed("request ID must be an integer: ", error.message())),
        Ok(number) => if number == 0 {
            Err(String::from_str("request ID must be non-zero"))
        } else {
            Ok(number)
        },
    }
}

/// The number within a range that a text denotes.
pub open spec fn ranged_value(value: Seq<char>, name: Seq<char>, low: int, high: int) -> Result<
    i32,
    Seq<char>,
> {
    match number_value(value, i32::MIN as int, i32::MAX as int) {
        Err(error) => Err(name + " must be an integer: "@ + error.message_text()),
        Ok(number) => if low <= number <= high {
            Ok(number as i32)
        } else {
            Err(
                name + " must be between "@ + signed_decimal(low) + " and "@ + signed_decimal(high),
            )
        },
    }
}

/// Reads a number within a range.
pub fn parse_i32_in_range(value: &str, name: &str, low: i32, high: i32) -> (result: Result<
    i32,
    String,
>)
    ensures
        crate::json::value_result(result) == ranged_value(value@, name@, low as int, high as int),
{
    match parse_i32(value) {
        Err(error) => {
            let mut text: String = String::from_str(name);
            text.append(" must be an integer: ");
            text.append(error.message());
            Err(text)
        },
        Ok(number) => {
            if low <= number && number <= high {
                return Ok(number);
            }
            let mut text: String = String::from_str(name);
            text.append(" must be between ");
            text.append(signed_decimal_text(low as i64).as_str());
            text.append(" and ");
            text.append(signed_decimal_text(high as i64).as_str());
            Err(text)
        },
    }
}

// ---------------------------------------------------------------------------
// Lighting
// ---------------------------------------------------------------------------

/// Six hexadecimal digits, with or without a leading `#`.
pub open spec fn is_color(value: Seq<char>) -> bool {
    let digits = if value.len() > 0 && value[0] == '#' {
        value.skip(1)
    } else {
        value
    };
    digits.len() == 6 && is_hex(digits)
}

fn hexadecimal(c: char) -> (result: bool)
    ensures
        result == (hex_digit(c) is Some),
{
    ('0' <= c && c <= '9') || ('a' <= c && c <= 'f') || ('A' <= c && c <= 'F')
}

/// Checks a lighting color.
pub fn validate_lighting_color(value: &str) -> (result: Result<(), String>)
    ensures
        match result {
            Ok(_) => is_color(value@),
            Err(message) => !is_color(value@) && message@
                == "lighting color must contain six hexadecimal digits, got "@ + quoted_text(
                value@,
            ),
        },
{
    let chars: Vec<char> = chars_of(value);
    let start: usize = if chars.len() > 0 && chars[0] == '#' {
        1
    } else {
        0
    };
    let ghost digits = value@.skip(start as int);
    assert(start == 0 ==> digits =~= value@);
    let mut valid: bool = chars.len() - start == 6;
    let mut i: usize = start;
    while valid && i < chars.len()
        invariant
            start <= i <= chars@.len(),
            chars@ == value@,
            start <= 1,
            digits == value@.skip(start as int),
            valid ==> digits.len() == 6,
            valid ==> forall|k: int|
                0 <= k < i - start ==> hex_digit(#[trigger] digits[k]) is Some,
            !valid ==> !(digits.len() == 6 && is_hex(digits)),
        decreases chars@.len() - i,
    {
        assert(digits[i - start] == chars@[i as int]);
        if !hexadecimal(chars[i]) {
            valid = false;
        }
        i = i + 1;
    }
    if valid {
        Ok(())
    } else {
        Err(
            prefixed(
                "lighting color must contain six hexadecimal digits, got ",
                quoted(value).as_str(),
            ),
        )
    }
}

/// The lighting modes of the hardware.
pub open spec fn is_lighting_mode(value: Seq<char>) -> bool {
    value == "static"@ || value == "breathe"@ || value == "cycle"@ || value == "rainbow"@ || value
        == "strobe"@
}

/// Checks a lighting mode.
pub fn validate_lighting_mode(value: &str) -> (result: Result<(), String>)
    ensures
        match result {
            Ok(_) => is_lighting_mode(value@),
            Err(message) => !is_lighting_mode(value@) && message@ == "unsupported lighting mode "@
                + quoted_text(value@),
        },
{
    if same(value, "static") || same(value, "breathe") || same(value, "cycle") || same(
        value,
        "rainbow",
    ) || same(value, "strobe") {
        Ok(())
    } else {
        Err(prefixed("unsupported lighting mode ", quoted(value).as_str()))
    }
}

/// The lighting of a device that is switched off.
pub open spec fn dark() -> LightingView {
    LightingView {
        enabled: false,
        mode: Seq::empty(),
        color: Seq::empty(),
        color2: Seq::empty(),
        speed: Seq::empty(),
        brightness: 0,
    }
}

/// The device and lighting that the arguments of `lighting` ask for.
pub open spec fn lighting_value(args: Seq<Seq<char>>) -> Result<
    (Seq<char>, LightingView),
    Seq<char>,
> {
    if arity_between_error("lighting"@, args.len(), 2, 4) is Some {
        Err(arity_between_error("lighting"@, args.len(), 2, 4)->0)
    } else if args[0] != "keyboard"@ && args[0] != "lightbar"@ {
        Err("lighting device must be keyboard or lightbar"@)
    } else if args[1] == "off"@ {
        match arity_error("lighting"@, args.len(), 2) {
            Some(text) => Err(text),
            None => Ok((args[0], dark())),
        }
    } else {
        let color = if args.len() > 2 {
            args[2]
        } else {
            "FFFFFF"@
        };
        let brightness = if args.len() > 3 {
            ranged_value(args[3], "lighting brightness"@, 0, 3)
        } else {
            Ok(3i32)
        };
        if !is_lighting_mode(args[1]) {
            Err("unsupported lighting mode "@ + quoted_text(args[1]))
        } else if !is_color(color) {
            Err(
                "lighting color must contain six hexadecimal digits, got "@ + quoted_text(color),
            )
        } else {
            match brightness {
                Err(text) => Err(text),
                Ok(brightness) => Ok(
                    (
                        args[0],
                        LightingView {
                            enabled: true,
                            mode: args[1],
                            color,
                            color2: "000000"@,
                            speed: "normal"@,
                            brightness,
                        },
                    ),
                ),
            }
        }
    }
}

/// Reads the arguments of `lighting`.
pub fn parse_lighting(args: &[String]) -> (result: Result<(String, LightingState), String>)
    ensures
        match lighting_value(args.deep_view()) {
            Ok(value) => result matches Ok(found) && found.0@ == value.0 && found.1@ == value.1,
            Err(text) => result matches Err(message) && message@ == text,
        },
{
    match expect_arity_between("lighting", args, 2, 4) {
        Ok(_) => {},
        Err(message) => {
            return Err(message);
        },
    }
    assert(args.deep_view()[0] == args@[0]@ && args.deep_view()[1] == args@[1]@);
    let device: &str = args[0].as_str();
    if !same(device, "keyboard") && !same(device, "lightbar") {
        return Err(String::from_str("lighting device must be keyboard or lightbar"));
    }
    let mode: &str = args[1].as_str();
    if same(mode, "off") {
        return match expect_arity("lighting", args, 2) {
            Ok(_) => Ok((String::from_str(device), LightingState::default())),
            Err(message) => Err(message),
        };
    }
    let color: &str = if args.len() > 2 {
        args[2].as_str()
    } else {
        "FFFFFF"
    };
    match validate_lighting_mode(mode) {
        Ok(_) => {},
        Err(message) => {
            return Err(message);
        },
    }
    match validate_lighting_color(color) {
        Ok(_) => {},
        Err(message) => {
            return Err(message);
        },
    }
    let brightness: i32 = if args.len() > 3 {
        match parse_i32_in_range(args[3].as_str(), "lighting brightness", 0, BRIGHTNESS_MAX) {
            Ok(brightness) => brightness,
            Err(message) => {
                return Err(message);
            },
        }
    } else {
        3
    };
    Ok(
        (
            String::from_str(device),
            LightingState {
                enabled: true,
                mode: String::from_str(mode),
                color: String::from_str(color),
                color2: String::from_str("000000"),
                speed: String::from_str("normal"),
                brightness,
            },
        ),
    )
}

// ---------------------------------------------------------------------------
// Commands
// ---------------------------------------------------------------------------

/// What the command line asks for.
///
/// `Fans` without a mode hands the fans back to the firmware; otherwise `curves`
/// names the file to read them from.
#[derive(Debug)]
pub enum CtlCommand {
    Status,
    Probe,
    Outcome { client_id: ClientId, request_id: u64 },
    Watch(EventTopic),
    Apply { path: String },
    Ppd(Option<String>),
    Tdp(TdpState),
    Undervolt(Option<i32>),
    Fans { mode: Option<FanControlMode>, curves: Option<String> },
    Lighting { device: String, state: LightingState },
    BatteryLimit(i32),
    BatteryChargeOnce(bool),
    PanelOverdrive(bool),
    ReleaseFans,
    Usage,
}

/// The model of a [`CtlCommand`].
pub enum CtlView {
    Status,
    Probe,
    Outcome { client_id: nat, request_id: u64 },
    Watch(EventTopic),
    Apply { path: Seq<char> },
    Ppd(Option<Seq<char>>),
    Tdp(TdpState),
    Undervolt(Option<i32>),
    Fans { mode: Option<FanControlMode>, curves: Option<Seq<char>> },
    Lighting { device: Seq<char>, state: LightingView },
    BatteryLimit(i32),
    BatteryChargeOnce(bool),
    PanelOverdrive(bool),
    ReleaseFans,
    Usage,
}

impl View for CtlCommand {
    type V = CtlView;

    open spec fn view(&self) -> CtlView {
        match self {
            CtlCommand::Status => CtlView::Status,
            CtlCommand::Probe => CtlView::Probe,
            CtlCommand::Outcome { client_id, request_id } => CtlView::Outcome {
                client_id: client_id.number() as nat,
                request_id: *request_id,
            },
            CtlCommand::Watch(topic) => CtlView::Watch(*topic),
            CtlCommand::Apply { path } => CtlView::Apply { path: path@ },
            CtlCommand::Ppd(profile) => CtlView::Ppd(profile.deep_view()),
            CtlCommand::Tdp(limits) => CtlView::Tdp(*limits),
            CtlCommand::Undervolt(offset) => CtlView::Undervolt(*offset),
            CtlCommand::Fans { mode, curves } => CtlView::Fans {
                mode: *mode,
                curves: curves.deep_view(),
            },
            CtlCommand::Lighting { device, state } => CtlView::Lighting {
                device: device@,
                state: state@,
            },
            CtlCommand::BatteryLimit(limit) => CtlView::BatteryLimit(*limit),
            CtlCommand::BatteryChargeOnce(enabled) => CtlView::BatteryChargeOnce(*enabled),
            CtlCommand::PanelOverdrive(enabled) => CtlView::PanelOverdrive(*enabled),
            CtlCommand::ReleaseFans => CtlView::ReleaseFans,
            CtlCommand::Usage => CtlView::Usage,
        }
    }
}

/// A parsed command, as its model.
pub open spec fn parsed(result: Result<CtlCommand, String>) -> Result<CtlView, Seq<char>> {
    match result {
        Ok(command) => Ok(command@),
        Err(message) => Err(message@),
    }
}

/// `value`, unless there is an error.
pub open spec fn unless_error(error: Option<Seq<char>>, value: Result<CtlView, Seq<char>>) -> Result<
    CtlView,
    Seq<char>,
> {
    match error {
        Some(text) => Err(text),
        None => value,
    }
}

pub open spec fn outcome_command(args: Seq<Seq<char>>) -> Result<CtlView, Seq<char>> {
    unless_error(
        arity_error("outcome"@, args.len(), 2),
        unless_error(
            crate::envelope::client_id_error(args[0]),
            match request_id_value(args[1]) {
                Ok(request_id) => Ok(
                    CtlView::Outcome { client_id: hex_value(args[0]), request_id },
                ),
                Err(text) => Err(text),
            },
        ),
    )
}

fn parse_outcome(args: &[String]) -> (result: Result<CtlCommand, String>)
    ensures
        parsed(result) == outcome_command(args.deep_view()),
{
    match expect_arity("outcome", args, 2) {
        Ok(_) => {},
        Err(message) => {
            return Err(message);
        },
    }
    assert(args.deep_view()[0] == args@[0]@ && args.deep_view()[1] == args@[1]@);
    let client_id: ClientId = match ClientId::parse(args[0].as_str()) {
        Ok(client_id) => client_id,
        Err(message) => {
            return Err(String::from_str(message));
        },
    };
    match parse_request_id(args[1].as_str()) {
        Ok(request_id) => Ok(CtlCommand::Outcome { client_id, request_id }),
        Err(message) => Err(message),
    }
}

/// Whether a topic has a wire name, and which.
pub open spec fn topic_of(name: Seq<char>) -> Option<EventTopic> {
    if name == "state-changed"@ {
        Some(DaemonEventKind::StateChanged)
    } else if name == "gui-toggle"@ {
        Some(DaemonEventKind::GuiToggle)
    } else if name == "controller-action"@ {
        Some(DaemonEventKind::ControllerAction)
    } else if name == "power-source-changed"@ {
        Some(DaemonEventKind::PowerSourceChanged)
    } else {
        None
    }
}

pub open spec fn watch_command(args: Seq<Seq<char>>) -> Result<CtlView, Seq<char>> {
    let name = if args.len() > 0 {
        args[0]
    } else {
        "state-changed"@
    };
    unless_error(
        arity_between_error("watch"@, args.len(), 0, 1),
        match topic_of(name) {
            Some(topic) => Ok(CtlView::Watch(topic)),
            None => Err("unknown subscription event "@ + quoted_text(name)),
        },
    )
}

fn parse_watch(args: &[String]) -> (result: Result<CtlCommand, String>)
    ensures
        parsed(result) == watch_command(args.deep_view()),
{
    match expect_arity_between("watch", args, 0, 1) {
        Ok(_) => {},
        Err(message) => {
            return Err(message);
        },
    }
    let name: &str = if args.len() > 0 {
        args[0].as_str()
    } else {
        "state-changed"
    };
    match DaemonEventKind::parse(name) {
        Some(topic) => {
            proof {
                crate::protocol::law_event_names_are_distinct(topic, topic_of(name@)->0);
            }
            Ok(CtlCommand::Watch(topic))
        },
        None => {
            proof {
                if topic_of(name@) is Some {
                    assert((topic_of(name@)->0).name() == name@);
                }
            }
            Err(prefixed("unknown subscription event ", quoted(name).as_str()))
        },
    }
}

/// An optional limit, which defaults to PL2.
pub open spec fn optional_limit(args: Seq<Seq<char>>, at: int, name: Seq<char>, fallback: i32) -> Result<
    i32,
    Seq<char>,
> {
    if args.len() > at {
        ranged_value(args[at], name, 5, 93)
    } else {
        Ok(fallback)
    }
}

pub open spec fn tdp_command(args: Seq<Seq<char>>) -> Result<CtlView, Seq<char>> {
    unless_error(
        arity_between_error("tdp"@, args.len(), 3, 5),
        match ranged_value(args[0], "PL1"@, 5, 93) {
            Err(text) => Err(text),
            Ok(pl1_spl) => match ranged_value(args[1], "PL2"@, 5, 93) {
                Err(text) => Err(text),
                Ok(pl2_sppt) => match ranged_value(args[2], "FPPT"@, 5, 120) {
                    Err(text) => Err(text),
                    Ok(fppt) => match optional_limit(args, 3, "APU SPPT"@, pl2_sppt) {
                        Err(text) => Err(text),
                        Ok(apu_sppt) => match optional_limit(args, 4, "platform SPPT"@, pl2_sppt) {
                            Err(text) => Err(text),
                            Ok(platform_sppt) => if !(pl1_spl <= pl2_sppt <= fppt) {
                                Err("power limits must satisfy PL1 <= PL2 <= FPPT"@)
                            } else {
                                Ok(
                                    CtlView::Tdp(
                                        TdpState {
                                            pl1_spl,
                                            pl2_sppt,
                                            fppt,
                                            apu_sppt,
                                            platform_sppt,
                                        },
                                    ),
                                )
                            },
                        },
                    },
                },
            },
        },
    )
}

fn parse_optional_limit(args: &[String], at: usize, name: &str, fallback: i32) -> (result: Result<
    i32,
    String,
>)
    ensures
        crate::json::value_result(result) == optional_limit(
            args.deep_view(),
            at as int,
            name@,
            fallback,
        ),
{
    if args.len() > at {
        assert(args.deep_view()[at as int] == args@[at as int]@);
        parse_i32_in_range(args[at].as_str(), name, 5, 93)
    } else {
        Ok(fallback)
    }
}

fn parse_tdp(args: &[String]) -> (result: Result<CtlCommand, String>)
    ensures
        parsed(result) == tdp_command(args.deep_view()),
{
    match expect_arity_between("tdp", args, 3, 5) {
        Ok(_) => {},
        Err(message) => {
            return Err(message);
        },
    }
    assert(args.deep_view()[0] == args@[0]@ && args.deep_view()[1] == args@[1]@
        && args.deep_view()[2] == args@[2]@);
    let pl1_spl: i32 = match parse_i32_in_range(args[0].as_str(), "PL1", 5, 93) {
        Ok(watts) => watts,
        Err(message) => {
            return Err(message);
        },
    };
    let pl2_sppt: i32 = match parse_i32_in_range(args[1].as_str(), "PL2", 5, 93) {
        Ok(watts) => watts,
        Err(message) => {
            return Err(message);
        },
    };
    let fppt: i32 = match parse_i32_in_range(args[2].as_str(), "FPPT", 5, 120) {
        Ok(watts) => watts,
        Err(message) => {
            return Err(message);
        },
    };
    let apu_sppt: i32 = match parse_optional_limit(args, 3, "APU SPPT", pl2_sppt) {
        Ok(watts) => watts,
        Err(message) => {
            return Err(message);
        },
    };
    let platform_sppt: i32 = match parse_optional_limit(args, 4, "platform SPPT", pl2_sppt) {
        Ok(watts) => watts,
        Err(message) => {
            return Err(message);
        },
    };
    if pl2_sppt < pl1_spl || fppt < pl2_sppt {
        return Err(String::from_str("power limits must satisfy PL1 <= PL2 <= FPPT"));
    }
    Ok(CtlCommand::Tdp(TdpState { pl1_spl, pl2_sppt, fppt, apu_sppt, platform_sppt }))
}

pub open spec fn undervolt_command(args: Seq<Seq<char>>) -> Result<CtlView, Seq<char>> {
    unless_error(
        arity_error("undervolt"@, args.len(), 1),
        if args[0] == "off"@ {
            Ok(CtlView::Undervolt(None))
        } else {
            match ranged_value(args[0], "undervolt"@, -40, 0) {
                Ok(offset) => Ok(CtlView::Undervolt(Some(offset))),
                Err(text) => Err(text),
            }
        },
    )
}

fn parse_undervolt(args: &[String]) -> (result: Result<CtlCommand, String>)
    ensures
        parsed(result) == undervolt_command(args.deep_view()),
{
    match expect_arity("undervolt", args, 1) {
        Ok(_) => {},
        Err(message) => {
            return Err(message);
        },
    }
    assert(args.deep_view()[0] == args@[0]@);
    if same(args[0].as_str(), "off") {
        return Ok(CtlCommand::Undervolt(None));
    }
    match parse_i32_in_range(args[0].as_str(), "undervolt", -40, 0) {
        Ok(offset) => Ok(CtlCommand::Undervolt(Some(offset))),
        Err(message) => Err(message),
    }
}

pub open spec fn fans_command(args: Seq<Seq<char>>) -> Result<CtlView, Seq<char>> {
    unless_error(
        arity_between_error("fans"@, args.len(), 1, 2),
        if args[0] == "off"@ {
            unless_error(
                arity_error("fans"@, args.len(), 1),
                Ok(CtlView::Fans { mode: None, curves: None }),
            )
        } else if args[0] == "firmware"@ {
            unless_error(
                arity_error("fans"@, args.len(), 2),
                Ok(
                    CtlView::Fans {
                        mode: Some(FanControlMode::Firmware),
                        curves: Some(args[1]),
                    },
                ),
            )
        } else if args[0] == "direct"@ {
            unless_error(
                arity_error("fans"@, args.len(), 2),
                Ok(CtlView::Fans { mode: Some(FanControlMode::Direct), curves: Some(args[1]) }),
            )
        } else {
            Err("fan mode must be firmware, direct, or off"@)
        },
    )
}

fn parse_fans(args: &[String]) -> (result: Result<CtlCommand, String>)
    ensures
        parsed(result) == fans_command(args.deep_view()),
{
    match expect_arity_between("fans", args, 1, 2) {
        Ok(_) => {},
        Err(message) => {
            return Err(message);
        },
    }
    assert(args.deep_view()[0] == args@[0]@);
    proof {
        reveal_strlit("off");
        reveal_strlit("firmware");
        reveal_strlit("direct");
        assert("off"@.len() == 3 && "firmware"@.len() == 8 && "direct"@.len() == 6);
    }
    let mode: &str = args[0].as_str();
    if same(mode, "off") {
        return match expect_arity("fans", args, 1) {
            Ok(_) => Ok(CtlCommand::Fans { mode: None, curves: None }),
            Err(message) => Err(message),
        };
    }
    let direct: bool = same(mode, "direct");
    if !direct && !same(mode, "firmware") {
        return Err(String::from_str("fan mode must be firmware, direct, or off"));
    }
    match expect_arity("fans", args, 2) {
        Ok(_) => {},
        Err(message) => {
            return Err(message);
        },
    }
    assert(args.deep_view()[1] == args@[1]@);
    let curves: Option<String> = Some(String::from_str(args[1].as_str()));
    if direct {
        Ok(CtlCommand::Fans { mode: Some(FanControlMode::Direct), curves })
    } else {
        Ok(CtlCommand::Fans { mode: Some(FanControlMode::Firmware), curves })
    }
}

/// A command with a switch as its only argument.
pub open spec fn switch_argument(command: Seq<char>, args: Seq<Seq<char>>) -> Result<
    bool,
    Seq<char>,
> {
    match arity_error(command, args.len(), 1) {
        Some(text) => Err(text),
        None => switch_value(args[0]),
    }
}

fn parse_switch(command: &str, args: &[String]) -> (result: Result<bool, String>)
    ensures
        crate::json::value_result(result) == switch_argument(command@, args.deep_view()),
{
    match expect_arity(command, args, 1) {
        Ok(_) => {
            assert(args.deep_view()[0] == args@[0]@);
            parse_bool(args[0].as_str())
        },
        Err(message) => Err(message),
    }
}

/// The command that a name and its arguments ask for.
pub open spec fn command_of(command: Seq<char>, args: Seq<Seq<char>>) -> Result<
    CtlView,
    Seq<char>,
> {
    if command == "status"@ {
        unless_error(arity_error("status"@, args.len(), 0), Ok(CtlView::Status))
    } else if command == "probe"@ {
        unless_error(arity_error("probe"@, args.len(), 0), Ok(CtlView::Probe))
    } else if command == "outcome"@ {
        outcome_command(args)
    } else if command == "watch"@ {
        watch_command(args)
    } else if command == "apply"@ {
        unless_error(
            arity_error("apply"@, args.len(), 1),
            Ok(CtlView::Apply { path: args[0] }),
        )
    } else if command == "ppd"@ {
        unless_error(
            arity_error("ppd"@, args.len(), 1),
            Ok(
                CtlView::Ppd(
                    if args[0] == "off"@ {
                        None
                    } else {
                        Some(args[0])
                    },
                ),
            ),
        )
    } else if command == "tdp"@ {
        tdp_command(args)
    } else if command == "undervolt"@ {
        undervolt_command(args)
    } else if command == "fans"@ {
        fans_command(args)
    } else if command == "lighting"@ {
        match lighting_value(args) {
            Ok(value) => Ok(CtlView::Lighting { device: value.0, state: value.1 }),
            Err(text) => Err(text),
        }
    } else if command == "battery-limit"@ {
        unless_error(
            arity_error("battery-limit"@, args.len(), 1),
            match ranged_value(args[0], "battery limit"@, 40, 100) {
                Ok(limit) => Ok(CtlView::BatteryLimit(limit)),
                Err(text) => Err(text),
            },
        )
    } else if command == "battery-charge-once"@ {
        match switch_argument("battery-charge-once"@, args) {
            Ok(enabled) => Ok(CtlView::BatteryChargeOnce(enabled)),
            Err(text) => Err(text),
        }
    } else if command == "panel-overdrive"@ {
        match switch_argument("panel-overdrive"@, args) {
            Ok(enabled) => Ok(CtlView::PanelOverdrive(enabled)),
            Err(text) => Err(text),
        }
    } else if command == "release-fans"@ {
        unless_error(arity_error("release-fans"@, args.len(), 0), Ok(CtlView::ReleaseFans))
    } else if command == "help"@ || command == "--help"@ || command == "-h"@ {
        unless_error(arity_error(command, args.len(), 0), Ok(CtlView::Usage))
    } else {
        Ok(CtlView::Usage)
    }
}

fn parse_bare(command: &str, args: &[String], value: CtlCommand) -> (result: Result<
    CtlCommand,
    String,
>)
    ensures
        parsed(result) == unless_error(arity_error(command@, args@.len(), 0), Ok(value@)),
{
    match expect_arity(command, args, 0) {
        Ok(_) => Ok(value),
        Err(message) => Err(message),
    }
}

fn parse_apply(args: &[String]) -> (result: Result<CtlCommand, String>)
    ensures
        parsed(result) == unless_error(
            arity_error("apply"@, args@.len(), 1),
            Ok(CtlView::Apply { path: args.deep_view()[0] }),
        ),
{
    match expect_arity("apply", args, 1) {
        Ok(_) => {
            assert(args.deep_view()[0] == args@[0]@);
            Ok(CtlCommand::Apply { path: String::from_str(args[0].as_str()) })
        },
        Err(message) => Err(message),
    }
}

fn parse_ppd(args: &[String]) -> (result: Result<CtlCommand, String>)
    ensures
        parsed(result) == unless_error(
            arity_error("ppd"@, args@.len(), 1),
            Ok(
                CtlView::Ppd(
                    if args.deep_view()[0] == "off"@ {
                        None
                    } else {
                        Some(args.deep_view()[0])
                    },
                ),
            ),
        ),
{
    match expect_arity("ppd", args, 1) {
        Ok(_) => {
            assert(args.deep_view()[0] == args@[0]@);
            if same(args[0].as_str(), "off") {
                Ok(CtlCommand::Ppd(None))
            } else {
                Ok(CtlCommand::Ppd(Some(String::from_str(args[0].as_str()))))
            }
        },
        Err(message) => Err(message),
    }
}

fn parse_battery_limit(args: &[String]) -> (result: Result<CtlCommand, String>)
    ensures
        parsed(result) == command_of("battery-limit"@, args.deep_view()),
{
    proof {
        lemma_command_names();
    }
    match expect_arity("battery-limit", args, 1) {
        Ok(_) => {},
        Err(message) => {
            return Err(message);
        },
    }
    assert(args.deep_view()[0] == args@[0]@);
    match parse_i32_in_range(args[0].as_str(), "battery limit", 40, 100) {
        Ok(limit) => Ok(CtlCommand::BatteryLimit(limit)),
        Err(message) => Err(message),
    }
}

proof fn lemma_command_names()
    ensures
        "battery-limit"@ != "status"@,
        "battery-limit"@ != "probe"@,
        "battery-limit"@ != "outcome"@,
        "battery-limit"@ != "watch"@,
        "battery-limit"@ != "apply"@,
        "battery-limit"@ != "ppd"@,
        "battery-limit"@ != "tdp"@,
        "battery-limit"@ != "undervolt"@,
        "battery-limit"@ != "fans"@,
        "battery-limit"@ != "lighting"@,
{
    reveal_strlit("battery-limit");
    reveal_strlit("status");
    reveal_strlit("probe");
    reveal_strlit("outcome");
    reveal_strlit("watch");
    reveal_strlit("apply");
    reveal_strlit("ppd");
    reveal_strlit("tdp");
    reveal_strlit("undervolt");
    reveal_strlit("fans");
    reveal_strlit("lighting");
    assert("battery-limit"@.len() == 13);
}

/// Reads a command from its name and arguments.
///
/// The arguments are checked completely before anything is sent. An unknown
/// command asks for the usage text.
pub fn parse_command(command: &str, args: &[String]) -> (result: Result<CtlCommand, String>)
    ensures
        parsed(result) == command_of(command@, args.deep_view()),
{
    assert(args.deep_view().len() == args@.len());
    if same(command, "status") {
        parse_bare("status", args, CtlCommand::Status)
    } else if same(command, "probe") {
        parse_bare("probe", args, CtlCommand::Probe)
    } else if same(command, "outcome") {
        parse_outcome(args)
    } else if same(command, "watch") {
        parse_watch(args)
    } else if same(command, "apply") {
        parse_apply(args)
    } else if same(command, "ppd") {
        parse_ppd(args)
    } else if same(command, "tdp") {
        parse_tdp(args)
    } else if same(command, "undervolt") {
        parse_undervolt(args)
    } else if same(command, "fans") {
        parse_fans(args)
    } else if same(command, "lighting") {
        match parse_lighting(args) {
            Ok(value) => Ok(CtlCommand::Lighting { device: value.0, state: value.1 }),
            Err(message) => Err(message),
        }
    } else if same(command, "battery-limit") {
        parse_battery_limit(args)
    } else if same(command, "battery-charge-once") {
        match parse_switch("battery-charge-once", args) {
            Ok(enabled) => Ok(CtlCommand::BatteryChargeOnce(enabled)),
            Err(message) => Err(message),
        }
    } else if same(command, "panel-overdrive") {
        match parse_switch("panel-overdrive", args) {
            Ok(enabled) => Ok(CtlCommand::PanelOverdrive(enabled)),
            Err(message) => Err(message),
        }
    } else if same(command, "release-fans") {
        parse_bare("release-fans", args, CtlCommand::ReleaseFans)
    } else if same(command, "help") || same(command, "--help") || same(command, "-h") {
        parse_bare(command, args, CtlCommand::Usage)
    } else {
        Ok(CtlCommand::Usage)
    }
}

/// The command that a whole command line asks for: its first word is the
/// command, and without one the status is shown.
pub open spec fn command_line_of(words: Seq<Seq<char>>) -> Result<CtlView, Seq<char>> {
    if words.len() == 0 {
        command_of("status"@, words)
    } else {
        command_of(words[0], words.skip(1))
    }
}

/// Reads a whole command line.
pub fn run(words: &[String]) -> (result: Result<CtlCommand, String>)
    ensures
        parsed(result) == command_line_of(words.deep_view()),
{
    if words.len() == 0 {
        return parse_command("status", words);
    }
    let mut args: Vec<String> = Vec::new();
    let mut i: usize = 1;
    while i < words.len()
        invariant
            1 <= i <= words@.len(),
            args@.len() == i - 1,
            forall|k: int| 0 <= k < i - 1 ==> (#[trigger] args@[k])@ == words@[k + 1]@,
        decreases words@.len() - i,
    {
        args.push(words[i].clone());
        i = i + 1;
    }
    assert(args.deep_view() =~= words.deep_view().skip(1));
    assert(words.deep_view()[0] == words@[0]@);
    parse_command(words[0].as_str(), &args)
}

// ---------------------------------------------------------------------------
// Requests
// ---------------------------------------------------------------------------

/// `value`, where an override is active.
pub open spec fn when_active<T>(active: bool, value: Option<T>) -> Option<T> {
    if active {
        value
    } else {
        None
    }
}

/// The request that leaves a machine as its status says it is.
pub open spec fn current_request_of(state: WireStatus) -> ApplyRequestView {
    ApplyRequestView {
        ppd_profile: state.ppd_profile.deep_view(),
        power_limits: when_active(state.overrides.power, state.tdp),
        fan_mode: state.fan_control_mode,
        fan_curves: when_active(state.overrides.fans, state.fan_curves),
        undervolt: match when_active(state.overrides.undervolt, state.undervolt) {
            Some(undervolt) => Some(undervolt.cpu_co),
            None => None,
        },
        cpu_temp_limit: match state.cpu_temp_limit {
            Some(limit) => limit,
            None => 95,
        },
        fan_hysteresis: state.fan_hysteresis,
        fan_temperature_average_seconds: state.fan_temperature_average_seconds,
        disable_high_power_fan_protection: state.disable_high_power_fan_protection,
    }
}

/// Rebuilds the request that leaves a machine as its status says it is.
pub fn current_request(state: WireStatus) -> (result: ApplyRequest)
    ensures
        result@ == current_request_of(state),
{
    ApplyRequest {
        ppd_profile: state.ppd_profile,
        power_limits: if state.overrides.power {
            state.tdp
        } else {
            None
        },
        fan_mode: state.fan_control_mode,
        fan_curves: if state.overrides.fans {
            state.fan_curves
        } else {
            None
        },
        undervolt: if state.overrides.undervolt {
            match state.undervolt {
                Some(undervolt) => Some(undervolt.cpu_co),
                None => None,
            }
        } else {
            None
        },
        cpu_temp_limit: match state.cpu_temp_limit {
            Some(limit) => limit,
            None => 95,
        },
        fan_hysteresis: state.fan_hysteresis,
        fan_temperature_average_seconds: state.fan_temperature_average_seconds,
        disable_high_power_fan_protection: state.disable_high_power_fan_protection,
    }
}

/// One focused change of a request.
pub enum RequestChange {
    Ppd(Option<String>),
    Limits(TdpState),
    Undervolt(Option<i32>),
    FansOff,
    Fans(FanControlMode, Option<[Curve; 2]>),
}

/// A request with one change, everything else kept.
pub open spec fn changed_request(request: ApplyRequestView, change: RequestChange) -> ApplyRequestView {
    match change {
        RequestChange::Ppd(profile) => ApplyRequestView {
            ppd_profile: profile.deep_view(),
            ..request
        },
        RequestChange::Limits(limits) => ApplyRequestView {
            power_limits: Some(limits),
            ..request
        },
        RequestChange::Undervolt(offset) => ApplyRequestView { undervolt: offset, ..request },
        RequestChange::FansOff => ApplyRequestView {
            fan_mode: FanControlMode::Firmware,
            fan_curves: None,
            ..request
        },
        RequestChange::Fans(mode, curves) => ApplyRequestView {
            fan_mode: mode,
            fan_curves: curves,
            ..request
        },
    }
}

/// Makes one change to a request and keeps everything else.
pub fn change_request(request: ApplyRequest, change: RequestChange) -> (result: ApplyRequest)
    ensures
        result@ == changed_request(request@, change),
{
    let mut changed: ApplyRequest = request;
    match change {
        RequestChange::Ppd(profile) => {
            changed.ppd_profile = profile;
        },
        RequestChange::Limits(limits) => {
            changed.power_limits = Some(limits);
        },
        RequestChange::Undervolt(offset) => {
            changed.undervolt = offset;
        },
        RequestChange::FansOff => {
            changed.fan_mode = FanControlMode::Firmware;
            changed.fan_curves = None;
        },
        RequestChange::Fans(mode, curves) => {
            changed.fan_mode = mode;
            changed.fan_curves = curves;
        },
    }
    changed
}

// ---------------------------------------------------------------------------
// Input and events
// ---------------------------------------------------------------------------

/// Refuses JSON input that cannot fit into a protocol frame.
pub fn bounded_input(text: String) -> (result: Result<String, String>)
    ensures
        match result {
            Ok(kept) => vstd::utf8::encode_utf8(text@).len() <= MAX_FRAME_BYTES && kept == text,
            Err(message) => vstd::utf8::encode_utf8(text@).len() > MAX_FRAME_BYTES && message@
                == "JSON input exceeds the 65536-byte protocol frame limit"@,
        },
{
    if text.as_str().as_bytes().len() > MAX_FRAME_BYTES {
        return Err(String::from_str("JSON input exceeds the 65536-byte protocol frame limit"));
    }
    Ok(text)
}

/// The event to print, or the error of a subscription that has ended.
pub fn watch_event(received: Option<DaemonEvent>) -> (result: Result<DaemonEvent, String>)
    ensures
        match received {
            Some(event) => result == Ok::<DaemonEvent, String>(event),
            None => result matches Err(message) && message@ == "watch subscription disconnected"@,
        },
{
    match received {
        Some(event) => Ok(event),
        None => Err(String::from_str("watch subscription disconnected")),
    }
}

/// The limits that the command line accepts are limits that the daemon accepts.
pub proof fn law_accepted_limits_are_valid(args: Seq<Seq<char>>)
    requires
        tdp_command(args) is Ok,
    ensures
        tdp_command(args) matches Ok(CtlView::Tdp(limits)) && crate::protocol::limits_error(limits)
            is None,
{
}

/// After a change, the request asks for exactly what the change says, and for
/// everything else as before.
pub proof fn law_change_sets_its_own_setting(
    request: ApplyRequest,
    change: RequestChange,
    result: ApplyRequest,
)
    requires
        result@ == changed_request(request@, change),
    ensures
        result.ppd_profile.deep_view() == (match change {
            RequestChange::Ppd(policy) => policy.deep_view(),
            _ => request.ppd_profile.deep_view(),
        }),
        result.power_limits == (match change {
            RequestChange::Limits(limits) => Some(limits),
            _ => request.power_limits,
        }),
        change matches RequestChange::Limits(limits) ==> result@.effective_limits() == Some(limits),
        result.undervolt == (match change {
            RequestChange::Undervolt(offset) => offset,
            _ => request.undervolt,
        }),
        change matches RequestChange::Fans(mode, curves) ==> result.fan_mode == mode
            && result.fan_curves == curves,
        change is FansOff ==> result.fan_mode == FanControlMode::Firmware && result.fan_curves
            is None,
        !(change is Fans) && !(change is FansOff) ==> result.fan_mode == request.fan_mode
            && result.fan_curves == request.fan_curves,
        result.cpu_temp_limit == request.cpu_temp_limit,
        result.fan_hysteresis == request.fan_hysteresis,
        result.fan_temperature_average_seconds == request.fan_temperature_average_seconds,
        result.disable_high_power_fan_protection == request.disable_high_power_fan_protection,
{
}

/// The request that is rebuilt from a status asks for what the machine does: each
/// setting as the status reports it, and the limits, curves and undervolt exactly
/// where the status says that they override the stock ones.
pub proof fn law_current_request_keeps_the_machine(state: WireStatus, request: ApplyRequest)
    requires
        request@ == current_request_of(state),
    ensures
        request.ppd_profile.deep_view() == state.ppd_profile.deep_view(),
        state.overrides.power ==> request.power_limits == state.tdp,
        !state.overrides.power ==> request.power_limits is None,
        request.fan_mode == state.fan_control_mode,
        state.overrides.fans ==> request.fan_curves == state.fan_curves,
        !state.overrides.fans ==> request.fan_curves is None,
        request.undervolt is Some <==> state.overrides.undervolt && state.undervolt is Some,
        request.undervolt matches Some(offset) ==> offset == state.undervolt->0.cpu_co,
        state.cpu_temp_limit matches Some(limit) ==> request.cpu_temp_limit == limit,
        state.cpu_temp_limit is None ==> request.cpu_temp_limit == 95,
        request.fan_hysteresis == state.fan_hysteresis,
        request.fan_temperature_average_seconds == state.fan_temperature_average_seconds,
        request.disable_high_power_fan_protection == state.disable_high_power_fan_protection,
{
}

proof fn lemma_words_differ()
    ensures
        "tdp"@ != "ppd"@,
        "tdp"@ != "off"@,
        "fans"@ != "help"@,
        "probe"@ != "watch"@,
        "probe"@ != "apply"@,
        "watch"@ != "apply"@,
        "status"@ != "--help"@,
        "off"@ != "ppd"@,
        "on"@ != "off"@,
        "off"@ != "firmware"@,
        "off"@ != "direct"@,
        "firmware"@ != "direct"@,
        "keyboard"@ != "lightbar"@,
        "status"@.len() == 6,
        "probe"@.len() == 5,
        "outcome"@.len() == 7,
        "watch"@.len() == 5,
        "apply"@.len() == 5,
        "ppd"@.len() == 3,
        "tdp"@.len() == 3,
        "undervolt"@.len() == 9,
        "fans"@.len() == 4,
        "lighting"@.len() == 8,
        "battery-limit"@.len() == 13,
        "battery-charge-once"@.len() == 19,
        "panel-overdrive"@.len() == 15,
        "release-fans"@.len() == 12,
        "off"@ == seq!['o', 'f', 'f'],
{
    reveal_strlit("status");
    reveal_strlit("probe");
    reveal_strlit("outcome");
    reveal_strlit("watch");
    reveal_strlit("apply");
    reveal_strlit("ppd");
    reveal_strlit("tdp");
    reveal_strlit("undervolt");
    reveal_strlit("fans");
    reveal_strlit("lighting");
    reveal_strlit("battery-limit");
    reveal_strlit("battery-charge-once");
    reveal_strlit("panel-overdrive");
    reveal_strlit("release-fans");
    reveal_strlit("help");
    reveal_strlit("--help");
    reveal_strlit("on");
    reveal_strlit("off");
    reveal_strlit("firmware");
    reveal_strlit("direct");
    reveal_strlit("keyboard");
    reveal_strlit("lightbar");
    assert("tdp"@[0] == 't' && "ppd"@[0] == 'p' && "off"@[0] == 'o');
    assert("fans"@[0] == 'f' && "help"@[0] == 'h');
    assert("probe"@[0] == 'p' && "watch"@[0] == 'w' && "apply"@[0] == 'a');
    assert("status"@[0] == 's' && "--help"@[0] == '-');
    assert("keyboard"@[0] == 'k' && "lightbar"@[0] == 'l');
    assert("firmware"@[0] == 'f' && "direct"@[0] == 'd');
    assert("off"@ =~= seq!['o', 'f', 'f']);
}

proof fn lemma_dispatch(words: Seq<Seq<char>>)
    requires
        words.len() > 0,
    ensures
        words[0] == "tdp"@ ==> command_line_of(words) == tdp_command(words.skip(1)),
        words[0] == "undervolt"@ ==> command_line_of(words) == undervolt_command(words.skip(1)),
        words[0] == "fans"@ ==> command_line_of(words) == fans_command(words.skip(1)),
        words[0] == "outcome"@ ==> command_line_of(words) == outcome_command(words.skip(1)),
        words[0] == "watch"@ ==> command_line_of(words) == watch_command(words.skip(1)),
{
    lemma_words_differ();
}

proof fn lemma_fan_words()
    ensures
        "off"@ != "firmware"@,
        "off"@ != "direct"@,
        "firmware"@ != "direct"@,
{
    lemma_words_differ();
}

/// The limits of `tdp` are the numbers that follow it, in watts: three to five in
/// the order PL1, PL2, FPPT, APU and platform, where the last two are PL2 if they
/// are left out.
#[verifier::rlimit(60)]
pub proof fn law_tdp_sets_the_limits_it_names(limits: TdpState)
    requires
        5 <= limits.pl1_spl <= limits.pl2_sppt <= 93,
        limits.pl2_sppt <= limits.fppt <= 120,
        5 <= limits.apu_sppt <= 93,
        5 <= limits.platform_sppt <= 93,
    ensures
        ({
            let pl1 = signed_decimal(limits.pl1_spl as int);
            let pl2 = signed_decimal(limits.pl2_sppt as int);
            let fppt = signed_decimal(limits.fppt as int);
            let apu = signed_decimal(limits.apu_sppt as int);
            let platform = signed_decimal(limits.platform_sppt as int);
            &&& command_line_of(seq!["tdp"@, pl1, pl2, fppt, apu, platform]) == Ok::<
                CtlView,
                Seq<char>,
            >(CtlView::Tdp(limits))
            &&& command_line_of(seq!["tdp"@, pl1, pl2, fppt, apu]) == Ok::<CtlView, Seq<char>>(
                CtlView::Tdp(TdpState { platform_sppt: limits.pl2_sppt, ..limits }),
            )
            &&& command_line_of(seq!["tdp"@, pl1, pl2, fppt]) == Ok::<CtlView, Seq<char>>(
                CtlView::Tdp(
                    TdpState {
                        apu_sppt: limits.pl2_sppt,
                        platform_sppt: limits.pl2_sppt,
                        ..limits
                    },
                ),
            )
        }),
{
    let pl1 = signed_decimal(limits.pl1_spl as int);
    let pl2 = signed_decimal(limits.pl2_sppt as int);
    let fppt = signed_decimal(limits.fppt as int);
    let apu = signed_decimal(limits.apu_sppt as int);
    let platform = signed_decimal(limits.platform_sppt as int);
    law_written_numbers_are_read(limits.pl1_spl as int, i32::MIN as int, i32::MAX as int);
    law_written_numbers_are_read(limits.pl2_sppt as int, i32::MIN as int, i32::MAX as int);
    law_written_numbers_are_read(limits.fppt as int, i32::MIN as int, i32::MAX as int);
    law_written_numbers_are_read(limits.apu_sppt as int, i32::MIN as int, i32::MAX as int);
    law_written_numbers_are_read(limits.platform_sppt as int, i32::MIN as int, i32::MAX as int);
    lemma_dispatch(seq!["tdp"@, pl1, pl2, fppt, apu, platform]);
    lemma_dispatch(seq!["tdp"@, pl1, pl2, fppt, apu]);
    lemma_dispatch(seq!["tdp"@, pl1, pl2, fppt]);
    assert(seq!["tdp"@, pl1, pl2, fppt, apu, platform].skip(1) =~= seq![
        pl1,
        pl2,
        fppt,
        apu,
        platform,
    ]);
    assert(seq!["tdp"@, pl1, pl2, fppt, apu].skip(1) =~= seq![pl1, pl2, fppt, apu]);
    assert(seq!["tdp"@, pl1, pl2, fppt].skip(1) =~= seq![pl1, pl2, fppt]);
}

proof fn lemma_number_is_not_off(value: int)
    ensures
        signed_decimal(value) != "off"@,
{
    lemma_words_differ();
    if value < 0 {
        assert(signed_decimal(value)[0] == '-');
    } else {
        crate::number::lemma_decimal_starts_with_a_digit(value as nat);
    }
}

/// The offset of `undervolt` is the number that follows it, from -40 to 0 and none
/// beyond; `off` takes it away.
#[verifier::rlimit(60)]
pub proof fn law_undervolt_sets_the_offset_it_names(offset: i32)
    ensures
        -40 <= offset <= 0 ==> command_line_of(seq!["undervolt"@, signed_decimal(offset as int)])
            == Ok::<CtlView, Seq<char>>(CtlView::Undervolt(Some(offset))),
        offset < -40 || offset > 0 ==> command_line_of(
            seq!["undervolt"@, signed_decimal(offset as int)],
        ) is Err,
        command_line_of(seq!["undervolt"@, "off"@]) == Ok::<CtlView, Seq<char>>(
            CtlView::Undervolt(None),
        ),
{
    lemma_number_is_not_off(offset as int);
    law_written_numbers_are_read(offset as int, i32::MIN as int, i32::MAX as int);
    let text = signed_decimal(offset as int);
    lemma_dispatch(seq!["undervolt"@, text]);
    lemma_dispatch(seq!["undervolt"@, "off"@]);
    assert(seq!["undervolt"@, text].skip(1) =~= seq![text]);
    assert(seq!["undervolt"@, "off"@].skip(1) =~= seq!["off"@]);
}

/// The charge limit of `battery-limit` is the number that follows it, from 40 to
/// 100 percent and none beyond.
pub proof fn law_battery_limit_is_the_number_it_names(limit: i32)
    ensures
        40 <= limit <= 100 ==> command_line_of(seq!["battery-limit"@, signed_decimal(limit as int)])
            == Ok::<CtlView, Seq<char>>(CtlView::BatteryLimit(limit)),
        limit < 40 || limit > 100 ==> command_line_of(
            seq!["battery-limit"@, signed_decimal(limit as int)],
        ) is Err,
{
    lemma_words_differ();
    law_written_numbers_are_read(limit as int, i32::MIN as int, i32::MAX as int);
    let text = signed_decimal(limit as int);
    assert(seq!["battery-limit"@, text].skip(1) =~= seq![text]);
}

/// The policy of `ppd` is the word that follows it, `off` for none, and the file of
/// `apply` likewise.
pub proof fn law_ppd_and_apply_take_the_word_they_name(word: Seq<char>)
    ensures
        word != "off"@ ==> command_line_of(seq!["ppd"@, word]) == Ok::<CtlView, Seq<char>>(
            CtlView::Ppd(Some(word)),
        ),
        command_line_of(seq!["ppd"@, "off"@]) == Ok::<CtlView, Seq<char>>(CtlView::Ppd(None)),
        command_line_of(seq!["apply"@, word]) == Ok::<CtlView, Seq<char>>(
            CtlView::Apply { path: word },
        ),
{
    lemma_words_differ();
    assert(seq!["ppd"@, word].skip(1) =~= seq![word]);
    assert(seq!["ppd"@, "off"@].skip(1) =~= seq!["off"@]);
    assert(seq!["apply"@, word].skip(1) =~= seq![word]);
}

/// The mode of `fans` is the word that follows it, with the file of the curves
/// behind it; `off` takes none and gives the fans back.
#[verifier::rlimit(60)]
pub proof fn law_fans_takes_a_mode_and_its_curves(path: Seq<char>)
    ensures
        command_line_of(seq!["fans"@, "off"@]) == Ok::<CtlView, Seq<char>>(
            CtlView::Fans { mode: None, curves: None },
        ),
        command_line_of(seq!["fans"@, "firmware"@, path]) == Ok::<CtlView, Seq<char>>(
            CtlView::Fans { mode: Some(FanControlMode::Firmware), curves: Some(path) },
        ),
        command_line_of(seq!["fans"@, "direct"@, path]) == Ok::<CtlView, Seq<char>>(
            CtlView::Fans { mode: Some(FanControlMode::Direct), curves: Some(path) },
        ),
        command_line_of(seq!["fans"@, "firmware"@]) is Err,
        command_line_of(seq!["fans"@, "direct"@]) is Err,
        command_line_of(seq!["fans"@, "off"@, path]) is Err,
{
    lemma_fan_words();
    lemma_dispatch(seq!["fans"@, "off"@]);
    lemma_dispatch(seq!["fans"@, "firmware"@]);
    lemma_dispatch(seq!["fans"@, "direct"@]);
    lemma_dispatch(seq!["fans"@, "firmware"@, path]);
    lemma_dispatch(seq!["fans"@, "direct"@, path]);
    lemma_dispatch(seq!["fans"@, "off"@, path]);
    assert(seq!["fans"@, "off"@].skip(1) =~= seq!["off"@]);
    assert(seq!["fans"@, "firmware"@].skip(1) =~= seq!["firmware"@]);
    assert(seq!["fans"@, "direct"@].skip(1) =~= seq!["direct"@]);
    assert(seq!["fans"@, "firmware"@, path].skip(1) =~= seq!["firmware"@, path]);
    assert(seq!["fans"@, "direct"@, path].skip(1) =~= seq!["direct"@, path]);
    assert(seq!["fans"@, "off"@, path].skip(1) =~= seq!["off"@, path]);
}

/// The two switches take `on` and `off` and no other word.
#[verifier::rlimit(60)]
pub proof fn law_switches_take_on_and_off(word: Seq<char>)
    ensures
        command_line_of(seq!["battery-charge-once"@, "on"@]) == Ok::<CtlView, Seq<char>>(
            CtlView::BatteryChargeOnce(true),
        ),
        command_line_of(seq!["battery-charge-once"@, "off"@]) == Ok::<CtlView, Seq<char>>(
            CtlView::BatteryChargeOnce(false),
        ),
        command_line_of(seq!["panel-overdrive"@, "on"@]) == Ok::<CtlView, Seq<char>>(
            CtlView::PanelOverdrive(true),
        ),
        command_line_of(seq!["panel-overdrive"@, "off"@]) == Ok::<CtlView, Seq<char>>(
            CtlView::PanelOverdrive(false),
        ),
        word != "on"@ && word != "off"@ ==> command_line_of(seq!["battery-charge-once"@, word])
            is Err && command_line_of(seq!["panel-overdrive"@, word]) is Err,
{
    lemma_words_differ();
    assert(seq!["battery-charge-once"@, "on"@].skip(1) =~= seq!["on"@]);
    assert(seq!["battery-charge-once"@, "off"@].skip(1) =~= seq!["off"@]);
    assert(seq!["battery-charge-once"@, word].skip(1) =~= seq![word]);
    assert(seq!["panel-overdrive"@, "on"@].skip(1) =~= seq!["on"@]);
    assert(seq!["panel-overdrive"@, "off"@].skip(1) =~= seq!["off"@]);
    assert(seq!["panel-overdrive"@, word].skip(1) =~= seq![word]);
}

/// The commands without arguments refuse any, and an empty command line asks for
/// the status.
#[verifier::rlimit(60)]
pub proof fn law_bare_commands_stand_alone(word: Seq<char>)
    ensures
        command_line_of(Seq::empty()) == Ok::<CtlView, Seq<char>>(CtlView::Status),
        command_line_of(seq!["status"@]) == Ok::<CtlView, Seq<char>>(CtlView::Status),
        command_line_of(seq!["probe"@]) == Ok::<CtlView, Seq<char>>(CtlView::Probe),
        command_line_of(seq!["release-fans"@]) == Ok::<CtlView, Seq<char>>(CtlView::ReleaseFans),
        command_line_of(seq!["status"@, word]) is Err,
        command_line_of(seq!["probe"@, word]) is Err,
        command_line_of(seq!["release-fans"@, word]) is Err,
{
    lemma_words_differ();
    assert(seq!["status"@].skip(1) =~= Seq::<Seq<char>>::empty());
    assert(seq!["probe"@].skip(1) =~= Seq::<Seq<char>>::empty());
    assert(seq!["release-fans"@].skip(1) =~= Seq::<Seq<char>>::empty());
    assert(seq!["status"@, word].skip(1) =~= seq![word]);
    assert(seq!["probe"@, word].skip(1) =~= seq![word]);
    assert(seq!["release-fans"@, word].skip(1) =~= seq![word]);
}

/// `watch` follows the event that it names, and the changes of state where it names
/// none.
pub proof fn law_watch_follows_the_event_it_names(topic: EventTopic)
    ensures
        command_line_of(seq!["watch"@, topic.name()]) == Ok::<CtlView, Seq<char>>(
            CtlView::Watch(topic),
        ),
        command_line_of(seq!["watch"@]) == Ok::<CtlView, Seq<char>>(
            CtlView::Watch(DaemonEventKind::StateChanged),
        ),
{
    lemma_dispatch(seq!["watch"@, topic.name()]);
    lemma_dispatch(seq!["watch"@]);
    assert(seq!["watch"@, topic.name()].skip(1) =~= seq![topic.name()]);
    assert(seq!["watch"@].skip(1) =~= Seq::<Seq<char>>::empty());
    assert((topic_of(topic.name())->0).name() == topic.name());
    crate::protocol::law_event_names_are_distinct(topic, topic_of(topic.name())->0);
}

/// `outcome` asks for the request that it names: a client in hexadecimal digits and
/// a number that is not zero.
#[verifier::rlimit(60)]
pub proof fn law_outcome_asks_for_the_request_it_names(client: ClientId, request: u64)
    requires
        client.number() != 0,
        request != 0,
    ensures
        command_line_of(seq!["outcome"@, client.hex(), signed_decimal(request as int)]) == Ok::<
            CtlView,
            Seq<char>,
        >(CtlView::Outcome { client_id: client.number() as nat, request_id: request }),
{
    crate::protocol::law_client_id_survives_writing(client);
    law_written_numbers_are_read(request as int, 0, u64::MAX as int);
    let words = seq!["outcome"@, client.hex(), signed_decimal(request as int)];
    lemma_dispatch(words);
    assert(words.skip(1) =~= seq![client.hex(), signed_decimal(request as int)]);
}

proof fn lemma_lighting_line(words: Seq<Seq<char>>)
    requires
        words.len() > 0,
        words[0] == "lighting"@,
    ensures
        command_line_of(words) == (match lighting_value(words.skip(1)) {
            Ok(value) => Ok(CtlView::Lighting { device: value.0, state: value.1 }),
            Err(text) => Err(text),
        }),
{
    lemma_words_differ();
}

proof fn lemma_lighting_words(mode: Seq<char>, color: Seq<char>)
    requires
        is_lighting_mode(mode),
        color.len() == 6,
        forall|i: int| 0 <= i < 6 ==> hex_digit(#[trigger] color[i]) is Some,
    ensures
        mode != "off"@,
        is_color(color),
        is_color("FFFFFF"@),
{
    lemma_words_differ();
    reveal_strlit("static");
    reveal_strlit("breathe");
    reveal_strlit("cycle");
    reveal_strlit("rainbow");
    reveal_strlit("strobe");
    reveal_strlit("FFFFFF");
    assert(hex_digit(color[0]) is Some);
    assert(color[0] != '#');
    assert("FFFFFF"@[0] == 'F');
    assert forall|i: int| 0 <= i < "FFFFFF"@.len() implies hex_digit(
        #[trigger] "FFFFFF"@[i],
    ) is Some by {
        assert("FFFFFF"@[i] == 'F');
    }
}

proof fn lemma_lighting_value(args: Seq<Seq<char>>, brightness: i32)
    requires
        2 <= args.len() <= 4,
        args[0] == "keyboard"@ || args[0] == "lightbar"@,
        args[1] != "off"@,
        is_lighting_mode(args[1]),
        is_color("FFFFFF"@),
        args.len() > 2 ==> is_color(args[2]),
        args.len() > 3 ==> ranged_value(args[3], "lighting brightness"@, 0, 3) == Ok::<
            i32,
            Seq<char>,
        >(brightness),
        args.len() <= 3 ==> brightness == 3,
    ensures
        lighting_value(args) == Ok::<(Seq<char>, LightingView), Seq<char>>(
            (
                args[0],
                LightingView {
                    enabled: true,
                    mode: args[1],
                    color: if args.len() > 2 {
                        args[2]
                    } else {
                        "FFFFFF"@
                    },
                    color2: "000000"@,
                    speed: "normal"@,
                    brightness,
                },
            ),
        ),
{
}

proof fn lemma_brightness(brightness: i32)
    requires
        0 <= brightness <= 3,
    ensures
        ranged_value(signed_decimal(brightness as int), "lighting brightness"@, 0, 3) == Ok::<
            i32,
            Seq<char>,
        >(brightness),
{
    law_written_numbers_are_read(brightness as int, i32::MIN as int, i32::MAX as int);
}

/// `lighting` sets on one device the mode, the color and the brightness that it
/// names, white and full where it names none.
pub proof fn law_lighting_sets_what_it_names(words: Seq<Seq<char>>, brightness: i32)
    requires
        3 <= words.len() <= 5,
        words[0] == "lighting"@,
        words[1] == "keyboard"@ || words[1] == "lightbar"@,
        words[2] == "static"@ || words[2] == "breathe"@ || words[2] == "cycle"@ || words[2]
            == "rainbow"@ || words[2] == "strobe"@,
        words.len() > 3 ==> words[3].len() == 6 && forall|i: int|
            0 <= i < 6 ==> hex_digit(#[trigger] words[3][i]) is Some,
        0 <= brightness <= 3,
        words.len() > 4 ==> words[4] == signed_decimal(brightness as int),
        words.len() <= 4 ==> brightness == 3,
    ensures
        command_line_of(words) matches Ok(CtlView::Lighting { device, state }) && device == words[1]
            && state.enabled && state.mode == words[2] && state.brightness == brightness
            && state.color == (if words.len() > 3 {
            words[3]
        } else {
            "FFFFFF"@
        }),
{
    let args = words.skip(1);
    lemma_lighting_line(words);
    lemma_brightness(brightness);
    if words.len() > 3 {
        lemma_lighting_words(words[2], words[3]);
    } else {
        reveal_strlit("FFFFFF");
        lemma_lighting_words(words[2], seq!['F', 'F', 'F', 'F', 'F', 'F']);
    }
    assert(args.len() == words.len() - 1);
    assert(args[0] == words[1] && args[1] == words[2]);
    assert(args.len() > 2 ==> args[2] == words[3]);
    assert(args.len() > 3 ==> args[3] == words[4]);
    lemma_lighting_value(args, brightness);
}

/// `lighting` with `off` switches its device off.
pub proof fn law_lighting_off_darkens_its_device(device: Seq<char>)
    requires
        device == "keyboard"@ || device == "lightbar"@,
    ensures
        command_line_of(seq!["lighting"@, device, "off"@]) matches Ok(
            CtlView::Lighting { device: set, state },
        ) && set == device && !state.enabled,
{
    let words = seq!["lighting"@, device, "off"@];
    lemma_lighting_line(words);
    assert(words.skip(1) =~= seq![device, "off"@]);
}

} // verus!
