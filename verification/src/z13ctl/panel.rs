//! The control panel for the z13ctl daemon, without the widgets.

use vstd::prelude::*;

use crate::text::{ends_with, occurs_at, prefixed, same, signed_decimal, signed_decimal_text};
use crate::ui::fans_window::Limits;
use crate::z13ctl::curve::TDP_MAX_SAFE;
use crate::z13ctl::profile::{Base, Profile, ProfileView};

verus! {

/// The place of a base in the list of bases; that of the balanced one where
/// there is none.
pub fn base_index(base: Option<Base>) -> (result: u32)
    ensures
        result == (match base {
            Some(Base::Quiet) => 0u32,
            Some(Base::Performance) => 2,
            _ => 1,
        }),
{
    match base {
        Some(Base::Quiet) => 0,
        Some(Base::Performance) => 2,
        _ => 1,
    }
}

/// The base at a place of the list of bases.
pub fn base_at(index: u32) -> (result: Base)
    ensures
        result == (if index == 0 {
            Base::Quiet
        } else if index == 2 {
            Base::Performance
        } else {
            Base::Balanced
        }),
{
    if index == 0 {
        Base::Quiet
    } else if index == 2 {
        Base::Performance
    } else {
        Base::Balanced
    }
}

/// Takes over the controls into a profile: its base, its limits in ascending
/// order, whether they apply, and its curve.
pub fn commit(
    profile: &mut Profile,
    base_index: u32,
    limits: Limits,
    apply_power_limits: bool,
    fan_curve: [[i32; 2]; 8],
)
    ensures
        final(profile)@ == (ProfileView {
            base: if base_index == 0 {
                Base::Quiet
            } else if base_index == 2 {
                Base::Performance
            } else {
                Base::Balanced
            },
            pl1_spl: limits.raised().pl1,
            pl2_sppt: limits.raised().pl2,
            fppt: limits.raised().pl3,
            apply_power_limits,
            fan_curve,
            ..old(profile)@
        }),
        final(profile)@.pl1_spl <= final(profile)@.pl2_sppt <= final(profile)@.fppt,
{
    let ordered: Limits = limits.after_first();
    profile.base = base_at(base_index);
    profile.pl1_spl = ordered.pl1;
    profile.pl2_sppt = ordered.pl2;
    profile.fppt = ordered.pl3;
    profile.apply_power_limits = apply_power_limits;
    profile.fan_curve = fan_curve;
}

/// Whether a sustained limit needs the warning about forced limits.
pub fn warns_about_force(pl1: u32) -> (result: bool)
    ensures
        result == (pl1 > TDP_MAX_SAFE),
{
    pl1 > TDP_MAX_SAFE
}

/// The name that a renamed profile gets: marked as edited, once.
pub fn edited_name(name: &str) -> (result: String)
    ensures
        result@ == (if occurs_at(name@, " (edit)"@, name@.len() - " (edit)"@.len()) {
            name@
        } else {
            name@ + " (edit)"@
        }),
{
    if ends_with(name, " (edit)") {
        String::from_str(name)
    } else {
        prefixed(name, " (edit)")
    }
}

/// The place of a lighting mode in the list of modes.
pub fn lighting_index(mode: &str) -> (result: u32)
    ensures
        result == (if mode@ == "breathe"@ {
            1u32
        } else if mode@ == "cycle"@ {
            2
        } else if mode@ == "rainbow"@ {
            3
        } else if mode@ == "strobe"@ {
            4
        } else {
            0
        }),
{
    if same(mode, "breathe") {
        1
    } else if same(mode, "cycle") {
        2
    } else if same(mode, "rainbow") {
        3
    } else if same(mode, "strobe") {
        4
    } else {
        0
    }
}

/// Which rows a mode shows: the colour, which cycle and rainbow ignore, and the
/// speed, which static ignores.
pub fn visible_rows(mode_index: u32) -> (result: (bool, bool))
    ensures
        result.0 == (mode_index != 2 && mode_index != 3),
        result.1 == (mode_index != 0),
{
    (mode_index != 2 && mode_index != 3, mode_index != 0)
}

/// A reading, or a dash where there is none.
pub open spec fn reading(value: Option<i32>) -> Seq<char> {
    match value {
        Some(number) => signed_decimal(number as int),
        None => "—"@,
    }
}

fn reading_text(value: Option<i32>) -> (result: String)
    ensures
        result@ == reading(value),
{
    match value {
        Some(number) => signed_decimal_text(number as i64),
        None => String::from_str("—"),
    }
}

/// The temperature and the fan speed.
pub fn telemetry_label(temperature: Option<i32>, fan_rpm: Option<i32>) -> (result: String)
    ensures
        result@ == "APU: "@ + reading(temperature) + "°C  Fan: "@ + reading(fan_rpm) + " RPM"@,
{
    let mut text: String = prefixed("APU: ", reading_text(temperature).as_str());
    text.append("°C  Fan: ");
    text.append(reading_text(fan_rpm).as_str());
    text.append(" RPM");
    text
}

} // verus!
