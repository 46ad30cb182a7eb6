//! The mode header label.

use vstd::prelude::*;

use crate::profile::{FanControlMode, Profile, ProfileView};
use crate::text::{decimal, decimal_text};

verus! {

/// The header text of a profile: its name, a mark for a custom fan curve and
/// the custom sustained limit.
pub open spec fn mode_label_of(profile: ProfileView) -> Seq<char> {
    "Mode: "@ + profile.name + (if !profile.apply_fan_curve {
        Seq::empty()
    } else if profile.fan_control_mode == FanControlMode::Firmware {
        "+"@
    } else {
        "+EC"@
    }) + (if profile.apply_power_limits {
        " "@ + decimal(profile.pl1_spl as nat) + "W"@
    } else {
        Seq::empty()
    })
}

/// Formats the mode header of a profile.
pub fn mode_label(profile: &Profile) -> (result: String)
    ensures
        result@ == mode_label_of(profile@),
{
    let mut text: String = String::from_str("Mode: ");
    text.append(profile.name.as_str());
    if profile.apply_fan_curve {
        match profile.fan_control_mode {
            FanControlMode::Firmware => {
                text.append("+");
            },
            FanControlMode::Direct => {
                text.append("+EC");
            },
        }
    }
    if profile.apply_power_limits {
        text.append(" ");
        text.append(decimal_text(profile.pl1_spl as u128).as_str());
        text.append("W");
    }
    assert(text@ =~= mode_label_of(profile@));
    text
}

/// The header names the profile, marks custom fan curves, with those that the
/// daemon drives itself apart, and tells custom limits by their sustained watts.
pub proof fn law_header_marks_what_is_custom(profile: ProfileView)
    ensures
        ({
            let plain = "Mode: "@ + profile.name;
            let fans = if !profile.apply_fan_curve {
                plain
            } else if profile.fan_control_mode == FanControlMode::Direct {
                plain + "+EC"@
            } else {
                plain + "+"@
            };
            &&& profile.apply_power_limits ==> mode_label_of(profile) == fans + " "@ + decimal(
                profile.pl1_spl as nat,
            ) + "W"@
            &&& !profile.apply_power_limits ==> mode_label_of(profile) == fans
        }),
{
    let plain = "Mode: "@ + profile.name;
    assert(plain + Seq::<char>::empty() =~= plain);
    let fans = if !profile.apply_fan_curve {
        plain
    } else if profile.fan_control_mode == FanControlMode::Direct {
        plain + "+EC"@
    } else {
        plain + "+"@
    };
    let watts = " "@ + decimal(profile.pl1_spl as nat) + "W"@;
    assert(fans + watts =~= fans + " "@ + decimal(profile.pl1_spl as nat) + "W"@);
    assert(fans + Seq::<char>::empty() =~= fans);
}

} // verus!
