//! The mode header label.

use vstd::prelude::*;

use crate::text::{decimal, decimal_text};
use crate::z13ctl::profile::{Profile, ProfileView};

verus! {

/// The header text of a profile: its name, a mark for a custom fan curve and
/// the custom sustained limit.
pub open spec fn mode_label_of(profile: ProfileView) -> Seq<char> {
    "Mode: "@ + profile.name + (if profile.apply_fan_curve {
        "+"@
    } else {
        Seq::empty()
    }) + (if profile.apply_power_limits {
        " "@ + decimal(profile.pl1_spl as nat) + "W"@
    } else {
        Seq::empty()
    })
}

/// Formats the mode header of a profile.
pub fn mode_label(profile: &Profile) -> (result: String)
    ensures
        result@ == mode_label_of(profile@),
{
    let mut text: String = String::from_str("Mode: ");
    text.append(profile.name.as_str());
    if profile.apply_fan_curve {
        text.append("+");
    }
    if profile.apply_power_limits {
        text.append(" ");
        text.append(decimal_text(profile.pl1_spl as u128).as_str());
        text.append("W");
    }
    assert(text@ =~= mode_label_of(profile@));
    text
}

/// The header names the profile, marks a custom fan curve and tells custom limits by
/// their sustained watts.
pub proof fn law_header_marks_what_is_custom(profile: ProfileView)
    ensures
        ({
            let plain = "Mode: "@ + profile.name;
            let fans = if profile.apply_fan_curve {
                plain + "+"@
            } else {
                plain
            };
            &&& profile.apply_power_limits ==> mode_label_of(profile) == fans + " "@ + decimal(
                profile.pl1_spl as nat,
            ) + "W"@
            &&& !profile.apply_power_limits ==> mode_label_of(profile) == fans
        }),
{
    let plain = "Mode: "@ + profile.name;
    assert(plain + Seq::<char>::empty() =~= plain);
    let fans = if profile.apply_fan_curve {
        plain + "+"@
    } else {
        plain
    };
    let watts = " "@ + decimal(profile.pl1_spl as nat) + "W"@;
    assert(fans + watts =~= fans + " "@ + decimal(profile.pl1_spl as nat) + "W"@);
    assert(fans + Seq::<char>::empty() =~= fans);
}

} // verus!
