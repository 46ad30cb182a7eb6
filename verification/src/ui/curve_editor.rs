//! The fan curve editor: selection, keys and drags.

use vstd::prelude::*;

use crate::curve::{
    clamped, curve_valid, enforce_curve, high_power_curve, is_enforced, is_in_order, is_protected,
    is_shifted, law_enforced_curve_is_valid, law_enforced_temps_strictly_increase,
    law_ordered_curves_are_kept, law_points_move_only_when_pushed, percent_of_pwm, percent_to_pwm,
    pwm, pwm_of_percent, pwm_to_percent, shift_curve_vertical, temp, Curve, POINT_COUNT, PWM_MAX,
    PWM_MIN, TEMP_MAX, TEMP_MIN,
};
use crate::text::{decimal, decimal_text, signed_decimal, signed_decimal_text};

verus! {

/// The lowest temperature of the chart.
pub const CHART_TEMP_MIN: i32 = 20;

/// The highest temperature of the chart.
pub const CHART_TEMP_MAX: i32 = 100;

/// The first of the points that the high-power protection locks.
pub const FIRST_PROTECTED_POINT: usize = 6;

fn clamp_sum(value: i32, delta: i64, low: i32, high: i32) -> (result: i32)
    requires
        low <= high,
        -0x1_0000_0000 <= delta <= 0x1_0000_0000,
    ensures
        result == clamped(value + delta, low as int, high as int),
{
    let sum: i64 = value as i64 + delta;
    if sum < low as i64 {
        low
    } else if sum > high as i64 {
        high
    } else {
        sum as i32
    }
}

/// The size of a percentage step, whichever its direction.
pub open spec fn pwm_step(percent: int) -> int {
    if percent >= 0 {
        pwm_of_percent(percent)
    } else {
        -pwm_of_percent(-percent)
    }
}

/// Whether `after` is `before` with one point moved elsewhere.
pub open spec fn is_moved(before: Curve, idx: int, new_temp: int, new_pwm: int, after: Curve) -> bool {
    &&& temp(after, idx) == new_temp
    &&& pwm(after, idx) == new_pwm
    &&& forall|i: int| 0 <= i < 8 && i != idx ==> #[trigger] after@[i] == before@[i]
}

/// Whether `after` is `before` with one point moved and the curve enforced.
pub open spec fn is_edited(before: Curve, idx: int, new_temp: int, new_pwm: int, after: Curve) -> bool {
    exists|moved: Curve| #[trigger]
        is_moved(before, idx, new_temp, new_pwm, moved) && is_enforced(moved, idx, after)
}

/// Whether a point stands at the same place on two curves.
pub open spec fn same_point(a: Curve, b: Curve, i: int) -> bool {
    temp(a, i) == temp(b, i) && pwm(a, i) == pwm(b, i)
}

/// Whether two curves have the same points.
pub open spec fn same_points(a: Curve, b: Curve) -> bool {
    forall|i: int| 0 <= i < 8 ==> #[trigger] same_point(a, b, i)
}

/// Whether two curves have the same points.
pub fn same_curve(a: &Curve, b: &Curve) -> (result: bool)
    ensures
        result == same_points(*a, *b),
{
    let mut i: usize = 0;
    while i < POINT_COUNT
        invariant
            i <= 8,
            forall|k: int| 0 <= k < i ==> #[trigger] same_point(*a, *b, k),
        decreases 8 - i,
    {
        if a[i][0] != b[i][0] || a[i][1] != b[i][1] {
            assert(!same_point(*a, *b, i as int));
            return false;
        }
        i = i + 1;
    }
    true
}

/// Moves a point of the authored curve by a temperature and a duty step, and
/// enforces the curve. Returns whether it changed.
pub fn adjust_authored_point(
    curve: &mut Curve,
    idx: usize,
    temp_delta: i32,
    pwm_delta_percent: i32,
) -> (result: bool)
    ensures
        idx >= 8 ==> !result && *final(curve) == *old(curve),
        idx < 8 ==> is_edited(
            *old(curve),
            idx as int,
            clamped(temp(*old(curve), idx as int) + temp_delta, TEMP_MIN as int, TEMP_MAX as int),
            clamped(
                pwm(*old(curve), idx as int) + pwm_step(pwm_delta_percent as int),
                PWM_MIN as int,
                PWM_MAX as int,
            ),
            *final(curve),
        ),
        idx < 8 ==> result == !same_points(*old(curve), *final(curve)),
{
    if idx >= POINT_COUNT {
        return false;
    }
    let before: Curve = *curve;
    let step: i64 = if pwm_delta_percent >= 0 {
        percent_to_pwm(pwm_delta_percent) as i64
    } else if pwm_delta_percent < -100 {
        -(percent_to_pwm(100) as i64)
    } else {
        -(percent_to_pwm(-pwm_delta_percent) as i64)
    };
    assert(step == pwm_step(pwm_delta_percent as int));
    let new_temp: i32 = clamp_sum(curve[idx][0], temp_delta as i64, TEMP_MIN, TEMP_MAX);
    let new_pwm: i32 = clamp_sum(curve[idx][1], step, PWM_MIN, PWM_MAX);
    curve[idx] = [new_temp, new_pwm];
    let ghost moved = *curve;
    assert(is_moved(before, idx as int, new_temp as int, new_pwm as int, moved));
    enforce_curve(curve, idx);
    assert(is_enforced(moved, idx as int, *curve));
    !same_curve(&before, curve)
}

/// The curve that is shown: the protected copy where the protection applies.
pub fn curve_for_display(authored: &Curve, protection: bool) -> (result: Curve)
    ensures
        protection ==> is_protected(*authored, result),
        !protection ==> result == *authored,
{
    if protection {
        high_power_curve(authored)
    } else {
        *authored
    }
}

/// A key that the editor knows.
#[derive(Clone, Copy, Debug, PartialEq, Eq, Structural)]
pub enum EditorKey {
    Tab,
    Left,
    Right,
    Up,
    Down,
    Other,
}

/// What became of a key.
#[derive(Clone, Copy, Debug, PartialEq, Eq, Structural)]
pub enum KeyResult {
    /// The key is not the editor's.
    Proceed,
    Handled,
    /// The authored curve changed.
    Changed,
}

/// The step of a key, in degrees and percent.
pub open spec fn key_step(key: EditorKey, shift: bool) -> (int, int) {
    let step: int = if shift {
        5
    } else {
        1
    };
    match key {
        EditorKey::Left => (-step, 0),
        EditorKey::Right => (step, 0),
        EditorKey::Up => (0, step),
        EditorKey::Down => (0, -step),
        _ => (0, 0),
    }
}

/// The state of an editor.
#[derive(Clone, Copy, Debug)]
pub struct CurveEditor {
    curve: Curve,
    selected: usize,
    muted: bool,
    editable: bool,
    high_power_protection: bool,
}

/// The model of a [`CurveEditor`].
pub struct EditorView {
    pub curve: Curve,
    pub selected: int,
    pub muted: bool,
    pub editable: bool,
    pub protection: bool,
}

impl View for CurveEditor {
    type V = EditorView;

    closed spec fn view(&self) -> EditorView {
        EditorView {
            curve: self.curve,
            selected: self.selected as int,
            muted: self.muted,
            editable: self.editable,
            protection: self.high_power_protection,
        }
    }
}

/// The whole curve can be moved so that a point comes to a duty: no duty leaves
/// the range of the machine's numbers.
pub open spec fn shift_fits(curve: Curve, idx: int, to_pwm: int) -> bool {
    let delta = to_pwm - pwm(curve, idx);
    &&& i32::MIN <= delta <= i32::MAX
    &&& forall|i: int| 0 <= i < 8 ==> i32::MIN <= #[trigger] pwm(curve, i) + delta <= i32::MAX
}

/// A point that the protection locks.
pub open spec fn is_locked(editor: EditorView, idx: int) -> bool {
    editor.protection && idx >= FIRST_PROTECTED_POINT
}

impl CurveEditor {
    #[verifier::type_invariant]
    spec fn well_formed(self) -> bool {
        self.selected < 8
    }

    pub fn new(curve: Curve) -> (result: Self)
        ensures
            result@ == (EditorView {
                curve,
                selected: 0,
                muted: false,
                editable: true,
                protection: false,
            }),
    {
        CurveEditor {
            curve,
            selected: 0,
            muted: false,
            editable: true,
            high_power_protection: false,
        }
    }

    /// The authored curve.
    pub fn curve(&self) -> (result: Curve)
        ensures
            result == self@.curve,
    {
        self.curve
    }

    pub fn set_curve(&mut self, curve: Curve)
        ensures
            final(self)@ == (EditorView { curve, ..old(self)@ }),
    {
        proof {
            use_type_invariant(&*self);
        }
        self.curve = curve;
    }

    pub fn set_muted(&mut self, muted: bool)
        ensures
            final(self)@ == (EditorView { muted, ..old(self)@ }),
    {
        proof {
            use_type_invariant(&*self);
        }
        self.muted = muted;
    }

    pub fn muted(&self) -> (result: bool)
        ensures
            result == self@.muted,
    {
        self.muted
    }

    pub fn set_editable(&mut self, editable: bool)
        ensures
            final(self)@ == (EditorView { editable, ..old(self)@ }),
    {
        proof {
            use_type_invariant(&*self);
        }
        self.editable = editable;
    }

    pub fn editable(&self) -> (result: bool)
        ensures
            result == self@.editable,
    {
        self.editable
    }

    pub fn set_high_power_protection(&mut self, enabled: bool)
        ensures
            final(self)@ == (EditorView { protection: enabled, ..old(self)@ }),
    {
        proof {
            use_type_invariant(&*self);
        }
        self.high_power_protection = enabled;
    }

    /// The point that keys and drags act on.
    pub fn selected(&self) -> (result: usize)
        ensures
            result == self@.selected,
            result < 8,
    {
        proof {
            use_type_invariant(self);
        }
        self.selected
    }

    /// Selects a point; an index outside the curve is ignored.
    pub fn select(&mut self, idx: usize)
        ensures
            final(self)@ == (if idx < 8 {
                EditorView { selected: idx as int, ..old(self)@ }
            } else {
                old(self)@
            }),
    {
        proof {
            use_type_invariant(&*self);
        }
        if idx < POINT_COUNT {
            self.selected = idx;
        }
    }

    /// The curve that is shown.
    pub fn display_curve(&self) -> (result: Curve)
        ensures
            self@.protection ==> is_protected(self@.curve, result),
            !self@.protection ==> result == self@.curve,
    {
        curve_for_display(&self.curve, self.high_power_protection)
    }

    /// The description of the selected point for assistive technology.
    pub fn value_text(&self) -> (result: String)
        ensures
            exists|shown: Curve|
                {
                    &&& self@.protection ==> is_protected(self@.curve, shown)
                    &&& !self@.protection ==> shown == self@.curve
                    &&& result@ == #[trigger] point_description(shown, self@.selected)
                },
    {
        proof {
            use_type_invariant(self);
        }
        let shown: Curve = self.display_curve();
        let index: usize = self.selected;
        let mut text: String = String::from_str("Point ");
        text.append(decimal_text((index + 1) as u128).as_str());
        text.append(" of 8: ");
        text.append(signed_decimal_text(shown[index][0] as i64).as_str());
        text.append(" degrees Celsius, ");
        text.append(signed_decimal_text(pwm_to_percent(shown[index][1]) as i64).as_str());
        text.append(" percent fan speed");
        assert(text@ =~= point_description(shown, self@.selected));
        text
    }

    /// Handles a key. Tab selects the next point; arrows move the selected point,
    /// in larger steps with shift. A locked point stays where it is.
    pub fn press(&mut self, key: EditorKey, shift: bool) -> (result: KeyResult)
        ensures
            match key {
                EditorKey::Other => result == KeyResult::Proceed && final(self)@ == old(self)@,
                EditorKey::Tab => {
                    &&& result == KeyResult::Handled
                    &&& final(self)@ == (EditorView {
                        selected: (old(self)@.selected + 1) % 8,
                        ..old(self)@
                    })
                },
                _ => if is_locked(old(self)@, old(self)@.selected) {
                    result == KeyResult::Handled && final(self)@ == old(self)@
                } else {
                    &&& final(self)@ == (EditorView { curve: final(self)@.curve, ..old(self)@ })
                    &&& is_edited(
                        old(self)@.curve,
                        old(self)@.selected,
                        clamped(
                            temp(old(self)@.curve, old(self)@.selected) + key_step(key, shift).0,
                            TEMP_MIN as int,
                            TEMP_MAX as int,
                        ),
                        clamped(
                            pwm(old(self)@.curve, old(self)@.selected) + pwm_step(
                                key_step(key, shift).1,
                            ),
                            PWM_MIN as int,
                            PWM_MAX as int,
                        ),
                        final(self)@.curve,
                    )
                    &&& result == (if same_points(old(self)@.curve, final(self)@.curve) {
                        KeyResult::Handled
                    } else {
                        KeyResult::Changed
                    })
                },
            },
    {
        proof {
            use_type_invariant(&*self);
        }
        let step: i32 = if shift {
            5
        } else {
            1
        };
        let (temp_delta, pwm_delta) = match key {
            EditorKey::Other => {
                return KeyResult::Proceed;
            },
            EditorKey::Tab => {
                self.selected = (self.selected + 1) % POINT_COUNT;
                return KeyResult::Handled;
            },
            EditorKey::Left => (-step, 0i32),
            EditorKey::Right => (step, 0i32),
            EditorKey::Up => (0i32, step),
            EditorKey::Down => (0i32, -step),
        };
        if self.high_power_protection && self.selected >= FIRST_PROTECTED_POINT {
            return KeyResult::Handled;
        }
        let mut curve: Curve = self.curve;
        let changed: bool = adjust_authored_point(
            &mut curve,
            self.selected,
            temp_delta,
            pwm_delta,
        );
        self.curve = curve;
        if changed {
            KeyResult::Changed
        } else {
            KeyResult::Handled
        }
    }

    /// Drags the selected point to a place on the chart, or, with shift, the whole
    /// curve to the height of the place. A locked point stays where it is.
    /// Returns whether the drag was carried out.
    pub fn drag(&mut self, to_temp: i32, to_pwm: i32, vertical_only: bool) -> (result: bool)
        requires
            vertical_only && !is_locked(old(self)@, old(self)@.selected) ==> shift_fits(
                old(self)@.curve,
                old(self)@.selected,
                to_pwm as int,
            ),
        ensures
            result == !is_locked(old(self)@, old(self)@.selected),
            !result ==> final(self)@ == old(self)@,
            result ==> final(self)@ == (EditorView { curve: final(self)@.curve, ..old(self)@ }),
            result && !vertical_only ==> is_edited(
                old(self)@.curve,
                old(self)@.selected,
                to_temp as int,
                to_pwm as int,
                final(self)@.curve,
            ),
            result && vertical_only ==> is_shifted(
                old(self)@.curve,
                to_pwm - pwm(old(self)@.curve, old(self)@.selected),
                final(self)@.curve,
            ),
    {
        proof {
            use_type_invariant(&*self);
        }
        let idx: usize = self.selected;
        if self.high_power_protection && idx >= FIRST_PROTECTED_POINT {
            return false;
        }
        let mut curve: Curve = self.curve;
        let ghost before = curve;
        if vertical_only {
            assert(pwm(before, idx as int) == curve@[idx as int]@[1]);
            let delta: i32 = to_pwm - curve[idx][1];
            assert forall|i: int| 0 <= i < 8 implies i32::MIN <= #[trigger] pwm(before, i) + delta
                <= i32::MAX by {
                assert(shift_fits(before, idx as int, to_pwm as int));
            }
            shift_curve_vertical(&mut curve, delta);
        } else {
            curve[idx] = [to_temp, to_pwm];
            let ghost moved = curve;
            assert(is_moved(before, idx as int, to_temp as int, to_pwm as int, moved));
            enforce_curve(&mut curve, idx);
            assert(is_enforced(moved, idx as int, curve));
        }
        self.curve = curve;
        true
    }
}

/// The description of a point for assistive technology.
pub open spec fn point_description(shown: Curve, index: int) -> Seq<char> {
    "Point "@ + decimal((index + 1) as nat) + " of 8: "@ + signed_decimal(temp(shown, index))
        + " degrees Celsius, "@ + signed_decimal(percent_of_pwm(pwm(shown, index)))
        + " percent fan speed"@
}

/// The hint beside a point: its temperature and its fan speed.
pub fn point_tip(point_temp: i32, point_pwm: i32) -> (result: String)
    ensures
        result@ == signed_decimal(point_temp as int) + "°C, "@ + signed_decimal(
            percent_of_pwm(point_pwm as int),
        ) + "%"@,
{
    let mut text: String = signed_decimal_text(point_temp as i64);
    text.append("°C, ");
    text.append(signed_decimal_text(pwm_to_percent(point_pwm) as i64).as_str());
    text.append("%");
    text
}

/// The label of a fan speed on the axis.
pub fn axis_label(percent: u32) -> (result: String)
    ensures
        result@ == (if percent == 0 {
            "OFF"@
        } else {
            decimal(percent as nat) + "%"@
        }),
{
    if percent == 0 {
        return String::from_str("OFF");
    }
    let mut text: String = decimal_text(percent as u128);
    text.append("%");
    text
}

/// However a point is moved, the edited curve is one that the daemon accepts, and
/// its temperatures strictly increase.
pub proof fn law_edits_leave_a_valid_curve(
    before: Curve,
    idx: int,
    new_temp: int,
    new_pwm: int,
    after: Curve,
)
    requires
        0 <= idx < 8,
        is_edited(before, idx, new_temp, new_pwm, after),
    ensures
        curve_valid(after),
        forall|i: int, j: int|
            0 <= i < j < 8 ==> #[trigger] temp(after, i) < #[trigger] temp(after, j),
{
    let moved = choose|moved: Curve| #[trigger]
        is_moved(before, idx, new_temp, new_pwm, moved) && is_enforced(moved, idx, after);
    law_enforced_curve_is_valid(moved, idx, after);
    law_enforced_temps_strictly_increase(moved, idx, after);
}

/// An edit puts the point where it was asked to go, as far as the bounds of its
/// index and of the duty allow.
pub proof fn law_an_edit_moves_its_point(
    before: Curve,
    idx: int,
    new_temp: int,
    new_pwm: int,
    after: Curve,
)
    requires
        0 <= idx < 8,
        is_edited(before, idx, new_temp, new_pwm, after),
    ensures
        20 + idx <= new_temp <= 103 + idx ==> temp(after, idx) == new_temp,
        new_temp < 20 + idx ==> temp(after, idx) == 20 + idx,
        new_temp > 103 + idx ==> temp(after, idx) == 103 + idx,
        0 <= new_pwm <= 255 ==> pwm(after, idx) == new_pwm,
        new_pwm < 0 ==> pwm(after, idx) == 0,
        new_pwm > 255 ==> pwm(after, idx) == 255,
{
    let moved = choose|moved: Curve| #[trigger]
        is_moved(before, idx, new_temp, new_pwm, moved) && is_enforced(moved, idx, after);
    law_points_move_only_when_pushed(moved, idx, after, idx);
}

/// An edit of an ordered curve that keeps the point between its neighbours touches
/// no other point.
pub proof fn law_an_edit_between_neighbours_touches_no_other(
    before: Curve,
    idx: int,
    new_temp: int,
    new_pwm: int,
    after: Curve,
)
    requires
        0 <= idx < 8,
        is_in_order(before),
        is_edited(before, idx, new_temp, new_pwm, after),
        20 + idx <= new_temp <= 103 + idx,
        0 <= new_pwm <= 255,
        idx > 0 ==> temp(before, idx - 1) < new_temp && pwm(before, idx - 1) <= new_pwm,
        idx < 7 ==> new_temp < temp(before, idx + 1) && new_pwm <= pwm(before, idx + 1),
    ensures
        forall|i: int|
            0 <= i < 8 && i != idx ==> #[trigger] temp(after, i) == temp(before, i),
        forall|i: int| 0 <= i < 8 && i != idx ==> #[trigger] pwm(after, i) == pwm(before, i),
{
    let moved = choose|moved: Curve| #[trigger]
        is_moved(before, idx, new_temp, new_pwm, moved) && is_enforced(moved, idx, after);
    let others = |i: int|
        0 <= i < 8 && i != idx ==> temp(moved, i) == temp(before, i) && pwm(moved, i) == pwm(
            before,
            i,
        );
    assert forall|i: int| #[trigger] others(i) by {
        if 0 <= i < 8 && i != idx {
            assert(moved@[i] == before@[i]);
        }
    }
    assert forall|i: int| 0 <= i < 8 implies 20 + i <= #[trigger] temp(moved, i) <= 103 + i by {
        assert(others(i));
        assert(20 + i <= temp(before, i) <= 103 + i);
    }
    assert forall|i: int| 0 <= i < 8 implies 0 <= #[trigger] pwm(moved, i) <= 255 by {
        assert(others(i));
        assert(0 <= pwm(before, i) <= 255);
    }
    assert forall|i: int, j: int| 0 <= i < j < 8 implies #[trigger] temp(moved, i)
        < #[trigger] temp(moved, j) && pwm(moved, i) <= pwm(moved, j) by {
        assert(others(i) && others(j));
        assert(temp(before, i) < temp(before, j) && pwm(before, i) <= pwm(before, j));
        if i == idx {
            assert(temp(before, idx + 1) <= temp(before, j) && pwm(before, idx + 1) <= pwm(
                before,
                j,
            ));
        }
        if j == idx {
            assert(temp(before, i) <= temp(before, idx - 1) && pwm(before, i) <= pwm(
                before,
                idx - 1,
            ));
        }
    }
    assert forall|i: int, j: int| 0 <= i < j < 8 implies #[trigger] pwm(moved, i)
        <= #[trigger] pwm(moved, j) by {
        assert(temp(moved, i) < temp(moved, j) && pwm(moved, i) <= pwm(moved, j));
    }
    law_ordered_curves_are_kept(moved, idx, after);
    assert forall|i: int| 0 <= i < 8 && i != idx implies #[trigger] temp(after, i) == temp(
        before,
        i,
    ) by {
        assert(others(i));
        assert(temp(after, i) == temp(moved, i));
    }
    assert forall|i: int| 0 <= i < 8 && i != idx implies #[trigger] pwm(after, i) == pwm(
        before,
        i,
    ) by {
        assert(others(i));
        assert(pwm(after, i) == pwm(moved, i));
    }
}

/// Left and right move the temperature alone, up and down the duty alone, each pair
/// by the same amount in opposite directions, and five times as far with shift.
pub proof fn law_arrows_are_opposites(shift: bool)
    ensures
        ({
            let far: int = if shift {
                5
            } else {
                1
            };
            &&& key_step(EditorKey::Right, shift).0 == far
            &&& key_step(EditorKey::Left, shift).0 == -far
            &&& key_step(EditorKey::Up, shift).1 == far
            &&& key_step(EditorKey::Down, shift).1 == -far
            &&& key_step(EditorKey::Right, shift).1 == 0 && key_step(EditorKey::Left, shift).1 == 0
            &&& key_step(EditorKey::Up, shift).0 == 0 && key_step(EditorKey::Down, shift).0 == 0
        }),
{
}

/// A step of the duty is that of its percentage, rounded towards none, and the same
/// in both directions.
pub proof fn law_steps_are_symmetric(percent: int)
    ensures
        pwm_step(-percent) == -pwm_step(percent),
        0 <= percent <= 100 ==> 100 * pwm_step(percent) <= 255 * percent < 100 * (pwm_step(percent)
            + 1),
        percent > 100 ==> pwm_step(percent) == 255,
{
    crate::curve::law_percent_is_rounded_down(percent);
    crate::curve::law_percent_is_rounded_down(-percent);
    crate::curve::law_percent_is_rounded_down(0);
}

/// The protection locks exactly the last two points.
pub proof fn law_protection_locks_two_points(editor: EditorView, idx: int)
    requires
        0 <= idx < 8,
    ensures
        is_locked(editor, idx) <==> editor.protection && (idx == 6 || idx == 7),
{
}

/// Curves count as the same exactly if every point agrees in temperature and duty.
pub proof fn law_same_curves_agree_everywhere(a: Curve, b: Curve)
    ensures
        same_points(a, b) <==> forall|i: int|
            0 <= i < 8 ==> #[trigger] a@[i]@[0] == b@[i]@[0] && a@[i]@[1] == b@[i]@[1],
{
    if same_points(a, b) {
        assert forall|i: int| 0 <= i < 8 implies #[trigger] a@[i]@[0] == b@[i]@[0] && a@[i]@[1]
            == b@[i]@[1] by {
            assert(same_point(a, b, i));
        }
    }
    if forall|i: int| 0 <= i < 8 ==> #[trigger] a@[i]@[0] == b@[i]@[0] && a@[i]@[1] == b@[i]@[1] {
        assert forall|i: int| 0 <= i < 8 implies #[trigger] same_point(a, b, i) by {
            assert(a@[i]@[0] == b@[i]@[0]);
        }
    }
}

} // verus!
