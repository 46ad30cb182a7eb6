//! Fan curve authoring math and high-power endpoint protection.
//!
//! A curve is eight points of temperature (°C) and PWM duty. The model of a
//! curve is the two integer sequences [`temp`] and [`pwm`].

use vstd::prelude::*;

use crate::text::{decimal_text, signed_decimal_text};

verus! {

pub const POINT_COUNT: usize = 8;

pub const TEMP_MIN: i32 = 20;

pub const TEMP_MAX: i32 = 110;

pub const PWM_MIN: i32 = 0;

pub const PWM_MAX: i32 = 255;

pub const HIGH_POWER_THRESHOLD_W: u32 = 80;

pub const HIGH_POWER_POINT_TEMP_C: i32 = 80;

pub const HIGH_POWER_POINT_PWM: i32 = 204;

pub const HIGH_POWER_FINAL_TEMP_C: i32 = 90;

/// Eight `[temperature, pwm]` points.
pub type Curve = [[i32; 2]; 8];

/// Why a curve is refused.
#[derive(Debug, Clone, Copy, PartialEq, Eq)]
pub enum CurveError {
    BadLength,
    TempRange { temp: i32, index: usize },
    PwmRange { pwm: i32, index: usize },
    TempNotIncreasing,
    PwmDecreasing,
}

/// The temperature of point `i`.
pub open spec fn temp(curve: Curve, i: int) -> int {
    curve@[i]@[0] as int
}

/// The PWM duty of point `i`.
pub open spec fn pwm(curve: Curve, i: int) -> int {
    curve@[i]@[1] as int
}

pub open spec fn lower(a: int, b: int) -> int {
    if a <= b {
        a
    } else {
        b
    }
}

pub open spec fn higher(a: int, b: int) -> int {
    if a >= b {
        a
    } else {
        b
    }
}

/// `value` moved to the nearest end of `low..=high` when it lies outside.
pub open spec fn clamped(value: int, low: int, high: int) -> int {
    if value < low {
        low
    } else if value > high {
        high
    } else {
        value
    }
}

/// Moves `value` to the nearest end of `low..=high` when it lies outside.
pub fn clamp_i32(value: i32, low: i32, high: i32) -> (result: i32)
    ensures
        result == clamped(value as int, low as int, high as int),
{
    if value < low {
        low
    } else if value > high {
        high
    } else {
        value
    }
}

pub fn min_i32(a: i32, b: i32) -> (result: i32)
    ensures
        result == lower(a as int, b as int),
{
    if a <= b {
        a
    } else {
        b
    }
}

pub fn max_i32(a: i32, b: i32) -> (result: i32)
    ensures
        result == higher(a as int, b as int),
{
    if a >= b {
        a
    } else {
        b
    }
}

// ---------------------------------------------------------------------------
// Validation
// ---------------------------------------------------------------------------

/// A curve that the daemon accepts: temperatures in 0–120 °C, duties in 0–255,
/// and neither steps backwards.
pub open spec fn curve_valid(curve: Curve) -> bool {
    &&& forall|i: int|
        0 <= i < 8 ==> 0 <= #[trigger] temp(curve, i) <= 120 && 0 <= pwm(curve, i) <= 255
    &&& forall|i: int, j: int|
        0 <= i <= j < 8 ==> #[trigger] temp(curve, i) <= #[trigger] temp(curve, j)
    &&& forall|i: int, j: int|
        0 <= i <= j < 8 ==> #[trigger] pwm(curve, i) <= #[trigger] pwm(curve, j)
}

/// The first rule that point `i` breaks, seen on its own and against point
/// `i - 1`.
pub open spec fn point_error(curve: Curve, i: int) -> Option<CurveError> {
    if !(0 <= temp(curve, i) <= 120) {
        Some(CurveError::TempRange { temp: curve@[i]@[0], index: (i + 1) as usize })
    } else if !(0 <= pwm(curve, i) <= 255) {
        Some(CurveError::PwmRange { pwm: curve@[i]@[1], index: (i + 1) as usize })
    } else if i > 0 && temp(curve, i) < temp(curve, i - 1) {
        Some(CurveError::TempNotIncreasing)
    } else if i > 0 && pwm(curve, i) < pwm(curve, i - 1) {
        Some(CurveError::PwmDecreasing)
    } else {
        None
    }
}

/// The error of the first point, from `i` on, that breaks a rule.
pub open spec fn first_point_error(curve: Curve, i: int) -> Option<CurveError>
    decreases 8 - i,
{
    if i >= 8 {
        None
    } else if point_error(curve, i) is Some {
        point_error(curve, i)
    } else {
        first_point_error(curve, i + 1)
    }
}

/// Validates a curve against the daemon's rules.
///
/// Factory tables may repeat a temperature breakpoint, so only a backwards step
/// is refused. The error is that of the first point that breaks a rule.
pub fn validate(curve: &Curve) -> (result: Result<(), CurveError>)
    ensures
        result is Ok <==> curve_valid(*curve),
        match first_point_error(*curve, 0) {
            Some(error) => result == Err::<(), CurveError>(error),
            None => result is Ok,
        },
{
    let mut i: usize = 0;
    while i < POINT_COUNT
        invariant
            i <= 8,
            first_point_error(*curve, 0) == first_point_error(*curve, i as int),
            forall|k: int|
                0 <= k < i ==> 0 <= #[trigger] temp(*curve, k) <= 120 && 0 <= pwm(*curve, k)
                    <= 255,
            forall|k: int, j: int|
                0 <= k <= j < i ==> #[trigger] temp(*curve, k) <= #[trigger] temp(*curve, j),
            forall|k: int, j: int|
                0 <= k <= j < i ==> #[trigger] pwm(*curve, k) <= #[trigger] pwm(*curve, j),
        decreases 8 - i,
    {
        let point_temp: i32 = curve[i][0];
        let point_pwm: i32 = curve[i][1];
        assert(point_temp == temp(*curve, i as int) && point_pwm == pwm(*curve, i as int));
        if point_temp < 0 || point_temp > 120 {
            return Err(CurveError::TempRange { temp: point_temp, index: i + 1 });
        }
        if point_pwm < 0 || point_pwm > 255 {
            return Err(CurveError::PwmRange { pwm: point_pwm, index: i + 1 });
        }
        if i > 0 {
            assert(curve[i - 1 as int]@[0] == temp(*curve, i - 1));
            assert(curve[i - 1 as int]@[1] == pwm(*curve, i - 1));
            if point_temp < curve[i - 1][0] {
                return Err(CurveError::TempNotIncreasing);
            }
            if point_pwm < curve[i - 1][1] {
                return Err(CurveError::PwmDecreasing);
            }
        }
        i = i + 1;
    }
    Ok(())
}

proof fn lemma_first_point_error(curve: Curve, from: int, i: int)
    requires
        0 <= from <= i < 8,
        point_error(curve, i) is Some,
        forall|k: int| from <= k < i ==> #[trigger] point_error(curve, k) is None,
    ensures
        first_point_error(curve, from) == point_error(curve, i),
    decreases i - from,
{
    if from < i {
        assert(point_error(curve, from) is None);
        lemma_first_point_error(curve, from + 1, i);
    }
}

/// A refused curve is refused for its first bad point, counted from one: a
/// temperature or duty out of range is named with its point, else the temperature
/// or the duty steps back there.
pub proof fn law_first_bad_point_is_reported(curve: Curve, i: int)
    requires
        0 <= i < 8,
        forall|k: int|
            0 <= k < i ==> 0 <= #[trigger] temp(curve, k) <= 120 && 0 <= pwm(curve, k) <= 255,
        forall|k: int|
            0 < k < i ==> #[trigger] temp(curve, k) >= temp(curve, k - 1) && pwm(curve, k) >= pwm(
                curve,
                k - 1,
            ),
    ensures
        ({
            let in_range = 0 <= temp(curve, i) <= 120 && 0 <= pwm(curve, i) <= 255;
            let error = first_point_error(curve, 0);
            &&& !(0 <= temp(curve, i) <= 120) ==> error == Some(
                CurveError::TempRange { temp: curve@[i]@[0], index: (i + 1) as usize },
            )
            &&& 0 <= temp(curve, i) <= 120 && !(0 <= pwm(curve, i) <= 255) ==> error == Some(
                CurveError::PwmRange { pwm: curve@[i]@[1], index: (i + 1) as usize },
            )
            &&& in_range && i > 0 && temp(curve, i) < temp(curve, i - 1) ==> error == Some(
                CurveError::TempNotIncreasing,
            )
            &&& in_range && i > 0 && temp(curve, i) >= temp(curve, i - 1) && pwm(curve, i) < pwm(
                curve,
                i - 1,
            ) ==> error == Some(CurveError::PwmDecreasing)
        }),
{
    assert forall|k: int| 0 <= k < i implies #[trigger] point_error(curve, k) is None by {
        assert(0 <= temp(curve, k) <= 120);
    }
    if point_error(curve, i) is Some {
        lemma_first_point_error(curve, 0, i);
    }
}

impl CurveError {
    /// The wording of [`CurveError::message`].
    pub open spec fn message_text(self) -> Seq<char> {
        match self {
            CurveError::BadLength => "fan curve must have exactly 8 points"@,
            CurveError::TempRange { temp, index } => "temp "@ + crate::text::signed_decimal(
                temp as int,
            ) + " in point "@ + crate::text::decimal(index as nat) + " out of range 0–120"@,
            CurveError::PwmRange { pwm, index } => "pwm "@ + crate::text::signed_decimal(
                pwm as int,
            ) + " in point "@ + crate::text::decimal(index as nat) + " out of range 0–255"@,
            CurveError::TempNotIncreasing => "temps must be non-decreasing"@,
            CurveError::PwmDecreasing => "pwm values must be non-decreasing"@,
        }
    }

    /// The message shown to the user.
    pub fn message(&self) -> (result: String)
        ensures
            result@ == self.message_text(),
    {
        match self {
            CurveError::BadLength => String::from_str("fan curve must have exactly 8 points"),
            CurveError::TempRange { temp, index } => {
                let mut text: String = String::from_str("temp ");
                text.append(signed_decimal_text(*temp as i64).as_str());
                text.append(" in point ");
                text.append(decimal_text(*index as u128).as_str());
                text.append(" out of range 0–120");
                text
            },
            CurveError::PwmRange { pwm, index } => {
                let mut text: String = String::from_str("pwm ");
                text.append(signed_decimal_text(*pwm as i64).as_str());
                text.append(" in point ");
                text.append(decimal_text(*index as u128).as_str());
                text.append(" out of range 0–255");
                text
            },
            CurveError::TempNotIncreasing => String::from_str("temps must be non-decreasing"),
            CurveError::PwmDecreasing => String::from_str("pwm values must be non-decreasing"),
        }
    }
}

// ---------------------------------------------------------------------------
// Editing
// ---------------------------------------------------------------------------

/// The temperature of point `i` after point `idx` has been dragged.
///
/// The dragged point keeps its temperature within bounds that leave one degree
/// of room for every neighbour. Later points are pushed up and earlier points
/// are pushed down; each stays at the degree that the points beyond it need, so
/// that none collapses onto another or onto an edge.
pub open spec fn enforced_temp(curve: Curve, idx: int, i: int) -> int
    decreases
            if i > idx {
                i - idx
            } else {
                idx - i
            },
{
    if i == idx {
        clamped(temp(curve, idx), TEMP_MIN + idx, TEMP_MAX - (7 - idx))
    } else if i > idx {
        lower(higher(temp(curve, i), enforced_temp(curve, idx, i - 1) + 1), TEMP_MAX - (7 - i))
    } else {
        higher(lower(temp(curve, i), enforced_temp(curve, idx, i + 1) - 1), TEMP_MIN + i)
    }
}

/// The duty of point `i` after point `idx` has been dragged: later points are
/// raised to it, earlier points lowered to it, and all stay in the PWM range.
pub open spec fn enforced_pwm(curve: Curve, idx: int, i: int) -> int
    decreases
            if i > idx {
                i - idx
            } else {
                idx - i
            },
{
    if i == idx {
        clamped(pwm(curve, idx), PWM_MIN as int, PWM_MAX as int)
    } else if i > idx {
        lower(higher(pwm(curve, i), enforced_pwm(curve, idx, i - 1)), PWM_MAX as int)
    } else {
        higher(lower(pwm(curve, i), enforced_pwm(curve, idx, i + 1)), PWM_MIN as int)
    }
}

proof fn lemma_enforced_bounds(curve: Curve, idx: int, i: int)
    requires
        0 <= idx < 8,
        0 <= i < 8,
    ensures
        TEMP_MIN + i <= enforced_temp(curve, idx, i) <= TEMP_MAX - (7 - i),
        PWM_MIN <= enforced_pwm(curve, idx, i) <= PWM_MAX,
    decreases
            if i > idx {
                i - idx
            } else {
                idx - i
            },
{
    if i > idx {
        lemma_enforced_bounds(curve, idx, i - 1);
    } else if i < idx {
        lemma_enforced_bounds(curve, idx, i + 1);
    }
}

/// Enforces monotonicity and bounds after dragging point `idx`: temperatures
/// strictly increase and duties never fall.
///
/// An index outside the curve leaves it unchanged.
pub fn enforce_curve(curve: &mut Curve, idx: usize)
    ensures
        idx >= 8 ==> *final(curve) == *old(curve),
        idx < 8 ==> forall|i: int|
            0 <= i < 8 ==> #[trigger] temp(*final(curve), i) == enforced_temp(
                *old(curve),
                idx as int,
                i,
            ) && pwm(*final(curve), i) == enforced_pwm(*old(curve), idx as int, i),
        idx < 8 ==> forall|i: int, j: int|
            0 <= i < j < 8 ==> #[trigger] temp(*final(curve), i) < #[trigger] temp(
                *final(curve),
                j,
            ),
{
    if idx >= POINT_COUNT {
        return ;
    }
    let ghost before = *curve;
    let low: i32 = TEMP_MIN + idx as i32;
    let high: i32 = TEMP_MAX - (7 - idx as i32);
    curve[idx] = [
        clamp_i32(curve[idx][0], low, high),
        clamp_i32(curve[idx][1], PWM_MIN, PWM_MAX),
    ];
    let mut i: usize = idx + 1;
    while i < POINT_COUNT
        invariant
            idx < i <= 8,
            forall|k: int|
                #![trigger curve@[k]]
                idx <= k < i ==> temp(*curve, k) == enforced_temp(before, idx as int, k) && pwm(
                    *curve,
                    k,
                ) == enforced_pwm(before, idx as int, k),
            forall|k: int| 0 <= k < idx || i <= k < 8 ==> #[trigger] curve@[k] == before@[k],
        decreases 8 - i,
    {
        proof {
            lemma_enforced_bounds(before, idx as int, i - 1);
            assert(temp(*curve, i - 1) == enforced_temp(before, idx as int, i - 1));
            assert(curve@[i as int] == before@[i as int]);
        }
        curve[i] = [
            min_i32(max_i32(curve[i][0], curve[i - 1][0] + 1), TEMP_MAX - (7 - i as i32)),
            min_i32(max_i32(curve[i][1], curve[i - 1][1]), PWM_MAX),
        ];
        i = i + 1;
    }
    let mut i: usize = idx;
    while i > 0
        invariant
            idx < 8,
            i <= idx,
            forall|k: int|
                #![trigger curve@[k]]
                i <= k < 8 ==> temp(*curve, k) == enforced_temp(before, idx as int, k) && pwm(
                    *curve,
                    k,
                ) == enforced_pwm(before, idx as int, k),
            forall|k: int| 0 <= k < i ==> #[trigger] curve@[k] == before@[k],
        decreases i,
    {
        proof {
            lemma_enforced_bounds(before, idx as int, i as int);
            assert(temp(*curve, i as int) == enforced_temp(before, idx as int, i as int));
            assert(curve@[i - 1] == before@[i - 1]);
        }
        i = i - 1;
        let floor: i32 = TEMP_MIN + i as i32;
        curve[i] = [
            max_i32(min_i32(curve[i][0], curve[i + 1][0] - 1), floor),
            max_i32(min_i32(curve[i][1], curve[i + 1][1]), PWM_MIN),
        ];
    }
    proof {
        assert forall|k: int| 0 <= k < 8 implies #[trigger] temp(*curve, k) == enforced_temp(
            before,
            idx as int,
            k,
        ) && pwm(*curve, k) == enforced_pwm(before, idx as int, k) by {
            assert(curve@[k] == curve@[k]);
        }
        law_enforced_temps_strictly_increase(before, idx as int, *curve);
    }
}

/// Whether `after` is `before` with point `idx` dragged and enforced.
pub open spec fn is_enforced(before: Curve, idx: int, after: Curve) -> bool {
    forall|i: int|
        0 <= i < 8 ==> #[trigger] temp(after, i) == enforced_temp(before, idx, i) && pwm(after, i)
            == enforced_pwm(before, idx, i)
}

proof fn lemma_enforced_step(curve: Curve, idx: int, i: int)
    requires
        0 <= idx < 8,
        0 <= i < 7,
    ensures
        enforced_temp(curve, idx, i) < enforced_temp(curve, idx, i + 1),
        enforced_pwm(curve, idx, i) <= enforced_pwm(curve, idx, i + 1),
{
    lemma_enforced_bounds(curve, idx, i);
    lemma_enforced_bounds(curve, idx, i + 1);
}

proof fn lemma_enforced_chain(curve: Curve, idx: int, i: int, j: int)
    requires
        0 <= idx < 8,
        0 <= i <= j < 8,
    ensures
        i < j ==> enforced_temp(curve, idx, i) < enforced_temp(curve, idx, j),
        enforced_pwm(curve, idx, i) <= enforced_pwm(curve, idx, j),
    decreases j - i,
{
    if i < j {
        lemma_enforced_chain(curve, idx, i, j - 1);
        lemma_enforced_step(curve, idx, j - 1);
    }
}

/// Enforcing after a drag always leaves a curve that the daemon accepts.
pub proof fn law_enforced_curve_is_valid(before: Curve, idx: int, after: Curve)
    requires
        0 <= idx < 8,
        is_enforced(before, idx, after),
    ensures
        curve_valid(after),
        forall|i: int| 0 <= i < 8 ==> TEMP_MIN <= #[trigger] temp(after, i) <= TEMP_MAX,
{
    assert forall|i: int| 0 <= i < 8 implies TEMP_MIN <= #[trigger] temp(after, i) <= TEMP_MAX && 0
        <= pwm(after, i) <= 255 by {
        lemma_enforced_bounds(before, idx, i);
    }
    assert forall|i: int, j: int| 0 <= i <= j < 8 implies #[trigger] temp(after, i)
        <= #[trigger] temp(after, j) by {
        lemma_enforced_chain(before, idx, i, j);
    }
    assert forall|i: int, j: int| 0 <= i <= j < 8 implies #[trigger] pwm(after, i)
        <= #[trigger] pwm(after, j) by {
        assert(temp(after, i) == enforced_temp(before, idx, i));
        assert(temp(after, j) == enforced_temp(before, idx, j));
        lemma_enforced_chain(before, idx, i, j);
    }
}

/// Enforcing after a drag leaves strictly increasing temperatures, so no two
/// points collapse onto each other or onto an edge.
pub proof fn law_enforced_temps_strictly_increase(before: Curve, idx: int, after: Curve)
    requires
        0 <= idx < 8,
        is_enforced(before, idx, after),
    ensures
        forall|i: int, j: int|
            0 <= i < j < 8 ==> #[trigger] temp(after, i) < #[trigger] temp(after, j),
{
    assert forall|i: int, j: int| 0 <= i < j < 8 implies #[trigger] temp(after, i)
        < #[trigger] temp(after, j) by {
        lemma_enforced_chain(before, idx, i, j);
    }
}

proof fn lemma_enforced_again(before: Curve, idx: int, after: Curve, i: int)
    requires
        0 <= idx < 8,
        0 <= i < 8,
        is_enforced(before, idx, after),
    ensures
        enforced_temp(after, idx, i) == temp(after, i),
        enforced_pwm(after, idx, i) == pwm(after, i),
    decreases
            if i > idx {
                i - idx
            } else {
                idx - i
            },
{
    assert(temp(after, i) == enforced_temp(before, idx, i));
    lemma_enforced_bounds(before, idx, i);
    if i > idx {
        assert(temp(after, i - 1) == enforced_temp(before, idx, i - 1));
        lemma_enforced_again(before, idx, after, i - 1);
        lemma_enforced_step(before, idx, i - 1);
    } else if i < idx {
        assert(temp(after, i + 1) == enforced_temp(before, idx, i + 1));
        lemma_enforced_again(before, idx, after, i + 1);
        lemma_enforced_step(before, idx, i);
    }
}

/// Enforcing a second time changes nothing.
pub proof fn law_enforcing_is_idempotent(before: Curve, idx: int, after: Curve)
    requires
        0 <= idx < 8,
        is_enforced(before, idx, after),
    ensures
        is_enforced(after, idx, after),
{
    let again = |i: int|
        temp(after, i) == enforced_temp(after, idx, i) && pwm(after, i) == enforced_pwm(
            after,
            idx,
            i,
        );
    assert forall|i: int| 0 <= i < 8 implies #[trigger] again(i) by {
        lemma_enforced_again(before, idx, after, i);
    }
    assert forall|i: int| 0 <= i < 8 implies #[trigger] temp(after, i) == enforced_temp(
        after,
        idx,
        i,
    ) && pwm(after, i) == enforced_pwm(after, idx, i) by {
        assert(again(i));
    }
}

/// A dragged point that lies within the bounds of its index stays where it was
/// put; one beyond them stops at the nearest one. No other point moves further
/// than the order asks: an earlier point goes down to the point after it, a later
/// one up to the point before it, and else it stays.
pub proof fn law_points_move_only_when_pushed(before: Curve, idx: int, after: Curve, i: int)
    requires
        0 <= idx < 8,
        0 <= i < 8,
        is_enforced(before, idx, after),
    ensures
        i == idx && 20 + i <= temp(before, i) <= 103 + i ==> temp(after, i) == temp(before, i),
        i == idx && temp(before, i) < 20 + i ==> temp(after, i) == 20 + i,
        i == idx && temp(before, i) > 103 + i ==> temp(after, i) == 103 + i,
        i == idx && 0 <= pwm(before, i) <= 255 ==> pwm(after, i) == pwm(before, i),
        i == idx && pwm(before, i) < 0 ==> pwm(after, i) == 0,
        i == idx && pwm(before, i) > 255 ==> pwm(after, i) == 255,
        i < idx && 20 + i <= temp(before, i) < temp(after, i + 1) ==> temp(after, i) == temp(
            before,
            i,
        ),
        i < idx && temp(before, i) >= temp(after, i + 1) ==> temp(after, i) == temp(after, i + 1)
            - 1,
        i < idx && temp(before, i) < 20 + i ==> temp(after, i) == 20 + i,
        i < idx && 0 <= pwm(before, i) <= pwm(after, i + 1) ==> pwm(after, i) == pwm(before, i),
        i < idx && pwm(before, i) > pwm(after, i + 1) ==> pwm(after, i) == pwm(after, i + 1),
        i < idx && pwm(before, i) < 0 ==> pwm(after, i) == 0,
        i > idx && temp(after, i - 1) < temp(before, i) <= 103 + i ==> temp(after, i) == temp(
            before,
            i,
        ),
        i > idx && temp(before, i) <= temp(after, i - 1) ==> temp(after, i) == temp(after, i - 1)
            + 1,
        i > idx && temp(before, i) > 103 + i ==> temp(after, i) == 103 + i,
        i > idx && pwm(after, i - 1) <= pwm(before, i) <= 255 ==> pwm(after, i) == pwm(before, i),
        i > idx && pwm(before, i) < pwm(after, i - 1) ==> pwm(after, i) == pwm(after, i - 1),
        i > idx && pwm(before, i) > 255 ==> pwm(after, i) == 255,
{
    assert(temp(after, i) == enforced_temp(before, idx, i));
    lemma_enforced_bounds(before, idx, i);
    if i < idx {
        assert(temp(after, i + 1) == enforced_temp(before, idx, i + 1));
        lemma_enforced_bounds(before, idx, i + 1);
    } else if i > idx {
        assert(temp(after, i - 1) == enforced_temp(before, idx, i - 1));
        lemma_enforced_bounds(before, idx, i - 1);
    }
}

/// Whether a curve is in the order that the editor keeps: temperatures strictly
/// increase and leave every point its room, and duties never fall.
pub open spec fn is_in_order(curve: Curve) -> bool {
    &&& forall|i: int| 0 <= i < 8 ==> 20 + i <= #[trigger] temp(curve, i) <= 103 + i
    &&& forall|i: int| 0 <= i < 8 ==> 0 <= #[trigger] pwm(curve, i) <= 255
    &&& forall|i: int, j: int|
        0 <= i < j < 8 ==> #[trigger] temp(curve, i) < #[trigger] temp(curve, j)
    &&& forall|i: int, j: int|
        0 <= i < j < 8 ==> #[trigger] pwm(curve, i) <= #[trigger] pwm(curve, j)
}

proof fn lemma_ordered_point_is_kept(before: Curve, idx: int, after: Curve, i: int)
    requires
        0 <= idx < 8,
        0 <= i < 8,
        is_in_order(before),
        is_enforced(before, idx, after),
    ensures
        temp(after, i) == temp(before, i),
        pwm(after, i) == pwm(before, i),
    decreases
            if i > idx {
                i - idx
            } else {
                idx - i
            },
{
    law_points_move_only_when_pushed(before, idx, after, i);
    assert(20 + i <= temp(before, i) <= 103 + i && 0 <= pwm(before, i) <= 255);
    if i > idx {
        lemma_ordered_point_is_kept(before, idx, after, i - 1);
        assert(temp(before, i - 1) < temp(before, i));
        assert(pwm(before, i - 1) <= pwm(before, i));
    } else if i < idx {
        lemma_ordered_point_is_kept(before, idx, after, i + 1);
        assert(temp(before, i) < temp(before, i + 1));
        assert(pwm(before, i) <= pwm(before, i + 1));
    }
}

/// A drag that keeps the order disturbs no point.
pub proof fn law_ordered_curves_are_kept(before: Curve, idx: int, after: Curve)
    requires
        0 <= idx < 8,
        is_in_order(before),
        is_enforced(before, idx, after),
    ensures
        forall|i: int| 0 <= i < 8 ==> #[trigger] temp(after, i) == temp(before, i),
        forall|i: int| 0 <= i < 8 ==> #[trigger] pwm(after, i) == pwm(before, i),
{
    assert forall|i: int| 0 <= i < 8 implies #[trigger] temp(after, i) == temp(before, i) by {
        lemma_ordered_point_is_kept(before, idx, after, i);
    }
    assert forall|i: int| 0 <= i < 8 implies #[trigger] pwm(after, i) == pwm(before, i) by {
        lemma_ordered_point_is_kept(before, idx, after, i);
    }
}

/// Where the points before the dragged one were in order, each keeps its duty
/// unless that exceeds the dragged one, and its temperature unless the dragged
/// point needs the room.
pub proof fn law_earlier_points_give_way(before: Curve, idx: int, after: Curve, i: int)
    requires
        0 <= i < idx < 8,
        is_enforced(before, idx, after),
        forall|k: int|
            0 <= k < idx ==> 20 + k <= #[trigger] temp(before, k) && 0 <= pwm(before, k),
        forall|k: int, l: int|
            0 <= k < l < idx ==> #[trigger] temp(before, k) < #[trigger] temp(before, l),
        forall|k: int, l: int|
            0 <= k < l < idx ==> #[trigger] pwm(before, k) <= #[trigger] pwm(before, l),
    ensures
        pwm(before, i) <= pwm(after, idx) ==> pwm(after, i) == pwm(before, i),
        pwm(before, i) > pwm(after, idx) ==> pwm(after, i) == pwm(after, idx),
        temp(before, i) <= temp(after, idx) - (idx - i) ==> temp(after, i) == temp(before, i),
        temp(before, i) > temp(after, idx) - (idx - i) ==> temp(after, i) == temp(after, idx) - (
        idx - i),
    decreases idx - i,
{
    law_points_move_only_when_pushed(before, idx, after, i);
    assert(20 + i <= temp(before, i) && 0 <= pwm(before, i));
    if i + 1 < idx {
        law_earlier_points_give_way(before, idx, after, i + 1);
        assert(temp(before, i) < temp(before, i + 1));
        assert(pwm(before, i) <= pwm(before, i + 1));
    }
}

/// Where the points after the dragged one were in order, each keeps its duty
/// unless that falls below the dragged one, and its temperature unless the dragged
/// point needs the room.
pub proof fn law_later_points_give_way(before: Curve, idx: int, after: Curve, i: int)
    requires
        0 <= idx < i < 8,
        is_enforced(before, idx, after),
        forall|k: int|
            idx < k < 8 ==> #[trigger] temp(before, k) <= 103 + k && pwm(before, k) <= 255,
        forall|k: int, l: int|
            idx < k < l < 8 ==> #[trigger] temp(before, k) < #[trigger] temp(before, l),
        forall|k: int, l: int|
            idx < k < l < 8 ==> #[trigger] pwm(before, k) <= #[trigger] pwm(before, l),
    ensures
        pwm(before, i) >= pwm(after, idx) ==> pwm(after, i) == pwm(before, i),
        pwm(before, i) < pwm(after, idx) ==> pwm(after, i) == pwm(after, idx),
        temp(before, i) >= temp(after, idx) + (i - idx) ==> temp(after, i) == temp(before, i),
        temp(before, i) < temp(after, idx) + (i - idx) ==> temp(after, i) == temp(after, idx) + (i
            - idx),
    decreases i,
{
    law_points_move_only_when_pushed(before, idx, after, i);
    assert(temp(before, i) <= 103 + i && pwm(before, i) <= 255);
    if i - 1 > idx {
        law_later_points_give_way(before, idx, after, i - 1);
        assert(temp(before, i - 1) < temp(before, i));
        assert(pwm(before, i - 1) <= pwm(before, i));
    }
}

// ---------------------------------------------------------------------------
// High-power protection
// ---------------------------------------------------------------------------

/// The temperature of point `i` of the protected copy.
pub open spec fn protected_temp(curve: Curve, i: int) -> int
    decreases 8 - i,
{
    if i >= 7 {
        HIGH_POWER_FINAL_TEMP_C as int
    } else if i == 6 {
        HIGH_POWER_POINT_TEMP_C as int
    } else {
        lower(temp(curve, i), protected_temp(curve, i + 1))
    }
}

/// The duty of point `i` of the protected copy.
pub open spec fn protected_pwm(curve: Curve, i: int) -> int
    decreases 8 - i,
{
    if i >= 7 {
        PWM_MAX as int
    } else if i == 6 {
        higher(higher(pwm(curve, 6), pwm(curve, 5)), HIGH_POWER_POINT_PWM as int)
    } else {
        lower(pwm(curve, i), protected_pwm(curve, i + 1))
    }
}

/// Whether `hardware` is the protected copy of `authored`.
pub open spec fn is_protected(authored: Curve, hardware: Curve) -> bool {
    forall|i: int|
        0 <= i < 8 ==> #[trigger] temp(hardware, i) == protected_temp(authored, i) && pwm(
            hardware,
            i,
        ) == protected_pwm(authored, i)
}

/// Returns the hardware copy used at [`HIGH_POWER_THRESHOLD_W`] and above.
///
/// The last point runs at full duty from 90 °C and the one before it at 80 % or
/// more from 80 °C; earlier points are lowered only as far as the order needs.
pub fn high_power_curve(authored: &Curve) -> (result: Curve)
    ensures
        is_protected(*authored, result),
{
    let mut curve: Curve = *authored;
    let point_pwm: i32 = max_i32(max_i32(authored[6][1], authored[5][1]), HIGH_POWER_POINT_PWM);
    curve[6] = [HIGH_POWER_POINT_TEMP_C, point_pwm];
    curve[7] = [HIGH_POWER_FINAL_TEMP_C, PWM_MAX];
    let mut index: usize = 6;
    while index > 0
        invariant
            index <= 6,
            forall|k: int|
                #![trigger curve@[k]]
                index <= k < 8 ==> temp(curve, k) == protected_temp(*authored, k) && pwm(curve, k)
                    == protected_pwm(*authored, k),
            forall|k: int| 0 <= k < index ==> #[trigger] curve@[k] == authored@[k],
        decreases index,
    {
        index = index - 1;
        curve[index] = [
            min_i32(curve[index][0], curve[index + 1][0]),
            min_i32(curve[index][1], curve[index + 1][1]),
        ];
    }
    curve
}

/// The protected copy locks its last two points: 80 °C at 80 % or more, never
/// lower than authored, and 90 °C at full duty.
pub proof fn law_protection_locks_the_last_points(authored: Curve, hardware: Curve)
    requires
        is_protected(authored, hardware),
    ensures
        temp(hardware, 6) == 80,
        pwm(hardware, 6) >= 204,
        pwm(hardware, 6) >= pwm(authored, 6),
        temp(hardware, 7) == 90,
        pwm(hardware, 7) == 255,
{
    assert(temp(hardware, 6) == protected_temp(authored, 6));
    assert(temp(hardware, 7) == protected_temp(authored, 7));
}

proof fn lemma_protected_point(authored: Curve, i: int)
    requires
        curve_valid(authored),
        0 <= i < 8,
    ensures
        0 <= protected_temp(authored, i) <= 90,
        0 <= protected_pwm(authored, i) <= 255,
        i < 7 ==> protected_temp(authored, i) <= protected_temp(authored, i + 1),
        i < 7 ==> protected_pwm(authored, i) <= protected_pwm(authored, i + 1),
        i < 6 ==> protected_temp(authored, i) == lower(temp(authored, i), 80),
        i < 6 ==> protected_pwm(authored, i) == pwm(authored, i),
    decreases 8 - i,
{
    assert(0 <= temp(authored, i) <= 120 && 0 <= pwm(authored, i) <= 255);
    if i < 7 {
        lemma_protected_point(authored, i + 1);
        assert(temp(authored, i) <= temp(authored, i + 1));
        assert(pwm(authored, i) <= pwm(authored, i + 1));
    }
    if i == 6 {
        assert(0 <= temp(authored, 5) <= 120 && 0 <= pwm(authored, 5) <= 255);
    }
}

proof fn lemma_protected_chain(authored: Curve, i: int, j: int)
    requires
        curve_valid(authored),
        0 <= i <= j < 8,
    ensures
        protected_temp(authored, i) <= protected_temp(authored, j),
        protected_pwm(authored, i) <= protected_pwm(authored, j),
    decreases j - i,
{
    if i < j {
        lemma_protected_chain(authored, i, j - 1);
        lemma_protected_point(authored, j - 1);
    }
}

/// The protected copy of an accepted curve is accepted. It keeps the authored
/// duty of the first six points and moves their temperature down to 80 °C at
/// most.
pub proof fn law_protection_keeps_a_curve_valid(authored: Curve, hardware: Curve)
    requires
        curve_valid(authored),
        is_protected(authored, hardware),
    ensures
        curve_valid(hardware),
        forall|i: int|
            0 <= i < 6 ==> #[trigger] temp(hardware, i) == lower(temp(authored, i), 80) && pwm(
                hardware,
                i,
            ) == pwm(authored, i),
{
    assert forall|i: int| 0 <= i < 8 implies 0 <= #[trigger] temp(hardware, i) <= 120 && 0 <= pwm(
        hardware,
        i,
    ) <= 255 && (i < 6 ==> temp(hardware, i) == lower(temp(authored, i), 80) && pwm(hardware, i)
        == pwm(authored, i)) by {
        lemma_protected_point(authored, i);
    }
    assert forall|i: int, j: int| 0 <= i <= j < 8 implies #[trigger] temp(hardware, i)
        <= #[trigger] temp(hardware, j) by {
        lemma_protected_chain(authored, i, j);
    }
    assert forall|i: int, j: int| 0 <= i <= j < 8 implies #[trigger] pwm(hardware, i)
        <= #[trigger] pwm(hardware, j) by {
        assert(temp(hardware, i) == protected_temp(authored, i));
        assert(temp(hardware, j) == protected_temp(authored, j));
        lemma_protected_chain(authored, i, j);
    }
}

proof fn lemma_protected_again(authored: Curve, hardware: Curve, i: int)
    requires
        is_protected(authored, hardware),
        0 <= i < 8,
    ensures
        protected_temp(hardware, i) == temp(hardware, i),
        protected_pwm(hardware, i) == pwm(hardware, i),
    decreases 8 - i,
{
    assert(temp(hardware, i) == protected_temp(authored, i));
    if i < 7 {
        lemma_protected_again(authored, hardware, i + 1);
        assert(temp(hardware, i + 1) == protected_temp(authored, i + 1));
    }
    if i == 6 {
        assert(temp(hardware, 5) == protected_temp(authored, 5));
    }
}

/// Protecting a protected curve changes nothing.
pub proof fn law_protection_is_idempotent(authored: Curve, hardware: Curve)
    requires
        is_protected(authored, hardware),
    ensures
        is_protected(hardware, hardware),
{
    let again = |i: int|
        temp(hardware, i) == protected_temp(hardware, i) && pwm(hardware, i) == protected_pwm(
            hardware,
            i,
        );
    assert forall|i: int| 0 <= i < 8 implies #[trigger] again(i) by {
        lemma_protected_again(authored, hardware, i);
    }
    assert forall|i: int| 0 <= i < 8 implies #[trigger] temp(hardware, i) == protected_temp(
        hardware,
        i,
    ) && pwm(hardware, i) == protected_pwm(hardware, i) by {
        assert(again(i));
    }
}

/// The protection changes no more of an accepted curve than it needs: a point up
/// to 80 °C among the first six stays as authored and a hotter one moves to 80 °C;
/// the seventh keeps a duty of 80 % or more and is else raised to 80 %.
pub proof fn law_protection_keeps_what_it_can(authored: Curve, hardware: Curve, i: int)
    requires
        curve_valid(authored),
        is_protected(authored, hardware),
        0 <= i < 7,
    ensures
        i < 6 && temp(authored, i) <= 80 ==> temp(hardware, i) == temp(authored, i),
        i < 6 && temp(authored, i) > 80 ==> temp(hardware, i) == 80,
        i < 6 ==> pwm(hardware, i) == pwm(authored, i),
        i == 6 && pwm(authored, i) >= 204 ==> pwm(hardware, i) == pwm(authored, i),
        i == 6 && pwm(authored, i) < 204 ==> pwm(hardware, i) == 204,
{
    assert(temp(hardware, i) == protected_temp(authored, i));
    lemma_protected_point(authored, i);
    assert(pwm(authored, 5) <= pwm(authored, 6));
}

// ---------------------------------------------------------------------------
// Shifting, units and the wire form
// ---------------------------------------------------------------------------

/// Whether `after` is `before` with every duty shifted within the PWM range.
pub open spec fn is_shifted(before: Curve, delta: int, after: Curve) -> bool {
    forall|i: int|
        0 <= i < 8 ==> #[trigger] temp(after, i) == temp(before, i) && pwm(after, i) == clamped(
            pwm(before, i) + delta,
            PWM_MIN as int,
            PWM_MAX as int,
        )
}

/// Shifts every point's duty by `delta` within the PWM range.
pub fn shift_curve_vertical(curve: &mut Curve, delta: i32)
    requires
        forall|i: int|
            0 <= i < 8 ==> i32::MIN <= #[trigger] pwm(*old(curve), i) + delta <= i32::MAX,
    ensures
        is_shifted(*old(curve), delta as int, *final(curve)),
{
    let ghost before = *curve;
    let mut index: usize = 0;
    while index < POINT_COUNT
        invariant
            index <= 8,
            forall|k: int| 0 <= k < 8 ==> i32::MIN <= #[trigger] pwm(before, k) + delta <= i32::MAX,
            forall|k: int|
                #![trigger curve@[k]]
                0 <= k < index ==> temp(*curve, k) == temp(before, k) && pwm(*curve, k) == clamped(
                    pwm(before, k) + delta,
                    PWM_MIN as int,
                    PWM_MAX as int,
                ),
            forall|k: int| index <= k < 8 ==> #[trigger] curve@[k] == before@[k],
        decreases 8 - index,
    {
        assert(curve@[index as int] == before@[index as int]);
        assert(i32::MIN <= pwm(before, index as int) + delta <= i32::MAX);
        curve[index] = [
            curve[index][0],
            clamp_i32(curve[index][1] + delta, PWM_MIN, PWM_MAX),
        ];
        index = index + 1;
    }
}

/// The whole percentage nearest to `pwm` of 255.
pub open spec fn percent_of_pwm(pwm: int) -> int {
    (200 * pwm + 255) / 510
}

/// The duty of a display percentage, rounded down.
pub open spec fn pwm_of_percent(percent: int) -> int {
    clamped(percent, 0, 100) * 255 / 100
}

/// Converts a duty of 0–255 to a display percentage of 0–100.
pub fn pwm_to_percent(pwm: i32) -> (result: i32)
    ensures
        result == percent_of_pwm(pwm as int),
        -255 < 2 * (255 * result - 100 * pwm) < 255,
{
    let doubled: i64 = 200 * (pwm as i64) + 255;
    let quotient: i64 = if doubled >= 0 {
        doubled / 510
    } else {
        -((509 - doubled) / 510)
    };
    assert(quotient == percent_of_pwm(pwm as int)) by {
        if doubled < 0 {
            assert((509 - doubled) / 510 == -(doubled as int / 510)) by (nonlinear_arith)
                requires
                    doubled < 0,
            ;
        }
    }
    assert(2 * 255 * quotient - 200 * pwm != 255 && 2 * 255 * quotient - 200 * pwm != -255) by {
        if 510 * quotient - 200 * pwm == 255 {
            assert((510 * quotient - 200 * pwm) % 10 == 0);
        }
        if 510 * quotient - 200 * pwm == -255 {
            assert((510 * quotient - 200 * pwm) % 10 == 0);
        }
    }
    quotient as i32
}

/// Converts a display percentage of 0–100 to a duty of 0–255.
pub fn percent_to_pwm(percent: i32) -> (result: i32)
    ensures
        result == pwm_of_percent(percent as int),
        0 <= result <= 255,
{
    (clamp_i32(percent, 0, 100) * 255) / 100
}

/// A display percentage survives the conversion to a duty and back.
pub proof fn law_percent_survives_conversion(percent: int)
    requires
        0 <= percent <= 100,
    ensures
        percent_of_pwm(pwm_of_percent(percent)) == percent,
{
}

/// Shifting moves every duty by the same amount as far as the range allows, and
/// no temperature.
pub proof fn law_shift_moves_every_duty(before: Curve, delta: int, after: Curve, i: int)
    requires
        is_shifted(before, delta, after),
        0 <= i < 8,
    ensures
        temp(after, i) == temp(before, i),
        0 <= pwm(before, i) + delta <= 255 ==> pwm(after, i) - pwm(before, i) == delta,
        pwm(before, i) + delta < 0 ==> pwm(after, i) == 0,
        pwm(before, i) + delta > 255 ==> pwm(after, i) == 255,
{
    assert(temp(after, i) == temp(before, i));
}

/// Shifting back restores a curve whose duties stayed within the range.
pub proof fn law_shifting_back_restores(before: Curve, delta: int, middle: Curve, after: Curve)
    requires
        is_shifted(before, delta, middle),
        is_shifted(middle, -delta, after),
        forall|i: int|
            0 <= i < 8 ==> 0 <= #[trigger] pwm(before, i) <= 255 && 0 <= pwm(before, i) + delta
                <= 255,
    ensures
        forall|i: int| 0 <= i < 8 ==> #[trigger] temp(after, i) == temp(before, i),
        forall|i: int| 0 <= i < 8 ==> #[trigger] pwm(after, i) == pwm(before, i),
{
    assert forall|i: int| 0 <= i < 8 implies #[trigger] temp(after, i) == temp(before, i) by {
        law_shift_moves_every_duty(before, delta, middle, i);
        law_shift_moves_every_duty(middle, -delta, after, i);
    }
    assert forall|i: int| 0 <= i < 8 implies #[trigger] pwm(after, i) == pwm(before, i) by {
        assert(0 <= pwm(before, i) <= 255);
        law_shift_moves_every_duty(before, delta, middle, i);
        law_shift_moves_every_duty(middle, -delta, after, i);
    }
}

/// A duty is the largest that does not exceed its percentage, which counts as 0
/// or 100 when it lies beyond.
pub proof fn law_percent_is_rounded_down(percent: int)
    ensures
        0 <= percent <= 100 ==> 100 * pwm_of_percent(percent) <= 255 * percent < 100 * (
        pwm_of_percent(percent) + 1),
        percent < 0 ==> pwm_of_percent(percent) == 0,
        percent > 100 ==> pwm_of_percent(percent) == 255,
{
}

/// A percentage is the whole number nearest to its duty.
pub proof fn law_duty_is_rounded_to_the_nearest(duty: int)
    ensures
        -255 < 2 * (255 * percent_of_pwm(duty) - 100 * duty) < 255,
{
    let doubled = 200 * duty + 255;
    let quotient = doubled / 510;
    assert(510 * quotient <= doubled < 510 * quotient + 510);
    if 510 * quotient - 200 * duty == 255 {
        assert((510 * quotient - 200 * duty) % 10 == 0);
    }
    if 510 * quotient - 200 * duty == -255 {
        assert((510 * quotient - 200 * duty) % 10 == 0);
    }
}

/// The wire form of one point.
pub open spec fn wire_point(curve: Curve, i: int) -> Seq<char> {
    crate::text::signed_decimal(temp(curve, i)) + ":"@ + crate::text::signed_decimal(pwm(curve, i))
}

/// The wire form of the first `count` points, separated by commas.
pub open spec fn wire_points(curve: Curve, count: nat) -> Seq<char>
    decreases count,
{
    if count == 0 {
        Seq::empty()
    } else if count == 1 {
        wire_point(curve, 0)
    } else {
        wire_points(curve, (count - 1) as nat) + ","@ + wire_point(curve, count - 1)
    }
}

/// Formats a curve for the daemon: eight `temp:pwm` points, separated by commas.
pub fn to_wire(curve: &Curve) -> (result: String)
    ensures
        result@ == wire_points(*curve, 8),
{
    let mut text: String = String::new();
    let mut index: usize = 0;
    while index < POINT_COUNT
        invariant
            index <= 8,
            text@ == wire_points(*curve, index as nat),
        decreases 8 - index,
    {
        let ghost sofar = text@;
        if index > 0 {
            text.append(",");
        }
        text.append(signed_decimal_text(curve[index][0] as i64).as_str());
        text.append(":");
        text.append(signed_decimal_text(curve[index][1] as i64).as_str());
        proof {
            if index == 0 {
                assert(text@ =~= wire_point(*curve, 0));
            } else {
                assert(text@ =~= sofar + ","@ + wire_point(*curve, index as int));
            }
        }
        index = index + 1;
    }
    text
}

/// The wire form lists the points in their order, each as its temperature and its
/// duty with a colon between them, and separates them by commas.
pub proof fn law_wire_form_lists_the_points(curve: Curve, count: nat)
    requires
        count >= 1,
    ensures
        wire_points(curve, 1) == crate::text::signed_decimal(curve@[0]@[0] as int) + ":"@
            + crate::text::signed_decimal(curve@[0]@[1] as int),
        wire_points(curve, count + 1) == wire_points(curve, count) + ","@
            + crate::text::signed_decimal(curve@[count as int]@[0] as int) + ":"@
            + crate::text::signed_decimal(curve@[count as int]@[1] as int),
{
    let point = wire_point(curve, count as int);
    assert(wire_points(curve, count) + ","@ + point =~= wire_points(curve, count) + ","@
        + crate::text::signed_decimal(temp(curve, count as int)) + ":"@
        + crate::text::signed_decimal(pwm(curve, count as int)));
}

} // verus!
