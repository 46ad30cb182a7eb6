//! Eight-point fan curves with linear interpolation.

use vstd::prelude::*;

verus! {

pub const POINT_COUNT: usize = 8;

pub const HIGH_POWER_THRESHOLD_W: u32 = 75;

pub const HIGH_POWER_PWM_FLOOR: u8 = 204;

pub const PANIC_TEMPERATURE_C: i32 = 96;

/// One point of a curve.
#[derive(Clone, Copy, Debug, PartialEq, Eq, Structural)]
pub struct Point {
    pub temperature_c: i32,
    pub duty: u8,
}

/// Why points are not a curve.
#[derive(Clone, Copy, Debug, PartialEq, Eq, Structural)]
pub enum CurveError {
    PointCount,
    TemperatureOrder,
}

impl CurveError {
    /// The wording of [`CurveError::message`].
    pub open spec fn message_text(self) -> Seq<char> {
        match self {
            CurveError::PointCount => "fan curve must contain exactly eight points"@,
            CurveError::TemperatureOrder => {
                "fan curve temperatures must be strictly increasing"@
            },
        }
    }

    /// The message shown to the user.
    pub fn message(self) -> (result: &'static str)
        ensures
            result@ == self.message_text(),
    {
        match self {
            CurveError::PointCount => "fan curve must contain exactly eight points",
            CurveError::TemperatureOrder => "fan curve temperatures must be strictly increasing",
        }
    }
}

/// Whether temperatures strictly increase.
pub open spec fn increasing(points: Seq<Point>) -> bool {
    forall|i: int, j: int|
        0 <= i < j < points.len() ==> (#[trigger] points[i]).temperature_c < (
        #[trigger] points[j]).temperature_c
}

/// Eight points with strictly increasing temperatures.
#[derive(Clone, Copy, Debug, PartialEq, Eq)]
pub struct Curve {
    points: [Point; 8],
}

impl View for Curve {
    type V = Seq<Point>;

    closed spec fn view(&self) -> Seq<Point> {
        self.points@
    }
}

/// `numerator / denominator` rounded to the nearest integer, halves away from
/// zero.
pub open spec fn rounded(numerator: int, denominator: int) -> int {
    if numerator >= 0 {
        (numerator + denominator / 2) / denominator
    } else {
        -((-numerator + denominator / 2) / denominator)
    }
}

/// The duty on the line between two points.
pub open spec fn between(left: Point, right: Point, temperature_c: int) -> int {
    left.duty + rounded(
        (temperature_c - left.temperature_c) * (right.duty - left.duty),
        right.temperature_c - left.temperature_c,
    )
}

/// The index of the first point, from `from` on, at or above a temperature.
pub open spec fn first_at_or_above(points: Seq<Point>, temperature_c: int, from: int) -> int
    decreases points.len() - from,
{
    if from >= points.len() || temperature_c <= points[from].temperature_c {
        from
    } else {
        first_at_or_above(points, temperature_c, from + 1)
    }
}

/// The duty of a curve at a temperature: constant outside its end points, on the
/// line between the neighbouring points inside.
pub open spec fn duty_of(points: Seq<Point>, temperature_c: int) -> int {
    let i = first_at_or_above(points, temperature_c, 0);
    if i == 0 {
        points[0].duty as int
    } else if i >= points.len() {
        points.last().duty as int
    } else {
        between(points[i - 1], points[i], temperature_c)
    }
}

proof fn lemma_first_at_or_above(points: Seq<Point>, temperature_c: int, from: int)
    requires
        0 <= from <= points.len(),
    ensures
        from <= first_at_or_above(points, temperature_c, from) <= points.len(),
        forall|k: int|
            from <= k < first_at_or_above(points, temperature_c, from) ==> temperature_c > (
            #[trigger] points[k]).temperature_c,
        first_at_or_above(points, temperature_c, from) < points.len() ==> temperature_c
            <= points[first_at_or_above(points, temperature_c, from)].temperature_c,
    decreases points.len() - from,
{
    if from < points.len() && temperature_c > points[from].temperature_c {
        lemma_first_at_or_above(points, temperature_c, from + 1);
    }
}

proof fn lemma_rounded_between(numerator: int, denominator: int, bound: int)
    requires
        denominator > 0,
        0 <= numerator <= denominator * bound,
        0 <= bound,
    ensures
        0 <= rounded(numerator, denominator) <= bound,
{
    let shifted = numerator + denominator / 2;
    assert(shifted / denominator >= 0) by (nonlinear_arith)
        requires
            shifted >= 0,
            denominator > 0,
    ;
    assert(shifted / denominator <= bound) by (nonlinear_arith)
        requires
            0 <= shifted <= denominator * bound + denominator / 2,
            denominator > 0,
    ;
}

proof fn lemma_between_bounds(left: Point, right: Point, temperature_c: int)
    requires
        left.temperature_c < right.temperature_c,
        left.temperature_c <= temperature_c <= right.temperature_c,
    ensures
        crate::curve::lower(left.duty as int, right.duty as int) <= between(
            left,
            right,
            temperature_c,
        ) <= crate::curve::higher(left.duty as int, right.duty as int),
{
    let run = right.temperature_c - left.temperature_c;
    let along = temperature_c - left.temperature_c;
    let rise = right.duty - left.duty;
    if rise >= 0 {
        assert(0 <= along * rise <= run * rise) by (nonlinear_arith)
            requires
                0 <= along <= run,
                0 <= rise,
        ;
        lemma_rounded_between(along * rise, run, rise);
    } else {
        assert(0 <= along * (-rise) <= run * (-rise)) by (nonlinear_arith)
            requires
                0 <= along <= run,
                rise < 0,
        ;
        assert(along * rise == -(along * (-rise))) by (nonlinear_arith);
        lemma_rounded_between(along * (-rise), run, -rise);
        if along * rise < 0 {
            assert(rounded(along * rise, run) == -rounded(along * (-rise), run));
        } else {
            assert(along * rise == 0);
            assert(rounded(0, run) == 0) by (nonlinear_arith)
                requires
                    run > 0,
            ;
        }
    }
}

impl Curve {
    /// A curve has eight points with strictly increasing temperatures.
    #[verifier::type_invariant]
    spec fn is_increasing(self) -> bool {
        increasing(self.points@)
    }

    /// Accepts eight points with strictly increasing temperatures.
    pub fn try_from(points: Vec<Point>) -> (result: Result<Self, CurveError>)
        ensures
            match result {
                Ok(curve) => curve@ == points@ && points@.len() == 8 && increasing(points@),
                Err(CurveError::PointCount) => points@.len() != 8,
                Err(CurveError::TemperatureOrder) => points@.len() == 8 && !increasing(points@),
            },
    {
        if points.len() != POINT_COUNT {
            return Err(CurveError::PointCount);
        }
        let mut i: usize = 1;
        while i < POINT_COUNT
            invariant
                1 <= i <= 8,
                points@.len() == 8,
                increasing(points@.take(i as int)),
            decreases 8 - i,
        {
            if points[i - 1].temperature_c >= points[i].temperature_c {
                assert(points@[i - 1].temperature_c >= points@[i as int].temperature_c);
                return Err(CurveError::TemperatureOrder);
            }
            proof {
                let shorter = points@.take(i as int);
                let longer = points@.take(i + 1);
                assert forall|a: int, b: int| 0 <= a < b < longer.len() implies (
                #[trigger] longer[a]).temperature_c < (#[trigger] longer[b]).temperature_c by {
                    assert(shorter[i - 1] == points@[i - 1]);
                    assert(longer[a] == shorter[a]);
                    if b < i {
                        assert(longer[b] == shorter[b]);
                    } else if a < i - 1 {
                        assert(shorter[a].temperature_c < shorter[i - 1].temperature_c);
                    }
                }
            }
            i = i + 1;
        }
        assert(points@.take(8) =~= points@);
        let array: [Point; 8] = [
            points[0],
            points[1],
            points[2],
            points[3],
            points[4],
            points[5],
            points[6],
            points[7],
        ];
        assert(array@ =~= points@);
        Ok(Curve { points: array })
    }

    /// The points of the curve.
    pub fn to_points(&self) -> (result: Vec<Point>)
        ensures
            result@ == self@,
            self@.len() == 8,
            increasing(self@),
    {
        proof {
            use_type_invariant(&*self);
        }
        let mut points: Vec<Point> = Vec::new();
        let mut i: usize = 0;
        while i < POINT_COUNT
            invariant
                i <= 8,
                points@ == self.points@.take(i as int),
            decreases 8 - i,
        {
            points.push(self.points[i]);
            assert(points@ =~= self.points@.take(i + 1));
            i = i + 1;
        }
        assert(points@ =~= self.points@);
        points
    }

    /// The duty at a temperature.
    pub fn duty_at(&self, temperature_c: i32) -> (result: u8)
        ensures
            result == duty_of(self@, temperature_c as int),
            self@.len() == 8,
            increasing(self@),
    {
        proof {
            use_type_invariant(&*self);
            lemma_first_at_or_above(self.points@, temperature_c as int, 0);
        }
        if temperature_c <= self.points[0].temperature_c {
            return self.points[0].duty;
        }
        let mut i: usize = 1;
        while i < POINT_COUNT && temperature_c > self.points[i].temperature_c
            invariant
                1 <= i <= 8,
                increasing(self.points@),
                temperature_c > self.points@[i - 1].temperature_c,
                first_at_or_above(self.points@, temperature_c as int, 0) == first_at_or_above(
                    self.points@,
                    temperature_c as int,
                    i as int,
                ),
            decreases 8 - i,
        {
            i = i + 1;
        }
        if i == POINT_COUNT {
            return self.points[POINT_COUNT - 1].duty;
        }
        let left: Point = self.points[i - 1];
        let right: Point = self.points[i];
        proof {
            assert(self.points@[i - 1].temperature_c < self.points@[i as int].temperature_c);
            lemma_between_bounds(left, right, temperature_c as int);
        }
        let run: i64 = right.temperature_c as i64 - left.temperature_c as i64;
        let along: i64 = temperature_c as i64 - left.temperature_c as i64;
        let rise: i64 = right.duty as i64 - left.duty as i64;
        assert(-0x1_0000_0000 * 255 <= along * rise <= 0x1_0000_0000 * 255) by (nonlinear_arith)
            requires
                0 <= along <= 0x1_0000_0000,
                -255 <= rise <= 255,
        ;
        let numerator: i64 = along * rise;
        let step: i64 = if numerator >= 0 {
            (numerator + run / 2) / run
        } else {
            -((-numerator + run / 2) / run)
        };
        (left.duty as i64 + step) as u8
    }
}

/// The duty that the control loop writes: full speed from the panic temperature
/// on, at least the floor above the power threshold, else the curve's.
pub open spec fn controlled_duty_of(points: Seq<Point>, temperature_c: int, pl1_w: Option<u32>) -> int {
    if temperature_c >= PANIC_TEMPERATURE_C {
        255
    } else if pl1_w is Some && pl1_w->0 > HIGH_POWER_THRESHOLD_W {
        crate::curve::higher(duty_of(points, temperature_c), HIGH_POWER_PWM_FLOOR as int)
    } else {
        duty_of(points, temperature_c)
    }
}

/// The duty that the control loop writes.
pub fn controlled_duty(curve: &Curve, temperature_c: i32, pl1_w: Option<u32>) -> (result: u8)
    ensures
        result == controlled_duty_of(curve@, temperature_c as int, pl1_w),
{
    if temperature_c >= PANIC_TEMPERATURE_C {
        return 255;
    }
    let duty: u8 = curve.duty_at(temperature_c);
    match pl1_w {
        Some(pl1) => if pl1 > HIGH_POWER_THRESHOLD_W && duty < HIGH_POWER_PWM_FLOOR {
            HIGH_POWER_PWM_FLOOR
        } else {
            duty
        },
        None => duty,
    }
}

/// A curve passes through its own points.
pub proof fn law_curve_passes_through_its_points(points: Seq<Point>, i: int)
    requires
        increasing(points),
        0 <= i < points.len(),
    ensures
        duty_of(points, points[i].temperature_c as int) == points[i].duty,
{
    let t = points[i].temperature_c as int;
    lemma_first_at_or_above(points, t, 0);
    let j = first_at_or_above(points, t, 0);
    if j < i {
        assert(points[j].temperature_c < points[i].temperature_c);
    } else if j > i {
        assert(t > points[i].temperature_c);
    }
    if i > 0 {
        let run = points[i].temperature_c - points[i - 1].temperature_c;
        let rise = points[i].duty - points[i - 1].duty;
        assert(points[i - 1].temperature_c < points[i].temperature_c);
        if rise >= 0 {
            assert((run * rise + run / 2) / run == rise) by (nonlinear_arith)
                requires
                    run > 0,
                    rise >= 0,
            ;
            assert(run * rise >= 0) by (nonlinear_arith)
                requires
                    run > 0,
                    rise >= 0,
            ;
        } else {
            assert((-(run * rise) + run / 2) / run == -rise) by (nonlinear_arith)
                requires
                    run > 0,
                    rise < 0,
            ;
            assert(run * rise < 0) by (nonlinear_arith)
                requires
                    run > 0,
                    rise < 0,
            ;
        }
    }
}

/// Between two neighbouring points the duty never leaves the range of their
/// duties, so it always fits the hardware.
pub proof fn law_duty_stays_between_neighbours(points: Seq<Point>, temperature_c: int)
    requires
        increasing(points),
        points.len() == 8,
    ensures
        0 <= duty_of(points, temperature_c) <= 255,
        temperature_c <= points[0].temperature_c ==> duty_of(points, temperature_c)
            == points[0].duty,
        temperature_c >= points[7].temperature_c ==> duty_of(points, temperature_c)
            == points[7].duty,
        forall|i: int|
            #![trigger points[i]]
            0 < i < 8 && points[i - 1].temperature_c <= temperature_c <= points[i].temperature_c
                ==> crate::curve::lower(points[i - 1].duty as int, points[i].duty as int)
                <= duty_of(points, temperature_c) <= crate::curve::higher(
                points[i - 1].duty as int,
                points[i].duty as int,
            ),
{
    lemma_first_at_or_above(points, temperature_c, 0);
    let j = first_at_or_above(points, temperature_c, 0);
    if 0 < j < 8 {
        assert(points[j - 1].temperature_c < points[j].temperature_c);
        lemma_between_bounds(points[j - 1], points[j], temperature_c);
    }
    if temperature_c >= points[7].temperature_c {
        if j < 7 {
            assert(points[j].temperature_c < points[7].temperature_c);
        }
        if j == 7 {
            law_curve_passes_through_its_points(points, 7);
        }
    }
    assert forall|i: int|
        #![trigger points[i]]
        0 < i < 8 && points[i - 1].temperature_c <= temperature_c
            <= points[i].temperature_c implies crate::curve::lower(
        points[i - 1].duty as int,
        points[i].duty as int,
    ) <= duty_of(points, temperature_c) <= crate::curve::higher(
        points[i - 1].duty as int,
        points[i].duty as int,
    ) by {
        if j > i {
            assert(temperature_c > points[i].temperature_c);
        } else if j < i - 1 {
            assert(points[j].temperature_c < points[i - 1].temperature_c);
        } else if j == i - 1 {
            assert(temperature_c == points[i - 1].temperature_c);
            law_curve_passes_through_its_points(points, i - 1);
        }
    }
}

/// From the panic temperature on the fans run at full speed, and above the power
/// threshold never below the floor.
pub proof fn law_protection_bounds_the_duty(
    points: Seq<Point>,
    temperature_c: int,
    pl1_w: Option<u32>,
)
    ensures
        temperature_c >= PANIC_TEMPERATURE_C ==> controlled_duty_of(points, temperature_c, pl1_w)
            == 255,
        pl1_w is Some && pl1_w->0 > HIGH_POWER_THRESHOLD_W ==> controlled_duty_of(
            points,
            temperature_c,
            pl1_w,
        ) >= HIGH_POWER_PWM_FLOOR,
{
}

/// Between two neighbouring points the duty lies on the straight line through
/// them, rounded to the nearest whole number.
pub proof fn law_duty_follows_the_straight_line(points: Seq<Point>, i: int, temperature_c: int)
    requires
        increasing(points),
        0 < i < points.len(),
        points[i - 1].temperature_c <= temperature_c <= points[i].temperature_c,
    ensures
        ({
            let left = points[i - 1];
            let right = points[i];
            let run = right.temperature_c - left.temperature_c;
            let rise = right.duty - left.duty;
            let off = run * (duty_of(points, temperature_c) - left.duty) - (temperature_c
                - left.temperature_c) * rise;
            -run <= 2 * off <= run
        }),
{
    let left = points[i - 1];
    let right = points[i];
    let run = right.temperature_c - left.temperature_c;
    let rise = right.duty - left.duty;
    let along = temperature_c - left.temperature_c;
    assert(left.temperature_c < right.temperature_c);
    lemma_first_at_or_above(points, temperature_c, 0);
    let j = first_at_or_above(points, temperature_c, 0);
    if j > i {
        assert(temperature_c > points[i].temperature_c);
    } else if j < i - 1 {
        assert(points[j].temperature_c < points[i - 1].temperature_c);
    }
    if j == i - 1 {
        assert(temperature_c == left.temperature_c);
        law_curve_passes_through_its_points(points, i - 1);
        assert(along * rise == 0) by (nonlinear_arith)
            requires
                along == 0,
        ;
        assert(run * 0 == 0) by (nonlinear_arith);
    } else {
        let numerator = along * rise;
        let size = if numerator >= 0 {
            numerator
        } else {
            -numerator
        };
        let quotient = (size + run / 2) / run;
        assert(-run <= 2 * (run * quotient - size) <= run) by (nonlinear_arith)
            requires
                run > 0,
                quotient == (size + run / 2) / run,
        ;
        assert(run * (-quotient) == -(run * quotient)) by (nonlinear_arith);
    }
}

/// The curve alone sets the duty below the panic temperature of 96 °C and up to
/// 75 W. Above 75 W it does so as long as it asks for 80 % or more, and the duty is
/// 80 % where it asks for less; from 96 °C on the duty is full.
pub proof fn law_protection_only_raises_the_duty(
    points: Seq<Point>,
    temperature_c: int,
    pl1_w: Option<u32>,
)
    ensures
        temperature_c >= 96 ==> controlled_duty_of(points, temperature_c, pl1_w) == 255,
        temperature_c < 96 && (pl1_w matches Some(watts) ==> watts <= 75) ==> controlled_duty_of(
            points,
            temperature_c,
            pl1_w,
        ) == duty_of(points, temperature_c),
        temperature_c < 96 && (pl1_w matches Some(watts) && watts > 75) && duty_of(
            points,
            temperature_c,
        ) >= 204 ==> controlled_duty_of(points, temperature_c, pl1_w) == duty_of(
            points,
            temperature_c,
        ),
        temperature_c < 96 && (pl1_w matches Some(watts) && watts > 75) && duty_of(
            points,
            temperature_c,
        ) < 204 ==> controlled_duty_of(points, temperature_c, pl1_w) == 204,
{
}

} // verus!
