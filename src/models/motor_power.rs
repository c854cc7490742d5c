use vstd::math::abs;
use vstd::prelude::*;

verus! {

/// Full power of one motor, in hundredths: a power of `POWER_FULL` is the
/// real value 1.0, and `-POWER_FULL` is -1.0.
pub const POWER_FULL: i32 = 100;

/// Whether `x` (in hundredths of full power) lies in [-1.0, 1.0].
pub open spec fn valid_power(x: int) -> bool {
    -POWER_FULL <= x <= POWER_FULL
}

/// The absolute value of `x`.
pub open spec fn magnitude(x: int) -> nat {
    if x < 0 {
        (-x) as nat
    } else {
        x as nat
    }
}

/// The four sign combinations of a (left, right) power pair.
#[derive(Clone, Copy, Debug, PartialEq, Eq, Structural)]
pub enum MotorPowerQuadrant {
    PLeftPRight,
    PLeftNRight,
    NLeftPRight,
    NLeftNRight,
}

/// The quadrant of a (left, right) power pair: a power of zero counts as
/// non-negative.
pub open spec fn quadrant_of(left: int, right: int) -> MotorPowerQuadrant {
    if left >= 0 && right >= 0 {
        MotorPowerQuadrant::PLeftPRight
    } else if left >= 0 && right < 0 {
        MotorPowerQuadrant::PLeftNRight
    } else if left < 0 && right >= 0 {
        MotorPowerQuadrant::NLeftPRight
    } else {
        MotorPowerQuadrant::NLeftNRight
    }
}

/// `r` is what building a power from (`left`, `right`, `locked`) gives:
/// nothing where either side lies outside [-1.0, 1.0], and otherwise a power
/// that holds exactly those values.
pub open spec fn constructed(left: int, right: int, locked: bool, r: Option<MotorPower>) -> bool {
    &&& r.is_some() <==> valid_power(left) && valid_power(right)
    &&& r matches Some(m) ==> m.left() == left && m.right() == right && m.locked() == locked
}

/// The power delivered to the two wheels, each in hundredths of full power,
/// and whether both motors are locked (braked), whatever their power.
#[derive(Clone, Copy, Debug, PartialEq, Eq, Structural)]
pub struct MotorPower {
    left: i32,
    right: i32,
    locked: bool,
}

impl MotorPower {
    #[verifier::type_invariant]
    spec fn inv(&self) -> bool {
        valid_power(self.left as int) && valid_power(self.right as int)
    }

    /// Power of the left motor, in hundredths.
    pub closed spec fn left(&self) -> int {
        self.left as int
    }

    /// Power of the right motor, in hundredths.
    pub closed spec fn right(&self) -> int {
        self.right as int
    }

    /// Whether both motors are locked.
    pub closed spec fn locked(&self) -> bool {
        self.locked
    }

    /// A zeroed-out, unlocked power.
    pub fn zero() -> (r: MotorPower)
        ensures
            r.left() == 0,
            r.right() == 0,
            !r.locked(),
    {
        MotorPower { left: 0, right: 0, locked: false }
    }

    /// Builds a power from hundredths of full power; `None` where either side
    /// lies outside [-1.0, 1.0].
    pub fn new(left: i32, right: i32, locked: bool) -> (r: Option<MotorPower>)
        ensures
            constructed(left as int, right as int, locked, r),
    {
        if !(-POWER_FULL <= left && left <= POWER_FULL && -POWER_FULL <= right && right
            <= POWER_FULL) {
            return None;
        }
        Some(MotorPower { left, right, locked })
    }

    /// Which of the four sign combinations the power lies in.
    pub fn as_quadrant(&self) -> (q: MotorPowerQuadrant)
        ensures
            q == quadrant_of(self.left(), self.right()),
    {
        if self.left >= 0 && self.right >= 0 {
            MotorPowerQuadrant::PLeftPRight
        } else if self.left >= 0 && self.right < 0 {
            MotorPowerQuadrant::PLeftNRight
        } else if self.left < 0 && self.right >= 0 {
            MotorPowerQuadrant::NLeftPRight
        } else {
            MotorPowerQuadrant::NLeftNRight
        }
    }

    /// The absolute power of the left motor, in hundredths.
    pub fn pow_left(&self) -> (p: u32)
        ensures
            p == magnitude(self.left()),
            p <= POWER_FULL,
    {
        proof {
            use_type_invariant(self);
        }
        if self.left < 0 {
            (-self.left) as u32
        } else {
            self.left as u32
        }
    }

    /// The absolute power of the right motor, in hundredths.
    pub fn pow_right(&self) -> (p: u32)
        ensures
            p == magnitude(self.right()),
            p <= POWER_FULL,
    {
        proof {
            use_type_invariant(self);
        }
        if self.right < 0 {
            (-self.right) as u32
        } else {
            self.right as u32
        }
    }

    /// Whether both motors are locked.
    pub fn is_locked(&self) -> (b: bool)
        ensures
            b == self.locked(),
    {
        self.locked
    }
}

/// Building a power fails where either side lies outside [-1.0, 1.0];
/// inside, it succeeds, and the magnitudes that the power reports are the
/// absolute values of the sides it was built from.
pub proof fn lemma_construction(left: int, right: int, locked: bool, r: Option<MotorPower>)
    requires
        constructed(left, right, locked, r),
    ensures
        !(valid_power(left) && valid_power(right)) ==> r is None,
        valid_power(left) && valid_power(right) ==> (r matches Some(m) && magnitude(m.left())
            == abs(left) && magnitude(m.right()) == abs(right) && m.locked() == locked),
{
}

} // verus!
