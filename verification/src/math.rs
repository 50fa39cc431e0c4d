use vstd::prelude::*;

verus! {

/// Number of fixed-point units in one engine length unit. A coordinate of
/// `1.0` in the engine is stored as `FP_ONE` here, so every length in the
/// scene (down to the ball's `0.00003` impulse, which is `3` units) is exact.
pub const FP_ONE: i64 = 100000;

/// Number of microradians in one radian. Plain angles (the floor tilt) are
/// stored in microradians.
pub const MICRORAD_PER_RAD: i64 = 1000000;

/// A three-component integer vector.
///
/// Positions, half-extents, impulses and the gravity vector hold fixed-point
/// units: one engine length unit is [`FP_ONE`] units. Direction vectors (a
/// joint axis, a camera's up axis) carry raw components, since only their
/// direction matters.
#[derive(Clone, Copy, Debug, PartialEq, Eq, Structural)]
pub struct Vec3i {
    pub x: i64,
    pub y: i64,
    pub z: i64,
}

impl Vec3i {
    pub fn new(x: i64, y: i64, z: i64) -> (v: Vec3i)
        ensures
            v == (Vec3i { x, y, z }),
    {
        Vec3i { x, y, z }
    }
}

/// An angle held exactly as a rational multiple of pi: the value is
/// `num * pi / den` radians. The joint limits of the one-way gate are
/// `0` and `pi / 2`, which no finite binary or decimal fraction can hold;
/// this form holds them with no rounding at all.
#[derive(Clone, Copy, Debug, PartialEq, Eq, Structural)]
pub struct PiFrac {
    pub num: i64,
    pub den: i64,
}

impl PiFrac {
    /// A `PiFrac` is well formed when its denominator is positive.
    pub open spec fn wf(self) -> bool {
        0 < self.den
    }

    /// `self <= other` as angles: `num_a/den_a <= num_b/den_b`, cleared of
    /// denominators (both positive).
    pub open spec fn spec_le(self, other: PiFrac) -> bool {
        self.num * other.den <= other.num * self.den
    }

    /// `self` and `other` are the same angle, though the fractions may be
    /// written differently (`2/4` of pi equals `1/2` of pi).
    pub open spec fn spec_eq(self, other: PiFrac) -> bool {
        self.num * other.den == other.num * self.den
    }

    pub fn new(num: i64, den: i64) -> (a: PiFrac)
        requires
            0 < den,
        ensures
            a == (PiFrac { num, den }),
            a.wf(),
    {
        PiFrac { num, den }
    }

    /// Compares two angles exactly, by cross-multiplying in 128-bit
    /// arithmetic, which a product of two 64-bit values can never overflow.
    pub fn le(&self, other: &PiFrac) -> (r: bool)
        requires
            self.wf(),
            other.wf(),
        ensures
            r == self.spec_le(*other),
    {
        proof {
            lemma_i64_mul_fits_i128(self.num as int, other.den as int);
            lemma_i64_mul_fits_i128(other.num as int, self.den as int);
        }
        (self.num as i128) * (other.den as i128) <= (other.num as i128) * (self.den as i128)
    }

    /// Tests whether two angles are equal as angles, whatever form the
    /// fractions are written in.
    pub fn angle_eq(&self, other: &PiFrac) -> (r: bool)
        requires
            self.wf(),
            other.wf(),
        ensures
            r == self.spec_eq(*other),
    {
        self.le(other) && other.le(self)
    }
}

/// The product of two values in `i64` range fits in `i128`.
proof fn lemma_i64_mul_fits_i128(a: int, b: int)
    by (nonlinear_arith)
    requires
        i64::MIN <= a <= i64::MAX,
        i64::MIN <= b <= i64::MAX,
    ensures
        i128::MIN <= a * b <= i128::MAX,
{
}

/// The admissible angular range of a revolute joint, both ends included.
#[derive(Clone, Copy, Debug, PartialEq, Eq, Structural)]
pub struct JointLimits {
    pub lo: PiFrac,
    pub hi: PiFrac,
}

impl JointLimits {
    /// Well formed: both ends are well formed and the range is not empty.
    pub open spec fn wf(self) -> bool {
        &&& self.lo.wf()
        &&& self.hi.wf()
        &&& self.lo.spec_le(self.hi)
    }

    /// The angle lies within the limits, ends included.
    pub open spec fn spec_contains(self, a: PiFrac) -> bool {
        self.lo.spec_le(a) && a.spec_le(self.hi)
    }

    pub fn contains(&self, a: &PiFrac) -> (r: bool)
        requires
            self.wf(),
            a.wf(),
        ensures
            r == self.spec_contains(*a),
    {
        self.lo.le(a) && a.le(&self.hi)
    }

    /// Clamps an angle to the limits: what a physics engine's joint limit
    /// enforcement leaves of a drive to an angle outside the range. An angle
    /// within the limits passes through unchanged; one below comes back as
    /// the lower end, one above as the upper end.
    pub fn clamp(&self, a: PiFrac) -> (r: PiFrac)
        requires
            self.wf(),
            a.wf(),
        ensures
            r.wf(),
            self.spec_contains(r),
            self.spec_contains(a) ==> r == a,
            !self.lo.spec_le(a) ==> r == self.lo,
            !a.spec_le(self.hi) && self.lo.spec_le(a) ==> r == self.hi,
    {
        if !self.lo.le(&a) {
            self.lo
        } else if !a.le(&self.hi) {
            self.hi
        } else {
            a
        }
    }
}

} // verus!
