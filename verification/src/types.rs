//! Shared types: fixed-point 2D/3D points, bounding boxes, units, rotation
//! direction, axes and tool-path compensation.
//!
//! Coordinates are `i64` values in ten-thousandths of the active unit.
//! Distances are Euclidean, rounded down to the same resolution.

use vstd::prelude::*;

verus! {

/// The largest coordinate magnitude the geometry functions accept
/// (one billion units).  Keeping coordinates inside this range makes every
/// intermediate product of the distance and layer computations fit its
/// integer type.
pub const MAX_COORD: i64 = 10_000_000_000_000;

/// Whether a scalar is inside the working coordinate range.
pub open spec fn coord_ok(v: int) -> bool {
    -MAX_COORD <= v <= MAX_COORD
}

/// The integer square root: the largest `r` with `r * r <= n`.
pub open spec fn isqrt(n: nat) -> nat
    decreases n,
{
    if n == 0 {
        0
    } else {
        let p = isqrt((n - 1) as nat);
        if (p + 1) * (p + 1) <= n {
            p + 1
        } else {
            p
        }
    }
}

pub proof fn lemma_isqrt_bounds(n: nat)
    ensures
        isqrt(n) * isqrt(n) <= n,
        n < (isqrt(n) + 1) * (isqrt(n) + 1),
    decreases n,
{
    if n == 0 {
        assert(isqrt(n) == 0);
        assert(isqrt(n) * isqrt(n) <= n && n < (isqrt(n) + 1) * (isqrt(n) + 1))
            by (nonlinear_arith)
            requires
                n == 0,
                isqrt(n) == 0,
        ;
    } else {
        lemma_isqrt_bounds((n - 1) as nat);
        let p = isqrt((n - 1) as nat);
        if (p + 1) * (p + 1) <= n {
            assert(isqrt(n) == p + 1);
            assert(n == (p + 1) * (p + 1));
            assert((p + 2) * (p + 2) > (p + 1) * (p + 1)) by (nonlinear_arith)
                requires
                    p >= 0,
            ;
            assert(n < (isqrt(n) + 1) * (isqrt(n) + 1));
        } else {
            assert(isqrt(n) == p);
            assert(isqrt(n) * isqrt(n) <= n);
            assert(n < (isqrt(n) + 1) * (isqrt(n) + 1));
        }
    }
}

pub proof fn lemma_isqrt_unique(n: nat, r: nat)
    requires
        r * r <= n,
        n < (r + 1) * (r + 1),
    ensures
        r == isqrt(n),
{
    lemma_isqrt_bounds(n);
    let q = isqrt(n);
    if r < q {
        assert((r + 1) * (r + 1) <= q * q) by (nonlinear_arith)
            requires
                0 <= r,
                r + 1 <= q,
        ;
    }
    if q < r {
        assert((q + 1) * (q + 1) <= r * r) by (nonlinear_arith)
            requires
                0 <= q,
                q + 1 <= r,
        ;
    }
}

/// The integer square root, by binary search.
fn isqrt_u128(n: u128) -> (r: u64)
    requires
        n <= 1_000_000_000_000_000_000_000_000_000_000,
    ensures
        r as nat == isqrt(n as nat),
        r <= 1_000_000_000_000_000,
{
    let mut lo: u128 = 0;
    let mut hi: u128 = 1_000_000_000_000_001;
    proof {
        assert(n < hi * hi) by (nonlinear_arith)
            requires
                n <= 1_000_000_000_000_000_000_000_000_000_000,
                hi == 1_000_000_000_000_001,
        ;
    }
    while lo + 1 < hi
        invariant
            lo < hi,
            hi <= 1_000_000_000_000_001,
            lo * lo <= n,
            n < hi * hi,
        decreases hi - lo,
    {
        let mid = lo + (hi - lo) / 2;
        proof {
            assert(mid < hi);
            assert(mid * mid <= 1_000_000_000_000_000_000_000_000_000_000_000)
                by (nonlinear_arith)
                requires
                    0 <= mid <= 1_000_000_000_000_000,
            ;
        }
        if mid * mid <= n {
            lo = mid;
        } else {
            hi = mid;
        }
    }
    proof {
        lemma_isqrt_unique(n as nat, lo as nat);
    }
    lo as u64
}

/// A 2D point, coordinates in ten-thousandths of a unit.
#[derive(Debug, PartialEq, Eq, Structural, Clone, Copy, Hash)]
pub struct Vector2 {
    pub x: i64,
    pub y: i64,
}

/// The squared Euclidean distance between two 2D points.
pub open spec fn dist2_sq(a: Vector2, b: Vector2) -> int {
    (a.x - b.x) * (a.x - b.x) + (a.y - b.y) * (a.y - b.y)
}

/// The Euclidean distance between two 2D points, rounded down.
pub open spec fn dist2(a: Vector2, b: Vector2) -> int {
    isqrt(dist2_sq(a, b) as nat) as int
}

impl Vector2 {
    pub open spec fn wf(self) -> bool {
        coord_ok(self.x as int) && coord_ok(self.y as int)
    }

    /// A 2D point from x and y coordinates.
    pub fn new(x: i64, y: i64) -> (v: Self)
        ensures
            v == (Vector2 { x, y }),
    {
        Self { x, y }
    }

    /// The sentinel point below every well-formed point, used to fold maxima.
    pub fn min() -> (v: Self)
        ensures
            v == (Vector2 { x: i64::MIN, y: i64::MIN }),
    {
        Self { x: i64::MIN, y: i64::MIN }
    }

    /// The sentinel point above every well-formed point, used to fold minima.
    pub fn max() -> (v: Self)
        ensures
            v == (Vector2 { x: i64::MAX, y: i64::MAX }),
    {
        Self { x: i64::MAX, y: i64::MAX }
    }

    /// The Euclidean distance to another point, rounded down to the
    /// coordinate resolution.
    pub fn distance_to(&self, to: Self) -> (d: i64)
        requires
            self.wf(),
            to.wf(),
        ensures
            d == dist2(*self, to),
            0 <= d <= 3 * MAX_COORD,
    {
        let dx: i128 = self.x as i128 - to.x as i128;
        let dy: i128 = self.y as i128 - to.y as i128;
        proof {
            assert(dx * dx <= 400_000_000_000_000_000_000_000_000 && dx * dx >= 0)
                by (nonlinear_arith)
                requires
                    -2 * MAX_COORD <= dx <= 2 * MAX_COORD,
                    MAX_COORD == 10_000_000_000_000,
            ;
            assert(dy * dy <= 400_000_000_000_000_000_000_000_000 && dy * dy >= 0)
                by (nonlinear_arith)
                requires
                    -2 * MAX_COORD <= dy <= 2 * MAX_COORD,
                    MAX_COORD == 10_000_000_000_000,
            ;
        }
        let sq: u128 = (dx * dx + dy * dy) as u128;
        let r = isqrt_u128(sq);
        proof {
            lemma_isqrt_bounds(sq as nat);
            assert(isqrt(sq as nat) <= 3 * MAX_COORD) by (nonlinear_arith)
                requires
                    isqrt(sq as nat) * isqrt(sq as nat) <= sq,
                    sq <= 800_000_000_000_000_000_000_000_000,
                    MAX_COORD == 10_000_000_000_000,
            ;
        }
        r as i64
    }

    /// A copy with the x coordinate incremented by `value`.
    pub fn add_x(&self, value: i64) -> (v: Self)
        requires
            i64::MIN <= self.x + value <= i64::MAX,
        ensures
            v == (Vector2 { x: (self.x + value) as i64, y: self.y }),
    {
        Self { x: self.x + value, y: self.y }
    }

    /// A copy with the y coordinate incremented by `value`.
    pub fn add_y(&self, value: i64) -> (v: Self)
        requires
            i64::MIN <= self.y + value <= i64::MAX,
        ensures
            v == (Vector2 { x: self.x, y: (self.y + value) as i64 }),
    {
        Self { x: self.x, y: self.y + value }
    }
}

/// A 3D point, coordinates in ten-thousandths of a unit.
#[derive(Debug, PartialEq, Eq, Structural, Clone, Copy, Hash)]
pub struct Vector3 {
    pub x: i64,
    pub y: i64,
    pub z: i64,
}

/// The squared Euclidean distance between two 3D points.
pub open spec fn dist3_sq(a: Vector3, b: Vector3) -> int {
    (a.x - b.x) * (a.x - b.x) + (a.y - b.y) * (a.y - b.y) + (a.z - b.z) * (a.z - b.z)
}

/// The Euclidean distance between two 3D points, rounded down.
pub open spec fn dist3(a: Vector3, b: Vector3) -> int {
    isqrt(dist3_sq(a, b) as nat) as int
}

impl Vector3 {
    pub open spec fn wf(self) -> bool {
        coord_ok(self.x as int) && coord_ok(self.y as int) && coord_ok(self.z as int)
    }

    /// A 3D point from x, y and z coordinates.
    pub fn new(x: i64, y: i64, z: i64) -> (v: Self)
        ensures
            v == (Vector3 { x, y, z }),
    {
        Self { x, y, z }
    }

    /// The sentinel point below every well-formed point, used to fold maxima.
    pub fn min() -> (v: Self)
        ensures
            v == (Vector3 { x: i64::MIN, y: i64::MIN, z: i64::MIN }),
    {
        Self { x: i64::MIN, y: i64::MIN, z: i64::MIN }
    }

    /// The sentinel point above every well-formed point, used to fold minima.
    pub fn max() -> (v: Self)
        ensures
            v == (Vector3 { x: i64::MAX, y: i64::MAX, z: i64::MAX }),
    {
        Self { x: i64::MAX, y: i64::MAX, z: i64::MAX }
    }

    /// The Euclidean distance to another point, rounded down to the
    /// coordinate resolution.
    pub fn distance_to(&self, to: Self) -> (d: i64)
        requires
            self.wf(),
            to.wf(),
        ensures
            d == dist3(*self, to),
            0 <= d <= 4 * MAX_COORD,
    {
        let dx: i128 = self.x as i128 - to.x as i128;
        let dy: i128 = self.y as i128 - to.y as i128;
        let dz: i128 = self.z as i128 - to.z as i128;
        proof {
            assert(dx * dx <= 400_000_000_000_000_000_000_000_000 && dx * dx >= 0)
                by (nonlinear_arith)
                requires
                    -2 * MAX_COORD <= dx <= 2 * MAX_COORD,
                    MAX_COORD == 10_000_000_000_000,
            ;
            assert(dy * dy <= 400_000_000_000_000_000_000_000_000 && dy * dy >= 0)
                by (nonlinear_arith)
                requires
                    -2 * MAX_COORD <= dy <= 2 * MAX_COORD,
                    MAX_COORD == 10_000_000_000_000,
            ;
            assert(dz * dz <= 400_000_000_000_000_000_000_000_000 && dz * dz >= 0)
                by (nonlinear_arith)
                requires
                    -2 * MAX_COORD <= dz <= 2 * MAX_COORD,
                    MAX_COORD == 10_000_000_000_000,
            ;
        }
        let sq: u128 = (dx * dx + dy * dy + dz * dz) as u128;
        let r = isqrt_u128(sq);
        proof {
            lemma_isqrt_bounds(sq as nat);
            assert(isqrt(sq as nat) <= 4 * MAX_COORD) by (nonlinear_arith)
                requires
                    isqrt(sq as nat) * isqrt(sq as nat) <= sq,
                    sq <= 1_200_000_000_000_000_000_000_000_000,
                    MAX_COORD == 10_000_000_000_000,
            ;
        }
        r as i64
    }

    /// The x and y coordinates as a 2D point.
    pub fn xy(&self) -> (v: Vector2)
        ensures
            v == (Vector2 { x: self.x, y: self.y }),
    {
        Vector2::new(self.x, self.y)
    }

    /// The x and z coordinates as a 2D point.
    pub fn xz(&self) -> (v: Vector2)
        ensures
            v == (Vector2 { x: self.x, y: self.z }),
    {
        Vector2::new(self.x, self.z)
    }

    /// The y and z coordinates as a 2D point.
    pub fn yz(&self) -> (v: Vector2)
        ensures
            v == (Vector2 { x: self.y, y: self.z }),
    {
        Vector2::new(self.y, self.z)
    }

    /// A copy with the x coordinate incremented by `value`.
    pub fn add_x(&self, value: i64) -> (v: Self)
        requires
            i64::MIN <= self.x + value <= i64::MAX,
        ensures
            v == (Vector3 { x: (self.x + value) as i64, y: self.y, z: self.z }),
    {
        Self { x: self.x + value, y: self.y, z: self.z }
    }

    /// A copy with the y coordinate incremented by `value`.
    pub fn add_y(&self, value: i64) -> (v: Self)
        requires
            i64::MIN <= self.y + value <= i64::MAX,
        ensures
            v == (Vector3 { x: self.x, y: (self.y + value) as i64, z: self.z }),
    {
        Self { x: self.x, y: self.y + value, z: self.z }
    }

    /// A copy with the z coordinate incremented by `value`.
    pub fn add_z(&self, value: i64) -> (v: Self)
        requires
            i64::MIN <= self.z + value <= i64::MAX,
        ensures
            v == (Vector3 { x: self.x, y: self.y, z: (self.z + value) as i64 }),
    {
        Self { x: self.x, y: self.y, z: self.z + value }
    }
}

impl Default for Vector2 {
    /// The origin.
    fn default() -> (v: Self)
        ensures
            v == (Vector2 { x: 0, y: 0 }),
    {
        Self { x: 0, y: 0 }
    }
}

impl Default for Vector3 {
    /// The origin.
    fn default() -> (v: Self)
        ensures
            v == (Vector3 { x: 0, y: 0, z: 0 }),
    {
        Self { x: 0, y: 0, z: 0 }
    }
}

/// Subtraction clamped to the `i64` range, used when folding bounds that may
/// still hold their sentinel corners.
pub open spec fn sat_sub(a: int, b: int) -> int {
    if a - b > i64::MAX {
        i64::MAX as int
    } else if a - b < i64::MIN {
        i64::MIN as int
    } else {
        a - b
    }
}

fn sat_sub_i64(a: i64, b: i64) -> (r: i64)
    ensures
        r == sat_sub(a as int, b as int),
{
    let d: i128 = a as i128 - b as i128;
    if d > i64::MAX as i128 {
        i64::MAX
    } else if d < i64::MIN as i128 {
        i64::MIN
    } else {
        d as i64
    }
}

/// An axis-aligned box in 3D space given by its minimum and maximum corner.
///
/// An empty box is represented by sentinel corners (`min` at the far maximum,
/// `max` at the far minimum), so folding works by plain comparison.
#[derive(Debug, PartialEq, Eq, Structural, Clone, Copy)]
pub struct Bounds {
    /// Minimum corner of the box.
    pub min: Vector3,
    /// Maximum corner of the box.
    pub max: Vector3,
}

impl Bounds {
    /// A box from the origin to the given corner.
    pub fn new(x: i64, y: i64, z: i64) -> (b: Self)
        ensures
            b == (Bounds { min: Vector3 { x: 0, y: 0, z: 0 }, max: Vector3 { x, y, z } }),
    {
        Self { min: Vector3::new(0, 0, 0), max: Vector3::new(x, y, z) }
    }

    /// The empty box: sentinel corners that any folded point replaces.
    pub fn minmax() -> (b: Self)
        ensures
            b == (Bounds {
                min: Vector3 { x: i64::MAX, y: i64::MAX, z: i64::MAX },
                max: Vector3 { x: i64::MIN, y: i64::MIN, z: i64::MIN },
            }),
    {
        Self { min: Vector3::max(), max: Vector3::min() }
    }

    /// The box size on each axis.  Subtraction saturates so that a box still
    /// holding sentinel corners yields a sentinel-sized result instead of
    /// wrapping.
    pub fn size(&self) -> (v: Vector3)
        ensures
            v == (Vector3 {
                x: sat_sub(self.max.x as int, self.min.x as int) as i64,
                y: sat_sub(self.max.y as int, self.min.y as int) as i64,
                z: sat_sub(self.max.z as int, self.min.z as int) as i64,
            }),
    {
        Vector3::new(
            sat_sub_i64(self.max.x, self.min.x),
            sat_sub_i64(self.max.y, self.min.y),
            sat_sub_i64(self.max.z, self.min.z),
        )
    }
}

impl Default for Bounds {
    /// The zero box at the origin.
    fn default() -> (b: Self)
        ensures
            b == (Bounds { min: Vector3 { x: 0, y: 0, z: 0 }, max: Vector3 { x: 0, y: 0, z: 0 } }),
    {
        Self { min: Vector3::new(0, 0, 0), max: Vector3::new(0, 0, 0) }
    }
}

/// Whether measurements are in millimeters or inches.
#[derive(Debug, PartialEq, Eq, Structural, Clone, Copy, Hash)]
pub enum Units {
    /// Measurements are in millimeters.
    Metric,
    /// Measurements are in inches.
    Imperial,
}

/// The text a unit prints as in comments: `mm`, or a double quote for inches.
pub open spec fn units_label(u: Units) -> Seq<char> {
    match u {
        Units::Metric => seq!['m', 'm'],
        Units::Imperial => seq!['"'],
    }
}

impl Units {
    /// The label used for this unit in comments.
    pub fn label(&self) -> (s: &'static str)
        ensures
            s@ == units_label(*self),
    {
        proof {
            reveal_strlit("mm");
            reveal_strlit("\"");
            assert("mm"@ =~= seq!['m', 'm']);
            assert("\""@ =~= seq!['"']);
        }
        match self {
            Units::Metric => "mm",
            Units::Imperial => "\"",
        }
    }

    /// A metric measurement scaled by the millimeters-per-inch factor.
    pub fn mm_to_inch(mm: i64) -> (r: i64)
        requires
            -MAX_COORD <= mm <= MAX_COORD,
        ensures
            r == scale_254_10(mm as int),
    {
        let neg = mm < 0;
        let a: u64 = if neg {
            (-mm) as u64
        } else {
            mm as u64
        };
        let scaled = a * 254 / 10;
        if neg {
            -(scaled as i64)
        } else {
            scaled as i64
        }
    }

    /// A measurement given in millimeters expressed in this unit.
    pub fn measurement_from_mm(self, value: i64) -> (r: i64)
        requires
            -MAX_COORD <= value <= MAX_COORD,
        ensures
            r == measurement_spec(self, value as int),
    {
        match self {
            Self::Metric => value,
            Self::Imperial => Self::mm_to_inch(value),
        }
    }

    /// The default bottom depth for cuts, in this unit.
    pub fn default_z_end(self) -> (r: i64)
        ensures
            r == measurement_spec(self, 1000),
    {
        self.measurement_from_mm(1000)
    }

    /// The default maximum depth per pass, in this unit.
    pub fn default_z_max_step(self) -> (r: i64)
        ensures
            r == measurement_spec(self, 10000),
    {
        self.measurement_from_mm(10000)
    }
}

/// Multiplication by 25.4 at the fixed-point scale, truncated toward zero.
pub open spec fn scale_254_10(v: int) -> int {
    if v >= 0 {
        v * 254 / 10
    } else {
        -((-v) * 254 / 10)
    }
}

/// A millimeter measurement expressed in the given unit.
pub open spec fn measurement_spec(u: Units, v: int) -> int {
    match u {
        Units::Metric => v,
        Units::Imperial => scale_254_10(v),
    }
}

impl Default for Units {
    fn default() -> (u: Self)
        ensures
            u == Units::Metric,
    {
        Units::Metric
    }
}

/// A rotation direction, for spindles and arcs.
#[derive(Debug, PartialEq, Eq, Structural, Clone, Copy, Hash)]
pub enum Direction {
    /// Clockwise rotation.
    Clockwise,
    /// Counterclockwise rotation.
    Counterclockwise,
}

/// The text a direction prints as in comments.
pub open spec fn direction_label(d: Direction) -> Seq<char> {
    match d {
        Direction::Clockwise => "clockwise"@,
        Direction::Counterclockwise => "counterclockwise"@,
    }
}

impl Direction {
    /// The label used for this direction in comments.
    pub fn label(&self) -> (s: &'static str)
        ensures
            s@ == direction_label(*self),
    {
        match self {
            Direction::Clockwise => "clockwise",
            Direction::Counterclockwise => "counterclockwise",
        }
    }
}

impl Default for Direction {
    fn default() -> (d: Self)
        ensures
            d == Direction::Clockwise,
    {
        Direction::Clockwise
    }
}

/// One axis of the machine, chosen when cutting arcs.
#[derive(Debug, PartialEq, Eq, Structural, Clone, Copy)]
pub enum Axis {
    /// The X axis.
    X,
    /// The Y axis.
    Y,
    /// The Z axis; arcs around it are conventional top-down arcs.
    Z,
}

/// The text an axis prints as in comments.
pub open spec fn axis_label(a: Axis) -> Seq<char> {
    match a {
        Axis::X => "X"@,
        Axis::Y => "Y"@,
        Axis::Z => "Z"@,
    }
}

impl Axis {
    /// The label used for this axis in comments.
    pub fn label(&self) -> (s: &'static str)
        ensures
            s@ == axis_label(*self),
    {
        match self {
            Axis::X => "X",
            Axis::Y => "Y",
            Axis::Z => "Z",
        }
    }
}

/// How a declared path is offset by the tool radius, so the cut edge lands at
/// the intended boundary.
#[derive(Debug, PartialEq, Eq, Structural, Clone, Copy)]
pub enum ToolPathCompensation {
    /// The tool follows the declared path exactly.
    Off,
    /// The tool cuts inside the path, useful for pockets and holes.
    Inner,
    /// The tool cuts outside the path, useful for contours and frames.
    Outer,
}

impl Default for ToolPathCompensation {
    fn default() -> (c: Self)
        ensures
            c == ToolPathCompensation::Off,
    {
        ToolPathCompensation::Off
    }
}

} // verus!
