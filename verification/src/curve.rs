use crate::field::FieldElement;
use snarkvm_curves::edwards_bls12::{EdwardsAffine, Fq};
use snarkvm_curves::{AffineCurve, ProjectiveCurve};
use snarkvm_fields::{PrimeField, Zero};
use snarkvm_utilities::BigInteger256;
use vstd::prelude::*;

verus! {

/// A point in affine coordinates, each coordinate an element of the base
/// field.
#[derive(Clone, Copy, Debug, PartialEq, Eq)]
pub struct Point {
    pub x: FieldElement,
    pub y: FieldElement,
}

/// Whether the coordinates satisfy the curve's equation, as the curve
/// arithmetic decides it.
pub uninterp spec fn on_curve(p: Point) -> bool;

/// The sum of two points under the curve's addition law.
pub uninterp spec fn curve_add(a: Point, b: Point) -> Point;

/// Twice a point under the curve's addition law.
pub uninterp spec fn curve_double(a: Point) -> Point;

/// The inverse of a point under the curve's addition law.
pub uninterp spec fn curve_neg(a: Point) -> Point;

/// The cofactor-fold multiple of a point.
pub uninterp spec fn curve_clear_cofactor(a: Point) -> Point;

/// The point that a string of bytes decodes to, if it decodes to one.
pub uninterp spec fn curve_decode(bytes: Seq<u8>) -> Option<Point>;

impl Point {
    /// Both coordinates are reduced and satisfy the curve's equation.
    pub open spec fn wf(self) -> bool {
        &&& self.x.is_canonical()
        &&& self.y.is_canonical()
        &&& on_curve(self)
    }

    /// The coordinates of the neutral element, (0, 1).
    pub open spec fn is_identity(self) -> bool {
        self.x.value() == 0 && self.y.value() == 1
    }

    /// The point of the given coordinates, if they are reduced and on the curve.
    pub fn from_coordinates(x: [u64; 4], y: [u64; 4]) -> (r: Option<Point>)
        ensures
            r.is_some() <==> (Point { x: FieldElement { limbs: x }, y: FieldElement { limbs: y } }).wf(),
            r.is_some() ==> r.unwrap() == (Point {
                x: FieldElement { limbs: x },
                y: FieldElement { limbs: y },
            }),
    {
        let p = Point { x: FieldElement { limbs: x }, y: FieldElement { limbs: y } };
        if p.x.check_canonical() && p.y.check_canonical() {
            if is_on_curve(&p) {
                Some(p)
            } else {
                None
            }
        } else {
            None
        }
    }

    /// The x-coordinate, the compressed form of a point.
    pub fn to_x_coordinate(&self) -> (x: FieldElement)
        ensures
            x == self.x,
    {
        self.x
    }

    /// Whether two points are the same.
    pub fn same(&self, other: &Point) -> (eq: bool)
        ensures
            eq == (*self == *other),
    {
        self.x.same(&other.x) && self.y.same(&other.y)
    }

    /// Decides `is_identity`.
    pub fn check_identity(&self) -> (b: bool)
        ensures
            b == self.is_identity(),
    {
        self.x.limbs[0] == 0 && self.x.limbs[1] == 0 && self.x.limbs[2] == 0 && self.x.limbs[3]
            == 0 && self.y.limbs[0] == 1 && self.y.limbs[1] == 0 && self.y.limbs[2] == 0
            && self.y.limbs[3] == 0
    }
}

/// `AffineCurve::is_on_curve` of snarkvm-curves, on the point that
/// `AffineCurve::from_coordinates_unchecked` makes of the two coordinates.
/// What it answers is given the name `on_curve`; nothing else is claimed of
/// it.
#[verifier::external_body]
pub(crate) fn is_on_curve(p: &Point) -> (b: bool)
    requires
        p.x.is_canonical(),
        p.y.is_canonical(),
    ensures
        b == on_curve(*p),
{
    let x = Fq::from_bigint(BigInteger256(p.x.limbs)).unwrap();
    let y = Fq::from_bigint(BigInteger256(p.y.limbs)).unwrap();
    EdwardsAffine::from_coordinates_unchecked((x, y)).is_on_curve()
}

/// The neutral element of the curve's addition law, (0, 1).
pub open spec fn identity_point() -> Point {
    Point {
        x: FieldElement { limbs: [0u64, 0u64, 0u64, 0u64] },
        y: FieldElement { limbs: [1u64, 0u64, 0u64, 0u64] },
    }
}

/// `Zero::zero` as snarkvm-curves implements it for affine points. Claimed
/// of it: that it is the point (0, 1), as its source writes it, and that this
/// point satisfies the curve's equation.
#[verifier::external_body]
pub(crate) fn point_identity() -> (r: Point)
    ensures
        r == identity_point(),
        r.wf(),
{
    let r = EdwardsAffine::zero();
    Point { x: FieldElement { limbs: r.x.to_bigint().0 }, y: FieldElement { limbs: r.y.to_bigint().0 } }
}

/// `ProjectiveCurve::add_assign_mixed` of snarkvm-curves, on the first point
/// taken to projective coordinates and the second point, and
/// `ProjectiveCurve::to_affine` of the sum. The sum is given the name
/// `curve_add`. Claimed beside the name: that the sum of two points of the
/// curve is a point of the curve, the addition law being complete on this
/// curve, and that `PrimeField::to_bigint` hands its coordinates back
/// reduced.
#[verifier::external_body]
pub(crate) fn point_add(a: &Point, b: &Point) -> (r: Point)
    requires
        a.wf(),
        b.wf(),
    ensures
        r == curve_add(*a, *b),
        r.wf(),
{
    let ax = Fq::from_bigint(BigInteger256(a.x.limbs)).unwrap();
    let ay = Fq::from_bigint(BigInteger256(a.y.limbs)).unwrap();
    let bx = Fq::from_bigint(BigInteger256(b.x.limbs)).unwrap();
    let by = Fq::from_bigint(BigInteger256(b.y.limbs)).unwrap();
    let mut sum = EdwardsAffine::from_coordinates_unchecked((ax, ay)).to_projective();
    sum.add_assign_mixed(&EdwardsAffine::from_coordinates_unchecked((bx, by)));
    let r = sum.to_affine();
    Point { x: FieldElement { limbs: r.x.to_bigint().0 }, y: FieldElement { limbs: r.y.to_bigint().0 } }
}

/// `ProjectiveCurve::double` of snarkvm-curves, on a point taken to
/// projective coordinates, and `ProjectiveCurve::to_affine` of the result,
/// which is given the name `curve_double`. Claimed beside the name: that
/// twice a point of the curve is a point of the curve, and that its
/// coordinates come back reduced.
#[verifier::external_body]
pub(crate) fn point_double(a: &Point) -> (r: Point)
    requires
        a.wf(),
    ensures
        r == curve_double(*a),
        r.wf(),
{
    let x = Fq::from_bigint(BigInteger256(a.x.limbs)).unwrap();
    let y = Fq::from_bigint(BigInteger256(a.y.limbs)).unwrap();
    let r = EdwardsAffine::from_coordinates_unchecked((x, y)).to_projective().double().to_affine();
    Point { x: FieldElement { limbs: r.x.to_bigint().0 }, y: FieldElement { limbs: r.y.to_bigint().0 } }
}

/// `Neg::neg` as snarkvm-curves implements it for affine points. The result
/// is given the name `curve_neg`. Claimed beside the name: that the inverse
/// of a point of the curve is a point of the curve, and that its coordinates
/// come back reduced.
#[verifier::external_body]
pub(crate) fn point_neg(a: &Point) -> (r: Point)
    requires
        a.wf(),
    ensures
        r == curve_neg(*a),
        r.wf(),
{
    let x = Fq::from_bigint(BigInteger256(a.x.limbs)).unwrap();
    let y = Fq::from_bigint(BigInteger256(a.y.limbs)).unwrap();
    let r = -EdwardsAffine::from_coordinates_unchecked((x, y));
    Point { x: FieldElement { limbs: r.x.to_bigint().0 }, y: FieldElement { limbs: r.y.to_bigint().0 } }
}

/// `AffineCurve::mul_by_cofactor` of snarkvm-curves. The result is given the
/// name `curve_clear_cofactor`. Claimed beside the name: that a multiple of a
/// point of the curve is a point of the curve, and that its coordinates come
/// back reduced.
#[verifier::external_body]
pub(crate) fn clear_cofactor(a: &Point) -> (r: Point)
    requires
        a.wf(),
    ensures
        r == curve_clear_cofactor(*a),
        r.wf(),
{
    let x = Fq::from_bigint(BigInteger256(a.x.limbs)).unwrap();
    let y = Fq::from_bigint(BigInteger256(a.y.limbs)).unwrap();
    let r = EdwardsAffine::from_coordinates_unchecked((x, y)).mul_by_cofactor();
    Point { x: FieldElement { limbs: r.x.to_bigint().0 }, y: FieldElement { limbs: r.y.to_bigint().0 } }
}

/// `AffineCurve::from_random_bytes` of snarkvm-curves. The result is given
/// the name `curve_decode`. Claimed beside the name: that a point which comes
/// back satisfies the curve's equation, as it is the neutral element or was
/// found by solving the equation for the decoded x-coordinate, and that its
/// coordinates come back reduced.
#[verifier::external_body]
pub(crate) fn point_decode(bytes: &[u8]) -> (r: Option<Point>)
    ensures
        r == curve_decode(bytes@),
        r.is_some() ==> r.unwrap().wf(),
{
    match EdwardsAffine::from_random_bytes(bytes) {
        Some(p) => Some(Point {
            x: FieldElement { limbs: p.x.to_bigint().0 },
            y: FieldElement { limbs: p.y.to_bigint().0 },
        }),
        None => None,
    }
}

} // verus!
