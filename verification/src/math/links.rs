//! The link between two points and their sum.
//!
//! To a point `p = (x, y)` belong two functions on the curve that are 0 there:
//! `xi(p)`, which is the abscissa minus `x`, and `eta(p)`, which is the ordinate
//! minus `y`. (To the point at infinity belong 1 and 0.) For two points and
//! their sum, the line through the two, times a combination of the functions of
//! the sum, is `xi` of the sum times a combination of products of the functions
//! of the two, and conversely. The coefficients are functions on the curve, too.
use crate::math::addition;
use crate::math::curve;
use crate::math::curve::Point;
use crate::math::fp;
use crate::math::function;
use crate::math::function::Function;
use crate::math::identities;
use vstd::arithmetic::mul::*;
use vstd::prelude::*;

verus! {

/// The abscissa minus that of the point.
pub open spec fn xi(p: Point) -> Function {
    match p {
        Point::Infinity => function::constant(1),
        Point::Affine { x, .. } => function::linear(-x, 1),
    }
}

/// The ordinate minus that of the point.
pub open spec fn eta(p: Point) -> Function {
    match p {
        Point::Infinity => function::constant(0),
        Point::Affine { y, .. } => function::slanted(-y, 0),
    }
}

/// The value of `xi` at abscissa `z`.
pub open spec fn xi_at(p: Point, z: int) -> int {
    match p {
        Point::Infinity => 1,
        Point::Affine { x, .. } => z - x,
    }
}

/// The value of `eta` at ordinate `t`.
pub open spec fn eta_at(p: Point, t: int) -> int {
    match p {
        Point::Infinity => 0,
        Point::Affine { y, .. } => t - y,
    }
}

/// The values of `xi` and `eta`.
pub proof fn lemma_generators(p: Point, z: int, t: int)
    ensures
        function::at(xi(p), z, t) == xi_at(p, z),
        function::at(eta(p), z, t) == eta_at(p, t),
{
    match p {
        Point::Infinity => {
            function::lemma_constant(1, z, t);
            function::lemma_constant(0, z, t);
        },
        Point::Affine { x, y } => {
            function::lemma_linear(-x, 1, z, t);
            function::lemma_slanted(-y, 0, z, t);
        },
    }
}

/// Four functions, one for each product of a function of one point and a
/// function of the other.
pub struct Four {
    pub f1: Function,
    pub f2: Function,
    pub f3: Function,
    pub f4: Function,
}

/// Their values.
pub open spec fn values(f: Four, z: int, t: int) -> (int, int, int, int) {
    (
        function::at(f.f1, z, t),
        function::at(f.f2, z, t),
        function::at(f.f3, z, t),
        function::at(f.f4, z, t),
    )
}

/// Four constants.
pub open spec fn constants(c1: int, c2: int, c3: int, c4: int) -> Four {
    Four {
        f1: function::constant(c1),
        f2: function::constant(c2),
        f3: function::constant(c3),
        f4: function::constant(c4),
    }
}

/// Their values.
proof fn lemma_constants(c1: int, c2: int, c3: int, c4: int, z: int, t: int)
    ensures
        values(constants(c1, c2, c3, c4), z, t) == (c1, c2, c3, c4),
{
    function::lemma_constant(c1, z, t);
    function::lemma_constant(c2, z, t);
    function::lemma_constant(c3, z, t);
    function::lemma_constant(c4, z, t);
}

/// The coefficients that link two points to their sum.
pub struct Link {
    /// The line through the points.
    pub line: Function,
    /// The sign of its norm.
    pub sign: int,
    /// The line times `xi` of the sum.
    pub a: Four,
    /// The line times `eta` of the sum.
    pub b: Four,
    /// The products of the functions of the points: coefficients of `xi`.
    pub s: Four,
    /// The products of the functions of the points: coefficients of `eta`.
    pub t: Four,
}

/// The link of two points with opposite ordinates.
pub open spec fn vertical_link(x: int, y: int, z: int) -> Link {
    let (p, q) = (Point::Affine { x, y }, Point::Affine { x, y: z });
    Link {
        line: xi(p),
        sign: 1,
        a: if y == 0 {
            let k = fp::inverse(3 * (x * x) - 3);
            Four {
                f1: function::linear(-(k * (2 * x)), -k),
                f2: function::constant(0),
                f3: function::constant(0),
                f4: function::constant(k),
            }
        } else {
            let k = fp::inverse(2 * y);
            constants(0, k, -k, 0)
        },
        b: constants(0, 0, 0, 0),
        s: Four { f1: xi(p), f2: eta(q), f3: eta(p), f4: function::quadratic(x * x - 3, x, 1) },
        t: constants(0, 0, 0, 0),
    }
}

/// The link of two points on a line that is not vertical.
pub open spec fn line_link(x1: int, y1: int, x2: int, y2: int) -> Link {
    let (p, q) = (Point::Affine { x: x1, y: y1 }, Point::Affine { x: x2, y: y2 });
    let l = curve::slope(x1, y1, x2, y2);
    Link {
        line: function::slanted(l * x1 - y1, -l),
        sign: -1,
        a: if x1 == x2 {
            let k = fp::inverse(2 * y1);
            Four {
                f1: function::linear(k * (2 * x1), k),
                f2: function::constant(0),
                f3: function::constant(0),
                f4: function::constant(-k),
            }
        } else {
            let k = fp::inverse(x2 - x1);
            constants(0, k, -k, 0)
        },
        b: if x1 == x2 {
            let k = fp::inverse(2 * y1);
            Four {
                f1: function::linear(1 - l * (k * (2 * x1)), -(l * k)),
                f2: function::constant(0),
                f3: function::constant(0),
                f4: function::constant(l * k),
            }
        } else {
            let k = fp::inverse(x2 - x1);
            constants(1, -(l * k), l * k, 0)
        },
        s: Four {
            f1: function::constant(l),
            f2: function::linear(l * l - x1, 1),
            f3: function::linear(l * l - x2, 1),
            f4: function::slanted(0 - y1 - l * x2 + l * l * l, l),
        },
        t: constants(1, l, l, l * l),
    }
}

/// The link of two points.
pub open spec fn link(p: Point, q: Point) -> Link {
    match (p, q) {
        (Point::Infinity, _) => Link {
            line: xi(q),
            sign: 1,
            a: constants(1, 0, 0, 0),
            b: constants(0, 1, 0, 0),
            s: constants(1, 0, 0, 0),
            t: constants(0, 1, 0, 0),
        },
        (_, Point::Infinity) => Link {
            line: xi(p),
            sign: 1,
            a: constants(1, 0, 0, 0),
            b: constants(0, 0, 1, 0),
            s: constants(1, 0, 0, 0),
            t: constants(0, 0, 1, 0),
        },
        (
            Point::Affine { x: x1, y: y1 },
            Point::Affine { x: x2, y: y2 },
        ) => if addition::opposite(x1, y1, x2, y2) {
            vertical_link(x1, y1, y2)
        } else {
            line_link(x1, y1, x2, y2)
        },
    }
}

/// The combination of the products of two pairs.
pub open spec fn combination(
    f: (int, int, int, int),
    xp: int,
    yp: int,
    xq: int,
    yq: int,
) -> int {
    f.0 * (xp * xq) + f.1 * (xp * yq) + f.2 * (yp * xq) + f.3 * (yp * yq)
}

/// The line times the functions of the sum.
pub open spec fn splits(
    m: int,
    v: int,
    e: int,
    xp: int,
    yp: int,
    xq: int,
    yq: int,
    a: (int, int, int, int),
    b: (int, int, int, int),
) -> bool {
    &&& fp::vanishes(m * v - v * combination(a, xp, yp, xq, yq))
    &&& fp::vanishes(m * e - v * combination(b, xp, yp, xq, yq))
}

/// `xi` of the sum times the products of the functions of the points.
pub open spec fn merges(
    m: int,
    v: int,
    e: int,
    xp: int,
    yp: int,
    xq: int,
    yq: int,
    s: (int, int, int, int),
    t: (int, int, int, int),
) -> bool {
    &&& fp::vanishes(v * (xp * xq) - m * (s.0 * v + t.0 * e))
    &&& fp::vanishes(v * (xp * yq) - m * (s.1 * v + t.1 * e))
    &&& fp::vanishes(v * (yp * xq) - m * (s.2 * v + t.2 * e))
    &&& fp::vanishes(v * (yp * yq) - m * (s.3 * v + t.3 * e))
}

/// What the link of two points promises at a point `(z, t)` of the curve.
pub open spec fn linked(p: Point, q: Point, z: int, t: int) -> bool {
    let k = link(p, q);
    let r = curve::plus(p, q);
    let m = function::at(k.line, z, t);
    let (v, e) = (xi_at(r, z), eta_at(r, t));
    let (xp, yp, xq, yq) = (xi_at(p, z), eta_at(p, t), xi_at(q, z), eta_at(q, t));
    &&& splits(m, v, e, xp, yp, xq, yq, values(k.a, z, t), values(k.b, z, t))
    &&& merges(m, v, e, xp, yp, xq, yq, values(k.s, z, t), values(k.t, z, t))
    &&& fp::vanishes(m * function::at(k.line, z, -t) - k.sign * (xp * xq * v))
    &&& k.sign == 1 || k.sign == -1
}

/// The curve has no singular point: where the cubic is 0, its derivative is
/// not.
proof fn lemma_smooth(x: int)
    requires
        fp::vanishes(curve::cubic(x)),
    ensures
        !fp::vanishes(3 * (x * x) - 3),
{
    if fp::vanishes(3 * (x * x) - 3) {
        fp::lemma_small(3);
        assert(3 * (x * x) - 3 == 3 * (x * x - 1));
        fp::lemma_cancel(3, x * x - 1);
        fp::lemma_roots(x, 1);
        // the cubic is b - 2 or b + 2 there
        fp::lemma_scale(x, x * x - 1);
        assert(x * (x * x - 1) == x * x * x - x) by (nonlinear_arith);
        fp::lemma_add(curve::cubic(x), x * (x * x - 1));
        assert(fp::vanishes(curve::b() - 2 * x));
        if fp::vanishes(x - 1) {
            fp::lemma_scale(2, x - 1);
            fp::lemma_add(curve::b() - 2 * x, 2 * (x - 1));
            fp::lemma_small(curve::b() - 2);
        } else {
            fp::lemma_scale(2, x + 1);
            fp::lemma_add(curve::b() - 2 * x, 2 * (x + 1));
            fp::lemma_small(curve::b() + 2);
        }
    }
}

/// A link to the point at infinity.
proof fn lemma_trivial_link(p: Point, q: Point, z: int, t: int)
    requires
        p is Infinity || q is Infinity,
    ensures
        linked(p, q, z, t),
{
    let k = link(p, q);
    let r = curve::plus(p, q);
    let (v, e) = (xi_at(r, z), eta_at(r, t));
    fp::lemma_zero();
    lemma_generators(r, z, t);
    lemma_generators(r, z, -t);
    lemma_constants(1, 0, 0, 0, z, t);
    lemma_constants(0, 1, 0, 0, z, t);
    lemma_constants(0, 0, 1, 0, z, t);
    lemma_mul_basics(v);
    lemma_mul_basics(e);
    assert(function::at(k.line, z, t) == v);
    assert(function::at(k.line, z, -t) == v);
    lemma_mul_is_commutative(v, e);
    let (xp, yp, xq, yq) = (xi_at(p, z), eta_at(p, t), xi_at(q, z), eta_at(q, t));
    lemma_mul_basics(xp * xq);
    lemma_mul_basics(xp * yq);
    lemma_mul_basics(yp * xq);
    lemma_mul_basics(yp * yq);
    lemma_mul_basics(xp * xq * v);
}

/// The link of opposite points.
proof fn lemma_vertical_link(x: int, y1: int, y2: int, z: int, t: int)
    requires
        curve::on_curve(Point::Affine { x, y: y1 }),
        curve::on_curve(Point::Affine { x, y: y2 }),
        addition::opposite(x, y1, x, y2),
        curve::satisfies(z, t),
    ensures
        linked(Point::Affine { x, y: y1 }, Point::Affine { x, y: y2 }, z, t),
{
    let (p, q) = (Point::Affine { x, y: y1 }, Point::Affine { x, y: y2 });
    let k = link(p, q);
    let (a, n, m) = (z - x, t - y1, t - y2);
    addition::lemma_opposite(x, y1, y2);
    fp::lemma_zero();
    lemma_generators(p, z, t);
    lemma_generators(p, z, -t);
    lemma_generators(q, z, t);
    lemma_constants(0, 0, 0, 0, z, t);
    function::lemma_quadratic(x * x - 3, x, 1, z, t);
    identities::lemma_vertical_fourth(x, y1, y2, z, t, curve::b());
    let w = z * z + x * z + x * x - 3;
    assert(values(k.s, z, t) == (a, m, n, w));
    assert(values(k.t, z, t) == (0int, 0int, 0int, 0int));
    assert(merges(a, 1, 0, a, n, a, m, values(k.s, z, t), values(k.t, z, t))) by {
        lemma_mul_is_commutative(n, a);
    }
    if y1 == 0 {
        let i = fp::inverse(3 * (x * x) - 3);
        fp::lemma_scale(1, y1 * y1 - curve::cubic(x));
        lemma_smooth(x);
        fp::lemma_inverse(3 * (x * x) - 3);
        function::lemma_linear(-(i * (2 * x)), -i, z, t);
        function::lemma_constant(0, z, t);
        function::lemma_constant(i, z, t);
        lemma_mul_is_commutative(i, 3 * (x * x) - 3);
        identities::lemma_branch_split(x, z, n * m, i);
        assert(-(i * (2 * x)) + (-i) * z == (-i) * (z + 2 * x)) by {
            lemma_mul_is_distributive_add(-i, z, 2 * x);
            lemma_mul_unary_negation(i, 2 * x);
        }
        lemma_mul_basics(a * m);
        lemma_mul_basics(n * a);
        assert(values(k.a, z, t) == ((-i) * (z + 2 * x), 0int, 0int, i));
    } else {
        let i = fp::inverse(2 * y1);
        addition::lemma_doubled(y1);
        fp::lemma_inverse(2 * y1);
        lemma_constants(0, i, -i, 0, z, t);
        lemma_mul_is_commutative(i, 2 * y1);
        identities::lemma_vertical_split(a, n, m, y1, y2, i);
        assert(values(k.a, z, t) == (0int, i, -i, 0int));
    }
    assert(function::at(k.line, z, t) == a);
    assert(function::at(k.line, z, -t) == a);
}

/// The link of points on a line that is not vertical.
proof fn lemma_line_link(x1: int, y1: int, x2: int, y2: int, z: int, t: int)
    requires
        curve::on_curve(Point::Affine { x: x1, y: y1 }),
        curve::on_curve(Point::Affine { x: x2, y: y2 }),
        !addition::opposite(x1, y1, x2, y2),
        curve::satisfies(z, t),
    ensures
        linked(Point::Affine { x: x1, y: y1 }, Point::Affine { x: x2, y: y2 }, z, t),
{
    let (p, q) = (Point::Affine { x: x1, y: y1 }, Point::Affine { x: x2, y: y2 });
    let k = link(p, q);
    let l = curve::slope(x1, y1, x2, y2);
    addition::lemma_slope(x1, y1, x2, y2);
    addition::lemma_third(l, x1, y1, x2);
    let r = curve::plus(p, q);
    let x3 = r->x;
    let y3 = r->y;
    let m = t - y1 - l * (z - x1);
    let (a, b, v) = (z - x1, z - x2, z - x3);
    let (pp, qq, e) = (t - y1, t - y2, t - y3);
    let c = curve::b();
    fp::lemma_zero();
    // the line and its norm
    identities::lemma_line_cubic(z, x1, y1, x2, y2, x3, l, c);
    identities::lemma_line_product(z, t, x1, y1, x2, x3, y3, l, c);
    identities::lemma_line_norm(z, t, x1, y1, x2, x3, l, c);
    identities::lemma_line_second_ordinate(z, t, x1, y1, x2, y2, l);
    assert(l * (z - x1) == l * z - l * x1) by {
        lemma_mul_is_distributive_sub(l, z, x1);
    }
    lemma_mul_unary_negation(l, z);
    function::lemma_slanted(l * x1 - y1, -l, z, t);
    function::lemma_slanted(l * x1 - y1, -l, z, -t);
    assert(function::at(k.line, z, t) == m);
    assert(function::at(k.line, z, -t) == 0 - t - y1 - l * (z - x1));
    lemma_mul_unary_negation(1, a * b * v);
    // merging
    function::lemma_constant(l, z, t);
    function::lemma_linear(l * l - x1, 1, z, t);
    function::lemma_linear(l * l - x2, 1, z, t);
    function::lemma_slanted(0 - y1 - l * x2 + l * l * l, l, z, t);
    lemma_constants(1, l, l, l * l, z, t);
    identities::lemma_line_weight(z, t, x1, y1, x2, l);
    assert(values(k.s, z, t) == (l, a + l * l, b + l * l, m + l * a + l * b + l * l * l));
    assert(values(k.t, z, t) == (1int, l, l, l * l));
    identities::lemma_line_first(a, b, v, e, m, l);
    identities::lemma_line_second(a, b, v, qq, e, m, l);
    identities::lemma_line_third(a, b, v, pp, e, m, l);
    identities::lemma_line_fourth(a, b, v, pp, qq, e, m, l);
    // splitting
    let (u1, u2, u3, u4) = (a * b, a * qq, pp * b, pp * qq);
    if x1 == x2 {
        let i = fp::inverse(2 * y1);
        let g = i * (z + 2 * x1);
        addition::lemma_doubled(y1);
        fp::lemma_inverse(2 * y1);
        lemma_mul_is_commutative(i, 2 * y1);
        function::lemma_linear(i * (2 * x1), i, z, t);
        function::lemma_linear(1 - l * (i * (2 * x1)), -(l * i), z, t);
        function::lemma_constant(0, z, t);
        function::lemma_constant(-i, z, t);
        function::lemma_constant(l * i, z, t);
        lemma_mul_is_distributive_add(i, z, 2 * x1);
        assert(values(k.a, z, t) == (g, 0int, 0int, -i));
        assert(1 - l * (i * (2 * x1)) + (-(l * i)) * z == 1 - l * g) by {
            lemma_mul_is_distributive_add(l, i * z, i * (2 * x1));
            lemma_mul_is_associative(l, i, z);
            lemma_mul_unary_negation(l * i, z);
        }
        assert(values(k.b, z, t) == (1 - l * g, 0int, 0int, l * i));
        lemma_mul_is_commutative(2 * y1, l);
        fp::lemma_shift(3 * (x1 * x1) - 3, 2 * y1 * l);
        identities::lemma_tangent_line(x1, y1, z, t, l, c);
        identities::lemma_tangent_split(a, v, pp, m, i, 2 * y1, z + 2 * x1);
        identities::lemma_line_split(v, e, m, l, u1, u2, u3, u4, g, 0, 0, -i);
        lemma_mul_basics(l);
        lemma_mul_unary_negation(l, i);
    } else {
        let i = fp::inverse(x2 - x1);
        if fp::vanishes(x2 - x1) {
            fp::lemma_unique(x2, x1);
        }
        fp::lemma_inverse(x2 - x1);
        lemma_mul_is_commutative(i, x2 - x1);
        lemma_constants(0, i, -i, 0, z, t);
        lemma_constants(1, -(l * i), l * i, 0, z, t);
        identities::lemma_chord_split(a, b, v, pp, qq, m, l, i);
        identities::lemma_line_split(v, e, m, l, u1, u2, u3, u4, 0, i, -i, 0);
        lemma_mul_basics(l);
        lemma_mul_unary_negation(l, i);
        assert(values(k.a, z, t) == (0int, i, -i, 0int));
        assert(values(k.b, z, t) == (1int, -(l * i), l * i, 0int));
    }
}

/// Points of the curve are linked to their sum.
pub proof fn lemma_linked(p: Point, q: Point, z: int, t: int)
    requires
        curve::on_curve(p),
        curve::on_curve(q),
        curve::satisfies(z, t),
    ensures
        linked(p, q, z, t),
{
    match (p, q) {
        (Point::Affine { x: x1, y: y1 }, Point::Affine { x: x2, y: y2 }) => {
            if addition::opposite(x1, y1, x2, y2) {
                lemma_vertical_link(x1, y1, y2, z, t);
            } else {
                lemma_line_link(x1, y1, x2, y2, z, t);
            }
        },
        _ => {
            lemma_trivial_link(p, q, z, t);
        },
    }
}

/// The coefficients of a link are small.
pub open spec fn four_within(f: Four, n: nat) -> bool {
    function::within(f.f1, n) && function::within(f.f2, n) && function::within(f.f3, n)
        && function::within(f.f4, n)
}

/// The sizes of the coefficients of a link.
pub proof fn lemma_link_within(p: Point, q: Point)
    ensures
        four_within(link(p, q).a, 2),
        four_within(link(p, q).b, 2),
        four_within(link(p, q).s, 3),
        four_within(link(p, q).t, 3),
{
}

} // verus!
