//! The addition of points is associative.
//!
//! The two ways of adding three points give two ways of splitting and merging
//! the functions that belong to the points. Together they write the functions
//! of one sum, times a product of lines, as combinations of the functions of
//! the other sum, times another product of lines. Comparing norms and degrees
//! shows that the sums are equal.
use crate::math::addition;
use crate::math::curve;
use crate::math::curve::Point;
use crate::math::degrees;
use crate::math::fp;
use crate::math::function;
use crate::math::function::Function;
use crate::math::identities;
use crate::math::links;
use crate::math::links::Four;
use crate::math::links::Link;
use crate::math::polynomial;
use crate::math::samples;
use vstd::arithmetic::mul::*;
use vstd::prelude::*;

verus! {

/// `a b + c d`.
spec fn dot2(a: Function, b: Function, c: Function, d: Function) -> Function {
    function::added(function::multiplied(a, b), function::multiplied(c, d))
}

/// The sum of four products.
spec fn dot4(f: Four, g: Four) -> Function {
    function::added(dot2(f.f1, g.f1, f.f2, g.f2), dot2(f.f3, g.f3, f.f4, g.f4))
}

proof fn lemma_dot2(a: Function, b: Function, c: Function, d: Function, z: int, t: int)
    requires
        curve::satisfies(z, t),
    ensures
        fp::vanishes(
            function::at(dot2(a, b, c, d), z, t) - (function::at(a, z, t) * function::at(b, z, t)
                + function::at(c, z, t) * function::at(d, z, t)),
        ),
{
    function::lemma_multiplied(a, b, z, t);
    function::lemma_multiplied(c, d, z, t);
    function::lemma_added(function::multiplied(a, b), function::multiplied(c, d), z, t);
    fp::lemma_add(
        function::at(function::multiplied(a, b), z, t) - function::at(a, z, t) * function::at(
            b,
            z,
            t,
        ),
        function::at(function::multiplied(c, d), z, t) - function::at(c, z, t) * function::at(
            d,
            z,
            t,
        ),
    );
}

proof fn lemma_dot4(f: Four, g: Four, z: int, t: int)
    requires
        curve::satisfies(z, t),
    ensures
        ({
            let (a, b) = (links::values(f, z, t), links::values(g, z, t));
            fp::vanishes(
                function::at(dot4(f, g), z, t) - (a.0 * b.0 + a.1 * b.1 + a.2 * b.2 + a.3 * b.3),
            )
        }),
{
    let (a, b) = (links::values(f, z, t), links::values(g, z, t));
    let (h, k) = (dot2(f.f1, g.f1, f.f2, g.f2), dot2(f.f3, g.f3, f.f4, g.f4));
    lemma_dot2(f.f1, g.f1, f.f2, g.f2, z, t);
    lemma_dot2(f.f3, g.f3, f.f4, g.f4, z, t);
    function::lemma_added(h, k, z, t);
    fp::lemma_add(
        function::at(h, z, t) - (a.0 * b.0 + a.1 * b.1),
        function::at(k, z, t) - (a.2 * b.2 + a.3 * b.3),
    );
}

proof fn lemma_within_dot2(
    a: Function,
    b: Function,
    c: Function,
    d: Function,
    m: nat,
    n: nat,
)
    requires
        function::within(a, m),
        function::within(b, n),
        function::within(c, m),
        function::within(d, n),
        m > 0,
        n > 0,
    ensures
        function::within(dot2(a, b, c, d), m + n + 2),
{
    function::lemma_within_multiplied(a, b, m, n);
    function::lemma_within_multiplied(c, d, m, n);
    function::lemma_within_added(function::multiplied(a, b), function::multiplied(c, d), m + n + 2);
}

proof fn lemma_within_dot4(f: Four, g: Four, m: nat, n: nat)
    requires
        links::four_within(f, m),
        links::four_within(g, n),
        m > 0,
        n > 0,
    ensures
        function::within(dot4(f, g), m + n + 2),
{
    lemma_within_dot2(f.f1, g.f1, f.f2, g.f2, m, n);
    lemma_within_dot2(f.f3, g.f3, f.f4, g.f4, m, n);
    function::lemma_within_added(
        dot2(f.f1, g.f1, f.f2, g.f2),
        dot2(f.f3, g.f3, f.f4, g.f4),
        m + n + 2,
    );
}

/// The products of the functions of two points that a combination of the
/// functions of their sum splits into.
spec fn split(k: Link, r1: Function, r2: Function) -> Four {
    Four {
        f1: dot2(r1, k.a.f1, r2, k.b.f1),
        f2: dot2(r1, k.a.f2, r2, k.b.f2),
        f3: dot2(r1, k.a.f3, r2, k.b.f3),
        f4: dot2(r1, k.a.f4, r2, k.b.f4),
    }
}

/// The combination of the functions of a sum that products of the functions of
/// the points merge into.
spec fn merge(k: Link, m: Four) -> (Function, Function) {
    (dot4(m, k.s), dot4(m, k.t))
}

proof fn lemma_split(p: Point, q: Point, r1: Function, r2: Function, z: int, t: int)
    requires
        curve::on_curve(p),
        curve::on_curve(q),
        curve::satisfies(z, t),
    ensures
        ({
            let k = links::link(p, q);
            let r = curve::plus(p, q);
            let (v, e) = (links::xi_at(r, z), links::eta_at(r, t));
            fp::vanishes(
                function::at(k.line, z, t) * (function::at(r1, z, t) * v + function::at(r2, z, t)
                    * e) - v * links::combination(
                    links::values(split(k, r1, r2), z, t),
                    links::xi_at(p, z),
                    links::eta_at(p, t),
                    links::xi_at(q, z),
                    links::eta_at(q, t),
                ),
            )
        }),
{
    let k = links::link(p, q);
    let r = curve::plus(p, q);
    let (v, e) = (links::xi_at(r, z), links::eta_at(r, t));
    let (xp, yp) = (links::xi_at(p, z), links::eta_at(p, t));
    let (xq, yq) = (links::xi_at(q, z), links::eta_at(q, t));
    let (a, b) = (links::values(k.a, z, t), links::values(k.b, z, t));
    let m = links::values(split(k, r1, r2), z, t);
    links::lemma_linked(p, q, z, t);
    lemma_dot2(r1, k.a.f1, r2, k.b.f1, z, t);
    lemma_dot2(r1, k.a.f2, r2, k.b.f2, z, t);
    lemma_dot2(r1, k.a.f3, r2, k.b.f3, z, t);
    lemma_dot2(r1, k.a.f4, r2, k.b.f4, z, t);
    identities::lemma_split(
        function::at(k.line, z, t),
        v,
        e,
        function::at(r1, z, t),
        function::at(r2, z, t),
        xp * xq,
        xp * yq,
        yp * xq,
        yp * yq,
        a.0,
        a.1,
        a.2,
        a.3,
        b.0,
        b.1,
        b.2,
        b.3,
        m.0,
        m.1,
        m.2,
        m.3,
    );
}

proof fn lemma_merge(p: Point, q: Point, f: Four, z: int, t: int)
    requires
        curve::on_curve(p),
        curve::on_curve(q),
        curve::satisfies(z, t),
    ensures
        ({
            let k = links::link(p, q);
            let r = curve::plus(p, q);
            let (v, e) = (links::xi_at(r, z), links::eta_at(r, t));
            let c = merge(k, f);
            fp::vanishes(
                v * links::combination(
                    links::values(f, z, t),
                    links::xi_at(p, z),
                    links::eta_at(p, t),
                    links::xi_at(q, z),
                    links::eta_at(q, t),
                ) - function::at(k.line, z, t) * (function::at(c.0, z, t) * v + function::at(
                    c.1,
                    z,
                    t,
                ) * e),
            )
        }),
{
    let k = links::link(p, q);
    let r = curve::plus(p, q);
    let (v, e) = (links::xi_at(r, z), links::eta_at(r, t));
    let (xp, yp) = (links::xi_at(p, z), links::eta_at(p, t));
    let (xq, yq) = (links::xi_at(q, z), links::eta_at(q, t));
    let (s, u) = (links::values(k.s, z, t), links::values(k.t, z, t));
    let m = links::values(f, z, t);
    let c = merge(k, f);
    links::lemma_linked(p, q, z, t);
    lemma_dot4(f, k.s, z, t);
    lemma_dot4(f, k.t, z, t);
    identities::lemma_merge(
        function::at(k.line, z, t),
        v,
        e,
        function::at(c.0, z, t),
        function::at(c.1, z, t),
        xp * xq,
        xp * yq,
        yp * xq,
        yp * yq,
        s.0,
        s.1,
        s.2,
        s.3,
        u.0,
        u.1,
        u.2,
        u.3,
        m.0,
        m.1,
        m.2,
        m.3,
    );
}

/// The coefficients in terms of the functions of `p + (q + r)`, from those in
/// terms of the functions of `(p + q) + r`.
#[verifier::opaque]
spec fn transfer(p: Point, q: Point, r: Point, r1: Function, r2: Function) -> (
    Function,
    Function,
) {
    let m = split(links::link(curve::plus(p, q), r), r1, r2);
    let n1 = split(links::link(p, q), m.f1, m.f3);
    let n2 = split(links::link(p, q), m.f2, m.f4);
    let k = links::link(q, r);
    let c = merge(k, Four { f1: n1.f1, f2: n2.f1, f3: n1.f2, f4: n2.f2 });
    let d = merge(k, Four { f1: n1.f3, f2: n2.f3, f3: n1.f4, f4: n2.f4 });
    merge(
        links::link(p, curve::plus(q, r)),
        Four { f1: c.0, f2: c.1, f3: d.0, f4: d.1 },
    )
}

/// The factor of the functions of `(p + q) + r`.
#[verifier::opaque]
spec fn left_factor(p: Point, q: Point, r: Point, z: int, t: int) -> int {
    let (a, b) = (curve::plus(p, q), curve::plus(q, r));
    links::xi_at(b, z) * links::xi_at(curve::plus(p, b), z) * (function::at(
        links::link(p, q).line,
        z,
        t,
    ) * function::at(links::link(a, r).line, z, t))
}

/// The factor of the functions of `p + (q + r)`.
#[verifier::opaque]
spec fn right_factor(p: Point, q: Point, r: Point, z: int, t: int) -> int {
    let (a, b) = (curve::plus(p, q), curve::plus(q, r));
    links::xi_at(curve::plus(a, r), z) * links::xi_at(a, z) * (function::at(
        links::link(q, r).line,
        z,
        t,
    ) * function::at(links::link(p, b).line, z, t))
}

/// A combination of the functions of one sum is one of the functions of the
/// other.
proof fn lemma_transfer(
    p: Point,
    q: Point,
    r: Point,
    r1: Function,
    r2: Function,
    z: int,
    t: int,
)
    requires
        curve::on_curve(p),
        curve::on_curve(q),
        curve::on_curve(r),
        curve::satisfies(z, t),
    ensures
        ({
            let s = curve::plus(curve::plus(p, q), r);
            let u = curve::plus(p, curve::plus(q, r));
            let g = transfer(p, q, r, r1, r2);
            fp::vanishes(
                left_factor(p, q, r, z, t) * (function::at(r1, z, t) * links::xi_at(s, z)
                    + function::at(r2, z, t) * links::eta_at(s, t)) - right_factor(p, q, r, z, t)
                    * (function::at(g.0, z, t) * links::xi_at(u, z) + function::at(g.1, z, t)
                    * links::eta_at(u, t)),
            )
        }),
{
    reveal(transfer);
    reveal(left_factor);
    reveal(right_factor);
    let (a, b) = (curve::plus(p, q), curve::plus(q, r));
    let (s, u) = (curve::plus(a, r), curve::plus(p, b));
    addition::lemma_closed(p, q);
    addition::lemma_closed(q, r);
    let m = split(links::link(a, r), r1, r2);
    let n1 = split(links::link(p, q), m.f1, m.f3);
    let n2 = split(links::link(p, q), m.f2, m.f4);
    let k = links::link(q, r);
    let f1 = Four { f1: n1.f1, f2: n2.f1, f3: n1.f2, f4: n2.f2 };
    let f2 = Four { f1: n1.f3, f2: n2.f3, f3: n1.f4, f4: n2.f4 };
    let c = merge(k, f1);
    let d = merge(k, f2);
    let f3 = Four { f1: c.0, f2: c.1, f3: d.0, f4: d.1 };
    let g = transfer(p, q, r, r1, r2);
    let (xa, ya) = (links::xi_at(a, z), links::eta_at(a, t));
    let (xb, yb) = (links::xi_at(b, z), links::eta_at(b, t));
    let (xp, yp) = (links::xi_at(p, z), links::eta_at(p, t));
    let (xq, yq) = (links::xi_at(q, z), links::eta_at(q, t));
    let (xr, yr) = (links::xi_at(r, z), links::eta_at(r, t));
    lemma_split(a, r, r1, r2, z, t);
    lemma_split(p, q, m.f1, m.f3, z, t);
    lemma_split(p, q, m.f2, m.f4, z, t);
    lemma_merge(q, r, f1, z, t);
    lemma_merge(q, r, f2, z, t);
    lemma_merge(p, b, f3, z, t);
    let mv = links::values(m, z, t);
    let (v1, v2) = (links::values(n1, z, t), links::values(n2, z, t));
    identities::lemma_regroup(xa, ya, xr, yr, mv.0, mv.1, mv.2, mv.3);
    identities::lemma_rotate(
        xp,
        yp,
        xq,
        yq,
        xr,
        yr,
        v1.0,
        v1.1,
        v1.2,
        v1.3,
        v2.0,
        v2.1,
        v2.2,
        v2.3,
    );
    let fv = links::values(f3, z, t);
    identities::lemma_regroup_first(xp, yp, xb, yb, fv.0, fv.1, fv.2, fv.3);
    fp::lemma_zero();
    identities::lemma_chain(
        function::at(links::link(p, q).line, z, t),
        function::at(links::link(a, r).line, z, t),
        function::at(links::link(q, r).line, z, t),
        function::at(links::link(p, b).line, z, t),
        xa,
        xb,
        links::xi_at(s, z),
        links::xi_at(u, z),
        function::at(r1, z, t) * links::xi_at(s, z) + function::at(r2, z, t) * links::eta_at(s, t),
        mv.0 * xa + mv.2 * ya,
        mv.1 * xa + mv.3 * ya,
        links::combination(v1, xp, yp, xq, yq),
        links::combination(v2, xp, yp, xq, yq),
        links::combination(links::values(f1, z, t), xq, yq, xr, yr),
        links::combination(links::values(f2, z, t), xq, yq, xr, yr),
        fv.0 * xb + fv.1 * yb,
        fv.2 * xb + fv.3 * yb,
        function::at(g.0, z, t) * links::xi_at(u, z) + function::at(g.1, z, t) * links::eta_at(
            u,
            t,
        ),
        xr,
        yr,
        xp,
        yp,
    );
}

proof fn lemma_within_split(p: Point, q: Point, r1: Function, r2: Function, n: nat)
    requires
        function::within(r1, n),
        function::within(r2, n),
        n > 0,
    ensures
        links::four_within(split(links::link(p, q), r1, r2), n + 4),
{
    let k = links::link(p, q);
    links::lemma_link_within(p, q);
    lemma_within_dot2(r1, k.a.f1, r2, k.b.f1, n, 2);
    lemma_within_dot2(r1, k.a.f2, r2, k.b.f2, n, 2);
    lemma_within_dot2(r1, k.a.f3, r2, k.b.f3, n, 2);
    lemma_within_dot2(r1, k.a.f4, r2, k.b.f4, n, 2);
}

proof fn lemma_within_merge(p: Point, q: Point, f: Four, n: nat)
    requires
        links::four_within(f, n),
        n > 0,
    ensures
        function::within(merge(links::link(p, q), f).0, n + 5),
        function::within(merge(links::link(p, q), f).1, n + 5),
{
    let k = links::link(p, q);
    links::lemma_link_within(p, q);
    lemma_within_dot4(f, k.s, n, 3);
    lemma_within_dot4(f, k.t, n, 3);
}

/// A transfer keeps functions small.
proof fn lemma_within_transfer(p: Point, q: Point, r: Point, r1: Function, r2: Function)
    requires
        function::within(r1, 1),
        function::within(r2, 1),
    ensures
        function::within(transfer(p, q, r, r1, r2).0, 19),
        function::within(transfer(p, q, r, r1, r2).1, 19),
{
    reveal(transfer);
    let (a, b) = (curve::plus(p, q), curve::plus(q, r));
    let m = split(links::link(a, r), r1, r2);
    let n1 = split(links::link(p, q), m.f1, m.f3);
    let n2 = split(links::link(p, q), m.f2, m.f4);
    let k = links::link(q, r);
    let f1 = Four { f1: n1.f1, f2: n2.f1, f3: n1.f2, f4: n2.f2 };
    let f2 = Four { f1: n1.f3, f2: n2.f3, f3: n1.f4, f4: n2.f4 };
    let c = merge(k, f1);
    let d = merge(k, f2);
    lemma_within_split(a, r, r1, r2, 1);
    lemma_within_split(p, q, m.f1, m.f3, 5);
    lemma_within_split(p, q, m.f2, m.f4, 5);
    lemma_within_merge(q, r, f1, 9);
    lemma_within_merge(q, r, f2, 9);
    lemma_within_merge(p, b, Four { f1: c.0, f2: c.1, f3: d.0, f4: d.1 }, 14);
}

/// The combination of the functions of `p + (q + r)` that corresponds to a
/// combination of those of `(p + q) + r` with constant coefficients.
spec fn image(p: Point, q: Point, r: Point, c1: int, c2: int) -> Function {
    let g = transfer(p, q, r, function::constant(c1), function::constant(c2));
    let u = curve::plus(p, curve::plus(q, r));
    dot2(g.0, links::xi(u), g.1, links::eta(u))
}

/// Replaces a factor by a congruent one.
proof fn lemma_replace(lf: int, h: int, rf: int, w: int, v: int)
    requires
        fp::vanishes(lf * h - rf * w),
        fp::vanishes(v - w),
    ensures
        fp::vanishes(lf * h - rf * v),
{
    fp::lemma_shift(v, w);
    fp::lemma_scale(rf, w - v);
    lemma_mul_is_distributive_sub(rf, w, v);
    fp::lemma_trans(lf * h, rf * w, rf * v);
}

/// The value of an image, in terms of the functions of `u = p + (q + r)`.
proof fn lemma_image_value(p: Point, q: Point, r: Point, c1: int, c2: int, u: Point, z: int, t: int)
    requires
        u == curve::plus(p, curve::plus(q, r)),
        curve::satisfies(z, t),
    ensures
        ({
            let g = transfer(p, q, r, function::constant(c1), function::constant(c2));
            fp::vanishes(
                function::at(image(p, q, r, c1, c2), z, t) - (function::at(g.0, z, t)
                    * links::xi_at(u, z) + function::at(g.1, z, t) * links::eta_at(u, t)),
            )
        }),
{
    let g = transfer(p, q, r, function::constant(c1), function::constant(c2));
    links::lemma_generators(u, z, t);
    lemma_dot2(g.0, links::xi(u), g.1, links::eta(u), z, t);
}

/// The image at a point of the curve.
proof fn lemma_image(p: Point, q: Point, r: Point, c1: int, c2: int, z: int, t: int)
    requires
        curve::on_curve(p),
        curve::on_curve(q),
        curve::on_curve(r),
        curve::satisfies(z, t),
    ensures
        ({
            let s = curve::plus(curve::plus(p, q), r);
            fp::vanishes(
                left_factor(p, q, r, z, t) * (c1 * links::xi_at(s, z) + c2 * links::eta_at(s, t))
                    - right_factor(p, q, r, z, t) * function::at(image(p, q, r, c1, c2), z, t),
            )
        }),
{
    let (r1, r2) = (function::constant(c1), function::constant(c2));
    let g = transfer(p, q, r, r1, r2);
    let s = curve::plus(curve::plus(p, q), r);
    let u = curve::plus(p, curve::plus(q, r));
    function::lemma_constant(c1, z, t);
    function::lemma_constant(c2, z, t);
    lemma_transfer(p, q, r, r1, r2, z, t);
    lemma_image_value(p, q, r, c1, c2, u, z, t);
    lemma_replace(
        left_factor(p, q, r, z, t),
        c1 * links::xi_at(s, z) + c2 * links::eta_at(s, t),
        right_factor(p, q, r, z, t),
        function::at(g.0, z, t) * links::xi_at(u, z) + function::at(g.1, z, t) * links::eta_at(
            u,
            t,
        ),
        function::at(image(p, q, r, c1, c2), z, t),
    );
}

/// The image is 0 at `p + (q + r)`.
proof fn lemma_image_zero(p: Point, q: Point, r: Point, c1: int, c2: int, z: int, t: int)
    requires
        curve::plus(p, curve::plus(q, r)) == (Point::Affine { x: z, y: t }),
        curve::satisfies(z, t),
    ensures
        fp::vanishes(function::at(image(p, q, r, c1, c2), z, t)),
{
    let g = transfer(p, q, r, function::constant(c1), function::constant(c2));
    lemma_image_value(p, q, r, c1, c2, Point::Affine { x: z, y: t }, z, t);
    lemma_mul_basics(function::at(g.0, z, t));
    lemma_mul_basics(function::at(g.1, z, t));
}

/// The image is small.
proof fn lemma_image_within(p: Point, q: Point, r: Point, c1: int, c2: int)
    ensures
        function::within(image(p, q, r, c1, c2), 23),
{
    let (r1, r2) = (function::constant(c1), function::constant(c2));
    let g = transfer(p, q, r, r1, r2);
    let u = curve::plus(p, curve::plus(q, r));
    lemma_within_transfer(p, q, r, r1, r2);
    lemma_within_dot2(g.0, links::xi(u), g.1, links::eta(u), 19, 2);
}

/// The abscissa, where there is one.
spec fn place(p: Point) -> int {
    match p {
        Point::Infinity => 0,
        Point::Affine { x, .. } => x,
    }
}

/// The places where one of the functions of the points involved is 0.
spec fn places(p: Point, q: Point, r: Point) -> Seq<int> {
    let (a, b) = (curve::plus(p, q), curve::plus(q, r));
    seq![
        place(p),
        place(q),
        place(r),
        place(a),
        place(b),
        place(curve::plus(a, r)),
        place(curve::plus(p, b)),
    ]
}

proof fn lemma_away(bad: Seq<int>, i: int, p: Point, z: int)
    requires
        0 <= i < bad.len(),
        bad[i] == place(p),
        !polynomial::among(z, bad),
    ensures
        !fp::vanishes(links::xi_at(p, z)),
{
    if p is Infinity {
        fp::lemma_small(1);
    } else {
        assert(!fp::vanishes(z - bad[i]));
    }
}

/// Away from those places, none of the functions is 0.
proof fn lemma_places(p: Point, q: Point, r: Point, z: int)
    requires
        !polynomial::among(z, places(p, q, r)),
    ensures
        ({
            let (a, b) = (curve::plus(p, q), curve::plus(q, r));
            &&& !fp::vanishes(links::xi_at(p, z))
            &&& !fp::vanishes(links::xi_at(q, z))
            &&& !fp::vanishes(links::xi_at(r, z))
            &&& !fp::vanishes(links::xi_at(a, z))
            &&& !fp::vanishes(links::xi_at(b, z))
            &&& !fp::vanishes(links::xi_at(curve::plus(a, r), z))
            &&& !fp::vanishes(links::xi_at(curve::plus(p, b), z))
        }),
{
    let (a, b) = (curve::plus(p, q), curve::plus(q, r));
    let bad = places(p, q, r);
    lemma_away(bad, 0, p, z);
    lemma_away(bad, 1, q, z);
    lemma_away(bad, 2, r, z);
    lemma_away(bad, 3, a, z);
    lemma_away(bad, 4, b, z);
    lemma_away(bad, 5, curve::plus(a, r), z);
    lemma_away(bad, 6, curve::plus(p, b), z);
}

/// The conjugate of a point of the curve.
proof fn lemma_conjugate(z: int, t: int)
    requires
        curve::satisfies(z, t),
    ensures
        curve::satisfies(z, -t),
{
    assert((-t) * (-t) == t * t) by (nonlinear_arith);
}

/// The line of a link is not 0 away from the points involved.
proof fn lemma_line_away(p: Point, q: Point, z: int, t: int)
    requires
        curve::on_curve(p),
        curve::on_curve(q),
        curve::satisfies(z, t),
        !fp::vanishes(links::xi_at(p, z)),
        !fp::vanishes(links::xi_at(q, z)),
        !fp::vanishes(links::xi_at(curve::plus(p, q), z)),
    ensures
        !fp::vanishes(function::at(links::link(p, q).line, z, t)),
{
    let k = links::link(p, q);
    let m = function::at(k.line, z, t);
    let n = function::at(k.line, z, -t);
    let (xp, xq, v) = (
        links::xi_at(p, z),
        links::xi_at(q, z),
        links::xi_at(curve::plus(p, q), z),
    );
    links::lemma_linked(p, q, z, t);
    fp::lemma_product(xp, xq);
    fp::lemma_product(xp * xq, v);
    fp::lemma_small(1);
    fp::lemma_product(k.sign, xp * xq * v);
    if fp::vanishes(m) {
        fp::lemma_scale(n, m);
        fp::lemma_shift(m * n, k.sign * (xp * xq * v));
    }
}

/// The sign of the norm of the image of `xi`.
spec fn image_sign(p: Point, q: Point, r: Point) -> int {
    let (a, b) = (curve::plus(p, q), curve::plus(q, r));
    if links::link(p, q).sign * links::link(a, r).sign == links::link(q, r).sign * links::link(
        p,
        b,
    ).sign {
        1
    } else {
        -1
    }
}

/// A common factor of norms, cancelled.
proof fn lemma_norm_cancel(
    vp: int,
    vq: int,
    vr: int,
    va: int,
    vb: int,
    vs: int,
    vt: int,
    e1: int,
    e2: int,
    n: int,
)
    requires
        !fp::vanishes(vp),
        !fp::vanishes(vq),
        !fp::vanishes(vr),
        !fp::vanishes(va),
        !fp::vanishes(vb),
        !fp::vanishes(vs),
        !fp::vanishes(vt),
        e1 == 1 || e1 == -1,
        e2 == 1 || e2 == -1,
        fp::vanishes(
            (va * va * vb * vb * vp * vq * vr * vs * vs * vt) * (e1 * (vs * vt) - e2 * n),
        ),
    ensures
        fp::vanishes(
            n - (if e1 == e2 {
                1int
            } else {
                -1
            }) * (vs * vt),
        ),
{
    fp::lemma_product(va, va);
    fp::lemma_product(va * va, vb);
    fp::lemma_product(va * va * vb, vb);
    fp::lemma_product(va * va * vb * vb, vp);
    fp::lemma_product(va * va * vb * vb * vp, vq);
    fp::lemma_product(va * va * vb * vb * vp * vq, vr);
    fp::lemma_product(va * va * vb * vb * vp * vq * vr, vs);
    fp::lemma_product(va * va * vb * vb * vp * vq * vr * vs, vs);
    fp::lemma_product(va * va * vb * vb * vp * vq * vr * vs * vs, vt);
    fp::lemma_cancel(
        va * va * vb * vb * vp * vq * vr * vs * vs * vt,
        e1 * (vs * vt) - e2 * n,
    );
    lemma_mul_basics(vs * vt);
    lemma_mul_basics(n);
    lemma_mul_unary_negation(1, vs * vt);
    lemma_mul_unary_negation(1, n);
    fp::lemma_scale(1, e1 * (vs * vt) - e2 * n);
}

/// A product of signs is a sign.
proof fn lemma_signs(a: int, b: int)
    requires
        a == 1 || a == -1,
        b == 1 || b == -1,
    ensures
        a * b == 1 || a * b == -1,
{
    lemma_mul_basics(b);
    lemma_mul_unary_negation(1, b);
}

/// The norms of both sides of a transfer of `xi`.
proof fn lemma_norms(p: Point, q: Point, r: Point, z: int, t: int, ft: int, fc: int)
    requires
        curve::on_curve(p),
        curve::on_curve(q),
        curve::on_curve(r),
        curve::satisfies(z, t),
        ({
            let vs = links::xi_at(curve::plus(curve::plus(p, q), r), z);
            &&& fp::vanishes(
                left_factor(p, q, r, z, t) * vs - right_factor(p, q, r, z, t) * ft,
            )
            &&& fp::vanishes(
                left_factor(p, q, r, z, -t) * vs - right_factor(p, q, r, z, -t) * fc,
            )
        }),
    ensures
        ({
            let (a, b) = (curve::plus(p, q), curve::plus(q, r));
            let (vp, vq, vr) = (links::xi_at(p, z), links::xi_at(q, z), links::xi_at(r, z));
            let (va, vb) = (links::xi_at(a, z), links::xi_at(b, z));
            let vs = links::xi_at(curve::plus(a, r), z);
            let vt = links::xi_at(curve::plus(p, b), z);
            let e1 = links::link(p, q).sign * links::link(a, r).sign;
            let e2 = links::link(q, r).sign * links::link(p, b).sign;
            &&& fp::vanishes(
                (va * va * vb * vb * vp * vq * vr * vs * vs * vt) * (e1 * (vs * vt) - e2 * (ft
                    * fc)),
            )
            &&& e1 == 1 || e1 == -1
            &&& e2 == 1 || e2 == -1
        }),
{
    reveal(left_factor);
    reveal(right_factor);
    let (a, b) = (curve::plus(p, q), curve::plus(q, r));
    addition::lemma_closed(p, q);
    addition::lemma_closed(q, r);
    links::lemma_linked(p, q, z, t);
    links::lemma_linked(a, r, z, t);
    links::lemma_linked(q, r, z, t);
    links::lemma_linked(p, b, z, t);
    let (k1, k2) = (links::link(p, q), links::link(a, r));
    let (k3, k4) = (links::link(q, r), links::link(p, b));
    let vs = links::xi_at(curve::plus(a, r), z);
    fp::lemma_mul(
        left_factor(p, q, r, z, t) * vs,
        right_factor(p, q, r, z, t) * ft,
        left_factor(p, q, r, z, -t) * vs,
        right_factor(p, q, r, z, -t) * fc,
    );
    identities::lemma_norms(
        links::xi_at(p, z),
        links::xi_at(q, z),
        links::xi_at(r, z),
        links::xi_at(a, z),
        links::xi_at(b, z),
        vs,
        links::xi_at(curve::plus(p, b), z),
        function::at(k1.line, z, t),
        function::at(k2.line, z, t),
        function::at(k3.line, z, t),
        function::at(k4.line, z, t),
        function::at(k1.line, z, -t),
        function::at(k2.line, z, -t),
        function::at(k3.line, z, -t),
        function::at(k4.line, z, -t),
        ft,
        fc,
        k1.sign,
        k2.sign,
        k3.sign,
        k4.sign,
    );
    lemma_signs(k1.sign, k2.sign);
    lemma_signs(k3.sign, k4.sign);
}

/// The norm of the image of `xi`.
proof fn lemma_image_norm(p: Point, q: Point, r: Point, z: int, t: int)
    requires
        curve::on_curve(p),
        curve::on_curve(q),
        curve::on_curve(r),
        curve::satisfies(z, t),
        !polynomial::among(z, places(p, q, r)),
    ensures
        ({
            let f = image(p, q, r, 1, 0);
            let s = curve::plus(curve::plus(p, q), r);
            let u = curve::plus(p, curve::plus(q, r));
            fp::vanishes(
                function::at(f, z, t) * function::at(f, z, -t) - image_sign(p, q, r) * (
                links::xi_at(s, z) * links::xi_at(u, z)),
            )
        }),
{
    let (a, b) = (curve::plus(p, q), curve::plus(q, r));
    let (s, u) = (curve::plus(a, r), curve::plus(p, b));
    let f = image(p, q, r, 1, 0);
    let (ft, fc) = (function::at(f, z, t), function::at(f, z, -t));
    lemma_conjugate(z, t);
    lemma_places(p, q, r, z);
    lemma_image(p, q, r, 1, 0, z, t);
    lemma_image(p, q, r, 1, 0, z, -t);
    lemma_mul_basics(links::xi_at(s, z));
    lemma_mul_basics(links::eta_at(s, t));
    lemma_mul_basics(links::eta_at(s, -t));
    lemma_norms(p, q, r, z, t, ft, fc);
    lemma_norm_cancel(
        links::xi_at(p, z),
        links::xi_at(q, z),
        links::xi_at(r, z),
        links::xi_at(a, z),
        links::xi_at(b, z),
        links::xi_at(s, z),
        links::xi_at(u, z),
        links::link(p, q).sign * links::link(a, r).sign,
        links::link(q, r).sign * links::link(p, b).sign,
        ft * fc,
    );
}

/// The values of a function at a point and its conjugate, and its norm.
proof fn lemma_conjugate_values(f: Function, z: int, t: int)
    requires
        curve::satisfies(z, t),
    ensures
        ({
            let (u, v) = (polynomial::eval(f.u, z), polynomial::eval(f.v, z));
            &&& function::at(f, z, t) == u + v * t
            &&& function::at(f, z, -t) == u - v * t
            &&& fp::vanishes(
                (u * u - (v * v) * curve::cubic(z)) - function::at(f, z, t) * function::at(
                    f,
                    z,
                    -t,
                ),
            )
        }),
{
    let (u, v) = (polynomial::eval(f.u, z), polynomial::eval(f.v, z));
    lemma_mul_unary_negation(v, t);
    assert((u + v * t) * (u - v * t) == u * u - (v * v) * (t * t)) by {
        let w = v * t;
        assert((u + w) * (u - w) == u * u - w * w) by (nonlinear_arith);
        assert((v * t) * (v * t) == (v * v) * (t * t)) by (nonlinear_arith);
    }
    fp::lemma_scale(v * v, t * t - curve::cubic(z));
    lemma_mul_is_distributive_sub(v * v, t * t, curve::cubic(z));
}

/// Congruent squares.
proof fn lemma_squares(a: int, b: int, c: int, d: int, w: int)
    requires
        fp::vanishes(a - b),
        fp::vanishes(c - d),
    ensures
        fp::vanishes((a * a - (c * c) * w) - (b * b - (d * d) * w)),
{
    fp::lemma_mul(a, b, a, b);
    fp::lemma_mul(c, d, c, d);
    fp::lemma_zero();
    fp::lemma_mul(c * c, d * d, w, w);
    fp::lemma_add(a * a - b * b, (c * c) * w - (d * d) * w);
}

/// The image of `xi` at a sample point.
proof fn lemma_image_excess(p: Point, q: Point, r: Point, i: int)
    requires
        curve::on_curve(p),
        curve::on_curve(q),
        curve::on_curve(r),
        0 <= i < samples::count(),
        !polynomial::among(samples::abscissa(i), places(p, q, r)),
    ensures
        ({
            let f = image(p, q, r, 1, 0);
            fp::vanishes(
                degrees::excess_at(
                    polynomial::trimmed(f.u),
                    polynomial::trimmed(f.v),
                    curve::plus(curve::plus(p, q), r),
                    curve::plus(p, curve::plus(q, r)),
                    image_sign(p, q, r),
                    samples::abscissa(i),
                ),
            )
        }),
{
    let (z, t) = (samples::abscissa(i), samples::ordinate(i));
    let f = image(p, q, r, 1, 0);
    let s = curve::plus(curve::plus(p, q), r);
    let w = curve::plus(p, curve::plus(q, r));
    let e = image_sign(p, q, r) * (links::xi_at(s, z) * links::xi_at(w, z));
    let (u, v) = (polynomial::eval(f.u, z), polynomial::eval(f.v, z));
    let a = polynomial::eval(polynomial::trimmed(f.u), z);
    let b = polynomial::eval(polynomial::trimmed(f.v), z);
    samples::lemma_sample(i);
    lemma_image_norm(p, q, r, z, t);
    lemma_conjugate_values(f, z, t);
    polynomial::lemma_trimmed(f.u, z);
    polynomial::lemma_trimmed(f.v, z);
    fp::lemma_shift(u, a);
    fp::lemma_shift(v, b);
    lemma_squares(a, u, b, v, curve::cubic(z));
    fp::lemma_trans(
        a * a - (b * b) * curve::cubic(z),
        u * u - (v * v) * curve::cubic(z),
        function::at(f, z, t) * function::at(f, z, -t),
    );
    fp::lemma_trans(
        a * a - (b * b) * curve::cubic(z),
        function::at(f, z, t) * function::at(f, z, -t),
        e,
    );
}

/// The sums agree up to sign, and where they are affine, the image of `xi` of
/// one is a multiple of `xi` of the other.
proof fn lemma_same_abscissa(p: Point, q: Point, r: Point) -> (c: int)
    requires
        curve::on_curve(p),
        curve::on_curve(q),
        curve::on_curve(r),
    ensures
        ({
            let s = curve::plus(curve::plus(p, q), r);
            let u = curve::plus(p, curve::plus(q, r));
            &&& s is Infinity <==> u is Infinity
            &&& s is Affine ==> s->x == u->x && !fp::vanishes(c) && forall|z: int, t: int|
                fp::vanishes(
                    (#[trigger] function::at(image(p, q, r, 1, 0), z, t)) - c * (z - s->x),
                )
        }),
{
    let (a, b) = (curve::plus(p, q), curve::plus(q, r));
    let (s, w) = (curve::plus(a, r), curve::plus(p, b));
    let f = image(p, q, r, 1, 0);
    let (u, v) = (polynomial::trimmed(f.u), polynomial::trimmed(f.v));
    let xs = samples::abscissas();
    let bad = places(p, q, r);
    addition::lemma_closed(p, q);
    addition::lemma_closed(q, r);
    addition::lemma_closed(a, r);
    addition::lemma_closed(p, b);
    samples::lemma_distinct();
    lemma_image_within(p, q, r, 1, 0);
    polynomial::lemma_trimmed(f.u, 0);
    polynomial::lemma_trimmed(f.v, 0);
    assert forall|i: int| 0 <= i < xs.len() implies fp::vanishes(
        degrees::excess_at(u, v, s, w, image_sign(p, q, r), #[trigger] xs[i]),
    ) || polynomial::among(xs[i], bad) by {
        if !polynomial::among(xs[i], bad) {
            lemma_image_excess(p, q, r, i);
        }
    }
    degrees::lemma_degrees(u, v, s, w, image_sign(p, q, r), xs, bad);
    if s is Affine {
        let x = s->x;
        assert forall|z: int, t: int|
            fp::vanishes((#[trigger] function::at(f, z, t)) - u[1] * (z - x)) by {
            lemma_linear_image(f, x, z, t);
        }
        u[1]
    } else {
        0
    }
}

/// A function whose second polynomial is 0 and whose first has a root.
proof fn lemma_linear_image(f: Function, x: int, z: int, t: int)
    requires
        polynomial::trimmed(f.v).len() == 0,
        polynomial::trimmed(f.u).len() == 2,
        fp::vanishes(polynomial::trimmed(f.u)[0] + polynomial::trimmed(f.u)[1] * x),
    ensures
        fp::vanishes(function::at(f, z, t) - polynomial::trimmed(f.u)[1] * (z - x)),
{
    let u = polynomial::trimmed(f.u);
    let (a, b) = (polynomial::eval(f.u, z), polynomial::eval(f.v, z));
    polynomial::lemma_trimmed(f.u, z);
    polynomial::lemma_trimmed(f.v, z);
    assert(polynomial::eval(polynomial::trimmed(f.v), z) == 0);
    fp::lemma_scale(t, b);
    function::lemma_linear(u[0], u[1], z, 0);
    assert(u =~= function::linear(u[0], u[1]).u);
    lemma_mul_basics(polynomial::eval(function::linear(u[0], u[1]).v, z));
    lemma_mul_is_distributive_sub(u[1], z, x);
    fp::lemma_add(a - (u[0] + u[1] * z), b * t);
    fp::lemma_add((a - (u[0] + u[1] * z)) + b * t, u[0] + u[1] * x);
}

/// Divides a transfer of `eta` by one of `xi`.
proof fn lemma_divide(lf: int, rf: int, c: int, d: int, h: int, f: int, g: int)
    requires
        fp::vanishes(lf * d - rf * f),
        fp::vanishes(f - c * d),
        fp::vanishes(lf * h - rf * g),
        !fp::vanishes(rf),
        !fp::vanishes(d),
    ensures
        fp::vanishes(g - c * h),
{
    // lf d == rf c d, so that lf == rf c
    fp::lemma_scale(rf, f - c * d);
    lemma_mul_is_distributive_sub(rf, f, c * d);
    fp::lemma_trans(lf * d, rf * f, rf * (c * d));
    lemma_mul_is_commutative(lf, d);
    lemma_mul_is_associative(rf, c, d);
    lemma_mul_is_commutative(rf * c, d);
    fp::lemma_cancel_factor(d, lf, rf * c);
    // and rf g == lf h == rf c h
    fp::lemma_scale(h, lf - rf * c);
    lemma_mul_is_distributive_sub_other_way(h, lf, rf * c);
    lemma_mul_is_associative(rf, c, h);
    fp::lemma_shift(lf * h, rf * g);
    fp::lemma_trans(rf * g, lf * h, rf * (c * h));
    fp::lemma_cancel_factor(rf, g, c * h);
}

/// The image of `eta` at a point of the curve.
proof fn lemma_second_image(p: Point, q: Point, r: Point, c: int, z: int, t: int)
    requires
        curve::on_curve(p),
        curve::on_curve(q),
        curve::on_curve(r),
        curve::satisfies(z, t),
        !polynomial::among(z, places(p, q, r)),
        ({
            let s = curve::plus(curve::plus(p, q), r);
            s is Affine && fp::vanishes(
                function::at(image(p, q, r, 1, 0), z, t) - c * (z - s->x),
            )
        }),
    ensures
        ({
            let s = curve::plus(curve::plus(p, q), r);
            fp::vanishes(function::at(image(p, q, r, 0, 1), z, t) - c * (t - s->y))
        }),
{
    let (a, b) = (curve::plus(p, q), curve::plus(q, r));
    let s = curve::plus(a, r);
    addition::lemma_closed(p, q);
    addition::lemma_closed(q, r);
    lemma_places(p, q, r, z);
    lemma_image(p, q, r, 1, 0, z, t);
    lemma_image(p, q, r, 0, 1, z, t);
    lemma_mul_basics(links::xi_at(s, z));
    lemma_mul_basics(links::eta_at(s, t));
    assert(!fp::vanishes(right_factor(p, q, r, z, t))) by {
        reveal(right_factor);
        lemma_line_away(q, r, z, t);
        lemma_line_away(p, b, z, t);
        let l3 = function::at(links::link(q, r).line, z, t);
        let l4 = function::at(links::link(p, b).line, z, t);
        fp::lemma_product(l3, l4);
        fp::lemma_product(links::xi_at(s, z), links::xi_at(a, z));
        fp::lemma_product(links::xi_at(s, z) * links::xi_at(a, z), l3 * l4);
    }
    lemma_divide(
        left_factor(p, q, r, z, t),
        right_factor(p, q, r, z, t),
        c,
        z - s->x,
        t - s->y,
        function::at(image(p, q, r, 1, 0), z, t),
        function::at(image(p, q, r, 0, 1), z, t),
    );
}

/// The parts of a function that is a multiple of `y - d` at a point and its
/// conjugate.
proof fn lemma_parts(u: int, v: int, c: int, d: int, t: int)
    requires
        fp::vanishes((u + v * t) - c * (t - d)),
        fp::vanishes((u - v * t) - c * (-t - d)),
        !fp::vanishes(t),
    ensures
        fp::vanishes(u + c * d),
        fp::vanishes(v - c),
{
    lemma_mul_is_distributive_sub(c, t, d);
    lemma_mul_is_distributive_sub(c, -t, d);
    lemma_mul_unary_negation(c, t);
    fp::lemma_small(2);
    fp::lemma_add((u + v * t) - c * (t - d), (u - v * t) - c * (-t - d));
    fp::lemma_cancel(2, u + c * d);
    fp::lemma_cancel(2, v * t - c * t);
    lemma_mul_is_distributive_sub_other_way(t, v, c);
    lemma_mul_is_commutative(v - c, t);
    fp::lemma_cancel(t, v - c);
}

/// The parts of the image of `eta` are constant.
proof fn lemma_second_parts(p: Point, q: Point, r: Point, c: int, x: int)
    requires
        curve::on_curve(p),
        curve::on_curve(q),
        curve::on_curve(r),
        ({
            let s = curve::plus(curve::plus(p, q), r);
            s is Affine && forall|z: int, t: int|
                fp::vanishes(
                    (#[trigger] function::at(image(p, q, r, 1, 0), z, t)) - c * (z - s->x),
                )
        }),
    ensures
        ({
            let s = curve::plus(curve::plus(p, q), r);
            let f = image(p, q, r, 0, 1);
            &&& fp::vanishes(polynomial::eval(f.u, x) + c * s->y)
            &&& fp::vanishes(polynomial::eval(f.v, x) - c)
        }),
{
    let s = curve::plus(curve::plus(p, q), r);
    let d = s->y;
    let f = image(p, q, r, 0, 1);
    let g = image(p, q, r, 1, 0);
    let (k, l) = (function::constant(c * d).u, function::constant(-c).u);
    let (u, v) = (polynomial::added(f.u, k), polynomial::added(f.v, l));
    let xs = samples::abscissas();
    let bad = places(p, q, r);
    samples::lemma_distinct();
    lemma_image_within(p, q, r, 0, 1);
    assert forall|i: int| 0 <= i < xs.len() && !polynomial::among(xs[i], bad) implies fp::vanishes(
        polynomial::eval(f.u, #[trigger] xs[i]) + c * d,
    ) && fp::vanishes(polynomial::eval(f.v, xs[i]) - c) by {
        let (z, t) = (samples::abscissa(i), samples::ordinate(i));
        samples::lemma_sample(i);
        lemma_conjugate(z, t);
        assert(fp::vanishes(function::at(g, z, t) - c * (z - s->x)));
        assert(fp::vanishes(function::at(g, z, -t) - c * (z - s->x)));
        lemma_second_image(p, q, r, c, z, t);
        lemma_second_image(p, q, r, c, z, -t);
        lemma_conjugate_values(f, z, t);
        lemma_parts(polynomial::eval(f.u, z), polynomial::eval(f.v, z), c, d, t);
    }
    assert forall|z: int| #[trigger] polynomial::eval(u, z) == polynomial::eval(f.u, z) + c * d by {
        polynomial::lemma_added(f.u, k, z);
        lemma_constant_value(c * d, z);
    }
    assert forall|z: int| #[trigger] polynomial::eval(v, z) == polynomial::eval(f.v, z) - c by {
        polynomial::lemma_added(f.v, l, z);
        lemma_constant_value(-c, z);
    }
    polynomial::lemma_many_roots(u, xs, bad, x);
    polynomial::lemma_many_roots(v, xs, bad, x);
    assert(polynomial::eval(u, x) == polynomial::eval(f.u, x) + c * d);
    assert(polynomial::eval(v, x) == polynomial::eval(f.v, x) - c);
}

/// The value of a constant polynomial.
proof fn lemma_constant_value(c: int, z: int)
    ensures
        polynomial::eval(function::constant(c).u, z) == c,
{
    function::lemma_constant(c, z, 0);
    lemma_mul_basics(polynomial::eval(function::constant(c).v, z));
}

/// Addition is associative.
pub proof fn lemma_associative(p: Point, q: Point, r: Point)
    requires
        curve::on_curve(p),
        curve::on_curve(q),
        curve::on_curve(r),
    ensures
        curve::plus(curve::plus(p, q), r) == curve::plus(p, curve::plus(q, r)),
{
    let (a, b) = (curve::plus(p, q), curve::plus(q, r));
    let (s, w) = (curve::plus(a, r), curve::plus(p, b));
    addition::lemma_closed(p, q);
    addition::lemma_closed(q, r);
    addition::lemma_closed(a, r);
    addition::lemma_closed(p, b);
    let c = lemma_same_abscissa(p, q, r);
    if s is Affine {
        let (x, y) = (w->x, w->y);
        let f = image(p, q, r, 0, 1);
        assert(w == (Point::Affine { x, y }));
        lemma_second_parts(p, q, r, c, x);
        lemma_image_zero(p, q, r, 0, 1, x, y);
        // 0 == u(x) + v(x) y == -c s.y + c y
        let (u, v) = (polynomial::eval(f.u, x), polynomial::eval(f.v, x));
        fp::lemma_scale(y, v - c);
        lemma_mul_is_distributive_sub_other_way(y, v, c);
        fp::lemma_add(u + v * y, (v - c) * y);
        fp::lemma_add((u + v * y) - (v - c) * y, u + c * s->y);
        lemma_mul_is_distributive_sub(c, y, s->y);
        fp::lemma_cancel(c, y - s->y);
        fp::lemma_unique(y, s->y);
    }
}

} // verus!
