//! What holds of gravity and of the bounce where the scalar's arithmetic is
//! exact.
//!
//! Rounded arithmetic keeps these laws only up to its rounding, and loses
//! them where it overflows. They are stated here for scalars whose sums,
//! differences and products follow the laws of a commutative ring, whose
//! division undoes multiplication, and whose order goes along with both, and
//! they are proved from those laws alone.

use crate::ball::{bounced, force_of_gravity, pull, reflected, squared_distance, Motion, Tuning};
use crate::planet::Planet;
use crate::npc::{angle_gap, stepped_angle, wrapped, Turn};
use crate::vector::{above, at_most, below, Scalar, Vec2};
use vstd::prelude::*;
use vstd::std_specs::cmp::PartialEqSpec;
use vstd::std_specs::ops::{AddSpec, DivSpec, MulSpec, RemSpec, SubSpec};

verus! {

/// Sums, differences and products of `S` follow the laws of a commutative
/// ring in which `zero` is the neutral sum and `one` the neutral product.
#[verifier::opaque]
pub open spec fn exact_arithmetic<S: Scalar>(zero: S, one: S) -> bool {
    &&& forall|a: S, b: S| #[trigger] a.add_spec(b) == b.add_spec(a)
    &&& forall|a: S, b: S, c: S| #[trigger] a.add_spec(b).add_spec(c) == a.add_spec(b.add_spec(c))
    &&& forall|a: S| #[trigger] a.add_spec(zero) == a
    &&& forall|a: S, b: S| #[trigger] a.sub_spec(b).add_spec(b) == a
    &&& forall|a: S, b: S| #[trigger] a.add_spec(b).sub_spec(b) == a
    &&& forall|a: S, b: S| #[trigger] a.mul_spec(b) == b.mul_spec(a)
    &&& forall|a: S, b: S, c: S| #[trigger] a.mul_spec(b).mul_spec(c) == a.mul_spec(b.mul_spec(c))
    &&& forall|a: S| #[trigger] a.mul_spec(one) == a
    &&& forall|a: S, b: S, c: S| #[trigger]
        a.mul_spec(b.add_spec(c)) == a.mul_spec(b).add_spec(a.mul_spec(c))
}

/// Division by anything but `zero` undoes multiplication, and is undone by
/// it.
#[verifier::opaque]
pub open spec fn exact_division<S: Scalar>(zero: S) -> bool {
    &&& forall|a: S, b: S| b != zero ==> #[trigger] a.div_spec(b).mul_spec(b) == a
    &&& forall|a: S, b: S| b != zero ==> #[trigger] a.mul_spec(b).div_spec(b) == a
}

/// What is greater than `zero` stays so under sums, products and quotients,
/// is not `zero`, and is what a greater scalar exceeds a lesser one by; and
/// `==` holds of equal scalars only.
#[verifier::opaque]
pub open spec fn exact_order<S: Scalar>(zero: S) -> bool {
    &&& forall|a: S, b: S| above(a, b) ==> above(#[trigger] a.sub_spec(b), zero)
    &&& forall|a: S, b: S|
        above(a, zero) && above(b, zero) ==> above(#[trigger] a.add_spec(b), zero)
    &&& forall|a: S, b: S|
        above(a, zero) && above(b, zero) ==> above(#[trigger] a.mul_spec(b), zero)
    &&& forall|a: S, b: S|
        above(a, zero) && above(b, zero) ==> above(#[trigger] a.div_spec(b), zero)
    &&& forall|a: S| #[trigger] above(a, zero) ==> a != zero
    &&& forall|a: S, b: S| #[trigger] a.eq_spec(&b) <==> a == b
}

/// The order of `S` is that of its differences: one scalar is above another
/// where their difference is above `zero`, sums of scalars above `zero` are
/// above `zero`, no two scalars are above each other, and below and at most
/// mean what they mean of numbers.
#[verifier::opaque]
pub open spec fn exact_comparison<S: Scalar>(zero: S) -> bool {
    &&& forall|a: S, b: S| #[trigger] above(a, b) <==> above(a.sub_spec(b), zero)
    &&& forall|a: S, b: S|
        above(a, zero) && above(b, zero) ==> above(#[trigger] a.add_spec(b), zero)
    &&& forall|a: S, b: S| #[trigger] above(a, b) ==> !above(b, a) && a != b
    &&& forall|a: S, b: S| #[trigger] below(a, b) <==> above(b, a)
    &&& forall|a: S, b: S| #[trigger] at_most(a, b) <==> (a == b || above(b, a))
}

/// An angle within one turn, from none up to but not a full one, is left as
/// it is when it is reduced into one turn.
#[verifier::opaque]
pub open spec fn exact_turn<S: Scalar>(turn: Turn<S>) -> bool {
    forall|a: S| at_most(turn.zero, a) && below(a, turn.full) ==> #[trigger] wrapped(a, turn) == a
}

proof fn div_then_mul<S: Scalar>(zero: S, a: S, b: S)
    requires
        exact_division(zero),
        b != zero,
    ensures
        a.div_spec(b).mul_spec(b) == a,
{
    reveal(exact_division);
}

proof fn mul_then_div<S: Scalar>(zero: S, a: S, b: S)
    requires
        exact_division(zero),
        b != zero,
    ensures
        a.mul_spec(b).div_spec(b) == a,
{
    reveal(exact_division);
}

proof fn add_commutes<S: Scalar>(zero: S, one: S, a: S, b: S)
    requires
        exact_arithmetic(zero, one),
    ensures
        a.add_spec(b) == b.add_spec(a),
{
    reveal(exact_arithmetic);
}

proof fn add_associates<S: Scalar>(zero: S, one: S, a: S, b: S, c: S)
    requires
        exact_arithmetic(zero, one),
    ensures
        a.add_spec(b).add_spec(c) == a.add_spec(b.add_spec(c)),
{
    reveal(exact_arithmetic);
}

proof fn add_zero<S: Scalar>(zero: S, one: S, a: S)
    requires
        exact_arithmetic(zero, one),
    ensures
        a.add_spec(zero) == a,
        zero.add_spec(a) == a,
{
    reveal(exact_arithmetic);
}

proof fn sub_then_add<S: Scalar>(zero: S, one: S, a: S, b: S)
    requires
        exact_arithmetic(zero, one),
    ensures
        a.sub_spec(b).add_spec(b) == a,
{
    reveal(exact_arithmetic);
}

/// The difference is the one scalar that, added to what was taken away,
/// gives back the whole.
proof fn difference_is_unique<S: Scalar>(zero: S, one: S, part: S, taken: S, whole: S)
    requires
        exact_arithmetic(zero, one),
        part.add_spec(taken) == whole,
    ensures
        part == whole.sub_spec(taken),
{
    reveal(exact_arithmetic);
    assert(part.add_spec(taken).sub_spec(taken) == part);
}

proof fn mul_commutes<S: Scalar>(zero: S, one: S, a: S, b: S)
    requires
        exact_arithmetic(zero, one),
    ensures
        a.mul_spec(b) == b.mul_spec(a),
{
    reveal(exact_arithmetic);
}

proof fn mul_associates<S: Scalar>(zero: S, one: S, a: S, b: S, c: S)
    requires
        exact_arithmetic(zero, one),
    ensures
        a.mul_spec(b).mul_spec(c) == a.mul_spec(b.mul_spec(c)),
{
    reveal(exact_arithmetic);
}

proof fn mul_one<S: Scalar>(zero: S, one: S, a: S)
    requires
        exact_arithmetic(zero, one),
    ensures
        a.mul_spec(one) == a,
{
    reveal(exact_arithmetic);
}

proof fn mul_distributes<S: Scalar>(zero: S, one: S, a: S, b: S, c: S)
    requires
        exact_arithmetic(zero, one),
    ensures
        a.mul_spec(b.add_spec(c)) == a.mul_spec(b).add_spec(a.mul_spec(c)),
{
    reveal(exact_arithmetic);
}

/// `(x - y) * z == x * z - y * z`.
proof fn mul_distributes_over_difference<S: Scalar>(zero: S, one: S, x: S, y: S, z: S)
    requires
        exact_arithmetic(zero, one),
    ensures
        x.sub_spec(y).mul_spec(z) == x.mul_spec(z).sub_spec(y.mul_spec(z)),
{
    let d = x.sub_spec(y);
    mul_commutes(zero, one, d, z);
    mul_commutes(zero, one, y, z);
    mul_commutes(zero, one, x, z);
    mul_distributes(zero, one, z, d, y);
    sub_then_add(zero, one, x, y);
    assert(d.mul_spec(z).add_spec(y.mul_spec(z)) == x.mul_spec(z));
    difference_is_unique(zero, one, d.mul_spec(z), y.mul_spec(z), x.mul_spec(z));
}

/// `(p - q) + (r - s) == (p + r) - (q + s)`.
proof fn sum_of_differences<S: Scalar>(zero: S, one: S, p: S, q: S, r: S, s: S)
    requires
        exact_arithmetic(zero, one),
    ensures
        p.sub_spec(q).add_spec(r.sub_spec(s)) == p.add_spec(r).sub_spec(q.add_spec(s)),
{
    let a = p.sub_spec(q);
    let b = r.sub_spec(s);
    add_associates(zero, one, a, b, q.add_spec(s));
    add_associates(zero, one, b, q, s);
    add_commutes(zero, one, b, q);
    add_associates(zero, one, q, b, s);
    sub_then_add(zero, one, r, s);
    assert(b.add_spec(q.add_spec(s)) == q.add_spec(r));
    add_associates(zero, one, a, q, r);
    sub_then_add(zero, one, p, q);
    assert(a.add_spec(b).add_spec(q.add_spec(s)) == p.add_spec(r));
    difference_is_unique(zero, one, a.add_spec(b), q.add_spec(s), p.add_spec(r));
}

/// `a - (a + a) == 0 - a`.
proof fn less_twice_is_negated<S: Scalar>(zero: S, one: S, a: S)
    requires
        exact_arithmetic(zero, one),
    ensures
        a.sub_spec(a.add_spec(a)) == zero.sub_spec(a),
{
    let n = zero.sub_spec(a);
    add_associates(zero, one, n, a, a);
    sub_then_add(zero, one, zero, a);
    add_zero(zero, one, a);
    assert(n.add_spec(a.add_spec(a)) == a);
    difference_is_unique(zero, one, n, a.add_spec(a), a);
}

/// `(x * k) * w == k * (x * w)`.
proof fn factor_to_front<S: Scalar>(zero: S, one: S, x: S, k: S, w: S)
    requires
        exact_arithmetic(zero, one),
    ensures
        x.mul_spec(k).mul_spec(w) == k.mul_spec(x.mul_spec(w)),
{
    mul_commutes(zero, one, x, k);
    mul_associates(zero, one, k, x, w);
}

/// `k * 0 == 0`.
proof fn mul_zero<S: Scalar>(zero: S, one: S, k: S)
    requires
        exact_arithmetic(zero, one),
    ensures
        k.mul_spec(zero) == zero,
{
    let kz = k.mul_spec(zero);
    add_zero(zero, one, zero);
    mul_distributes(zero, one, k, zero, zero);
    assert(kz.add_spec(kz) == kz);
    difference_is_unique(zero, one, kz, kz, kz);
    add_zero(zero, one, kz);
    difference_is_unique(zero, one, zero, kz, kz);
}

/// `k * (0 - a) == 0 - k * a`.
proof fn mul_negated<S: Scalar>(zero: S, one: S, k: S, a: S)
    requires
        exact_arithmetic(zero, one),
    ensures
        k.mul_spec(zero.sub_spec(a)) == zero.sub_spec(k.mul_spec(a)),
{
    mul_distributes(zero, one, k, zero.sub_spec(a), a);
    sub_then_add(zero, one, zero, a);
    mul_zero(zero, one, k);
    difference_is_unique(zero, one, k.mul_spec(zero.sub_spec(a)), k.mul_spec(a), zero);
}

/// `(x - y) - (0 - y) == x`.
proof fn less_and_back<S: Scalar>(zero: S, one: S, x: S, y: S)
    requires
        exact_arithmetic(zero, one),
    ensures
        x.sub_spec(y).sub_spec(zero.sub_spec(y)) == x,
{
    let n = zero.sub_spec(y);
    add_associates(zero, one, x, n, y);
    sub_then_add(zero, one, zero, y);
    add_zero(zero, one, x);
    difference_is_unique(zero, one, x.add_spec(n), y, x);
    difference_is_unique(zero, one, x, n, x.sub_spec(y));
}

/// The dot product is the same either way round.
proof fn dot_commutes<S: Scalar>(zero: S, one: S, u: Vec2<S>, w: Vec2<S>)
    requires
        exact_arithmetic(zero, one),
    ensures
        u.spec_dot(w) == w.spec_dot(u),
{
    mul_commutes(zero, one, u.x, w.x);
    mul_commutes(zero, one, u.y, w.y);
}

/// `(u - n * k) . w == u . w - k * (n . w)`.
proof fn dot_of_difference<S: Scalar>(zero: S, one: S, u: Vec2<S>, n: Vec2<S>, k: S, w: Vec2<S>)
    requires
        exact_arithmetic(zero, one),
    ensures
        u.spec_minus(n.spec_scaled(k)).spec_dot(w) == u.spec_dot(w).sub_spec(
            k.mul_spec(n.spec_dot(w)),
        ),
{
    mul_distributes_over_difference(zero, one, u.x, n.x.mul_spec(k), w.x);
    mul_distributes_over_difference(zero, one, u.y, n.y.mul_spec(k), w.y);
    sum_of_differences(
        zero,
        one,
        u.x.mul_spec(w.x),
        n.x.mul_spec(k).mul_spec(w.x),
        u.y.mul_spec(w.y),
        n.y.mul_spec(k).mul_spec(w.y),
    );
    factor_to_front(zero, one, n.x, k, w.x);
    factor_to_front(zero, one, n.y, k, w.y);
    mul_distributes(zero, one, k, n.x.mul_spec(w.x), n.y.mul_spec(w.y));
}

/// A bounce turns the velocity's part along the normal around and keeps its
/// size: where the normal has length one, the mirrored velocity has along
/// the normal the negative of what the velocity had.
pub proof fn bounce_negates_normal_part<S: Scalar>(
    zero: S,
    one: S,
    velocity: Vec2<S>,
    normal: Vec2<S>,
)
    requires
        exact_arithmetic(zero, one),
        normal.spec_dot(normal) == one,
    ensures
        reflected(velocity, normal).spec_dot(normal) == zero.sub_spec(velocity.spec_dot(normal)),
{
    let along = velocity.spec_dot(normal);
    let twice = along.add_spec(along);
    dot_of_difference(zero, one, velocity, normal, twice, normal);
    mul_one(zero, one, twice);
    less_twice_is_negated(zero, one, along);
}

/// A bounce keeps the speed: where the normal has length one, the mirrored
/// velocity has the same squared length as the velocity.
pub proof fn bounce_keeps_speed<S: Scalar>(zero: S, one: S, velocity: Vec2<S>, normal: Vec2<S>)
    requires
        exact_arithmetic(zero, one),
        normal.spec_dot(normal) == one,
    ensures
        reflected(velocity, normal).spec_squared_length() == velocity.spec_squared_length(),
{
    let along = velocity.spec_dot(normal);
    let twice = along.add_spec(along);
    let mirrored = reflected(velocity, normal);
    dot_of_difference(zero, one, velocity, normal, twice, mirrored);
    dot_commutes(zero, one, velocity, mirrored);
    dot_commutes(zero, one, normal, mirrored);
    dot_of_difference(zero, one, velocity, normal, twice, velocity);
    dot_commutes(zero, one, normal, velocity);
    bounce_negates_normal_part(zero, one, velocity, normal);
    mul_negated(zero, one, twice, along);
    less_and_back(zero, one, velocity.spec_dot(velocity), twice.mul_spec(along));
}

/// `(x * k) * (x * k) == (k * k) * (x * x)`.
proof fn square_of_product<S: Scalar>(zero: S, one: S, x: S, k: S)
    requires
        exact_arithmetic(zero, one),
    ensures
        x.mul_spec(k).mul_spec(x.mul_spec(k)) == k.mul_spec(k).mul_spec(x.mul_spec(x)),
{
    factor_to_front(zero, one, x, k, x.mul_spec(k));
    mul_associates(zero, one, x, x, k);
    mul_commutes(zero, one, x.mul_spec(x), k);
    mul_associates(zero, one, k, k, x.mul_spec(x));
}

/// The squared length of a vector stretched by `k` is `k * k` times its own.
proof fn squared_length_of_scaled<S: Scalar>(zero: S, one: S, n: Vec2<S>, k: S)
    requires
        exact_arithmetic(zero, one),
    ensures
        n.spec_scaled(k).spec_squared_length() == k.mul_spec(k).mul_spec(n.spec_squared_length()),
{
    square_of_product(zero, one, n.x, k);
    square_of_product(zero, one, n.y, k);
    mul_distributes(zero, one, k.mul_spec(k), n.x.mul_spec(n.x), n.y.mul_spec(n.y));
}

/// The square of anything but zero is not zero.
proof fn square_is_not_zero<S: Scalar>(zero: S, one: S, d: S)
    requires
        exact_arithmetic(zero, one),
        exact_division(zero),
        d != zero,
    ensures
        d.mul_spec(d) != zero,
{
    if d.mul_spec(d) == zero {
        mul_then_div(zero, d, d);
        mul_zero(zero, one, d);
        mul_commutes(zero, one, d, zero);
        mul_then_div(zero, zero, d);
        assert(false);
    }
}

/// A vector divided by its length has length one: where `d * d` is the
/// squared length of `offset` and `d` is not zero, the squared length of
/// `offset / d` is one.
proof fn normal_has_length_one<S: Scalar>(zero: S, one: S, offset: Vec2<S>, d: S)
    requires
        exact_arithmetic(zero, one),
        exact_division(zero),
        d != zero,
        d.mul_spec(d) == offset.spec_squared_length(),
    ensures
        offset.spec_shrunk(d).spec_squared_length() == one,
{
    let n = offset.spec_shrunk(d);
    let dd = d.mul_spec(d);
    let nn = n.spec_squared_length();
    div_then_mul(zero, offset.x, d);
    div_then_mul(zero, offset.y, d);
    assert(n.spec_scaled(d) == offset);
    squared_length_of_scaled(zero, one, n, d);
    mul_commutes(zero, one, dd, nn);
    assert(nn.mul_spec(dd) == dd);
    square_is_not_zero(zero, one, d);
    mul_then_div(zero, nn, dd);
    mul_one(zero, one, dd);
    mul_commutes(zero, one, dd, one);
    mul_then_div(zero, one, dd);
}

/// `c - (p - a) == a + (c - p)`.
proof fn back_along<S: Scalar>(zero: S, one: S, c: S, p: S, a: S)
    requires
        exact_arithmetic(zero, one),
    ensures
        c.sub_spec(p.sub_spec(a)) == a.add_spec(c.sub_spec(p)),
{
    let b = c.sub_spec(p);
    let rest = p.sub_spec(a);
    add_associates(zero, one, a, b, rest);
    add_commutes(zero, one, b, rest);
    add_associates(zero, one, a, rest, b);
    add_commutes(zero, one, a, rest);
    sub_then_add(zero, one, p, a);
    add_commutes(zero, one, p, b);
    sub_then_add(zero, one, c, p);
    assert(a.add_spec(b).add_spec(rest) == c);
    difference_is_unique(zero, one, a.add_spec(b), rest, c);
}

/// A bounce ends on the surface: where a body that overlaps the planet is
/// `distance` from its centre, and `distance` is not zero, the body is moved
/// to where the square of its distance from the centre is the square of the
/// sum of the two radii.
pub proof fn bounce_ends_on_the_surface<S: Scalar>(
    zero: S,
    one: S,
    hit: Motion<S>,
    radius: S,
    planet: Planet<S>,
    distance: S,
)
    requires
        exact_arithmetic(zero, one),
        exact_division(zero),
        distance != zero,
        distance.mul_spec(distance) == squared_distance(hit.position, planet.position),
    ensures
        squared_distance(bounced(hit, radius, planet, distance).position, planet.position) == ({
            let reach = radius.add_spec(planet.radius);
            reach.mul_spec(reach)
        }),
{
    let reach = radius.add_spec(planet.radius);
    let offset = planet.position.spec_minus(hit.position);
    let normal = offset.spec_shrunk(distance);
    let overlap = reach.sub_spec(distance);
    let moved = bounced(hit, radius, planet, distance).position;
    let apart = planet.position.spec_minus(moved);
    normal_has_length_one(zero, one, offset, distance);
    div_then_mul(zero, offset.x, distance);
    div_then_mul(zero, offset.y, distance);
    sub_then_add(zero, one, reach, distance);
    mul_distributes(zero, one, normal.x, overlap, distance);
    mul_distributes(zero, one, normal.y, overlap, distance);
    back_along(zero, one, planet.position.x, hit.position.x, normal.x.mul_spec(overlap));
    back_along(zero, one, planet.position.y, hit.position.y, normal.y.mul_spec(overlap));
    assert(apart == normal.spec_scaled(reach));
    squared_length_of_scaled(zero, one, normal, reach);
    mul_one(zero, one, reach.mul_spec(reach));
}

/// Gravity pulls toward the planet: on a body to the left of the attractor
/// the force points to the right, whatever their heights.
pub proof fn gravity_pulls_toward_the_planet<S: Scalar>(
    from: Vec2<S>,
    mass: S,
    to: Vec2<S>,
    other_mass: S,
    distance: S,
    tuning: Tuning<S>,
)
    requires
        exact_order(tuning.zero),
        above(to.x, from.x),
        above(distance, tuning.zero),
        above(mass, tuning.zero),
        above(other_mass, tuning.zero),
        above(tuning.gravity, tuning.zero),
    ensures
        above(force_of_gravity(from, mass, to, other_mass, distance, tuning).x, tuning.zero),
{
    reveal(exact_order);
    let zero = tuning.zero;
    let across = to.x.sub_spec(from.x);
    assert(above(across, zero));
    assert(!distance.eq_spec(&zero));
    assert(above(across.div_spec(distance), zero));
    assert(above(mass.mul_spec(other_mass), zero));
    assert(above(tuning.gravity.mul_spec(mass.mul_spec(other_mass)), zero));
    assert(above(distance.mul_spec(distance), zero));
    assert(above(pull(mass, other_mass, distance, tuning), zero));
}

/// The pull falls with the square of the distance: at twice the distance it
/// is a quarter, so four times the pull at twice the distance is the pull at
/// the distance itself.
pub proof fn pull_at_double_distance_is_a_quarter<S: Scalar>(
    one: S,
    mass: S,
    other_mass: S,
    distance: S,
    tuning: Tuning<S>,
)
    requires
        exact_arithmetic(tuning.zero, one),
        exact_division(tuning.zero),
        exact_order(tuning.zero),
        above(distance, tuning.zero),
    ensures
        pull(mass, other_mass, distance.add_spec(distance), tuning).mul_spec(
            one.add_spec(one).mul_spec(one.add_spec(one)),
        ) == pull(mass, other_mass, distance, tuning),
{
    let zero = tuning.zero;
    let two = one.add_spec(one);
    let four = two.mul_spec(two);
    let double = distance.add_spec(distance);
    let masses = tuning.gravity.mul_spec(mass.mul_spec(other_mass));
    let far = pull(mass, other_mass, double, tuning);
    let square = distance.mul_spec(distance);
    assert(double != zero && distance != zero) by {
        reveal(exact_order);
    }
    mul_one(zero, one, distance);
    mul_distributes(zero, one, distance, one, one);
    assert(double == distance.mul_spec(two));
    square_of_product(zero, one, distance, two);
    square_is_not_zero(zero, one, double);
    square_is_not_zero(zero, one, distance);
    div_then_mul(zero, masses, double.mul_spec(double));
    mul_associates(zero, one, far, four, square);
    assert(far.mul_spec(four).mul_spec(square) == masses);
    mul_then_div(zero, far.mul_spec(four), square);
}

/// `x - 0 == x`.
proof fn less_nothing<S: Scalar>(zero: S, one: S, x: S)
    requires
        exact_arithmetic(zero, one),
    ensures
        x.sub_spec(zero) == x,
{
    add_zero(zero, one, x);
    difference_is_unique(zero, one, x, zero, x);
}

/// `a - (b - c) == (a - b) + c`.
proof fn less_a_difference<S: Scalar>(zero: S, one: S, a: S, b: S, c: S)
    requires
        exact_arithmetic(zero, one),
    ensures
        a.sub_spec(b.sub_spec(c)) == a.sub_spec(b).add_spec(c),
{
    let left = a.sub_spec(b).add_spec(c);
    let taken = b.sub_spec(c);
    add_associates(zero, one, a.sub_spec(b), c, taken);
    add_commutes(zero, one, c, taken);
    sub_then_add(zero, one, b, c);
    sub_then_add(zero, one, a, b);
    assert(left.add_spec(taken) == a);
    difference_is_unique(zero, one, left, taken, a);
}

/// `a - (b + c) == (a - b) - c`.
proof fn less_a_sum<S: Scalar>(zero: S, one: S, a: S, b: S, c: S)
    requires
        exact_arithmetic(zero, one),
    ensures
        a.sub_spec(b.add_spec(c)) == a.sub_spec(b).sub_spec(c),
{
    let left = a.sub_spec(b).sub_spec(c);
    add_commutes(zero, one, b, c);
    add_associates(zero, one, left, c, b);
    sub_then_add(zero, one, a.sub_spec(b), c);
    sub_then_add(zero, one, a, b);
    assert(left.add_spec(b.add_spec(c)) == a);
    difference_is_unique(zero, one, left, b.add_spec(c), a);
}

/// What is at least `zero` plus what is above `zero` is above `zero`, either
/// way round.
proof fn sum_is_above_zero<S: Scalar>(zero: S, one: S, least: S, more: S)
    requires
        exact_arithmetic(zero, one),
        exact_comparison(zero),
        at_most(zero, least),
        above(more, zero),
    ensures
        above(least.add_spec(more), zero),
        above(more.add_spec(least), zero),
{
    reveal(exact_comparison);
    add_commutes(zero, one, least, more);
    add_zero(zero, one, more);
}

/// An angle keeps its place in the turn where both it and what is taken
/// from it lie within the turn and the lesser is taken from the greater:
/// `0 <= low <= high < full` gives `0 <= high - low < full`.
proof fn difference_within_turn<S: Scalar>(zero: S, one: S, full: S, low: S, high: S)
    requires
        exact_arithmetic(zero, one),
        exact_comparison(zero),
        at_most(zero, low),
        at_most(low, high),
        below(high, full),
    ensures
        at_most(zero, high.sub_spec(low)),
        below(high.sub_spec(low), full),
{
    reveal(exact_comparison);
    let d = high.sub_spec(low);
    less_nothing(zero, one, d);
    less_nothing(zero, one, high);
    assert(at_most(zero, d)) by {
        if low == high {
            add_zero(zero, one, low);
            difference_is_unique(zero, one, zero, low, high);
        }
    }
    less_a_difference(zero, one, full, high, low);
    assert(above(full.sub_spec(high), zero));
    sum_is_above_zero(zero, one, low, full.sub_spec(high));
    assert(above(full.sub_spec(d), zero));
}

/// A figure closes in on its target: where the target lies ahead within the
/// same turn, not more than half a turn away, and one step does not pass it,
/// the step takes the figure forward by exactly one step, and the gap to the
/// target after it is the gap before less the step, which is less.
pub proof fn step_closes_the_gap<S: Scalar>(one: S, current: S, target: S, step: S, turn: Turn<S>)
    requires
        exact_arithmetic(turn.zero, one),
        exact_comparison(turn.zero),
        exact_turn(turn),
        at_most(turn.zero, current),
        below(target, turn.full),
        above(step, turn.zero),
        at_most(current.add_spec(step), target),
        !above(angle_gap(current, target, turn), turn.half),
    ensures
        angle_gap(current, target, turn) == target.sub_spec(current),
        wrapped(stepped_angle(current, target, step, turn), turn) == current.add_spec(step),
        angle_gap(current.add_spec(step), target, turn) == angle_gap(current, target, turn).sub_spec(
            step,
        ),
        below(angle_gap(current.add_spec(step), target, turn), angle_gap(current, target, turn)),
{
    let zero = turn.zero;
    let full = turn.full;
    let next = current.add_spec(step);
    let gap = target.sub_spec(current);
    let left = target.sub_spec(next);
    // The figure stays within the turn, and short of the target.
    sum_is_above_zero(zero, one, current, step);
    assert(at_most(zero, next)) by {
        reveal(exact_comparison);
    }
    difference_within_turn(zero, one, full, next, target);
    // What is left of the gap is the gap less the step.
    less_a_sum(zero, one, target, current, step);
    assert(left == gap.sub_spec(step));
    sub_then_add(zero, one, gap, step);
    sum_is_above_zero(zero, one, left, step);
    assert(above(gap, zero));
    gap_less_rest(zero, one, gap, step);
    gap_less_rest(zero, one, target, next);
    less_a_difference(zero, one, full, target, left);
    assert(above(full.sub_spec(target), zero)) by {
        reveal(exact_comparison);
    }
    sum_is_above_zero(zero, one, left, full.sub_spec(target));
    assert(at_most(current, target) && below(left, gap) && !below(gap, step) && below(next, full))
        by {
        reveal(exact_comparison);
        add_commutes(zero, one, zero, step);
        add_zero(zero, one, step);
    }
    difference_within_turn(zero, one, full, current, target);
    assert(wrapped(gap, turn) == gap && wrapped(next, turn) == next && wrapped(left, turn) == left)
        by {
        reveal(exact_turn);
    }
}

/// `d - (d - s) == s`.
proof fn gap_less_rest<S: Scalar>(zero: S, one: S, d: S, s: S)
    requires
        exact_arithmetic(zero, one),
    ensures
        d.sub_spec(d.sub_spec(s)) == s,
{
    add_commutes(zero, one, s, d.sub_spec(s));
    sub_then_add(zero, one, d, s);
    difference_is_unique(zero, one, s, d.sub_spec(s), d);
}

/// `0 / d == 0` and `0 * k == 0`, for `d` other than zero.
proof fn nothing_stays_nothing<S: Scalar>(zero: S, one: S, d: S, k: S)
    requires
        exact_arithmetic(zero, one),
        exact_division(zero),
        d != zero,
    ensures
        zero.div_spec(d) == zero,
        zero.mul_spec(k) == zero,
{
    mul_zero(zero, one, d);
    mul_commutes(zero, one, d, zero);
    mul_then_div(zero, zero, d);
    mul_zero(zero, one, k);
    mul_commutes(zero, one, k, zero);
}

/// Gravity keeps to the line through both bodies: on a body level with the
/// attractor the force has no part up or down.
pub proof fn gravity_keeps_to_the_axis<S: Scalar>(
    one: S,
    from: Vec2<S>,
    mass: S,
    to: Vec2<S>,
    other_mass: S,
    distance: S,
    tuning: Tuning<S>,
)
    requires
        exact_arithmetic(tuning.zero, one),
        exact_division(tuning.zero),
        exact_order(tuning.zero),
        to.y == from.y,
        above(distance, tuning.zero),
    ensures
        force_of_gravity(from, mass, to, other_mass, distance, tuning).y == tuning.zero,
{
    let zero = tuning.zero;
    assert(distance != zero && !distance.eq_spec(&zero)) by {
        reveal(exact_order);
    }
    add_zero(zero, one, from.y);
    difference_is_unique(zero, one, zero, from.y, to.y);
    nothing_stays_nothing(zero, one, distance, pull(mass, other_mass, distance, tuning));
}

/// The force falls with the square of the distance and keeps its direction:
/// for a body twice as far from the attractor along the same line, four
/// times the force is the force on the nearer body.
pub proof fn force_at_double_distance_is_a_quarter<S: Scalar>(
    one: S,
    near: Vec2<S>,
    far: Vec2<S>,
    mass: S,
    to: Vec2<S>,
    other_mass: S,
    distance: S,
    tuning: Tuning<S>,
)
    requires
        exact_arithmetic(tuning.zero, one),
        exact_division(tuning.zero),
        exact_order(tuning.zero),
        above(distance, tuning.zero),
        to.spec_minus(far) == to.spec_minus(near).spec_plus(to.spec_minus(near)),
    ensures
        force_of_gravity(
            far,
            mass,
            to,
            other_mass,
            distance.add_spec(distance),
            tuning,
        ).spec_scaled(one.add_spec(one).mul_spec(one.add_spec(one))) == force_of_gravity(
            near,
            mass,
            to,
            other_mass,
            distance,
            tuning,
        ),
{
    let zero = tuning.zero;
    let four = one.add_spec(one).mul_spec(one.add_spec(one));
    let double = distance.add_spec(distance);
    let offset = to.spec_minus(near);
    let toward = offset.spec_shrunk(distance);
    let weak = pull(mass, other_mass, double, tuning);
    assert(distance != zero && double != zero && !distance.eq_spec(&zero) && !double.eq_spec(
        &zero,
    )) by {
        reveal(exact_order);
    }
    pull_at_double_distance_is_a_quarter(one, mass, other_mass, distance, tuning);
    div_then_mul(zero, offset.x, distance);
    div_then_mul(zero, offset.y, distance);
    mul_distributes(zero, one, toward.x, distance, distance);
    mul_distributes(zero, one, toward.y, distance, distance);
    mul_then_div(zero, toward.x, double);
    mul_then_div(zero, toward.y, double);
    assert(to.spec_minus(far).spec_shrunk(double) == toward);
    mul_associates(zero, one, toward.x, weak, four);
    mul_associates(zero, one, toward.y, weak, four);
}

/// A bounce leaves alone what of the velocity goes along the surface: the
/// velocity less its part along the normal is the same before and after.
pub proof fn bounce_keeps_tangential_part<S: Scalar>(
    zero: S,
    one: S,
    velocity: Vec2<S>,
    normal: Vec2<S>,
)
    requires
        exact_arithmetic(zero, one),
        normal.spec_dot(normal) == one,
    ensures
        reflected(velocity, normal).spec_minus(
            normal.spec_scaled(reflected(velocity, normal).spec_dot(normal)),
        ) == velocity.spec_minus(normal.spec_scaled(velocity.spec_dot(normal))),
{
    let along = velocity.spec_dot(normal);
    bounce_negates_normal_part(zero, one, velocity, normal);
    mul_negated(zero, one, normal.x, along);
    mul_negated(zero, one, normal.y, along);
    mul_distributes(zero, one, normal.x, along, along);
    mul_distributes(zero, one, normal.y, along, along);
    less_a_sum(zero, one, velocity.x, normal.x.mul_spec(along), normal.x.mul_spec(along));
    less_a_sum(zero, one, velocity.y, normal.y.mul_spec(along), normal.y.mul_spec(along));
    less_and_back(
        zero,
        one,
        velocity.x.sub_spec(normal.x.mul_spec(along)),
        normal.x.mul_spec(along),
    );
    less_and_back(
        zero,
        one,
        velocity.y.sub_spec(normal.y.mul_spec(along)),
        normal.y.mul_spec(along),
    );
}

/// A bounce turns an approach into a retreat: a velocity with a part toward
/// the planet has, mirrored, a part away from it.
pub proof fn bounce_turns_approach_into_retreat<S: Scalar>(
    zero: S,
    one: S,
    velocity: Vec2<S>,
    normal: Vec2<S>,
)
    requires
        exact_arithmetic(zero, one),
        exact_comparison(zero),
        normal.spec_dot(normal) == one,
        above(velocity.spec_dot(normal), zero),
    ensures
        below(reflected(velocity, normal).spec_dot(normal), zero),
{
    let along = velocity.spec_dot(normal);
    bounce_negates_normal_part(zero, one, velocity, normal);
    gap_less_rest(zero, one, zero, along);
    less_nothing(zero, one, along);
    reveal(exact_comparison);
}

/// The bounce of a ball, `distance` from the centre of the planet, where
/// `distance` is not zero and its square is the squared distance: the ball
/// keeps its squared speed, the part of its velocity toward the planet is
/// turned around, the part along the surface is kept, and the ball ends
/// where its squared distance from the centre is the square of the sum of the
/// radii.
pub proof fn bounce_of_a_ball<S: Scalar>(
    zero: S,
    one: S,
    hit: Motion<S>,
    radius: S,
    planet: Planet<S>,
    distance: S,
)
    requires
        exact_arithmetic(zero, one),
        exact_division(zero),
        distance != zero,
        distance.mul_spec(distance) == squared_distance(hit.position, planet.position),
    ensures
        ({
            let normal = planet.position.spec_minus(hit.position).spec_shrunk(distance);
            let after = bounced(hit, radius, planet, distance);
            let reach = radius.add_spec(planet.radius);
            &&& normal.spec_squared_length() == one
            &&& after.velocity.spec_squared_length() == hit.velocity.spec_squared_length()
            &&& after.velocity.spec_dot(normal) == zero.sub_spec(hit.velocity.spec_dot(normal))
            &&& after.velocity.spec_minus(normal.spec_scaled(after.velocity.spec_dot(normal)))
                == hit.velocity.spec_minus(normal.spec_scaled(hit.velocity.spec_dot(normal)))
            &&& squared_distance(after.position, planet.position) == reach.mul_spec(reach)
        }),
{
    let offset = planet.position.spec_minus(hit.position);
    let normal = offset.spec_shrunk(distance);
    normal_has_length_one(zero, one, offset, distance);
    bounce_keeps_speed(zero, one, hit.velocity, normal);
    bounce_negates_normal_part(zero, one, hit.velocity, normal);
    bounce_keeps_tangential_part(zero, one, hit.velocity, normal);
    bounce_ends_on_the_surface(zero, one, hit, radius, planet, distance);
}

} // verus!
