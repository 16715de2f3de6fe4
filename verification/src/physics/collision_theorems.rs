//! What holds of the collision stages for every input.

use vstd::prelude::*;
use crate::fixed::{abs_int, min_int};
use crate::physics::body::BodyView;
use crate::physics::collision::{overlaps, penetration, push_out, Collision};
use crate::physics::detection::{candidates, in_reach};
use crate::physics::narrow_phase::{answers, find_target, is_detector, lemma_find_target_from};
use crate::physics::narrow_phase::{narrow_body, narrow_pair, narrow_phase};
use crate::physics::narrow_phase::{same_but_collisions, same_but_records};
use crate::vec2::{lemma_square_monotonic, Vec2};

verus! {

/// Whether two boxes are apart on at least one axis: on it, one ends
/// before or where the other begins.
pub open spec fn separated(a: (Vec2, Vec2), b: (Vec2, Vec2)) -> bool {
    ||| a.0.x <= b.1.x
    ||| a.1.x >= b.0.x
    ||| a.0.y <= b.1.y
    ||| a.1.y >= b.0.y
}

/// Two boxes that are apart on one axis have no penetration vector, and
/// two boxes that are apart on none have one.
pub proof fn lemma_separated_boxes(a: (Vec2, Vec2), b: (Vec2, Vec2))
    ensures
        separated(a, b) <==> penetration(a, b) is None,
        separated(a, b) <==> !overlaps(a, b),
{
}

/// Testing a detector against a candidate whose box is apart from its own
/// on one axis puts nothing on record.
pub proof fn lemma_separated_pair(bodies: Seq<BodyView>, d: int, entity: u64)
    requires
        0 <= d < bodies.len(),
        find_target(bodies, d, entity) is Some ==> separated(
            bodies[d].collider->0.vertices,
            bodies[find_target(bodies, d, entity)->0].collider->0.vertices,
        ),
    ensures
        narrow_pair(bodies, d, entity) == bodies,
{
}

/// On an axis where two intervals overlap, the push has the size of the
/// shorter way out and points that way: down where the lower end of the
/// second interval is nearer, up otherwise.
pub proof fn lemma_push_out(a_max: i64, a_min: i64, b_max: i64, b_min: i64)
    requires
        a_max > b_min,
        a_min < b_max,
        a_max - b_min <= i64::MAX,
        b_max - a_min <= i64::MAX,
    ensures
        abs_int(push_out(a_max, a_min, b_max, b_min) as int) == min_int(
            a_max - b_min,
            b_max - a_min,
        ),
        a_max - b_min < b_max - a_min ==> push_out(a_max, a_min, b_max, b_min) == b_min - a_max,
        a_max - b_min >= b_max - a_min ==> push_out(a_max, a_min, b_max, b_min) == b_max - a_min,
{
}

/// Moving the first interval by the push leaves the two flush: its upper
/// end on the second's lower end, or its lower end on the second's upper
/// end. After that move they no longer overlap.
pub proof fn lemma_push_out_separates(a_max: i64, a_min: i64, b_max: i64, b_min: i64)
    requires
        a_max > b_min,
        a_min < b_max,
        a_max - b_min <= i64::MAX,
        b_max - a_min <= i64::MAX,
    ensures
        ({
            let by = push_out(a_max, a_min, b_max, b_min);
            ||| a_max + by == b_min
            ||| a_min + by == b_max
        }),
{
}

/// A body within reach of a detector stays within reach when the
/// detector's range grows.
pub proof fn lemma_in_reach_monotonic(body: BodyView, origin: Vec2, small: i64, large: i64)
    requires
        small <= large,
        in_reach(body, origin, small),
    ensures
        in_reach(body, origin, large),
{
    lemma_square_monotonic(small as int, large as int);
}

/// Whether the broad phase offers the body at index `j` to the detector at
/// index `d`: it is another body, and it is within reach.
pub open spec fn offered(bodies: Seq<BodyView>, d: int, origin: Vec2, range: i64, j: int) -> bool {
    j != d && in_reach(bodies[j], origin, range)
}

/// A name is among the candidates exactly if some other body of that name
/// has a collider and lies closer than the range.
pub proof fn lemma_candidates_contain(
    bodies: Seq<BodyView>,
    d: int,
    origin: Vec2,
    range: i64,
    n: nat,
    entity: u64,
)
    requires
        n <= bodies.len(),
    ensures
        candidates(bodies, d, origin, range, n).contains(entity) <==> exists|j: int|
            0 <= j < n && #[trigger] offered(bodies, d, origin, range, j) && bodies[j].entity
                == entity,
    decreases n,
{
    let found = candidates(bodies, d, origin, range, n);
    if n > 0 {
        let before = candidates(bodies, d, origin, range, (n - 1) as nat);
        lemma_candidates_contain(bodies, d, origin, range, (n - 1) as nat, entity);
        if offered(bodies, d, origin, range, n - 1) {
            assert(found == before.push(bodies[n - 1].entity));
            if found.contains(entity) {
                let i = choose|i: int| 0 <= i < found.len() && found[i] == entity;
                if i < before.len() {
                    assert(before[i] == entity);
                    assert(before.contains(entity));
                } else {
                    assert(offered(bodies, d, origin, range, n - 1) && bodies[n - 1].entity
                        == entity);
                }
            }
            if exists|j: int|
                0 <= j < n && #[trigger] offered(bodies, d, origin, range, j) && bodies[j].entity
                    == entity {
                let j = choose|j: int|
                    0 <= j < n && #[trigger] offered(bodies, d, origin, range, j)
                        && bodies[j].entity == entity;
                if j < n - 1 {
                    assert(before.contains(entity));
                    let i = choose|i: int| 0 <= i < before.len() && before[i] == entity;
                    assert(found[i] == entity);
                } else {
                    assert(found[before.len() as int] == entity);
                }
            }
        } else {
            assert(found == before);
            if exists|j: int|
                0 <= j < n && #[trigger] offered(bodies, d, origin, range, j) && bodies[j].entity
                    == entity {
                let j = choose|j: int|
                    0 <= j < n && #[trigger] offered(bodies, d, origin, range, j)
                        && bodies[j].entity == entity;
                assert(j < n - 1);
            }
        }
    } else {
        assert(found =~= Seq::<u64>::empty());
    }
}

/// The broad phase is monotonic in the range: every candidate found with a
/// range is found with any larger one.
pub proof fn lemma_candidates_monotonic(
    bodies: Seq<BodyView>,
    d: int,
    origin: Vec2,
    small: i64,
    large: i64,
    entity: u64,
)
    requires
        small <= large,
        candidates(bodies, d, origin, small, bodies.len()).contains(entity),
    ensures
        candidates(bodies, d, origin, large, bodies.len()).contains(entity),
{
    lemma_candidates_contain(bodies, d, origin, small, bodies.len(), entity);
    lemma_candidates_contain(bodies, d, origin, large, bodies.len(), entity);
    let j = choose|j: int|
        0 <= j < bodies.len() && #[trigger] offered(bodies, d, origin, small, j)
            && bodies[j].entity == entity;
    lemma_in_reach_monotonic(bodies[j], origin, small, large);
    assert(offered(bodies, d, origin, large, j));
}

/// The product of two sums of two squares is again a sum of two squares.
pub proof fn lemma_two_squares(a: int, b: int, x: int, y: int)
    ensures
        (a * x + b * y) * (a * x + b * y) + (a * y - b * x) * (a * y - b * x) == (a * a + b * b) * (
        x * x + y * y),
{
    let p = a * x;
    let q = b * y;
    let u = a * y;
    let v = b * x;
    let aa = a * a;
    let bb = b * b;
    let xx = x * x;
    let yy = y * y;
    assert((p + q) * (p + q) == p * p + 2 * (p * q) + q * q) by (nonlinear_arith);
    assert((u - v) * (u - v) == u * u - 2 * (u * v) + v * v) by (nonlinear_arith);
    assert(p * q == u * v) by (nonlinear_arith)
        requires
            p == a * x,
            q == b * y,
            u == a * y,
            v == b * x,
    ;
    assert(p * p == aa * xx) by (nonlinear_arith)
        requires
            p == a * x,
            aa == a * a,
            xx == x * x,
    ;
    assert(q * q == bb * yy) by (nonlinear_arith)
        requires
            q == b * y,
            bb == b * b,
            yy == y * y,
    ;
    assert(u * u == aa * yy) by (nonlinear_arith)
        requires
            u == a * y,
            aa == a * a,
            yy == y * y,
    ;
    assert(v * v == bb * xx) by (nonlinear_arith)
        requires
            v == b * x,
            bb == b * b,
            xx == x * x,
    ;
    assert((aa + bb) * (xx + yy) == aa * xx + aa * yy + bb * xx + bb * yy) by (nonlinear_arith);
}

/// With a range of at least the sum of both half-diagonals the broad phase
/// loses no overlapping pair. Two boxes are centred on `o` and `q` with
/// half-widths `wa`, `wb` and half-heights `ha`, `hb`; `ra` and `rb` are at
/// least their half-diagonals. If the boxes overlap strictly on both axes
/// and `range` is at least `ra + rb`, then `q` is closer to `o` than `range`.
pub proof fn lemma_overlapping_within_range(
    o: Vec2,
    q: Vec2,
    wa: int,
    ha: int,
    wb: int,
    hb: int,
    ra: int,
    rb: int,
    range: i64,
)
    requires
        wa >= 0,
        ha >= 0,
        wb >= 0,
        hb >= 0,
        ra >= 0,
        rb >= 0,
        ra * ra >= wa * wa + ha * ha,
        rb * rb >= wb * wb + hb * hb,
        range >= ra + rb,
        o.x + wa > q.x - wb,
        o.x - wa < q.x + wb,
        o.y + ha > q.y - hb,
        o.y - ha < q.y + hb,
    ensures
        o.spec_within(q, range),
{
    let dx = o.x - q.x;
    let dy = o.y - q.y;
    let w = wa + wb;
    let h = ha + hb;
    assert(dx * dx < w * w) by (nonlinear_arith)
        requires
            -w < dx < w,
    ;
    assert(dy * dy < h * h) by (nonlinear_arith)
        requires
            -h < dy < h,
    ;
    let c = wa * wb + ha * hb;
    let e = wa * hb - ha * wb;
    let sa = wa * wa + ha * ha;
    let sb = wb * wb + hb * hb;
    let r = ra * rb;
    assert(c >= 0) by (nonlinear_arith)
        requires
            wa >= 0,
            wb >= 0,
            ha >= 0,
            hb >= 0,
            c == wa * wb + ha * hb,
    ;
    lemma_two_squares(wa, ha, wb, hb);
    assert(e * e >= 0) by (nonlinear_arith);
    assert(sa >= 0 && sb >= 0) by (nonlinear_arith)
        requires
            sa == wa * wa + ha * ha,
            sb == wb * wb + hb * hb,
    ;
    assert(sa * sb <= (ra * ra) * (rb * rb)) by (nonlinear_arith)
        requires
            0 <= sa <= ra * ra,
            0 <= sb <= rb * rb,
    ;
    assert((ra * ra) * (rb * rb) == r * r) by (nonlinear_arith)
        requires
            r == ra * rb,
    ;
    assert(r >= 0) by (nonlinear_arith)
        requires
            ra >= 0,
            rb >= 0,
            r == ra * rb,
    ;
    assert(c <= r) by (nonlinear_arith)
        requires
            c >= 0,
            r >= 0,
            c * c <= r * r,
    ;
    let total = ra + rb;
    assert(w * w + h * h == sa + sb + 2 * c) by (nonlinear_arith)
        requires
            w == wa + wb,
            h == ha + hb,
            c == wa * wb + ha * hb,
            sa == wa * wa + ha * ha,
            sb == wb * wb + hb * hb,
    ;
    assert(total * total == ra * ra + rb * rb + 2 * r) by (nonlinear_arith)
        requires
            total == ra + rb,
            r == ra * rb,
    ;
    assert(dx * dx >= 0 && dy * dy >= 0) by (nonlinear_arith);
    assert(total > 0) by (nonlinear_arith)
        requires
            total >= 0,
            total * total > 0,
    ;
    lemma_square_monotonic(total, range as int);
}

/// Whether no two bodies of the world share a name.
pub open spec fn distinct_names(bodies: Seq<BodyView>) -> bool {
    forall|i: int, j: int|
        0 <= i < bodies.len() && 0 <= j < bodies.len() && i != j ==> (#[trigger] bodies[i]).entity
            != (#[trigger] bodies[j]).entity
}

/// Where no two bodies share a name, no name occurs twice among the
/// candidates of a detector, and the detector's own name is not among them.
pub proof fn lemma_candidates_distinct(
    bodies: Seq<BodyView>,
    d: int,
    origin: Vec2,
    range: i64,
    n: nat,
)
    requires
        distinct_names(bodies),
        n <= bodies.len(),
        0 <= d < bodies.len(),
    ensures
        candidates(bodies, d, origin, range, n).no_duplicates(),
        !candidates(bodies, d, origin, range, n).contains(bodies[d].entity),
    decreases n,
{
    let found = candidates(bodies, d, origin, range, n);
    lemma_candidates_contain(bodies, d, origin, range, n, bodies[d].entity);
    if n > 0 {
        let before = candidates(bodies, d, origin, range, (n - 1) as nat);
        lemma_candidates_distinct(bodies, d, origin, range, (n - 1) as nat);
        lemma_candidates_contain(bodies, d, origin, range, (n - 1) as nat, bodies[n - 1].entity);
        if offered(bodies, d, origin, range, n - 1) {
            assert(found == before.push(bodies[n - 1].entity));
            assert(!before.contains(bodies[n - 1].entity));
            assert forall|a: int, b: int|
                0 <= a < found.len() && 0 <= b < found.len() && a != b implies found[a]
                != found[b] by {
                if a < before.len() && b < before.len() {
                    assert(before[a] != before[b]);
                } else if a < before.len() {
                    assert(before.contains(before[a]));
                } else {
                    assert(before.contains(before[b]));
                }
            }
        }
    } else {
        assert(found =~= Seq::<u64>::empty());
    }
}

/// A detector whose box overlaps the box of a candidate that is found gets
/// one more record, which names the candidate, and the candidate gets one
/// more, which names the detector; both carry the penetration of the
/// detector's box in the candidate's, the second not negated.
pub proof fn lemma_overlapping_pair(bodies: Seq<BodyView>, d: int, entity: u64)
    requires
        0 <= d < bodies.len(),
        is_detector(bodies[d]),
        find_target(bodies, d, entity) is Some,
        overlaps(
            bodies[d].collider->0.vertices,
            bodies[find_target(bodies, d, entity)->0].collider->0.vertices,
        ),
    ensures
        ({
            let t = find_target(bodies, d, entity)->0;
            let offset = penetration(
                bodies[d].collider->0.vertices,
                bodies[t].collider->0.vertices,
            )->0;
            let after = narrow_pair(bodies, d, entity);
            &&& t != d
            &&& 0 <= t < bodies.len()
            &&& after[d].collider->0.collisions == bodies[d].collider->0.collisions.push(
                Collision { entity, offset },
            )
            &&& after[t].collider->0.collisions == bodies[t].collider->0.collisions.push(
                Collision { entity: bodies[d].entity, offset },
            )
        }),
{
    lemma_find_target_from(bodies, d, entity, 0);
    let t = find_target(bodies, d, entity)->0;
    assert(answers(bodies, d, entity, t));
}

/// Whether a record on the body at index `i` names another body with a
/// collider whose box overlaps its own.
pub open spec fn justified(bodies: Seq<BodyView>, i: int, record: Collision) -> bool {
    exists|j: int|
        {
            &&& 0 <= j < bodies.len()
            &&& j != i
            &&& (#[trigger] bodies[j]).collider is Some
            &&& bodies[j].entity == record.entity
            &&& overlaps(bodies[i].collider->0.vertices, bodies[j].collider->0.vertices)
        }
}

/// Whether the record at index `k` on the body at index `i` of `after` is
/// one that `before` had there already, or else a justified one.
pub open spec fn kept_or_justified(
    before: Seq<BodyView>,
    after: Seq<BodyView>,
    i: int,
    k: int,
) -> bool {
    if k < before[i].spec_collision_count() {
        after[i].collider->0.collisions[k] == before[i].collider->0.collisions[k]
    } else {
        justified(before, i, after[i].collider->0.collisions[k])
    }
}

/// Whether `after` is `before` with records added at the ends of the lists,
/// each of them justified, and nothing else changed.
pub open spec fn grown(before: Seq<BodyView>, after: Seq<BodyView>) -> bool {
    &&& same_but_records(before, after)
    &&& forall|i: int|
        0 <= i < before.len() ==> (#[trigger] before[i]).spec_collision_count()
            <= after[i].spec_collision_count()
    &&& forall|i: int, k: int|
        0 <= i < before.len() && 0 <= k < after[i].spec_collision_count()
            ==> #[trigger] kept_or_justified(before, after, i, k)
}

/// One test of the narrow phase adds justified records only.
pub proof fn lemma_grown_pair(before: Seq<BodyView>, now: Seq<BodyView>, d: int, entity: u64)
    requires
        grown(before, now),
    ensures
        grown(before, narrow_pair(now, d, entity)),
{
    let after = narrow_pair(now, d, entity);
    lemma_find_target_from(now, d, entity, 0);
    if 0 <= d < now.len() && is_detector(now[d]) && find_target(now, d, entity) is Some {
        let t = find_target(now, d, entity)->0;
        assert(answers(now, d, entity, t));
        assert(same_but_collisions(before[d], now[d]));
        assert(same_but_collisions(before[t], now[t]));
        let hit = penetration(now[d].collider->0.vertices, now[t].collider->0.vertices);
        if hit is Some {
            assert forall|i: int| 0 <= i < before.len() implies same_but_collisions(
                #[trigger] before[i],
                after[i],
            ) by {
                assert(same_but_collisions(before[i], now[i]));
            }
            assert forall|i: int| 0 <= i < before.len() implies (#[trigger] before[i]).spec_collision_count()
                <= after[i].spec_collision_count() by {
                assert(before[i].spec_collision_count() <= now[i].spec_collision_count());
            }
            assert forall|i: int, k: int|
                0 <= i < before.len() && 0 <= k < after[i].spec_collision_count()
                implies #[trigger] kept_or_justified(before, after, i, k) by {
                assert(same_but_collisions(before[i], now[i]));
                assert(before[i].spec_collision_count() <= now[i].spec_collision_count());
                if k < now[i].spec_collision_count() {
                    assert(kept_or_justified(before, now, i, k));
                } else if i == d {
                    assert(before[t].collider is Some && before[t].entity == entity);
                } else {
                    assert(i == t);
                    assert(before[d].collider is Some && before[d].entity == now[d].entity);
                }
            }
        }
    }
}

/// The tests of one detector add justified records only.
pub proof fn lemma_grown_body(before: Seq<BodyView>, now: Seq<BodyView>, d: int, k: nat)
    requires
        grown(before, now),
    ensures
        grown(before, narrow_body(now, d, k)),
    decreases k,
{
    if k > 0 {
        lemma_grown_body(before, now, d, (k - 1) as nat);
        lemma_grown_pair(
            before,
            narrow_body(now, d, (k - 1) as nat),
            d,
            now[d].collision_detector->0.possible_targets[k - 1],
        );
    }
}

/// Over a whole world, the narrow phase leaves the records that were there
/// and adds, at the ends of the lists, justified records only: each names
/// another body with a collider whose box overlaps the recording body's.
pub proof fn lemma_grown_phase(bodies: Seq<BodyView>, n: nat)
    requires
        n <= bodies.len(),
    ensures
        grown(bodies, narrow_phase(bodies, n)),
    decreases n,
{
    if n > 0 {
        lemma_grown_phase(bodies, (n - 1) as nat);
        let before = narrow_phase(bodies, (n - 1) as nat);
        if is_detector(before[n - 1]) {
            lemma_grown_body(bodies, before, n - 1, before[n - 1].spec_target_count());
        }
    } else {
        assert forall|i: int, k: int|
            0 <= i < bodies.len() && 0 <= k < bodies[i].spec_collision_count()
            implies #[trigger] kept_or_justified(bodies, bodies, i, k) by {}
    }
}

/// Boxes that are apart on one axis never yield a record, whatever the
/// world around them: if the box of the body at index `i` is apart from the
/// box of every other body called `entity`, the narrow phase puts no record
/// of that name on it.
pub proof fn lemma_separated_never_recorded(bodies: Seq<BodyView>, i: int, entity: u64, k: int)
    requires
        0 <= i < bodies.len(),
        forall|j: int|
            0 <= j < bodies.len() && j != i && (#[trigger] bodies[j]).collider is Some
                && bodies[j].entity == entity ==> separated(
                bodies[i].collider->0.vertices,
                bodies[j].collider->0.vertices,
            ),
        bodies[i].spec_collision_count() <= k < narrow_phase(
            bodies,
            bodies.len(),
        )[i].spec_collision_count(),
    ensures
        narrow_phase(bodies, bodies.len())[i].collider->0.collisions[k].entity != entity,
{
    let after = narrow_phase(bodies, bodies.len());
    lemma_grown_phase(bodies, bodies.len());
    assert(kept_or_justified(bodies, after, i, k));
}

} // verus!
