//! The engine's cross-cutting guarantees, proved once over the spec
//! functions that the methods' contracts are stated with: motion
//! integration, camera clamp ranges, selection policies, render-buffer
//! shape, axis-aligned picking, and the drag round trip.

use vstd::prelude::*;

use crate::engine::{
    advance_one, begin_drag_flags, begin_drag_offsets, best_hit, color_val, count_transforms, drag_val,
    integrate_val, local_hit, orbit_val, render_val, zoom_val, DIST_MAX, DIST_MIN, PITCH_MAX,
};
use crate::fixed::{
    fxa, fxd, fxm, fxs, iabs, lemma_fxm_double, lemma_fxm_unit, lemma_fxm_zero,
    lemma_qdiv_exact, lemma_qdiv_neg_neg, q_div, EPS, FX_MAX, HALF, SCALE,
};
use crate::mat::{inv_model_val, model_val, td_val, tp_val};
use crate::ray::{axis_slab, plane_hit_val, ray_box_val};
use crate::trig::{angle_norm, cos_poly, cos_val, sin_poly, sin_val, TWO_PI};
use crate::types::{t3a, t3s, v3i, v3of, Camera, DragRay, Transform, Velocity, V3};

verus! {

/// Motion integration: for any entity owning both a transform and a
/// velocity, one frame with no active drag moves its position by exactly
/// velocity * delta on every axis and advances its Y rotation by exactly
/// delta, in the engine's saturating fixed-point arithmetic.
pub proof fn lemma_motion_integration(
    ts: Seq<Option<Transform>>,
    vs: Seq<Option<Velocity>>,
    dragging: Seq<bool>,
    offs: Seq<V3>,
    ray: Option<DragRay>,
    delta: int,
    i: int,
)
    requires
        vs.len() == ts.len(),
        dragging.len() == ts.len(),
        0 <= i < ts.len(),
        ts[i] is Some,
        vs[i] is Some,
        ray is None || (forall|j: int| 0 <= j < ts.len() ==> !dragging[j]),
    ensures
        ({
            let after = drag_val(integrate_val(ts, vs, delta), dragging, offs, ray);
            &&& after.len() == ts.len()
            &&& after[i] is Some
            &&& v3i(after[i]->0.position) == t3a(
                v3i(ts[i]->0.position),
                (
                    fxm(vs[i]->0.linear.x as int, delta),
                    fxm(vs[i]->0.linear.y as int, delta),
                    fxm(vs[i]->0.linear.z as int, delta),
                ),
            )
            &&& after[i]->0.rotation.y as int == fxa(ts[i]->0.rotation.y as int, delta)
        }),
{
    let ts1 = integrate_val(ts, vs, delta);
    assert(ts1[i] == advance_one(ts[i], vs[i], delta));
    let after = drag_val(ts1, dragging, offs, ray);
    match ray {
        Option::None => {},
        Option::Some(r) => {
            match plane_hit_val(v3i(r.origin), v3i(r.dir), 0) {
                Option::None => {},
                Option::Some(h) => {
                    assert(!dragging[i]);
                    assert(after[i] == ts1[i]);
                },
            }
        },
    }
}

/// Camera limits: an orbit clamps pitch into [-PITCH_MAX, PITCH_MAX] and
/// never touches the distance; a zoom clamps distance into
/// [DIST_MIN, DIST_MAX] and never touches the pitch. Hence both bounds
/// hold after any sequence of orbit and zoom calls once each kind has run.
pub proof fn lemma_camera_limits(c: Camera, dx: int, dy: int, dz: int)
    ensures
        -(PITCH_MAX as int) <= orbit_val(c, dx, dy).pitch as int <= PITCH_MAX as int,
        orbit_val(c, dx, dy).distance == c.distance,
        DIST_MIN as int <= zoom_val(c, dz).distance as int <= DIST_MAX as int,
        zoom_val(c, dz).pitch == c.pitch,
{
}

/// A toggle pick installs the selection old.update(hit, !old[hit]): it
/// flips exactly the hit entity's flag and leaves every other entity's
/// flag untouched (and a miss leaves the whole selection untouched, as
/// pick's contract states directly).
pub proof fn lemma_toggle_selection(sel: Seq<bool>, hit: int)
    requires
        0 <= hit < sel.len(),
    ensures
        sel.update(hit, !sel[hit]).len() == sel.len(),
        sel.update(hit, !sel[hit])[hit] == !sel[hit],
        forall|j: int| 0 <= j < sel.len() && j != hit ==> sel.update(hit, !sel[hit])[j] == sel[j],
{
}

/// A plain click installs the selection that is true exactly at the hit
/// entity: every earlier flag is cleared before the hit entity is set.
pub proof fn lemma_plain_click_selection(sel: Seq<bool>, hit: int)
    requires
        0 <= hit < sel.len(),
    ensures
        ({
            let after = Seq::new(sel.len(), |i: int| i == hit);
            &&& after.len() == sel.len()
            &&& after[hit] == true
            &&& forall|j: int| 0 <= j < sel.len() && j != hit ==> after[j] == false
        }),
{
}

/// The render buffer always holds exactly 20 entries for each entity with
/// a transform, regardless of the selection state.
pub proof fn lemma_render_buffer_len(ts: Seq<Option<Transform>>, sel: Seq<bool>, n: int)
    requires
        0 <= n,
    ensures
        render_val(ts, sel, n).len() == 20 * count_transforms(ts, n),
        count_transforms(ts, n) >= 0,
    decreases n,
{
    if n > 0 {
        lemma_render_buffer_len(ts, sel, n - 1);
        if ts[n - 1] is Some {
            assert(model_val(ts[n - 1]->0).len() == 16);
            assert(color_val(sel[n - 1]).len() == 4);
        }
    }
}

/// The scan that pick's contract is stated over really selects the
/// nearest hit: a miss means no entity with a transform is hit at all,
/// and the winner is hit no farther than any other entity and strictly
/// nearer than every earlier one - the first entity keeps an exact tie.
#[verifier::rlimit(100)]
pub proof fn lemma_best_hit_minimal(
    ts: Seq<Option<Transform>>,
    o: (int, int, int),
    d: (int, int, int),
    n: int,
)
    requires
        0 <= n <= ts.len(),
    ensures
        match best_hit(ts, o, d, n) {
            Option::None => forall|j: int|
                0 <= j < n && ts[j] is Some ==> local_hit(ts[j]->0, o, d) is None,
            Option::Some(p) => {
                &&& 0 <= p.0 < n
                &&& ts[p.0] is Some
                &&& local_hit(ts[p.0]->0, o, d) == Option::Some(p.1)
                &&& forall|j: int|
                    0 <= j < n && ts[j] is Some && local_hit(ts[j]->0, o, d) is Some
                        ==> p.1 <= local_hit(ts[j]->0, o, d)->0
                &&& forall|j: int|
                    0 <= j < p.0 && ts[j] is Some && local_hit(ts[j]->0, o, d) is Some
                        ==> p.1 < local_hit(ts[j]->0, o, d)->0
            },
        },
    decreases n,
{
    if n > 0 {
        lemma_best_hit_minimal(ts, o, d, n - 1);
        let prev = best_hit(ts, o, d, n - 1);
        if ts[n - 1] is Some {
            match local_hit(ts[n - 1]->0, o, d) {
                Option::None => {
                    assert(best_hit(ts, o, d, n) == prev);
                },
                Option::Some(t) => {
                    match prev {
                        Option::None => {
                            assert(best_hit(ts, o, d, n) == Option::Some((n - 1, t)));
                        },
                        Option::Some(p) => {
                            if t < p.1 {
                                assert(best_hit(ts, o, d, n) == Option::Some((n - 1, t)));
                            } else {
                                assert(best_hit(ts, o, d, n) == prev);
                            }
                        },
                    }
                },
            }
        } else {
            assert(best_hit(ts, o, d, n) == prev);
        }
    }
}

/// Sine and cosine are exact at angle zero, so an unrotated transform's
/// model matrix and its inverse carry no rotation error.
pub proof fn lemma_sin_cos_zero()
    ensures
        sin_val(0) == 0,
        cos_val(0) == SCALE as int,
{
    assert(q_div(0, TWO_PI as int) == 0);
    assert(angle_norm(0) == 0);
    assert(fxm(0, 0) == 0);
    assert(sin_poly(0) == 0);
    assert(cos_poly(0) == SCALE as int);
}

/// The inverse model matrix of an unrotated, default-scale transform:
/// a pure doubling of each coordinate with the doubled translation
/// negated, with no rotation error.
pub proof fn lemma_inv_model_default(p: (int, int, int))
    requires
        iabs(p.0) <= 100_000_000_000,
        iabs(p.1) <= 100_000_000_000,
        iabs(p.2) <= 100_000_000_000,
    ensures
        ({
            let t = Transform {
                position: v3of(p),
                rotation: V3 { x: 0i64, y: 0i64, z: 0i64 },
                scale: V3 { x: HALF, y: HALF, z: HALF },
            };
            let inv = inv_model_val(t);
            &&& inv.len() == 16
            &&& inv[0] == 2 * (SCALE as int)
            &&& inv[1] == 0
            &&& inv[2] == 0
            &&& inv[3] == 0
            &&& inv[4] == 0
            &&& inv[5] == 2 * (SCALE as int)
            &&& inv[6] == 0
            &&& inv[7] == 0
            &&& inv[8] == 0
            &&& inv[9] == 0
            &&& inv[10] == 2 * (SCALE as int)
            &&& inv[11] == 0
            &&& inv[12] == -2 * p.0
            &&& inv[13] == -2 * p.1
            &&& inv[14] == -2 * p.2
            &&& inv[15] == SCALE as int
        }),
{
    lemma_sin_cos_zero();
    let t = Transform {
        position: v3of(p),
        rotation: V3 { x: 0i64, y: 0i64, z: 0i64 },
        scale: V3 { x: HALF, y: HALF, z: HALF },
    };
    assert(fxd(SCALE as int, HALF as int) == 2 * (SCALE as int));
    lemma_fxm_unit(2 * (SCALE as int));
    lemma_fxm_zero(2 * (SCALE as int));
    lemma_fxm_double(p.0);
    lemma_fxm_double(p.1);
    lemma_fxm_double(p.2);
    lemma_fxm_unit(2 * p.0);
    lemma_fxm_unit(2 * p.1);
    lemma_fxm_unit(2 * p.2);
    lemma_fxm_zero(2 * p.0);
    lemma_fxm_zero(2 * p.2);
    assert(inv_model_val(t)[12] == -fxa(fxm(fxm(p.0, 2 * (SCALE as int)), SCALE as int), fxm(
        fxm(p.2, 2 * (SCALE as int)), 0)));
}

/// Axis-aligned pick round trip: a unit-length ray cast along any
/// coordinate axis, in either direction, straight through the center of
/// an unrotated default-scale entity from distance d, hits that entity at
/// parameter exactly d - HALF/2. With the ray starting a full scale away
/// (d equal to the scale), the hit distance is exactly half the entity's
/// scale along that axis.
#[verifier::rlimit(100)]
pub proof fn lemma_axis_ray_pick(p: (int, int, int), d: int, axis: int, sign: int)
    requires
        0 <= axis < 3,
        sign == 1 || sign == -1,
        250_000 <= d <= 100_000_000_000,
        iabs(p.0) <= 100_000_000_000,
        iabs(p.1) <= 100_000_000_000,
        iabs(p.2) <= 100_000_000_000,
    ensures
        ({
            let t = Transform {
                position: v3of(p),
                rotation: V3 { x: 0i64, y: 0i64, z: 0i64 },
                scale: V3 { x: HALF, y: HALF, z: HALF },
            };
            let e = if axis == 0 {
                (sign, 0int, 0int)
            } else if axis == 1 {
                (0int, sign, 0int)
            } else {
                (0int, 0int, sign)
            };
            let o = (p.0 - d * e.0, p.1 - d * e.1, p.2 - d * e.2);
            let dir = ((SCALE as int) * e.0, (SCALE as int) * e.1, (SCALE as int) * e.2);
            local_hit(t, o, dir) == Option::Some(d - 250_000)
        }),
{
    let t = Transform {
        position: v3of(p),
        rotation: V3 { x: 0i64, y: 0i64, z: 0i64 },
        scale: V3 { x: HALF, y: HALF, z: HALF },
    };
    lemma_inv_model_default(p);
    let inv = inv_model_val(t);
    let e = if axis == 0 {
        (sign, 0int, 0int)
    } else if axis == 1 {
        (0int, sign, 0int)
    } else {
        (0int, 0int, sign)
    };
    let o = (p.0 - d * e.0, p.1 - d * e.1, p.2 - d * e.2);
    let dir = ((SCALE as int) * e.0, (SCALE as int) * e.1, (SCALE as int) * e.2);
    assert(d * sign == (if sign == 1 {
        d
    } else {
        -d
    })) by (nonlinear_arith)
        requires
            sign == 1 || sign == -1,
    ;
    assert((SCALE as int) * sign == (if sign == 1 {
        SCALE as int
    } else {
        -(SCALE as int)
    })) by (nonlinear_arith)
        requires
            sign == 1 || sign == -1,
    ;
    assert((2 * (SCALE as int)) * sign == (if sign == 1 {
        2 * (SCALE as int)
    } else {
        -2 * (SCALE as int)
    })) by (nonlinear_arith)
        requires
            sign == 1 || sign == -1,
    ;
    assert(d * 0int == 0 && (SCALE as int) * 0int == 0) by (nonlinear_arith);
    assert(iabs(o.0) <= 200_000_000_000);
    assert(iabs(o.1) <= 200_000_000_000);
    assert(iabs(o.2) <= 200_000_000_000);
    assert(iabs(dir.0) <= 1_000_000 && iabs(dir.1) <= 1_000_000 && iabs(dir.2) <= 1_000_000);
    lemma_fxm_double(o.0);
    lemma_fxm_double(o.1);
    lemma_fxm_double(o.2);
    lemma_fxm_zero(o.0);
    lemma_fxm_zero(o.1);
    lemma_fxm_zero(o.2);
    lemma_fxm_double(dir.0);
    lemma_fxm_double(dir.1);
    lemma_fxm_double(dir.2);
    lemma_fxm_zero(dir.0);
    lemma_fxm_zero(dir.1);
    lemma_fxm_zero(dir.2);
    let lo = tp_val(inv, o);
    let ld = td_val(inv, dir);
    assert(lo == (2 * (o.0 - p.0), 2 * (o.1 - p.1), 2 * (o.2 - p.2)));
    assert(ld == (2 * dir.0, 2 * dir.1, 2 * dir.2));
    // Along the cast axis the local origin is -2 d sign and the local
    // direction 2 SCALE sign; the two other axes are exactly centered.
    let s2 = 2 * (SCALE as int);
    let u = s2 * sign;
    let lo_a = -2 * d * sign;
    assert(axis_slab(lo_a, u, -(HALF as int), HALF as int) == Option::Some(
        (d - 250_000, d + 250_000),
    )) by {
        lemma_qdiv_exact(d - 250_000, s2);
        lemma_qdiv_exact(d + 250_000, s2);
        assert((2 * d - (HALF as int)) * (SCALE as int) == (d - 250_000) * s2);
        assert((2 * d + (HALF as int)) * (SCALE as int) == (d + 250_000) * s2);
        if sign == 1 {
            assert(u == s2 && lo_a == -2 * d);
            assert(iabs(u) >= EPS as int);
            assert(fxs(-(HALF as int), lo_a) == 2 * d - (HALF as int));
            assert(fxs(HALF as int, lo_a) == 2 * d + (HALF as int));
            assert(fxd(fxs(-(HALF as int), lo_a), u) == d - 250_000);
            assert(fxd(fxs(HALF as int, lo_a), u) == d + 250_000);
        } else {
            // Numerator and divisor both change sign, so each quotient is
            // unchanged and the two slab parameters swap places.
            assert(u == -s2 && lo_a == 2 * d);
            assert(iabs(u) >= EPS as int);
            assert(fxs(-(HALF as int), lo_a) == -(2 * d) - (HALF as int));
            assert(fxs(HALF as int, lo_a) == (HALF as int) - 2 * d);
            assert((-(2 * d) - (HALF as int)) * (SCALE as int) == -((2 * d + (HALF as int)) * (
            SCALE as int)));
            assert(((HALF as int) - 2 * d) * (SCALE as int) == -((2 * d - (HALF as int)) * (
            SCALE as int)));
            lemma_qdiv_neg_neg((2 * d + (HALF as int)) * (SCALE as int), s2);
            lemma_qdiv_neg_neg((2 * d - (HALF as int)) * (SCALE as int), s2);
            assert(fxd(fxs(-(HALF as int), lo_a), u) == d + 250_000);
            assert(fxd(fxs(HALF as int, lo_a), u) == d - 250_000);
        }
    }
    assert(axis_slab(0int, 0int, -(HALF as int), HALF as int) == Option::Some(
        (-(FX_MAX as int), FX_MAX as int),
    ));
    if axis == 0 {
        assert(lo == (lo_a, 0int, 0int));
        assert(ld == (u, 0int, 0int));
        assert(ray_box_val(lo, ld) == Option::Some(d - 250_000));
    } else if axis == 1 {
        assert(lo == (0int, lo_a, 0int));
        assert(ld == (0int, u, 0int));
        assert(ray_box_val(lo, ld) == Option::Some(d - 250_000));
    } else {
        assert(lo == (0int, 0int, lo_a));
        assert(ld == (0int, 0int, u));
        assert(ray_box_val(lo, ld) == Option::Some(d - 250_000));
    }
}
/// a selected entity with a transform at Q, stores the offset Q - P; a
/// later drag step whose ray meets the plane at P' places that entity at
/// exactly P' + (Q - P).
pub proof fn lemma_drag_round_trip(
    ts: Seq<Option<Transform>>,
    sel: Seq<bool>,
    dragging: Seq<bool>,
    offs: Seq<V3>,
    r1: DragRay,
    r2: DragRay,
    i: int,
)
    requires
        sel.len() == ts.len(),
        dragging.len() == ts.len(),
        offs.len() == ts.len(),
        0 <= i < ts.len(),
        sel[i],
        ts[i] is Some,
        plane_hit_val(v3i(r1.origin), v3i(r1.dir), 0) is Some,
        plane_hit_val(v3i(r2.origin), v3i(r2.dir), 0) is Some,
    ensures
        ({
            let p1 = plane_hit_val(v3i(r1.origin), v3i(r1.dir), 0)->0;
            let p2 = plane_hit_val(v3i(r2.origin), v3i(r2.dir), 0)->0;
            let q = v3i(ts[i]->0.position);
            let offs1 = begin_drag_offsets(ts, sel, offs, p1);
            let drag1 = begin_drag_flags(ts, sel, dragging);
            let after = drag_val(ts, drag1, offs1, Option::Some(r2));
            &&& v3i(offs1[i]) == t3s(q, p1)
            &&& after.len() == ts.len()
            &&& after[i] is Some
            &&& v3i(after[i]->0.position) == t3a(p2, t3s(q, p1))
        }),
{
    let p1 = plane_hit_val(v3i(r1.origin), v3i(r1.dir), 0)->0;
    let p2 = plane_hit_val(v3i(r2.origin), v3i(r2.dir), 0)->0;
    let q = v3i(ts[i]->0.position);
    let offs1 = begin_drag_offsets(ts, sel, offs, p1);
    let drag1 = begin_drag_flags(ts, sel, dragging);
    assert(v3i(offs1[i]) == t3s(q, p1));
    let after = drag_val(ts, drag1, offs1, Option::Some(r2));
    assert(drag1[i]);
    assert(after[i] == Option::Some(
        Transform {
            position: v3of(t3a(p2, v3i(offs1[i]))),
            rotation: ts[i]->0.rotation,
            scale: ts[i]->0.scale,
        },
    ));
}

} // verus!
