//! Ray intersection: the slab method against axis-aligned boxes, and the
//! horizontal reference plane used by dragging. A direction component whose
//! magnitude is below `EPS` counts as parallel to that slab pair: the axis
//! constrains nothing when the origin lies between the planes and rejects the
//! ray otherwise, so no degenerate quotient is ever formed.

use vstd::prelude::*;

use crate::fixed::{
    fx_add, fx_div, fx_mul, fx_sub, fxa, fxd, fxm, fxs, iabs, imax, imin, EPS, FX_MAX, HALF,
};
use crate::types::{t3a, t3s, v3i, Transform, V3};

verus! {

/// An i64 option as a mathematical option.
pub open spec fn oi(r: Option<i64>) -> Option<int> {
    match r {
        Option::None => Option::None,
        Option::Some(v) => Option::Some(v as int),
    }
}

/// A vector option as a mathematical option.
pub open spec fn ov(r: Option<V3>) -> Option<(int, int, int)> {
    match r {
        Option::None => Option::None,
        Option::Some(v) => Option::Some(v3i(v)),
    }
}

/// Parameter interval in which a ray stays between the two planes of one
/// axis; None when it runs parallel outside them.
pub open spec fn axis_slab(o: int, d: int, lo: int, hi: int) -> Option<(int, int)> {
    if iabs(d) < EPS as int {
        if lo <= o <= hi {
            Option::Some((-(FX_MAX as int), FX_MAX as int))
        } else {
            Option::None
        }
    } else {
        let t1 = fxd(fxs(lo, o), d);
        let t2 = fxd(fxs(hi, o), d);
        if t1 <= t2 {
            Option::Some((t1, t2))
        } else {
            Option::Some((t2, t1))
        }
    }
}

/// Slab-method intersection of a ray with the box [lo, hi] on all three
/// axes: the earliest parameter still inside every slab. With forward_only,
/// an entry behind the ray origin is rejected.
pub open spec fn slab_val(
    o: (int, int, int),
    d: (int, int, int),
    lo: (int, int, int),
    hi: (int, int, int),
    forward_only: bool,
) -> Option<int> {
    match axis_slab(o.0, d.0, lo.0, hi.0) {
        Option::None => Option::None,
        Option::Some(ix) => match axis_slab(o.1, d.1, lo.1, hi.1) {
            Option::None => Option::None,
            Option::Some(iy) => {
                let tmin1 = imax(ix.0, iy.0);
                let tmax1 = imin(ix.1, iy.1);
                if tmin1 > tmax1 {
                    Option::None
                } else {
                    match axis_slab(o.2, d.2, lo.2, hi.2) {
                        Option::None => Option::None,
                        Option::Some(iz) => {
                            let tmin2 = imax(tmin1, iz.0);
                            let tmax2 = imin(tmax1, iz.1);
                            if tmin2 > tmax2 {
                                Option::None
                            } else if forward_only && tmin2 < 0 {
                                Option::None
                            } else {
                                Option::Some(tmin2)
                            }
                        },
                    }
                }
            },
        },
    }
}

/// Hit parameter of a ray against the canonical unit-centered box
/// [-1/2, 1/2]^3, hits behind the origin rejected.
pub open spec fn ray_box_val(o: (int, int, int), d: (int, int, int)) -> Option<int> {
    slab_val(
        o,
        d,
        (-(HALF as int), -(HALF as int), -(HALF as int)),
        (HALF as int, HALF as int, HALF as int),
        true,
    )
}

/// Hit parameter of a world-space ray against the cube centered on a
/// transform's position with half-extent its scale; an entry behind the
/// origin is reported as-is.
pub open spec fn ray_cube_val(o: (int, int, int), d: (int, int, int), t: Transform) -> Option<
    int,
> {
    slab_val(o, d, t3s(v3i(t.position), v3i(t.scale)), t3a(v3i(t.position), v3i(t.scale)), false)
}

/// Point where a ray meets the horizontal plane at the given height; None
/// when the ray runs parallel to the plane or crosses it behind the origin.
pub open spec fn plane_hit_val(o: (int, int, int), d: (int, int, int), plane_y: int) -> Option<
    (int, int, int),
> {
    if iabs(d.1) < EPS as int {
        Option::None
    } else {
        let t = fxd(fxs(plane_y, o.1), d.1);
        if t < 0 {
            Option::None
        } else {
            Option::Some((fxa(o.0, fxm(d.0, t)), plane_y, fxa(o.2, fxm(d.2, t))))
        }
    }
}

fn axis_slab_exec(o: i64, d: i64, lo: i64, hi: i64) -> (r: Option<(i64, i64)>)
    ensures
        match r {
            Option::None => axis_slab(o as int, d as int, lo as int, hi as int) is None,
            Option::Some(p) => axis_slab(o as int, d as int, lo as int, hi as int)
                == Option::Some((p.0 as int, p.1 as int)),
        },
{
    if -EPS < d && d < EPS {
        if lo <= o && o <= hi {
            Some((-FX_MAX, FX_MAX))
        } else {
            None
        }
    } else {
        let t1 = fx_div(fx_sub(lo, o), d);
        let t2 = fx_div(fx_sub(hi, o), d);
        if t1 <= t2 {
            Some((t1, t2))
        } else {
            Some((t2, t1))
        }
    }
}

fn ray_slab(origin: V3, dir: V3, lo: V3, hi: V3, forward_only: bool) -> (r: Option<i64>)
    ensures
        oi(r) == slab_val(v3i(origin), v3i(dir), v3i(lo), v3i(hi), forward_only),
{
    let ix = match axis_slab_exec(origin.x, dir.x, lo.x, hi.x) {
        None => return None,
        Some(p) => p,
    };
    let iy = match axis_slab_exec(origin.y, dir.y, lo.y, hi.y) {
        None => return None,
        Some(p) => p,
    };
    let tmin1 = if ix.0 < iy.0 {
        iy.0
    } else {
        ix.0
    };
    let tmax1 = if ix.1 < iy.1 {
        ix.1
    } else {
        iy.1
    };
    if tmin1 > tmax1 {
        return None;
    }
    let iz = match axis_slab_exec(origin.z, dir.z, lo.z, hi.z) {
        None => return None,
        Some(p) => p,
    };
    let tmin2 = if tmin1 < iz.0 {
        iz.0
    } else {
        tmin1
    };
    let tmax2 = if tmax1 < iz.1 {
        tmax1
    } else {
        iz.1
    };
    if tmin2 > tmax2 {
        return None;
    }
    if forward_only && tmin2 < 0 {
        return None;
    }
    Some(tmin2)
}

/// Hit of a local-space ray against the canonical unit-centered box.
pub fn ray_aabb(origin: V3, dir: V3) -> (r: Option<i64>)
    ensures
        oi(r) == ray_box_val(v3i(origin), v3i(dir)),
{
    ray_slab(
        origin,
        dir,
        V3 { x: -HALF, y: -HALF, z: -HALF },
        V3 { x: HALF, y: HALF, z: HALF },
        true,
    )
}

/// Hit of a world-space ray against a transform's bounding cube.
pub fn ray_intersects_cube(origin: V3, dir: V3, t: &Transform) -> (r: Option<i64>)
    ensures
        oi(r) == ray_cube_val(v3i(origin), v3i(dir), *t),
{
    let lo = V3 {
        x: fx_sub(t.position.x, t.scale.x),
        y: fx_sub(t.position.y, t.scale.y),
        z: fx_sub(t.position.z, t.scale.z),
    };
    let hi = V3 {
        x: fx_add(t.position.x, t.scale.x),
        y: fx_add(t.position.y, t.scale.y),
        z: fx_add(t.position.z, t.scale.z),
    };
    ray_slab(origin, dir, lo, hi, false)
}

/// Intersection of a ray with the horizontal plane at the given height.
pub fn ray_plane_intersection(origin: V3, dir: V3, plane_y: i64) -> (r: Option<V3>)
    ensures
        ov(r) == plane_hit_val(v3i(origin), v3i(dir), plane_y as int),
{
    if -EPS < dir.y && dir.y < EPS {
        return None;
    }
    let t = fx_div(fx_sub(plane_y, origin.y), dir.y);
    if t < 0 {
        return None;
    }
    Some(
        V3 {
            x: fx_add(origin.x, fx_mul(dir.x, t)),
            y: plane_y,
            z: fx_add(origin.z, fx_mul(dir.z, t)),
        },
    )
}

} // verus!
