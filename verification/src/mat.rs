//! Column-major 4x4 matrices over fixed-point scalars, held as length-16
//! vectors. Each builder returns exactly the matrix given by its spec-level
//! counterpart: the symmetric perspective projection, the look-at view basis,
//! the model matrix composing scale, a single Y rotation and translation, its
//! closed-form inverse, and matrix and point products.

use vstd::prelude::*;

use crate::fixed::{
    fx_add, fx_div, fx_idiv, fx_mul, fx_sqrt, fx_sub, fxa, fxd, fxm, fxs, q_div, sqrt_val, SCALE,
};
use crate::trig::{cos_val, fx_cos, fx_sin, sin_val};
use crate::types::{v3i, Transform, V3};

verus! {

/// The elements of an i64 sequence, as mathematical integers.
pub open spec fn ints(s: Seq<i64>) -> Seq<int> {
    s.map_values(|v: i64| v as int)
}

/// Saturating fixed-point dot product of two triples.
pub open spec fn dot3(a: (int, int, int), b: (int, int, int)) -> int {
    fxa(fxa(fxm(a.0, b.0), fxm(a.1, b.1)), fxm(a.2, b.2))
}

/// Perspective projection from vertical field of view, aspect ratio and the
/// near and far planes, with depth term (far + near) / (near - far).
pub open spec fn pers_val(fov: int, aspect: int, near: int, far: int) -> Seq<int> {
    let h = q_div(fov, 2);
    let f = fxd(cos_val(h), sin_val(h));
    let nf = fxd(SCALE as int, fxs(near, far));
    seq![
        fxd(f, aspect),
        0,
        0,
        0,
        0,
        f,
        0,
        0,
        0,
        0,
        fxm(fxa(far, near), nf),
        -(SCALE as int),
        0,
        0,
        fxm(fxm(fxm(2 * (SCALE as int), far), near), nf),
        0,
    ]
}

/// Look-at view matrix: forward toward the target, right and up from the
/// world up vector (0, 1, 0), translation encoding the eye position. A zero
/// forward or right length degenerates to zero rows (division by zero yields
/// zero), never to a fault.
pub open spec fn view_val(eye: (int, int, int), target: (int, int, int)) -> Seq<int> {
    let f0 = fxs(target.0, eye.0);
    let f1 = fxs(target.1, eye.1);
    let f2 = fxs(target.2, eye.2);
    let fl = sqrt_val(dot3((f0, f1, f2), (f0, f1, f2)));
    let fnx = fxd(f0, fl);
    let fny = fxd(f1, fl);
    let fnz = fxd(f2, fl);
    let s0 = -fnz;
    let s2 = fnx;
    let sl = sqrt_val(dot3((s0, 0, s2), (s0, 0, s2)));
    let snx = fxd(s0, sl);
    let sny = fxd(0, sl);
    let snz = fxd(s2, sl);
    let u0 = fxs(fxm(sny, fnz), fxm(snz, fny));
    let u1 = fxs(fxm(snz, fnx), fxm(snx, fnz));
    let u2 = fxs(fxm(snx, fny), fxm(sny, fnx));
    seq![
        snx,
        u0,
        -fnx,
        0,
        sny,
        u1,
        -fny,
        0,
        snz,
        u2,
        -fnz,
        0,
        -dot3((snx, sny, snz), eye),
        -dot3((u0, u1, u2), eye),
        dot3((fnx, fny, fnz), eye),
        SCALE as int,
    ]
}

/// Model matrix: scale, then rotation about Y, then translation.
pub open spec fn model_val(t: Transform) -> Seq<int> {
    let c = cos_val(t.rotation.y as int);
    let sn = sin_val(t.rotation.y as int);
    let sx = t.scale.x as int;
    let sy = t.scale.y as int;
    let sz = t.scale.z as int;
    seq![
        fxm(sx, c),
        0,
        fxm(sx, sn),
        0,
        0,
        sy,
        0,
        0,
        -fxm(sz, sn),
        0,
        fxm(sz, c),
        0,
        t.position.x as int,
        t.position.y as int,
        t.position.z as int,
        SCALE as int,
    ]
}

/// Closed-form inverse of the model matrix, exploiting its diagonal-scale
/// plus single-axis-rotation structure. A zero scale component degenerates
/// to zero rows (division by zero yields zero).
pub open spec fn inv_model_val(t: Transform) -> Seq<int> {
    let c = cos_val(t.rotation.y as int);
    let sn = sin_val(t.rotation.y as int);
    let isx = fxd(SCALE as int, t.scale.x as int);
    let isy = fxd(SCALE as int, t.scale.y as int);
    let isz = fxd(SCALE as int, t.scale.z as int);
    let px = t.position.x as int;
    let py = t.position.y as int;
    let pz = t.position.z as int;
    seq![
        fxm(isx, c),
        0,
        -fxm(isz, sn),
        0,
        0,
        isy,
        0,
        0,
        fxm(isx, sn),
        0,
        fxm(isz, c),
        0,
        -fxa(fxm(fxm(px, isx), c), fxm(fxm(pz, isx), sn)),
        -fxm(py, isy),
        fxs(fxm(fxm(px, isz), sn), fxm(fxm(pz, isz), c)),
        SCALE as int,
    ]
}

/// One entry of the product of two column-major matrices.
pub open spec fn mm_entry(a: Seq<int>, b: Seq<int>, k: int) -> int {
    let col = k / 4;
    let row = k % 4;
    fxa(
        fxa(
            fxa(fxm(a[row], b[4 * col]), fxm(a[4 + row], b[4 * col + 1])),
            fxm(a[8 + row], b[4 * col + 2]),
        ),
        fxm(a[12 + row], b[4 * col + 3]),
    )
}

/// Product of two column-major matrices (a applied after b).
pub open spec fn mat_mul_val(a: Seq<int>, b: Seq<int>) -> Seq<int> {
    Seq::new(16, |k: int| mm_entry(a, b, k))
}

/// A point carried through a matrix, with the translation column applied.
pub open spec fn tp_val(m: Seq<int>, p: (int, int, int)) -> (int, int, int) {
    (
        fxa(fxa(fxa(fxm(m[0], p.0), fxm(m[4], p.1)), fxm(m[8], p.2)), m[12]),
        fxa(fxa(fxa(fxm(m[1], p.0), fxm(m[5], p.1)), fxm(m[9], p.2)), m[13]),
        fxa(fxa(fxa(fxm(m[2], p.0), fxm(m[6], p.1)), fxm(m[10], p.2)), m[14]),
    )
}

/// A direction carried through a matrix, ignoring translation.
pub open spec fn td_val(m: Seq<int>, d: (int, int, int)) -> (int, int, int) {
    (
        fxa(fxa(fxm(m[0], d.0), fxm(m[4], d.1)), fxm(m[8], d.2)),
        fxa(fxa(fxm(m[1], d.0), fxm(m[5], d.1)), fxm(m[9], d.2)),
        fxa(fxa(fxm(m[2], d.0), fxm(m[6], d.1)), fxm(m[10], d.2)),
    )
}

pub fn perspective(fov: i64, aspect: i64, near: i64, far: i64) -> (m: Vec<i64>)
    ensures
        m@.len() == 16,
        ints(m@) == pers_val(fov as int, aspect as int, near as int, far as int),
{
    let h = fx_idiv(fov, 2);
    let f = fx_div(fx_cos(h), fx_sin(h));
    let nf = fx_div(SCALE, fx_sub(near, far));
    let mut m: Vec<i64> = Vec::new();
    m.push(fx_div(f, aspect));
    m.push(0);
    m.push(0);
    m.push(0);
    m.push(0);
    m.push(f);
    m.push(0);
    m.push(0);
    m.push(0);
    m.push(0);
    m.push(fx_mul(fx_add(far, near), nf));
    m.push(-SCALE);
    m.push(0);
    m.push(0);
    m.push(fx_mul(fx_mul(fx_mul(2_000_000, far), near), nf));
    m.push(0);
    proof {
        assert(ints(m@) =~= pers_val(fov as int, aspect as int, near as int, far as int));
    }
    m
}

pub fn view_matrix(eye: V3, target: V3) -> (m: Vec<i64>)
    ensures
        m@.len() == 16,
        ints(m@) == view_val(v3i(eye), v3i(target)),
{
    let f0 = fx_sub(target.x, eye.x);
    let f1 = fx_sub(target.y, eye.y);
    let f2 = fx_sub(target.z, eye.z);
    let fl = fx_sqrt(fx_add(fx_add(fx_mul(f0, f0), fx_mul(f1, f1)), fx_mul(f2, f2)));
    let fnx = fx_div(f0, fl);
    let fny = fx_div(f1, fl);
    let fnz = fx_div(f2, fl);
    let s0 = fx_sub(0, fnz);
    let s2 = fnx;
    let sl = fx_sqrt(fx_add(fx_add(fx_mul(s0, s0), fx_mul(0, 0)), fx_mul(s2, s2)));
    let snx = fx_div(s0, sl);
    let sny = fx_div(0, sl);
    let snz = fx_div(s2, sl);
    let u0 = fx_sub(fx_mul(sny, fnz), fx_mul(snz, fny));
    let u1 = fx_sub(fx_mul(snz, fnx), fx_mul(snx, fnz));
    let u2 = fx_sub(fx_mul(snx, fny), fx_mul(sny, fnx));
    let mut m: Vec<i64> = Vec::new();
    m.push(snx);
    m.push(u0);
    m.push(fx_sub(0, fnx));
    m.push(0);
    m.push(sny);
    m.push(u1);
    m.push(fx_sub(0, fny));
    m.push(0);
    m.push(snz);
    m.push(u2);
    m.push(fx_sub(0, fnz));
    m.push(0);
    m.push(fx_sub(0, fx_add(fx_add(fx_mul(snx, eye.x), fx_mul(sny, eye.y)), fx_mul(snz, eye.z))));
    m.push(fx_sub(0, fx_add(fx_add(fx_mul(u0, eye.x), fx_mul(u1, eye.y)), fx_mul(u2, eye.z))));
    m.push(fx_add(fx_add(fx_mul(fnx, eye.x), fx_mul(fny, eye.y)), fx_mul(fnz, eye.z)));
    m.push(SCALE);
    proof {
        assert(ints(m@) =~= view_val(v3i(eye), v3i(target)));
    }
    m
}

pub fn model_matrix(t: &Transform) -> (m: Vec<i64>)
    ensures
        m@.len() == 16,
        ints(m@) == model_val(*t),
{
    let c = fx_cos(t.rotation.y);
    let sn = fx_sin(t.rotation.y);
    let mut m: Vec<i64> = Vec::new();
    m.push(fx_mul(t.scale.x, c));
    m.push(0);
    m.push(fx_mul(t.scale.x, sn));
    m.push(0);
    m.push(0);
    m.push(t.scale.y);
    m.push(0);
    m.push(0);
    m.push(fx_sub(0, fx_mul(t.scale.z, sn)));
    m.push(0);
    m.push(fx_mul(t.scale.z, c));
    m.push(0);
    m.push(t.position.x);
    m.push(t.position.y);
    m.push(t.position.z);
    m.push(SCALE);
    proof {
        assert(ints(m@) =~= model_val(*t));
    }
    m
}

pub fn invert_model(t: &Transform) -> (m: Vec<i64>)
    ensures
        m@.len() == 16,
        ints(m@) == inv_model_val(*t),
{
    let c = fx_cos(t.rotation.y);
    let sn = fx_sin(t.rotation.y);
    let isx = fx_div(SCALE, t.scale.x);
    let isy = fx_div(SCALE, t.scale.y);
    let isz = fx_div(SCALE, t.scale.z);
    let mut m: Vec<i64> = Vec::new();
    m.push(fx_mul(isx, c));
    m.push(0);
    m.push(fx_sub(0, fx_mul(isz, sn)));
    m.push(0);
    m.push(0);
    m.push(isy);
    m.push(0);
    m.push(0);
    m.push(fx_mul(isx, sn));
    m.push(0);
    m.push(fx_mul(isz, c));
    m.push(0);
    m.push(
        fx_sub(
            0,
            fx_add(fx_mul(fx_mul(t.position.x, isx), c), fx_mul(fx_mul(t.position.z, isx), sn)),
        ),
    );
    m.push(fx_sub(0, fx_mul(t.position.y, isy)));
    m.push(
        fx_sub(fx_mul(fx_mul(t.position.x, isz), sn), fx_mul(fx_mul(t.position.z, isz), c)),
    );
    m.push(SCALE);
    proof {
        assert(ints(m@) =~= inv_model_val(*t));
    }
    m
}

pub fn mul_mat4(a: &Vec<i64>, b: &Vec<i64>) -> (m: Vec<i64>)
    requires
        a@.len() == 16,
        b@.len() == 16,
    ensures
        m@.len() == 16,
        ints(m@) == mat_mul_val(ints(a@), ints(b@)),
{
    let mut m: Vec<i64> = Vec::new();
    let mut k: usize = 0;
    while k < 16
        invariant
            k <= 16,
            m@.len() == k,
            a@.len() == 16,
            b@.len() == 16,
            forall|j: int|
                0 <= j < k ==> ints(m@)[j] == mat_mul_val(ints(a@), ints(b@))[j],
        decreases 16 - k,
    {
        let col = k / 4;
        let row = k % 4;
        let e = fx_add(
            fx_add(
                fx_add(
                    fx_mul(a[row], b[4 * col]),
                    fx_mul(a[4 + row], b[4 * col + 1]),
                ),
                fx_mul(a[8 + row], b[4 * col + 2]),
            ),
            fx_mul(a[12 + row], b[4 * col + 3]),
        );
        proof {
            assert(col as int == (k as int) / 4 && row as int == (k as int) % 4);
            assert(e as int == mm_entry(ints(a@), ints(b@), k as int));
        }
        let ghost pre = m@;
        m.push(e);
        proof {
            assert(m@ == pre.push(e));
            assert forall|j: int| 0 <= j < k + 1 implies ints(m@)[j] == mat_mul_val(
                ints(a@),
                ints(b@),
            )[j] by {
                assert(mat_mul_val(ints(a@), ints(b@))[j] == mm_entry(ints(a@), ints(b@), j));
                if j < k {
                    assert(m@[j] == pre[j]);
                    assert(ints(pre)[j] == mat_mul_val(ints(a@), ints(b@))[j]);
                } else {
                    assert(m@[j] == e);
                }
            }
        }
        k = k + 1;
    }
    proof {
        assert(ints(m@) =~= mat_mul_val(ints(a@), ints(b@)));
    }
    m
}

pub fn transform_point(m: &Vec<i64>, p: V3) -> (r: V3)
    requires
        m@.len() == 16,
    ensures
        v3i(r) == tp_val(ints(m@), v3i(p)),
{
    V3 {
        x: fx_add(
            fx_add(fx_add(fx_mul(m[0], p.x), fx_mul(m[4], p.y)), fx_mul(m[8], p.z)),
            m[12],
        ),
        y: fx_add(
            fx_add(fx_add(fx_mul(m[1], p.x), fx_mul(m[5], p.y)), fx_mul(m[9], p.z)),
            m[13],
        ),
        z: fx_add(
            fx_add(fx_add(fx_mul(m[2], p.x), fx_mul(m[6], p.y)), fx_mul(m[10], p.z)),
            m[14],
        ),
    }
}

pub fn transform_dir(m: &Vec<i64>, d: V3) -> (r: V3)
    requires
        m@.len() == 16,
    ensures
        v3i(r) == td_val(ints(m@), v3i(d)),
{
    V3 {
        x: fx_add(fx_add(fx_mul(m[0], d.x), fx_mul(m[4], d.y)), fx_mul(m[8], d.z)),
        y: fx_add(fx_add(fx_mul(m[1], d.x), fx_mul(m[5], d.y)), fx_mul(m[9], d.z)),
        z: fx_add(fx_add(fx_mul(m[2], d.x), fx_mul(m[6], d.y)), fx_mul(m[10], d.z)),
    }
}

} // verus!
