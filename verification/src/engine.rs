//! The engine: parallel per-entity stores, the orbit camera, ray picking,
//! the drag state machine, and the packed render buffer. Every mutating
//! operation's contract pins the new state exactly in terms of the old one.

use vstd::prelude::*;

use crate::fixed::{
    fx_add, fx_clamp, fx_div, fx_idiv, fx_mul, fx_sqrt, fx_sub, fxa, fxclamp, fxd, fxm, q_div,
    sqrt_val, EPS, HALF, SCALE,
};
use crate::mat::{
    ints, inv_model_val, mat_mul_val, model_matrix, model_val, mul_mat4, invert_model, pers_val,
    perspective, td_val, tp_val, transform_dir, transform_point, view_matrix, view_val,
};
use crate::ray::{plane_hit_val, ray_aabb, ray_box_val, ray_plane_intersection};
use crate::trig::{asin_val, atan2_val, cos_val, fx_asin, fx_atan2, fx_cos, fx_sin, sin_val};
use crate::types::{t3a, t3s, v3i, v3of, Camera, DragRay, EngineError, Transform, Velocity, V3};

verus! {

/// Camera pitch is clamped into [-PITCH_MAX, PITCH_MAX] by every orbit call.
pub const PITCH_MAX: i64 = 1_500_000;
/// Camera distance is clamped into [DIST_MIN, DIST_MAX] by every zoom call.
pub const DIST_MIN: i64 = 1_500_000;
pub const DIST_MAX: i64 = 50_000_000;

/// Entity identifiers: indices into the per-entity stores, assigned 0, 1,
/// 2, ... in creation order and never reused.
pub type Entity = u32;

pub struct Engine {
    pub time: i64,
    pub delta: i64,
    pub next_entity: Entity,
    pub transforms: Vec<Option<Transform>>,
    pub velocities: Vec<Option<Velocity>>,
    pub selected: Vec<bool>,
    pub dragging: Vec<bool>,
    pub drag_offset: Vec<V3>,
    pub current_drag_ray: Option<DragRay>,
    pub camera: Option<Camera>,
    pub render_buffer: Vec<i64>,
    pub view_proj: Vec<i64>,
}

/// One simulation step of a single entity: both components present advance
/// the position by velocity times elapsed time and spin the Y rotation by
/// the elapsed time; otherwise the slot is untouched.
pub open spec fn advance_one(t: Option<Transform>, v: Option<Velocity>, delta: int) -> Option<
    Transform,
> {
    if t is Some && v is Some {
        let tr = t->0;
        let vl = v->0.linear;
        Option::Some(
            Transform {
                position: v3of(
                    t3a(
                        v3i(tr.position),
                        (
                            fxm(vl.x as int, delta),
                            fxm(vl.y as int, delta),
                            fxm(vl.z as int, delta),
                        ),
                    ),
                ),
                rotation: V3 {
                    x: tr.rotation.x,
                    y: fxa(tr.rotation.y as int, delta) as i64,
                    z: tr.rotation.z,
                },
                scale: tr.scale,
            },
        )
    } else {
        t
    }
}

/// All transforms advanced by one simulation step.
pub open spec fn integrate_val(
    ts: Seq<Option<Transform>>,
    vs: Seq<Option<Velocity>>,
    delta: int,
) -> Seq<Option<Transform>> {
    Seq::new(ts.len(), |i: int| advance_one(ts[i], vs[i], delta))
}

/// The RGBA highlight of a selected entity, or the default body color.
pub open spec fn color_val(selected: bool) -> Seq<int> {
    if selected {
        seq![SCALE as int, 300_000int, 100_000int, SCALE as int]
    } else {
        seq![200_000int, 700_000int, SCALE as int, SCALE as int]
    }
}

/// The packed render buffer over the first n entities: 16 model-matrix
/// entries then 4 color entries for each entity with a transform, in
/// ascending entity order; entities without a transform contribute nothing.
pub open spec fn render_val(ts: Seq<Option<Transform>>, sel: Seq<bool>, n: int) -> Seq<int>
    decreases n,
{
    if n <= 0 {
        Seq::empty()
    } else {
        let pre = render_val(ts, sel, n - 1);
        if ts[n - 1] is Some {
            pre + model_val(ts[n - 1]->0) + color_val(sel[n - 1])
        } else {
            pre
        }
    }
}

/// Number of entities among the first n that have a transform.
pub open spec fn count_transforms(ts: Seq<Option<Transform>>, n: int) -> int
    decreases n,
{
    if n <= 0 {
        0
    } else {
        count_transforms(ts, n - 1) + if ts[n - 1] is Some {
            1int
        } else {
            0int
        }
    }
}

/// The camera eye derived from the orbit parameters:
/// target + distance * (cos(pitch) sin(yaw), sin(pitch), cos(pitch) cos(yaw)).
pub open spec fn orbit_eye_val(c: Camera) -> (int, int, int) {
    let cp = cos_val(c.pitch as int);
    t3a(
        v3i(c.target),
        (
            fxm(fxm(c.distance as int, cp), sin_val(c.yaw as int)),
            fxm(c.distance as int, sin_val(c.pitch as int)),
            fxm(fxm(c.distance as int, cp), cos_val(c.yaw as int)),
        ),
    )
}

/// The view-projection matrix recomputed from the camera each frame.
pub open spec fn view_proj_val(c: Camera) -> Seq<int> {
    mat_mul_val(
        pers_val(c.fov as int, c.aspect as int, c.near as int, c.far as int),
        view_val(orbit_eye_val(c), v3i(c.target)),
    )
}

/// The camera configured from an eye position: the orbit target is the
/// world origin, and yaw, pitch and distance are back-solved so the initial
/// view matches a look-at camera from that eye. The distance is floored at
/// EPS against a zero-length eye vector.
pub open spec fn camera_from_eye(
    px: int,
    py: int,
    pz: int,
    fov: int,
    aspect: int,
    near: int,
    far: int,
) -> Camera {
    let d2 = fxa(fxa(fxm(px, px), fxm(py, py)), fxm(pz, pz));
    let dist = sqrt_val(d2);
    let safe = if dist < EPS as int {
        EPS as int
    } else {
        dist
    };
    Camera {
        target: V3 { x: 0i64, y: 0i64, z: 0i64 },
        yaw: atan2_val(px, pz) as i64,
        pitch: asin_val(fxd(py, safe)) as i64,
        distance: safe as i64,
        fov: fov as i64,
        near: near as i64,
        far: far as i64,
        aspect: aspect as i64,
    }
}

/// An orbit call: yaw moves freely, pitch is clamped.
pub open spec fn orbit_val(c: Camera, dx: int, dy: int) -> Camera {
    Camera {
        yaw: fxa(c.yaw as int, dx) as i64,
        pitch: fxclamp(fxa(c.pitch as int, dy), -(PITCH_MAX as int), PITCH_MAX as int) as i64,
        ..c
    }
}

/// A zoom call: distance is clamped.
pub open spec fn zoom_val(c: Camera, d: int) -> Camera {
    Camera {
        distance: fxclamp(fxa(c.distance as int, d), DIST_MIN as int, DIST_MAX as int) as i64,
        ..c
    }
}

/// A pan call: the target shifts in the X/Y plane.
pub open spec fn pan_val(c: Camera, dx: int, dy: int) -> Camera {
    Camera {
        target: V3 {
            x: fxa(c.target.x as int, dx) as i64,
            y: fxa(c.target.y as int, dy) as i64,
            z: c.target.z,
        },
        ..c
    }
}

/// Component sums and count of the selected entities with transforms among
/// the first n, for the focus centroid.
pub open spec fn centroid_val(ts: Seq<Option<Transform>>, sel: Seq<bool>, n: int) -> (
    int,
    int,
    int,
    int,
)
    decreases n,
{
    if n <= 0 {
        (0, 0, 0, 0)
    } else {
        let p = centroid_val(ts, sel, n - 1);
        if sel[n - 1] && ts[n - 1] is Some {
            let q = ts[n - 1]->0.position;
            (fxa(p.0, q.x as int), fxa(p.1, q.y as int), fxa(p.2, q.z as int), p.3 + 1)
        } else {
            p
        }
    }
}

/// Hit parameter of a world ray against one entity: the ray is carried into
/// the entity's local space by the inverse model matrix and intersected with
/// the canonical unit-centered box.
pub open spec fn local_hit(t: Transform, o: (int, int, int), d: (int, int, int)) -> Option<int> {
    let inv = inv_model_val(t);
    ray_box_val(tp_val(inv, o), td_val(inv, d))
}

/// The nearest hit among the first n entities: pairs the winning entity
/// index with its hit parameter; an earlier entity keeps an exact tie.
pub open spec fn best_hit(
    ts: Seq<Option<Transform>>,
    o: (int, int, int),
    d: (int, int, int),
    n: int,
) -> Option<(int, int)>
    decreases n,
{
    if n <= 0 {
        Option::None
    } else {
        let prev = best_hit(ts, o, d, n - 1);
        if ts[n - 1] is Some {
            match local_hit(ts[n - 1]->0, o, d) {
                Option::None => prev,
                Option::Some(t) => match prev {
                    Option::None => Option::Some((n - 1, t)),
                    Option::Some(p) => if t < p.1 {
                        Option::Some((n - 1, t))
                    } else {
                        prev
                    },
                },
            }
        } else {
            prev
        }
    }
}

/// Drag flags after a drag begins: every selected entity with a transform
/// starts dragging, the rest keep their flag.
pub open spec fn begin_drag_flags(
    ts: Seq<Option<Transform>>,
    sel: Seq<bool>,
    dragging: Seq<bool>,
) -> Seq<bool> {
    Seq::new(
        dragging.len(),
        |i: int|
            if sel[i] && ts[i] is Some {
                true
            } else {
                dragging[i]
            },
    )
}

/// Drag offsets after a drag begins at plane hit point h: every selected
/// entity with a transform records position - h, the rest keep theirs.
pub open spec fn begin_drag_offsets(
    ts: Seq<Option<Transform>>,
    sel: Seq<bool>,
    offs: Seq<V3>,
    h: (int, int, int),
) -> Seq<V3> {
    Seq::new(
        offs.len(),
        |i: int|
            if sel[i] && ts[i] is Some {
                v3of(t3s(v3i(ts[i]->0.position), h))
            } else {
                offs[i]
            },
    )
}

/// The dragged transforms: while a current ray exists and meets the ground
/// plane, every dragging entity with a transform is re-anchored to the hit
/// point plus its stored offset; everything else is untouched.
pub open spec fn drag_val(
    ts: Seq<Option<Transform>>,
    dragging: Seq<bool>,
    offs: Seq<V3>,
    ray: Option<DragRay>,
) -> Seq<Option<Transform>> {
    match ray {
        Option::None => ts,
        Option::Some(r) => match plane_hit_val(v3i(r.origin), v3i(r.dir), 0) {
            Option::None => ts,
            Option::Some(h) => Seq::new(
                ts.len(),
                |i: int|
                    if dragging[i] && ts[i] is Some {
                        Option::Some(
                            Transform {
                                position: v3of(t3a(h, v3i(offs[i]))),
                                rotation: ts[i]->0.rotation,
                                scale: ts[i]->0.scale,
                            },
                        )
                    } else {
                        ts[i]
                    },
            ),
        },
    }
}

impl Engine {
    /// All per-entity stores stay in lockstep with the id counter, and the
    /// view-projection matrix always holds 16 entries.
    pub open spec fn wf(self) -> bool {
        &&& self.transforms@.len() == self.next_entity as int
        &&& self.velocities@.len() == self.next_entity as int
        &&& self.selected@.len() == self.next_entity as int
        &&& self.dragging@.len() == self.next_entity as int
        &&& self.drag_offset@.len() == self.next_entity as int
        &&& self.view_proj@.len() == 16
    }

    /// The number of entities created so far.
    pub open spec fn entity_count(self) -> int {
        self.next_entity as int
    }

    /// Both engines hold the same per-entity data.
    pub open spec fn same_entities(self, other: Engine) -> bool {
        &&& other.next_entity == self.next_entity
        &&& other.transforms@ == self.transforms@
        &&& other.velocities@ == self.velocities@
        &&& other.selected@ == self.selected@
        &&& other.dragging@ == self.dragging@
        &&& other.drag_offset@ == self.drag_offset@
    }

    /// Both engines hold the same frame outputs and clocks.
    pub open spec fn same_frame(self, other: Engine) -> bool {
        &&& other.time == self.time
        &&& other.delta == self.delta
        &&& other.render_buffer@ == self.render_buffer@
        &&& other.view_proj@ == self.view_proj@
    }

    pub fn new() -> (e: Engine)
        ensures
            e.wf(),
            e.entity_count() == 0,
            e.time == 0,
            e.delta == 0,
            e.camera is None,
            e.current_drag_ray is None,
            e.render_buffer@.len() == 0,
            forall|i: int| 0 <= i < 16 ==> e.view_proj@[i] == 0i64,
    {
        let mut vp: Vec<i64> = Vec::new();
        let mut i: usize = 0;
        while i < 16
            invariant
                i <= 16,
                vp@.len() == i,
                forall|j: int| 0 <= j < i ==> vp@[j] == 0i64,
            decreases 16 - i,
        {
            vp.push(0);
            i = i + 1;
        }
        Engine {
            time: 0,
            delta: 0,
            next_entity: 0,
            transforms: Vec::new(),
            velocities: Vec::new(),
            selected: Vec::new(),
            dragging: Vec::new(),
            drag_offset: Vec::new(),
            current_drag_ray: None,
            camera: None,
            render_buffer: Vec::new(),
            view_proj: vp,
        }
    }

    /// Allocates the next entity id and appends one default slot to every
    /// per-entity store.
    pub fn create_entity(&mut self) -> (id: Entity)
        requires
            old(self).wf(),
            old(self).entity_count() < u32::MAX as int,
        ensures
            final(self).wf(),
            id as int == old(self).entity_count(),
            final(self).next_entity == old(self).next_entity + 1,
            final(self).transforms@ == old(self).transforms@.push(Option::None),
            final(self).velocities@ == old(self).velocities@.push(Option::None),
            final(self).selected@ == old(self).selected@.push(false),
            final(self).dragging@ == old(self).dragging@.push(false),
            final(self).drag_offset@ == old(self).drag_offset@.push(
                V3 { x: 0i64, y: 0i64, z: 0i64 },
            ),
            final(self).camera == old(self).camera,
            final(self).current_drag_ray == old(self).current_drag_ray,
            old(self).same_frame(*final(self)),
    {
        let id = self.next_entity;
        self.next_entity = self.next_entity + 1;
        self.transforms.push(None);
        self.velocities.push(None);
        self.selected.push(false);
        self.dragging.push(false);
        self.drag_offset.push(V3 { x: 0, y: 0, z: 0 });
        id
    }

    /// Installs a transform at the given position, with zero rotation and
    /// the default half-unit scale; rejects an unallocated id.
    pub fn add_transform(&mut self, entity: Entity, px: i64, py: i64, pz: i64) -> (res: Result<
        (),
        EngineError,
    >)
        requires
            old(self).wf(),
        ensures
            final(self).wf(),
            (entity as int) < old(self).entity_count() ==> {
                &&& res is Ok
                &&& final(self).transforms@ == old(self).transforms@.update(
                    entity as int,
                    Option::Some(
                        Transform {
                            position: V3 { x: px, y: py, z: pz },
                            rotation: V3 { x: 0i64, y: 0i64, z: 0i64 },
                            scale: V3 { x: HALF, y: HALF, z: HALF },
                        },
                    ),
                )
            },
            (entity as int) >= old(self).entity_count() ==> {
                &&& res == Result::<(), EngineError>::Err(EngineError::InvalidEntity)
                &&& final(self).transforms@ == old(self).transforms@
            },
            final(self).next_entity == old(self).next_entity,
            final(self).velocities@ == old(self).velocities@,
            final(self).selected@ == old(self).selected@,
            final(self).dragging@ == old(self).dragging@,
            final(self).drag_offset@ == old(self).drag_offset@,
            final(self).camera == old(self).camera,
            final(self).current_drag_ray == old(self).current_drag_ray,
            old(self).same_frame(*final(self)),
    {
        let idx = entity as usize;
        if idx >= self.transforms.len() {
            return Err(EngineError::InvalidEntity);
        }
        self.transforms[idx] = Some(
            Transform {
                position: V3 { x: px, y: py, z: pz },
                rotation: V3 { x: 0, y: 0, z: 0 },
                scale: V3 { x: HALF, y: HALF, z: HALF },
            },
        );
        Ok(())
    }

    /// Installs a linear velocity; rejects an unallocated id.
    pub fn add_velocity(&mut self, entity: Entity, vx: i64, vy: i64, vz: i64) -> (res: Result<
        (),
        EngineError,
    >)
        requires
            old(self).wf(),
        ensures
            final(self).wf(),
            (entity as int) < old(self).entity_count() ==> {
                &&& res is Ok
                &&& final(self).velocities@ == old(self).velocities@.update(
                    entity as int,
                    Option::Some(Velocity { linear: V3 { x: vx, y: vy, z: vz } }),
                )
            },
            (entity as int) >= old(self).entity_count() ==> {
                &&& res == Result::<(), EngineError>::Err(EngineError::InvalidEntity)
                &&& final(self).velocities@ == old(self).velocities@
            },
            final(self).next_entity == old(self).next_entity,
            final(self).transforms@ == old(self).transforms@,
            final(self).selected@ == old(self).selected@,
            final(self).dragging@ == old(self).dragging@,
            final(self).drag_offset@ == old(self).drag_offset@,
            final(self).camera == old(self).camera,
            final(self).current_drag_ray == old(self).current_drag_ray,
            old(self).same_frame(*final(self)),
    {
        let idx = entity as usize;
        if idx >= self.velocities.len() {
            return Err(EngineError::InvalidEntity);
        }
        self.velocities[idx] = Some(Velocity { linear: V3 { x: vx, y: vy, z: vz } });
        Ok(())
    }

    /// Configures the orbit camera from an eye position and projection
    /// settings; the orbit target is always taken to be the world origin.
    pub fn set_camera(
        &mut self,
        px: i64,
        py: i64,
        pz: i64,
        fov: i64,
        aspect: i64,
        near: i64,
        far: i64,
    )
        requires
            old(self).wf(),
        ensures
            final(self).wf(),
            final(self).camera == Option::Some(
                camera_from_eye(
                    px as int,
                    py as int,
                    pz as int,
                    fov as int,
                    aspect as int,
                    near as int,
                    far as int,
                ),
            ),
            old(self).same_entities(*final(self)),
            old(self).same_frame(*final(self)),
            final(self).current_drag_ray == old(self).current_drag_ray,
    {
        let d2 = fx_add(fx_add(fx_mul(px, px), fx_mul(py, py)), fx_mul(pz, pz));
        let dist = fx_sqrt(d2);
        let safe = if dist < EPS {
            EPS
        } else {
            dist
        };
        let pitch = fx_asin(fx_div(py, safe));
        let yaw = fx_atan2(px, pz);
        self.camera = Some(
            Camera {
                target: V3 { x: 0, y: 0, z: 0 },
                yaw,
                pitch,
                distance: safe,
                fov,
                near,
                far,
                aspect,
            },
        );
    }

    /// Adds to yaw and pitch, clamping pitch; a silent no-op without a
    /// camera.
    pub fn camera_orbit(&mut self, dx: i64, dy: i64)
        requires
            old(self).wf(),
        ensures
            final(self).wf(),
            old(self).camera is None ==> final(self).camera is None,
            old(self).camera is Some ==> final(self).camera == Option::Some(
                orbit_val(old(self).camera->0, dx as int, dy as int),
            ),
            old(self).same_entities(*final(self)),
            old(self).same_frame(*final(self)),
            final(self).current_drag_ray == old(self).current_drag_ray,
    {
        match &mut self.camera {
            Some(cam) => {
                cam.yaw = fx_add(cam.yaw, dx);
                cam.pitch = fx_clamp(fx_add(cam.pitch, dy), -PITCH_MAX, PITCH_MAX);
            },
            None => {},
        }
    }

    /// Adds to the orbit distance, clamping it; a silent no-op without a
    /// camera.
    pub fn camera_zoom(&mut self, delta: i64)
        requires
            old(self).wf(),
        ensures
            final(self).wf(),
            old(self).camera is None ==> final(self).camera is None,
            old(self).camera is Some ==> final(self).camera == Option::Some(
                zoom_val(old(self).camera->0, delta as int),
            ),
            old(self).same_entities(*final(self)),
            old(self).same_frame(*final(self)),
            final(self).current_drag_ray == old(self).current_drag_ray,
    {
        match &mut self.camera {
            Some(cam) => {
                cam.distance = fx_clamp(fx_add(cam.distance, delta), DIST_MIN, DIST_MAX);
            },
            None => {},
        }
    }

    /// Shifts the orbit target in the X/Y plane; a silent no-op without a
    /// camera.
    pub fn camera_pan(&mut self, dx: i64, dy: i64)
        requires
            old(self).wf(),
        ensures
            final(self).wf(),
            old(self).camera is None ==> final(self).camera is None,
            old(self).camera is Some ==> final(self).camera == Option::Some(
                pan_val(old(self).camera->0, dx as int, dy as int),
            ),
            old(self).same_entities(*final(self)),
            old(self).same_frame(*final(self)),
            final(self).current_drag_ray == old(self).current_drag_ray,
    {
        match &mut self.camera {
            Some(cam) => {
                cam.target.x = fx_add(cam.target.x, dx);
                cam.target.y = fx_add(cam.target.y, dy);
            },
            None => {},
        }
    }

    /// Moves the orbit target to the centroid of the selected entities that
    /// have transforms; a no-op when nothing is selected or no camera
    /// exists.
    pub fn focus_selected(&mut self)
        requires
            old(self).wf(),
        ensures
            final(self).wf(),
            old(self).same_entities(*final(self)),
            old(self).same_frame(*final(self)),
            final(self).current_drag_ray == old(self).current_drag_ray,
            old(self).camera is None ==> final(self).camera is None,
            old(self).camera is Some ==> ({
                let c = centroid_val(
                    old(self).transforms@,
                    old(self).selected@,
                    old(self).entity_count(),
                );
                if c.3 > 0 {
                    final(self).camera == Option::Some(
                        Camera {
                            target: V3 {
                                x: q_div(c.0, c.3) as i64,
                                y: q_div(c.1, c.3) as i64,
                                z: q_div(c.2, c.3) as i64,
                            },
                            ..old(self).camera->0
                        },
                    )
                } else {
                    final(self).camera == old(self).camera
                }
            }),
    {
        match self.camera {
            None => {},
            Some(_) => {
                let n = self.selected.len();
                let mut cx: i64 = 0;
                let mut cy: i64 = 0;
                let mut cz: i64 = 0;
                let mut count: i64 = 0;
                let mut i: usize = 0;
                while i < n
                    invariant
                        i <= n,
                        n == self.selected@.len(),
                        n == self.transforms@.len(),
                        n <= u32::MAX,
                        (cx as int, cy as int, cz as int, count as int) == centroid_val(
                            self.transforms@,
                            self.selected@,
                            i as int,
                        ),
                        0 <= count <= i,
                    decreases n - i,
                {
                    if self.selected[i] {
                        match self.transforms[i] {
                            Some(t) => {
                                cx = fx_add(cx, t.position.x);
                                cy = fx_add(cy, t.position.y);
                                cz = fx_add(cz, t.position.z);
                                count = count + 1;
                            },
                            None => {},
                        }
                    }
                    i = i + 1;
                }
                if count > 0 {
                    let tx = fx_idiv(cx, count);
                    let ty = fx_idiv(cy, count);
                    let tz = fx_idiv(cz, count);
                    match &mut self.camera {
                        Some(cam) => {
                            cam.target = V3 { x: tx, y: ty, z: tz };
                        },
                        None => {},
                    }
                }
            },
        }
    }

    /// Resolves a world ray against every entity's oriented bounding box,
    /// selects the nearest hit under the requested selection policy, and
    /// returns the hit entity's index, or -1 on a miss (selection is then
    /// untouched).
    #[verifier::rlimit(100)]
    pub fn pick(
        &mut self,
        ox: i64,
        oy: i64,
        oz: i64,
        dx: i64,
        dy: i64,
        dz: i64,
        additive: bool,
        toggle: bool,
    ) -> (hit: i32)
        requires
            old(self).wf(),
            old(self).entity_count() <= i32::MAX as int,
        ensures
            final(self).wf(),
            final(self).next_entity == old(self).next_entity,
            final(self).transforms@ == old(self).transforms@,
            final(self).velocities@ == old(self).velocities@,
            final(self).dragging@ == old(self).dragging@,
            final(self).drag_offset@ == old(self).drag_offset@,
            final(self).camera == old(self).camera,
            final(self).current_drag_ray == old(self).current_drag_ray,
            old(self).same_frame(*final(self)),
            ({
                let b = best_hit(
                    old(self).transforms@,
                    (ox as int, oy as int, oz as int),
                    (dx as int, dy as int, dz as int),
                    old(self).entity_count(),
                );
                match b {
                    Option::None => hit == -1 && final(self).selected@ == old(self).selected@,
                    Option::Some(p) => {
                        &&& hit as int == p.0
                        &&& 0 <= hit
                        &&& (hit as int) < old(self).entity_count()
                        &&& toggle ==> final(self).selected@ == old(self).selected@.update(
                            p.0,
                            !old(self).selected@[p.0],
                        )
                        &&& !toggle && additive ==> final(self).selected@ == old(self).selected@.update(p.0, true)
                        &&& !toggle && !additive ==> final(self).selected@ == Seq::new(
                            old(self).selected@.len(),
                            |i: int| i == p.0,
                        )
                    },
                }
            }),
    {
        let origin = V3 { x: ox, y: oy, z: oz };
        let dir = V3 { x: dx, y: dy, z: dz };
        let ghost o = (ox as int, oy as int, oz as int);
        let ghost dd = (dx as int, dy as int, dz as int);
        let n = self.transforms.len();
        let mut closest: i32 = -1;
        let mut closest_t: i64 = i64::MAX;
        let mut i: usize = 0;
        while i < n
            invariant
                i <= n,
                n == self.transforms@.len(),
                n <= i32::MAX,
                o == v3i(origin),
                dd == v3i(dir),
                match best_hit(self.transforms@, o, dd, i as int) {
                    Option::None => closest == -1 && closest_t == i64::MAX,
                    Option::Some(p) => {
                        &&& closest as int == p.0
                        &&& closest_t as int == p.1
                        &&& 0 <= p.0 < i
                        &&& closest_t < i64::MAX
                    },
                },
            decreases n - i,
        {
            match self.transforms[i] {
                Some(t) => {
                    let inv = invert_model(&t);
                    let lo = transform_point(&inv, origin);
                    let ld = transform_dir(&inv, dir);
                    proof {
                        assert(v3i(lo) == tp_val(inv_model_val(t), o));
                        assert(v3i(ld) == td_val(inv_model_val(t), dd));
                    }
                    match ray_aabb(lo, ld) {
                        Some(th) => {
                            if th < closest_t {
                                closest_t = th;
                                closest = i as i32;
                            }
                        },
                        None => {},
                    }
                },
                None => {},
            }
            i = i + 1;
        }
        if closest >= 0 {
            let idx = closest as usize;
            if toggle {
                let cur = self.selected[idx];
                self.selected[idx] = !cur;
            } else if additive {
                self.selected[idx] = true;
            } else {
                let m = self.selected.len();
                let mut j: usize = 0;
                while j < m
                    invariant
                        j <= m,
                        m == self.selected@.len(),
                        m == old(self).selected@.len(),
                        idx < m,
                        forall|k: int| 0 <= k < j ==> self.selected@[k] == false,
                        self.next_entity == old(self).next_entity,
                        self.transforms@ == old(self).transforms@,
                        self.velocities@ == old(self).velocities@,
                        self.dragging@ == old(self).dragging@,
                        self.drag_offset@ == old(self).drag_offset@,
                        self.camera == old(self).camera,
                        self.current_drag_ray == old(self).current_drag_ray,
                        old(self).same_frame(*self),
                    decreases m - j,
                {
                    self.selected[j] = false;
                    j = j + 1;
                }
                self.selected[idx] = true;
                proof {
                    assert(self.selected@ =~= Seq::new(
                        old(self).selected@.len(),
                        |i: int| i == idx as int,
                    ));
                }
            }
        }
        closest
    }

    /// Starts a drag: where the ray meets the ground plane, every selected
    /// entity with a transform begins dragging, anchored by the offset from
    /// the hit point to its position. A ray that misses the plane starts
    /// nothing.
    pub fn begin_drag(&mut self, ox: i64, oy: i64, oz: i64, dx: i64, dy: i64, dz: i64)
        requires
            old(self).wf(),
        ensures
            final(self).wf(),
            final(self).next_entity == old(self).next_entity,
            final(self).transforms@ == old(self).transforms@,
            final(self).velocities@ == old(self).velocities@,
            final(self).selected@ == old(self).selected@,
            final(self).camera == old(self).camera,
            final(self).current_drag_ray == old(self).current_drag_ray,
            old(self).same_frame(*final(self)),
            ({
                let h = plane_hit_val(
                    (ox as int, oy as int, oz as int),
                    (dx as int, dy as int, dz as int),
                    0,
                );
                match h {
                    Option::None => final(self).dragging@ == old(self).dragging@
                        && final(self).drag_offset@ == old(self).drag_offset@,
                    Option::Some(hp) => {
                        &&& final(self).dragging@ == begin_drag_flags(
                            old(self).transforms@,
                            old(self).selected@,
                            old(self).dragging@,
                        )
                        &&& final(self).drag_offset@ == begin_drag_offsets(
                            old(self).transforms@,
                            old(self).selected@,
                            old(self).drag_offset@,
                            hp,
                        )
                    },
                }
            }),
    {
        let origin = V3 { x: ox, y: oy, z: oz };
        let dir = V3 { x: dx, y: dy, z: dz };
        match ray_plane_intersection(origin, dir, 0) {
            None => {},
            Some(hp) => {
                let n = self.selected.len();
                let mut i: usize = 0;
                while i < n
                    invariant
                        i <= n,
                        n == self.selected@.len(),
                        n == self.transforms@.len(),
                        n == self.dragging@.len(),
                        n == self.drag_offset@.len(),
                        n == old(self).selected@.len(),
                        n == old(self).transforms@.len(),
                        n == old(self).dragging@.len(),
                        n == old(self).drag_offset@.len(),
                        self.next_entity == old(self).next_entity,
                        self.transforms@ == old(self).transforms@,
                        self.velocities@ == old(self).velocities@,
                        self.selected@ == old(self).selected@,
                        self.camera == old(self).camera,
                        self.current_drag_ray == old(self).current_drag_ray,
                        old(self).same_frame(*self),
                        forall|j: int|
                            0 <= j < i ==> self.dragging@[j] == begin_drag_flags(
                                old(self).transforms@,
                                old(self).selected@,
                                old(self).dragging@,
                            )[j],
                        forall|j: int|
                            0 <= j < i ==> self.drag_offset@[j] == begin_drag_offsets(
                                old(self).transforms@,
                                old(self).selected@,
                                old(self).drag_offset@,
                                v3i(hp),
                            )[j],
                        forall|j: int|
                            i <= j < n ==> self.dragging@[j] == old(self).dragging@[j],
                        forall|j: int|
                            i <= j < n ==> self.drag_offset@[j] == old(self).drag_offset@[j],
                    decreases n - i,
                {
                    if self.selected[i] {
                        match self.transforms[i] {
                            Some(t) => {
                                self.dragging[i] = true;
                                self.drag_offset[i] = V3 {
                                    x: fx_sub(t.position.x, hp.x),
                                    y: fx_sub(t.position.y, hp.y),
                                    z: fx_sub(t.position.z, hp.z),
                                };
                                proof {
                                    assert(self.dragging@[i as int] == begin_drag_flags(
                                        old(self).transforms@,
                                        old(self).selected@,
                                        old(self).dragging@,
                                    )[i as int]);
                                    assert(self.drag_offset@[i as int] == begin_drag_offsets(
                                        old(self).transforms@,
                                        old(self).selected@,
                                        old(self).drag_offset@,
                                        v3i(hp),
                                    )[i as int]);
                                }
                            },
                            None => {},
                        }
                    }
                    proof {
                        assert(self.dragging@[i as int] == begin_drag_flags(
                            old(self).transforms@,
                            old(self).selected@,
                            old(self).dragging@,
                        )[i as int]);
                        assert(self.drag_offset@[i as int] == begin_drag_offsets(
                            old(self).transforms@,
                            old(self).selected@,
                            old(self).drag_offset@,
                            v3i(hp),
                        )[i as int]);
                    }
                    i = i + 1;
                }
                proof {
                    assert(self.dragging@ =~= begin_drag_flags(
                        old(self).transforms@,
                        old(self).selected@,
                        old(self).dragging@,
                    ));
                    assert(self.drag_offset@ =~= begin_drag_offsets(
                        old(self).transforms@,
                        old(self).selected@,
                        old(self).drag_offset@,
                        v3i(hp),
                    ));
                }
            },
        }
    }

    /// Ends every drag and discards the stored ray.
    pub fn end_drag(&mut self)
        requires
            old(self).wf(),
        ensures
            final(self).wf(),
            final(self).next_entity == old(self).next_entity,
            final(self).transforms@ == old(self).transforms@,
            final(self).velocities@ == old(self).velocities@,
            final(self).selected@ == old(self).selected@,
            final(self).drag_offset@ == old(self).drag_offset@,
            final(self).camera == old(self).camera,
            old(self).same_frame(*final(self)),
            final(self).current_drag_ray is None,
            final(self).dragging@.len() == old(self).dragging@.len(),
            forall|i: int| 0 <= i < final(self).dragging@.len() ==> final(self).dragging@[i] == false,
    {
        let n = self.dragging.len();
        let mut i: usize = 0;
        while i < n
            invariant
                i <= n,
                n == self.dragging@.len(),
                self.next_entity == old(self).next_entity,
                self.transforms@ == old(self).transforms@,
                self.velocities@ == old(self).velocities@,
                self.selected@ == old(self).selected@,
                self.drag_offset@ == old(self).drag_offset@,
                self.camera == old(self).camera,
                self.current_drag_ray == old(self).current_drag_ray,
                old(self).same_frame(*self),
                forall|j: int| 0 <= j < i ==> self.dragging@[j] == false,
            decreases n - i,
        {
            self.dragging[i] = false;
            i = i + 1;
        }
        self.current_drag_ray = None;
    }

    /// Records the latest pointer ray for the drag system; the caller may
    /// stream these independently of the drag lifecycle.
    pub fn update_drag_ray(&mut self, ox: i64, oy: i64, oz: i64, dx: i64, dy: i64, dz: i64)
        requires
            old(self).wf(),
        ensures
            final(self).wf(),
            old(self).same_entities(*final(self)),
            old(self).same_frame(*final(self)),
            final(self).camera == old(self).camera,
            final(self).current_drag_ray == Option::Some(
                DragRay {
                    origin: V3 { x: ox, y: oy, z: oz },
                    dir: V3 { x: dx, y: dy, z: dz },
                },
            ),
    {
        self.current_drag_ray = Some(
            DragRay { origin: V3 { x: ox, y: oy, z: oz }, dir: V3 { x: dx, y: dy, z: dz } },
        );
    }

    /// Advances every entity owning both a transform and a velocity by the
    /// elapsed time stored in delta.
    pub fn integrate_velocity(&mut self)
        requires
            old(self).wf(),
        ensures
            final(self).wf(),
            final(self).transforms@ == integrate_val(
                old(self).transforms@,
                old(self).velocities@,
                old(self).delta as int,
            ),
            final(self).next_entity == old(self).next_entity,
            final(self).velocities@ == old(self).velocities@,
            final(self).selected@ == old(self).selected@,
            final(self).dragging@ == old(self).dragging@,
            final(self).drag_offset@ == old(self).drag_offset@,
            final(self).camera == old(self).camera,
            final(self).current_drag_ray == old(self).current_drag_ray,
            old(self).same_frame(*final(self)),
    {
        let n = self.transforms.len();
        let mut i: usize = 0;
        while i < n
            invariant
                i <= n,
                n == self.transforms@.len(),
                n == self.velocities@.len(),
                n == old(self).transforms@.len(),
                n == old(self).velocities@.len(),
                self.next_entity == old(self).next_entity,
                self.velocities@ == old(self).velocities@,
                self.selected@ == old(self).selected@,
                self.dragging@ == old(self).dragging@,
                self.drag_offset@ == old(self).drag_offset@,
                self.camera == old(self).camera,
                self.current_drag_ray == old(self).current_drag_ray,
                old(self).same_frame(*self),
                self.transforms@.len() == n,
                forall|j: int|
                    0 <= j < i ==> self.transforms@[j] == integrate_val(
                        old(self).transforms@,
                        old(self).velocities@,
                        old(self).delta as int,
                    )[j],
                forall|j: int| i <= j < n ==> self.transforms@[j] == old(self).transforms@[j],
            decreases n - i,
        {
            match self.transforms[i] {
                Some(t) => {
                    match self.velocities[i] {
                        Some(v) => {
                            let nt = Transform {
                                position: V3 {
                                    x: fx_add(t.position.x, fx_mul(v.linear.x, self.delta)),
                                    y: fx_add(t.position.y, fx_mul(v.linear.y, self.delta)),
                                    z: fx_add(t.position.z, fx_mul(v.linear.z, self.delta)),
                                },
                                rotation: V3 {
                                    x: t.rotation.x,
                                    y: fx_add(t.rotation.y, self.delta),
                                    z: t.rotation.z,
                                },
                                scale: t.scale,
                            };
                            self.transforms[i] = Some(nt);
                            proof {
                                assert(self.transforms@[i as int] == Some(nt));
                                assert(Some(nt) == advance_one(
                                    old(self).transforms@[i as int],
                                    old(self).velocities@[i as int],
                                    old(self).delta as int,
                                ));
                            }
                        },
                        None => {},
                    }
                },
                None => {},
            }
            proof {
                assert(integrate_val(
                    old(self).transforms@,
                    old(self).velocities@,
                    old(self).delta as int,
                )[i as int] == advance_one(
                    old(self).transforms@[i as int],
                    old(self).velocities@[i as int],
                    old(self).delta as int,
                ));
            }
            i = i + 1;
        }
        proof {
            assert(self.transforms@ =~= integrate_val(
                old(self).transforms@,
                old(self).velocities@,
                old(self).delta as int,
            ));
        }
    }

    /// Recomputes the view-projection matrix from the orbit camera; leaves
    /// it untouched while no camera exists.
    pub fn update_camera(&mut self)
        requires
            old(self).wf(),
        ensures
            final(self).wf(),
            old(self).same_entities(*final(self)),
            final(self).camera == old(self).camera,
            final(self).current_drag_ray == old(self).current_drag_ray,
            final(self).time == old(self).time,
            final(self).delta == old(self).delta,
            final(self).render_buffer@ == old(self).render_buffer@,
            old(self).camera is None ==> final(self).view_proj@ == old(self).view_proj@,
            old(self).camera is Some ==> ints(final(self).view_proj@) == view_proj_val(
                old(self).camera->0,
            ),
    {
        match self.camera {
            None => {},
            Some(cam) => {
                let cp = fx_cos(cam.pitch);
                let eye = V3 {
                    x: fx_add(cam.target.x, fx_mul(fx_mul(cam.distance, cp), fx_sin(cam.yaw))),
                    y: fx_add(cam.target.y, fx_mul(cam.distance, fx_sin(cam.pitch))),
                    z: fx_add(cam.target.z, fx_mul(fx_mul(cam.distance, cp), fx_cos(cam.yaw))),
                };
                let proj = perspective(cam.fov, cam.aspect, cam.near, cam.far);
                let view = view_matrix(eye, cam.target);
                self.view_proj = mul_mat4(&proj, &view);
                proof {
                    assert(v3i(eye) == orbit_eye_val(cam));
                }
            },
        }
    }

    /// Repacks the render buffer from the current transforms and selection.
    pub fn build_render_buffer(&mut self)
        requires
            old(self).wf(),
        ensures
            final(self).wf(),
            old(self).same_entities(*final(self)),
            final(self).camera == old(self).camera,
            final(self).current_drag_ray == old(self).current_drag_ray,
            final(self).time == old(self).time,
            final(self).delta == old(self).delta,
            final(self).view_proj@ == old(self).view_proj@,
            ints(final(self).render_buffer@) == render_val(
                old(self).transforms@,
                old(self).selected@,
                old(self).entity_count(),
            ),
    {
        let n = self.transforms.len();
        let mut buf: Vec<i64> = Vec::new();
        let mut i: usize = 0;
        while i < n
            invariant
                i <= n,
                n == self.transforms@.len(),
                n == self.selected@.len(),
                ints(buf@) == render_val(self.transforms@, self.selected@, i as int),
            decreases n - i,
        {
            match self.transforms[i] {
                Some(t) => {
                    let m = model_matrix(&t);
                    let ghost pre = buf@;
                    let mut k: usize = 0;
                    while k < 16
                        invariant
                            k <= 16,
                            m@.len() == 16,
                            buf@ == pre + m@.take(k as int),
                        decreases 16 - k,
                    {
                        buf.push(m[k]);
                        proof {
                            assert(m@.take(k + 1) =~= m@.take(k as int).push(m@[k as int]));
                        }
                        k = k + 1;
                    }
                    proof {
                        assert(m@.take(16) =~= m@);
                    }
                    if self.selected[i] {
                        buf.push(SCALE);
                        buf.push(300_000);
                        buf.push(100_000);
                        buf.push(SCALE);
                    } else {
                        buf.push(200_000);
                        buf.push(700_000);
                        buf.push(SCALE);
                        buf.push(SCALE);
                    }
                    proof {
                        assert(ints(buf@) =~= render_val(
                            self.transforms@,
                            self.selected@,
                            i + 1,
                        ));
                    }
                },
                None => {
                    proof {
                        assert(ints(buf@) =~= render_val(
                            self.transforms@,
                            self.selected@,
                            i + 1,
                        ));
                    }
                },
            }
            i = i + 1;
        }
        self.render_buffer = buf;
    }

    /// Re-applies every active drag using the most recent ray; a no-op
    /// while no ray is stored or the ray misses the plane.
    pub fn update_drag_system(&mut self)
        requires
            old(self).wf(),
        ensures
            final(self).wf(),
            final(self).transforms@ == drag_val(
                old(self).transforms@,
                old(self).dragging@,
                old(self).drag_offset@,
                old(self).current_drag_ray,
            ),
            final(self).next_entity == old(self).next_entity,
            final(self).velocities@ == old(self).velocities@,
            final(self).selected@ == old(self).selected@,
            final(self).dragging@ == old(self).dragging@,
            final(self).drag_offset@ == old(self).drag_offset@,
            final(self).camera == old(self).camera,
            final(self).current_drag_ray == old(self).current_drag_ray,
            old(self).same_frame(*final(self)),
    {
        match self.current_drag_ray {
            None => {},
            Some(ray) => {
                match ray_plane_intersection(ray.origin, ray.dir, 0) {
                    None => {},
                    Some(hp) => {
                        let n = self.transforms.len();
                        let ghost target = drag_val(
                            old(self).transforms@,
                            old(self).dragging@,
                            old(self).drag_offset@,
                            old(self).current_drag_ray,
                        );
                        let mut i: usize = 0;
                        while i < n
                            invariant
                                i <= n,
                                n == self.transforms@.len(),
                                n == self.dragging@.len(),
                                n == self.drag_offset@.len(),
                                n == old(self).transforms@.len(),
                                self.next_entity == old(self).next_entity,
                                self.velocities@ == old(self).velocities@,
                                self.selected@ == old(self).selected@,
                                self.dragging@ == old(self).dragging@,
                                self.drag_offset@ == old(self).drag_offset@,
                                self.camera == old(self).camera,
                                self.current_drag_ray == old(self).current_drag_ray,
                                old(self).same_frame(*self),
                                old(self).current_drag_ray == Option::Some(ray),
                                plane_hit_val(v3i(ray.origin), v3i(ray.dir), 0)
                                    == Option::Some(v3i(hp)),
                                target == drag_val(
                                    old(self).transforms@,
                                    old(self).dragging@,
                                    old(self).drag_offset@,
                                    old(self).current_drag_ray,
                                ),
                                target.len() == n,
                                forall|j: int| 0 <= j < i ==> self.transforms@[j] == target[j],
                                forall|j: int|
                                    i <= j < n ==> self.transforms@[j] == old(self).transforms@[j],
                            decreases n - i,
                        {
                            if self.dragging[i] {
                                match self.transforms[i] {
                                    Some(t) => {
                                        let off = self.drag_offset[i];
                                        let nt = Transform {
                                            position: V3 {
                                                x: fx_add(hp.x, off.x),
                                                y: fx_add(hp.y, off.y),
                                                z: fx_add(hp.z, off.z),
                                            },
                                            rotation: t.rotation,
                                            scale: t.scale,
                                        };
                                        self.transforms[i] = Some(nt);
                                    },
                                    None => {},
                                }
                            }
                            i = i + 1;
                        }
                        proof {
                            assert(self.transforms@ =~= target);
                        }
                    },
                }
            },
        }
    }

    /// One frame: advance motion, recompute the camera matrices, repack the
    /// render buffer, then re-apply any active drag with the latest ray.
    pub fn update(&mut self, delta: i64)
        requires
            old(self).wf(),
        ensures
            final(self).wf(),
            final(self).delta == delta,
            final(self).time as int == fxa(old(self).time as int, delta as int),
            final(self).next_entity == old(self).next_entity,
            final(self).velocities@ == old(self).velocities@,
            final(self).selected@ == old(self).selected@,
            final(self).dragging@ == old(self).dragging@,
            final(self).drag_offset@ == old(self).drag_offset@,
            final(self).camera == old(self).camera,
            final(self).current_drag_ray == old(self).current_drag_ray,
            ({
                let ts1 = integrate_val(
                    old(self).transforms@,
                    old(self).velocities@,
                    delta as int,
                );
                &&& final(self).transforms@ == drag_val(
                    ts1,
                    old(self).dragging@,
                    old(self).drag_offset@,
                    old(self).current_drag_ray,
                )
                &&& ints(final(self).render_buffer@) == render_val(
                    ts1,
                    old(self).selected@,
                    old(self).entity_count(),
                )
            }),
            old(self).camera is None ==> final(self).view_proj@ == old(self).view_proj@,
            old(self).camera is Some ==> ints(final(self).view_proj@) == view_proj_val(
                old(self).camera->0,
            ),
    {
        self.delta = delta;
        self.time = fx_add(self.time, delta);
        self.integrate_velocity();
        self.update_camera();
        self.build_render_buffer();
        self.update_drag_system();
    }

    /// The packed render buffer: 20 entries per entity with a transform.
    pub fn render_buffer_len(&self) -> (n: usize)
        ensures
            n == self.render_buffer@.len(),
    {
        self.render_buffer.len()
    }

    /// Read-only access to the packed render buffer; valid until the next
    /// mutating call.
    pub fn render_buffer(&self) -> (r: &Vec<i64>)
        ensures
            r@ == self.render_buffer@,
    {
        &self.render_buffer
    }

    /// Read-only access to the current view-projection matrix; valid until
    /// the next mutating call.
    pub fn view_proj(&self) -> (r: &Vec<i64>)
        ensures
            r@ == self.view_proj@,
    {
        &self.view_proj
    }
}

} // verus!
