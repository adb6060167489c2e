use vstd::prelude::*;

use crate::fixed::{Fx, Vec3Fx, FX_BOUND, FX_ONE};
use crate::mat::{Mat4, Vec4i, MAT_ONE};
use crate::vertex::{AttributeDesc, AttributeFormat, LayoutDesc, StepMode};

verus! {

/// A yaw rotation about the world's +Y axis, in whole half-degrees.
///
/// Every rotation this scene uses is such a yaw: the grid animation turns a
/// cube by `z * time` degrees, and `time` is a whole number of half-units.
#[derive(Clone, Copy, Debug, PartialEq, Eq, Structural)]
pub struct YawAngle {
    pub half_degrees: i64,
}

/// The cosine and sine of some yaw angle, as fixed-point scalars.
///
/// Trigonometric values are irrational, so they are evaluated outside the
/// library (in floating point) and handed in; the matrix composition below
/// is exact for whatever pair is supplied.
#[derive(Clone, Copy, Debug, PartialEq, Eq, Structural)]
pub struct TrigPair {
    pub cos: Fx,
    pub sin: Fx,
}

impl TrigPair {
    /// A cosine/sine pair is well formed when both magnitudes are at most
    /// one unit, as every true cosine and sine is.
    pub open spec fn wf(self) -> bool {
        &&& -FX_ONE <= self.cos.raw <= FX_ONE
        &&& -FX_ONE <= self.sin.raw <= FX_ONE
    }

    /// The cosine/sine pair of the zero angle.
    pub fn identity() -> (r: TrigPair)
        ensures
            r == spec_identity_trig(),
    {
        TrigPair { cos: Fx { raw: FX_ONE }, sin: Fx { raw: 0 } }
    }
}

/// The cosine/sine pair of the zero angle: cosine one, sine zero.
pub open spec fn spec_identity_trig() -> TrigPair {
    TrigPair { cos: Fx { raw: FX_ONE }, sin: Fx { raw: 0 } }
}

/// Local transform components of one drawn object: position, yaw rotation
/// and per-axis scale.
#[derive(Clone, Copy, Debug, PartialEq, Eq, Structural)]
pub struct Instance {
    pub position: Vec3Fx,
    pub rotation: YawAngle,
    pub scale: Vec3Fx,
}

impl Instance {
    /// Whether the components are small enough for exact composition.
    pub open spec fn bounded(self) -> bool {
        self.position.bounded() && self.scale.bounded()
    }
}

/// A grid-indexed instance: its world position and animation are derived
/// from its integer grid coordinates `(x, z)`.
#[derive(Clone, Copy, Debug, PartialEq, Eq, Structural)]
pub struct ArrayInstance {
    pub x: u32,
    pub z: u32,
    pub instance: Instance,
}

/// One member of the drawn set: either a plain static transform (the floor)
/// or a grid-indexed, animated one. The capability set is closed, so the
/// polymorphism of the two kinds is a tagged choice dispatched by `match`.
#[derive(Clone, Copy, Debug, PartialEq, Eq, Structural)]
pub enum MatrixInstance {
    Plain(Instance),
    Grid(ArrayInstance),
}

/// A packed model matrix for one instance, laid out as the vertex shader
/// expects it: four consecutive four-component rows of one matrix.
#[derive(Clone, Copy, Debug, PartialEq, Eq, Structural)]
pub struct InstanceRaw {
    pub model: Mat4,
}

/// The four per-instance attributes: one four-float row of the packed
/// matrix each, at byte offsets 0, 16, 32 and 48, on shader slots 5 to 8.
pub open spec fn spec_instance_attributes() -> Seq<AttributeDesc> {
    seq![
        AttributeDesc { offset: 0, shader_location: 5, format: AttributeFormat::Float32x4 },
        AttributeDesc { offset: 16, shader_location: 6, format: AttributeFormat::Float32x4 },
        AttributeDesc { offset: 32, shader_location: 7, format: AttributeFormat::Float32x4 },
        AttributeDesc { offset: 48, shader_location: 8, format: AttributeFormat::Float32x4 },
    ]
}

/// The world position the grid derives from coordinates `(x, z)`:
/// `(3 x - 14.5, 0, -2.5 z + 14.5)`. In raw steps of 1/90 those are
/// `270 x - 1305` and `1305 - 225 z`.
pub open spec fn spec_grid_position(x: u32, z: u32) -> Vec3Fx {
    Vec3Fx {
        x: Fx { raw: (270 * x - 1305) as i64 },
        y: Fx { raw: 0 },
        z: Fx { raw: (1305 - 225 * z) as i64 },
    }
}

/// The inner transform of `m`, whichever kind it is.
pub open spec fn spec_transform_of(m: MatrixInstance) -> Instance {
    match m {
        MatrixInstance::Plain(i) => i,
        MatrixInstance::Grid(g) => g.instance,
    }
}

/// Whether `m`'s transform components are bounded.
pub open spec fn spec_instance_bounded(m: MatrixInstance) -> bool {
    spec_transform_of(m).bounded()
}

/// The packed model matrix `translation * yaw-rotation * scale` of a
/// transform, given an evaluation `rot` of its yaw's cosine and sine.
///
/// Columns follow cgmath's convention for a yaw about +Y; the entries are
/// exact products of raw scalars, so they land on the `MAT_ONE` grid.
pub open spec fn spec_to_raw(inst: Instance, rot: TrigPair) -> Mat4 {
    let c = rot.cos.raw as int;
    let s = rot.sin.raw as int;
    Mat4 {
        x: Vec4i {
            x: (c * inst.scale.x.raw) as i64,
            y: 0,
            z: ((-s) * inst.scale.x.raw) as i64,
            w: 0,
        },
        y: Vec4i { x: 0, y: (inst.scale.y.raw * FX_ONE) as i64, z: 0, w: 0 },
        z: Vec4i {
            x: (s * inst.scale.z.raw) as i64,
            y: 0,
            z: (c * inst.scale.z.raw) as i64,
            w: 0,
        },
        w: Vec4i {
            x: (inst.position.x.raw * FX_ONE) as i64,
            y: (inst.position.y.raw * FX_ONE) as i64,
            z: (inst.position.z.raw * FX_ONE) as i64,
            w: MAT_ONE,
        },
    }
}

/// The packed model matrix of either instance kind.
pub open spec fn spec_to_raw_m(m: MatrixInstance, rot: TrigPair) -> Mat4 {
    spec_to_raw(spec_transform_of(m), rot)
}

/// The state of an instance after the animation clock reads `ticks`
/// half-units and the caller has evaluated its vertical wave offset `wave`.
///
/// A plain instance is static. A grid instance keeps its x and z position
/// and its scale, takes `wave` as its new height, and turns to a yaw of
/// `z * ticks` half-degrees (that is, `z * time` degrees).
pub open spec fn spec_update(m: MatrixInstance, ticks: u64, wave: Fx) -> MatrixInstance {
    match m {
        MatrixInstance::Plain(i) => MatrixInstance::Plain(i),
        MatrixInstance::Grid(g) => MatrixInstance::Grid(
            ArrayInstance {
                x: g.x,
                z: g.z,
                instance: Instance {
                    position: Vec3Fx {
                        x: g.instance.position.x,
                        y: wave,
                        z: g.instance.position.z,
                    },
                    rotation: YawAngle { half_degrees: (g.z * ticks) as i64 },
                    scale: g.instance.scale,
                },
            },
        ),
    }
}

/// The magnitude bound that holds of every product of a trigonometric raw
/// value and a bounded scalar raw value.
proof fn lemma_trig_product_bounded(a: i64, b: i64)
    requires
        -FX_ONE <= a <= FX_ONE,
        -FX_BOUND <= b <= FX_BOUND,
    ensures
        -(FX_ONE * FX_BOUND) <= a * b <= FX_ONE * FX_BOUND,
{
    assert(-(FX_ONE * FX_BOUND) <= a * b <= FX_ONE * FX_BOUND) by (nonlinear_arith)
        requires
            -FX_ONE <= a <= FX_ONE,
            -FX_BOUND <= b <= FX_BOUND,
    ;
}

impl MatrixInstance {
    /// Serializes this instance to its packed model matrix, composing
    /// `translation * rotation * scale` exactly from the supplied evaluation
    /// of the yaw's cosine and sine.
    pub fn to_raw(&self, rot: &TrigPair) -> (r: InstanceRaw)
        requires
            rot.wf(),
            spec_instance_bounded(*self),
        ensures
            r.model == spec_to_raw_m(*self, *rot),
    {
        let inst = match self {
            MatrixInstance::Plain(i) => *i,
            MatrixInstance::Grid(g) => g.instance,
        };
        let c = rot.cos.raw;
        let s = rot.sin.raw;
        let ns = -s;
        proof {
            lemma_trig_product_bounded(c, inst.scale.x.raw);
            lemma_trig_product_bounded(ns, inst.scale.x.raw);
            lemma_trig_product_bounded(c, inst.scale.z.raw);
            lemma_trig_product_bounded(s, inst.scale.z.raw);
        }
        InstanceRaw {
            model: Mat4 {
                x: Vec4i { x: c * inst.scale.x.raw, y: 0, z: ns * inst.scale.x.raw, w: 0 },
                y: Vec4i { x: 0, y: inst.scale.y.raw * FX_ONE, z: 0, w: 0 },
                z: Vec4i { x: s * inst.scale.z.raw, y: 0, z: c * inst.scale.z.raw, w: 0 },
                w: Vec4i {
                    x: inst.position.x.raw * FX_ONE,
                    y: inst.position.y.raw * FX_ONE,
                    z: inst.position.z.raw * FX_ONE,
                    w: MAT_ONE,
                },
            },
        }
    }

    /// Advances this instance's animation to clock value `ticks` (in
    /// half-units). `wave` must be the caller's evaluation of the grid
    /// waveform `sin(grid_phase) * grid_amplitude` for this instance; a
    /// plain instance ignores it and does not move.
    pub fn update(&mut self, ticks: u64, wave: Fx)
        requires
            wave.bounded(),
            match *old(self) {
                MatrixInstance::Grid(g) => g.z * ticks <= i64::MAX,
                MatrixInstance::Plain(_) => true,
            },
        ensures
            *final(self) == spec_update(*old(self), ticks, wave),
    {
        match self {
            MatrixInstance::Plain(_) => {},
            MatrixInstance::Grid(g) => {
                proof {
                    assert(0 <= (g.z as int) * (ticks as int)) by (nonlinear_arith);
                }
                g.instance.position.y = wave;
                g.instance.rotation = YawAngle { half_degrees: ((g.z as u64) * ticks) as i64 };
            },
        }
    }
}

impl Instance {
    /// The buffer layout a packed instance matrix occupies on the GPU: a
    /// 64-byte stride (a 4x4 of 32-bit floats), stepped per instance, one
    /// four-float row per shader input slot 5 through 8 — exactly the
    /// per-instance attribute layout the vertex shader reassembles.
    pub fn desc() -> (r: LayoutDesc)
        ensures
            r.array_stride == 64,
            r.step_mode == StepMode::Instance,
            r.attributes@ == spec_instance_attributes(),
    {
        let attributes = vec![
            AttributeDesc { offset: 0, shader_location: 5, format: AttributeFormat::Float32x4 },
            AttributeDesc { offset: 16, shader_location: 6, format: AttributeFormat::Float32x4 },
            AttributeDesc { offset: 32, shader_location: 7, format: AttributeFormat::Float32x4 },
            AttributeDesc { offset: 48, shader_location: 8, format: AttributeFormat::Float32x4 },
        ];
        proof {
            assert(attributes@ =~= spec_instance_attributes());
        }
        LayoutDesc { array_stride: 64, step_mode: StepMode::Instance, attributes }
    }

    /// Builds a plain (static) instance from explicit transform components.
    pub fn make(position: Vec3Fx, rotation: YawAngle, scale: Vec3Fx) -> (r: MatrixInstance)
        ensures
            r == MatrixInstance::Plain(Instance { position, rotation, scale }),
    {
        MatrixInstance::Plain(Instance { position, rotation, scale })
    }
}

impl ArrayInstance {
    /// Builds a grid instance at coordinates `(x, z)`: position derived as
    /// `(3 x - 14.5, 0, -2.5 z + 14.5)`, zero yaw, unit scale.
    pub fn make(x: u32, z: u32) -> (r: MatrixInstance)
        ensures
            r == MatrixInstance::Grid(
                ArrayInstance {
                    x,
                    z,
                    instance: Instance {
                        position: spec_grid_position(x, z),
                        rotation: YawAngle { half_degrees: 0 },
                        scale: Vec3Fx {
                            x: Fx { raw: FX_ONE },
                            y: Fx { raw: FX_ONE },
                            z: Fx { raw: FX_ONE },
                        },
                    },
                },
            ),
    {
        MatrixInstance::Grid(
            ArrayInstance {
                x,
                z,
                instance: Instance {
                    position: Vec3Fx {
                        x: Fx { raw: 270 * (x as i64) - 1305 },
                        y: Fx { raw: 0 },
                        z: Fx { raw: 1305 - 225 * (z as i64) },
                    },
                    rotation: YawAngle { half_degrees: 0 },
                    scale: Vec3Fx {
                        x: Fx { raw: FX_ONE },
                        y: Fx { raw: FX_ONE },
                        z: Fx { raw: FX_ONE },
                    },
                },
            },
        )
    }
}

/// The animation phase of grid column `x` at clock value `ticks`:
/// `0.2 * time + x` with `time = ticks / 2`, which is `9 ticks + 90 x` in
/// raw steps of 1/90 — exact for every clock value.
pub open spec fn spec_grid_phase(x: u32, ticks: u64) -> int {
    9 * ticks + 90 * x
}

/// The wave amplitude of grid column `x`: `1 + 2 x / 9`, which is
/// `90 + 20 x` in raw steps of 1/90 — exact for every column.
pub open spec fn spec_grid_amplitude(x: u32) -> int {
    90 + 20 * x
}

/// Computes the animation phase of grid column `x` at clock value `ticks`,
/// whose sine the caller evaluates to build the wave offset.
pub fn grid_phase(x: u32, ticks: u64) -> (r: Fx)
    requires
        spec_grid_phase(x, ticks) <= i64::MAX,
    ensures
        r.raw == spec_grid_phase(x, ticks),
{
    Fx { raw: 9 * (ticks as i64) + 90 * (x as i64) }
}

/// Computes the wave amplitude of grid column `x`.
pub fn grid_amplitude(x: u32) -> (r: Fx)
    ensures
        r.raw == spec_grid_amplitude(x),
{
    Fx { raw: 90 + 20 * (x as i64) }
}

/// Two grid instances in the same row animate to the same rotation: the yaw
/// after an update depends only on the shared `z` coordinate and the clock,
/// never on `x` or on the supplied wave offsets.
pub proof fn lemma_grid_rotation_depends_only_on_z(
    a: MatrixInstance,
    b: MatrixInstance,
    ticks: u64,
    wave_a: Fx,
    wave_b: Fx,
)
    requires
        a is Grid,
        b is Grid,
        a->Grid_0.z == b->Grid_0.z,
    ensures
        spec_transform_of(spec_update(a, ticks, wave_a)).rotation == spec_transform_of(
            spec_update(b, ticks, wave_b),
        ).rotation,
{
}

/// Distinct grid columns never share a waveform: at any clock value their
/// phases differ, and so do their amplitudes, so each instance's height is
/// driven by its own `x`.
pub proof fn lemma_grid_waveform_distinct_by_x(x1: u32, x2: u32, ticks: u64)
    requires
        x1 != x2,
    ensures
        spec_grid_phase(x1, ticks) != spec_grid_phase(x2, ticks),
        spec_grid_amplitude(x1) != spec_grid_amplitude(x2),
{
}

/// Composing `translation * rotation * scale` always leaves the position,
/// and nothing else, in the matrix's translation column: whatever cosine
/// and sine are supplied, that column reads `(x, y, z, 1)` in units.
pub proof fn lemma_to_raw_translation_column(inst: Instance, rot: TrigPair)
    requires
        inst.bounded(),
    ensures
        spec_to_raw(inst, rot).w.x == inst.position.x.raw * FX_ONE,
        spec_to_raw(inst, rot).w.y == inst.position.y.raw * FX_ONE,
        spec_to_raw(inst, rot).w.z == inst.position.z.raw * FX_ONE,
        spec_to_raw(inst, rot).w.w == MAT_ONE,
{
}

/// The ordered set of drawn instances together with the one shared buffer
/// of their packed matrices. The buffer models the GPU vertex buffer's
/// contents: it is created once, sized exactly to the set, and only ever
/// rewritten wholesale.
pub struct InstanceSet {
    pub items: Vec<MatrixInstance>,
    pub buffer: Option<Vec<InstanceRaw>>,
}

/// The packed matrices of a sequence of instances under a matching sequence
/// of cosine/sine evaluations, in order.
pub open spec fn raws_of(items: Seq<MatrixInstance>, trig: Seq<TrigPair>) -> Seq<InstanceRaw> {
    Seq::new(items.len(), |i: int| InstanceRaw { model: spec_to_raw_m(items[i], trig[i]) })
}

/// The instance-set state — its items and its buffer contents — after one
/// full buffer rewrite with the evaluations `trig`: the items stand, and
/// the buffer holds exactly their packed matrices.
pub open spec fn apply_update_buffer(
    items: Seq<MatrixInstance>,
    buffer: Option<Seq<InstanceRaw>>,
    trig: Seq<TrigPair>,
) -> (Seq<MatrixInstance>, Option<Seq<InstanceRaw>>) {
    (items, Some(raws_of(items, trig)))
}

impl InstanceSet {
    /// The buffer contents as a sequence, if the buffer was created.
    pub open spec fn spec_buffer(self) -> Option<Seq<InstanceRaw>> {
        match self.buffer {
            Some(b) => Some(b@),
            None => None,
        }
    }

    /// Whether every member's transform is bounded.
    pub open spec fn items_bounded(self) -> bool {
        forall|i: int| 0 <= i < self.items@.len() ==> spec_instance_bounded(#[trigger] self.items@[i])
    }

    /// Wraps an ordered list of instances, with no buffer yet.
    pub fn make(items: Vec<MatrixInstance>) -> (r: InstanceSet)
        ensures
            r.items@ == items@,
            r.buffer is None,
    {
        InstanceSet { items, buffer: None }
    }

    /// The number of instances (and of matrices in the buffer, once made).
    pub fn count(&self) -> (r: usize)
        ensures
            r == self.items@.len(),
    {
        self.items.len()
    }

    /// The shared buffer of packed matrices, if it was created.
    pub fn get_buffer(&self) -> (r: Option<&Vec<InstanceRaw>>)
        ensures
            r is Some <==> self.buffer is Some,
            r is Some ==> *r->0 == self.buffer->0,
    {
        self.buffer.as_ref()
    }

    /// Creates the shared buffer, sized exactly to the set and holding each
    /// instance's packed matrix in order. `trig` gives the cosine/sine of
    /// each instance's yaw, in the same order. Called exactly once, after
    /// construction.
    pub fn create_buffer(&mut self, trig: &Vec<TrigPair>)
        requires
            old(self).buffer is None,
            trig@.len() == old(self).items@.len(),
            forall|i: int| 0 <= i < trig@.len() ==> (#[trigger] trig@[i]).wf(),
            old(self).items_bounded(),
        ensures
            (final(self).items@, final(self).spec_buffer()) == apply_update_buffer(
                old(self).items@,
                old(self).spec_buffer(),
                trig@,
            ),
    {
        let data = self.pack(trig);
        self.buffer = Some(data);
    }

    /// Rewrites the whole buffer from the instances' current transforms, in
    /// order, under the evaluations `trig`. No partial updates: every entry
    /// is rewritten. The buffer must have been created.
    pub fn update_buffer(&mut self, trig: &Vec<TrigPair>)
        requires
            old(self).buffer is Some,
            trig@.len() == old(self).items@.len(),
            forall|i: int| 0 <= i < trig@.len() ==> (#[trigger] trig@[i]).wf(),
            old(self).items_bounded(),
        ensures
            (final(self).items@, final(self).spec_buffer()) == apply_update_buffer(
                old(self).items@,
                old(self).spec_buffer(),
                trig@,
            ),
    {
        let data = self.pack(trig);
        self.buffer = Some(data);
    }

    /// Packs every instance's matrix, in order.
    fn pack(&self, trig: &Vec<TrigPair>) -> (data: Vec<InstanceRaw>)
        requires
            trig@.len() == self.items@.len(),
            forall|i: int| 0 <= i < trig@.len() ==> (#[trigger] trig@[i]).wf(),
            self.items_bounded(),
        ensures
            data@ == raws_of(self.items@, trig@),
    {
        let n = self.items.len();
        let mut data: Vec<InstanceRaw> = Vec::new();
        let mut i: usize = 0;
        while i < n
            invariant
                n == self.items@.len(),
                trig@.len() == n,
                forall|k: int| 0 <= k < n ==> (#[trigger] trig@[k]).wf(),
                self.items_bounded(),
                i <= n,
                data@.len() == i,
                forall|k: int|
                    0 <= k < i ==> #[trigger] data@[k] == (InstanceRaw {
                        model: spec_to_raw_m(self.items@[k], trig@[k]),
                    }),
            decreases n - i,
        {
            let raw = self.items[i].to_raw(&trig[i]);
            data.push(raw);
            i = i + 1;
        }
        assert(data@ =~= raws_of(self.items@, trig@));
        data
    }
}

/// Rewriting the buffer is idempotent for a fixed clock: a second rewrite
/// with the same evaluations, and no animation step between, leaves the
/// set's whole state — items and buffer contents — exactly as one did.
pub proof fn lemma_update_buffer_idempotent(
    items: Seq<MatrixInstance>,
    buffer: Option<Seq<InstanceRaw>>,
    trig: Seq<TrigPair>,
)
    ensures
        apply_update_buffer(
            apply_update_buffer(items, buffer, trig).0,
            apply_update_buffer(items, buffer, trig).1,
            trig,
        ) == apply_update_buffer(items, buffer, trig),
{
}

/// After a rewrite, the buffer reflects the most recent serialization of
/// every instance: the entry at each index is exactly that instance's
/// packed matrix under its supplied evaluation.
pub proof fn lemma_buffer_reflects_to_raw(
    items: Seq<MatrixInstance>,
    trig: Seq<TrigPair>,
    i: int,
)
    requires
        trig.len() == items.len(),
        0 <= i < items.len(),
    ensures
        raws_of(items, trig)[i] == (InstanceRaw { model: spec_to_raw_m(items[i], trig[i]) }),
{
}

} // verus!
