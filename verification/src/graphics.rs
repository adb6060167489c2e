use vstd::prelude::*;

use crate::camera::{Camera, CameraUniform, AspectRatio, Projector};
use crate::fixed::{Fx, Vec3Fx, FX_HALF, FX_ONE};
use crate::instance::{
    raws_of, spec_grid_position, spec_identity_trig, spec_instance_bounded, spec_update,
    ArrayInstance, Instance, InstanceSet, MatrixInstance, TrigPair, YawAngle,
};
use crate::mat::{spec_remap, Mat4, MAT_BOUND};

verus! {

/// Samples per pixel of the color and depth targets (the shadow target is
/// single-sampled).
pub const SAMPLE_COUNT: u32 = 4;

/// Ceiling on the animation clock, far beyond any reachable frame count,
/// under which every derived angle and phase stays inside `i64`.
pub const TICK_LIMIT: u64 = 1_000_000_000_000;

/// A surface extent in pixels: the configured size of the presentable
/// output and of the targets that follow it.
#[derive(Clone, Copy, Debug, PartialEq, Eq, Structural)]
pub struct ScreenSize {
    pub width: u32,
    pub height: u32,
}

/// The creation parameters of one render target texture: its extent and
/// its per-pixel sample count.
#[derive(Clone, Copy, Debug, PartialEq, Eq, Structural)]
pub struct TargetInfo {
    pub width: u32,
    pub height: u32,
    pub sample_count: u32,
}

/// A clear color, one fixed-point scalar per channel.
#[derive(Clone, Copy, Debug, PartialEq, Eq, Structural)]
pub struct Rgba {
    pub r: Fx,
    pub g: Fx,
    pub b: Fx,
    pub a: Fx,
}

/// A key the frame loop reacts to; anything else is `Other`.
#[derive(Clone, Copy, Debug, PartialEq, Eq, Structural)]
pub enum KeyCode {
    A,
    S,
    D,
    W,
    Space,
    Other,
}

/// One input event, reduced to what the orchestrator reads: a key press or
/// release, a wheel notch (by the sign of its vertical delta), or anything
/// else.
#[derive(Clone, Copy, Debug, PartialEq, Eq, Structural)]
pub enum InputEvent {
    KeyboardInput { pressed: bool, key: KeyCode },
    MouseWheel { scroll_up: bool },
    Other,
}

/// A failed frame acquisition, as the surface reports it.
#[derive(Clone, Copy, Debug, PartialEq, Eq, Structural)]
pub enum SurfaceError {
    Lost,
    Outdated,
    Timeout,
    OutOfMemory,
}

/// The draw pipeline a call runs on.
#[derive(Clone, Copy, Debug, PartialEq, Eq, Structural)]
pub enum PipelineKind {
    Diffuse,
    Shadow,
    Solid,
}

/// A bundled resource set bound at draw time.
#[derive(Clone, Copy, Debug, PartialEq, Eq, Structural)]
pub enum BindGroupKind {
    DiffuseTexture,
    Camera,
    Light,
}

/// One indexed draw over the shared cube geometry and the shared instance
/// buffer: the pipeline, the bind groups on slots 0 and 1, the index range
/// and the instance range.
#[derive(Clone, Copy, Debug, PartialEq, Eq, Structural)]
pub struct DrawCall {
    pub pipeline: PipelineKind,
    pub group0: BindGroupKind,
    pub group1: Option<BindGroupKind>,
    pub index_start: u32,
    pub index_end: u32,
    pub instance_start: u32,
    pub instance_end: u32,
}

/// The color attachment of a pass: which target it renders to, whether it
/// resolves into the presentable surface, and its clear color.
#[derive(Clone, Copy, Debug, PartialEq, Eq, Structural)]
pub struct ColorAttachment {
    pub use_msaa_target: bool,
    pub resolve_to_surface: bool,
    pub clear: Rgba,
}

/// Which depth texture a pass writes.
#[derive(Clone, Copy, Debug, PartialEq, Eq, Structural)]
pub enum DepthTargetKind {
    ShadowDepth,
    SceneDepth,
}

/// One render pass: its attachments, its depth clear value, and its draws
/// in order.
pub struct PassPlan {
    pub color: Option<ColorAttachment>,
    pub depth_target: DepthTargetKind,
    pub depth_clear: Fx,
    pub draws: Vec<DrawCall>,
}

/// One frame's command sequence: the depth-only shadow pass from the
/// light's point of view, then the color pass resolved to the surface.
pub struct FramePlan {
    pub shadow_pass: PassPlan,
    pub color_pass: PassPlan,
}

/// The frame orchestrator: every render resource the pipeline owns,
/// modeled by its contents or creation parameters, plus the input-driven
/// camera, the animated instance set, and the animation clock.
pub struct State {
    pub config: ScreenSize,
    pub size: ScreenSize,
    pub bg_color: Rgba,
    pub depth_texture: TargetInfo,
    pub shadow_texture: TargetInfo,
    pub msaa_texture: TargetInfo,
    pub instance_set: InstanceSet,
    pub camera: Camera,
    pub light_camera: Camera,
    pub index_len: usize,
    pub time: u64,
}

/// The state after a resize request: on a nonzero extent the surface is
/// reconfigured and the depth and MSAA targets are recreated at the new
/// size, while the shadow target keeps its fixed resolution; a zero width
/// or height leaves every target and the configuration untouched.
pub open spec fn spec_state_resize(s: State, width: u32, height: u32) -> State {
    if width > 0 && height > 0 {
        State {
            config: ScreenSize { width, height },
            size: ScreenSize { width, height },
            depth_texture: TargetInfo { width, height, sample_count: SAMPLE_COUNT },
            msaa_texture: TargetInfo { width, height, sample_count: SAMPLE_COUNT },
            ..s
        }
    } else {
        s
    }
}

/// The camera eye after one input event, with the consumed flag: pressed
/// A/D step the eye a half unit along x, pressed S/W along y, a wheel
/// notch steps z a half unit against the scroll direction, and pressed
/// Space is consumed without moving anything. Keyboard presses are
/// consumed; wheel events and everything else are not.
pub open spec fn spec_input_eye(eye: Vec3Fx, e: InputEvent) -> (Vec3Fx, bool) {
    match e {
        InputEvent::KeyboardInput { pressed, key } => {
            if pressed {
                match key {
                    KeyCode::Space => (eye, true),
                    KeyCode::A => (
                        Vec3Fx { x: Fx { raw: (eye.x.raw - FX_HALF) as i64 }, ..eye },
                        true,
                    ),
                    KeyCode::S => (
                        Vec3Fx { y: Fx { raw: (eye.y.raw - FX_HALF) as i64 }, ..eye },
                        true,
                    ),
                    KeyCode::D => (
                        Vec3Fx { x: Fx { raw: (eye.x.raw + FX_HALF) as i64 }, ..eye },
                        true,
                    ),
                    KeyCode::W => (
                        Vec3Fx { y: Fx { raw: (eye.y.raw + FX_HALF) as i64 }, ..eye },
                        true,
                    ),
                    KeyCode::Other => (eye, false),
                }
            } else {
                (eye, false)
            }
        },
        InputEvent::MouseWheel { scroll_up } => (
            Vec3Fx {
                z: Fx {
                    raw: if scroll_up {
                        (eye.z.raw - FX_HALF) as i64
                    } else {
                        (eye.z.raw + FX_HALF) as i64
                    },
                },
                ..eye
            },
            false,
        ),
        InputEvent::Other => (eye, false),
    }
}

/// The instance sequence after one animation step to clock value `ticks`,
/// with the wave offsets the caller evaluated, one per instance in order.
pub open spec fn spec_updated_items(
    items: Seq<MatrixInstance>,
    ticks: u64,
    waves: Seq<Fx>,
) -> Seq<MatrixInstance> {
    Seq::new(items.len(), |i: int| spec_update(items[i], ticks, waves[i]))
}

/// The cosine/sine pairs of the zero angle, one per instance: at clock
/// zero every yaw in the scene is zero.
pub open spec fn spec_identity_trigs(n: nat) -> Seq<TrigPair> {
    Seq::new(n, |i: int| spec_identity_trig())
}

/// The scene's instances at startup: a ten-by-ten grid in row-major order
/// (index `10 z + x`), then the floor — a plain instance at (0, -10, 0)
/// with zero yaw and scale (30, 1, 30) — appended last, so that one draw
/// range covers the animated grid and a second the floor alone.
pub open spec fn spec_initial_instance(i: int) -> MatrixInstance {
    if i < 100 {
        MatrixInstance::Grid(
            ArrayInstance {
                x: (i % 10) as u32,
                z: (i / 10) as u32,
                instance: Instance {
                    position: spec_grid_position((i % 10) as u32, (i / 10) as u32),
                    rotation: YawAngle { half_degrees: 0 },
                    scale: Vec3Fx {
                        x: Fx { raw: FX_ONE },
                        y: Fx { raw: FX_ONE },
                        z: Fx { raw: FX_ONE },
                    },
                },
            },
        )
    } else {
        MatrixInstance::Plain(
            Instance {
                position: Vec3Fx { x: Fx { raw: 0 }, y: Fx { raw: -900i64 }, z: Fx { raw: 0 } },
                rotation: YawAngle { half_degrees: 0 },
                scale: Vec3Fx { x: Fx { raw: 2700 }, y: Fx { raw: FX_ONE }, z: Fx { raw: 2700 } },
            },
        )
    }
}

/// The full initial instance sequence: one hundred grid cubes, then the
/// floor.
pub open spec fn spec_initial_instances() -> Seq<MatrixInstance> {
    Seq::new(101, |i: int| spec_initial_instance(i))
}

/// The main camera at startup: eye at (0, 0, 50) looking at the origin
/// with +Y up, through a perspective frustum of 45 degrees, the viewport's
/// aspect, and depth range 0.1 to 100; its buffer holds the remapped
/// matrix supplied at creation.
pub open spec fn spec_initial_camera(width: u32, height: u32, proj_view: Mat4) -> Camera {
    Camera {
        eye: Vec3Fx { x: Fx { raw: 0 }, y: Fx { raw: 0 }, z: Fx { raw: 4500 } },
        target: Vec3Fx { x: Fx { raw: 0 }, y: Fx { raw: 0 }, z: Fx { raw: 0 } },
        up: Vec3Fx { x: Fx { raw: 0 }, y: Fx { raw: FX_ONE }, z: Fx { raw: 0 } },
        projector: Projector::Perspective {
            aspect: AspectRatio { width, height },
            fovy_degrees: Fx { raw: 4050 },
            znear: Fx { raw: 9 },
            zfar: Fx { raw: 9000 },
        },
        buffer: Some(CameraUniform { view_proj: spec_remap(proj_view) }),
    }
}

/// The shadow-pass light at startup: an orthogonal camera at (-10, 10, 10)
/// looking at the origin with +Y up, over the box [-50, 50] squared with
/// depth range 0.1 to 100; its buffer holds the remapped matrix supplied
/// at creation.
pub open spec fn spec_initial_light(light_proj_view: Mat4) -> Camera {
    Camera {
        eye: Vec3Fx { x: Fx { raw: -900i64 }, y: Fx { raw: 900 }, z: Fx { raw: 900 } },
        target: Vec3Fx { x: Fx { raw: 0 }, y: Fx { raw: 0 }, z: Fx { raw: 0 } },
        up: Vec3Fx { x: Fx { raw: 0 }, y: Fx { raw: FX_ONE }, z: Fx { raw: 0 } },
        projector: Projector::Orthogonal {
            left: Fx { raw: -4500i64 },
            right: Fx { raw: 4500 },
            bottom: Fx { raw: -4500i64 },
            top: Fx { raw: 4500 },
            near: Fx { raw: 9 },
            far: Fx { raw: 9000 },
        },
        buffer: Some(CameraUniform { view_proj: spec_remap(light_proj_view) }),
    }
}

/// The shadow pass's draws: every instance, on the shadow pipeline, bound
/// to the light camera alone.
pub open spec fn spec_shadow_draws(s: State) -> Seq<DrawCall> {
    seq![
        DrawCall {
            pipeline: PipelineKind::Shadow,
            group0: BindGroupKind::Light,
            group1: None,
            index_start: 0,
            index_end: s.index_len as u32,
            instance_start: 0,
            instance_end: s.instance_set.items@.len() as u32,
        },
    ]
}

/// The color pass's draws: the animated instances — all but the last — on
/// the diffuse pipeline with the texture-and-shadow group and the main
/// camera, then the last instance alone on the solid pipeline with the
/// main camera only.
pub open spec fn spec_color_draws(s: State) -> Seq<DrawCall> {
    seq![
        DrawCall {
            pipeline: PipelineKind::Diffuse,
            group0: BindGroupKind::DiffuseTexture,
            group1: Some(BindGroupKind::Camera),
            index_start: 0,
            index_end: s.index_len as u32,
            instance_start: 0,
            instance_end: (s.instance_set.items@.len() - 1) as u32,
        },
        DrawCall {
            pipeline: PipelineKind::Solid,
            group0: BindGroupKind::Camera,
            group1: None,
            index_start: 0,
            index_end: s.index_len as u32,
            instance_start: (s.instance_set.items@.len() - 1) as u32,
            instance_end: s.instance_set.items@.len() as u32,
        },
    ]
}

impl State {
    /// The orchestrator's structural invariant: a nonempty instance set
    /// whose buffer exists, whose members are bounded and whose grid rows
    /// lie within the ten-row field; both cameras' buffers created; and an
    /// index count and set size addressable by 32-bit draw ranges.
    pub open spec fn wf(self) -> bool {
        &&& 1 <= self.instance_set.items@.len() <= u32::MAX
        &&& self.instance_set.buffer is Some
        &&& self.instance_set.items_bounded()
        &&& forall|i: int|
            0 <= i < self.instance_set.items@.len() ==> match #[trigger] self.instance_set.items@[i] {
                MatrixInstance::Grid(g) => g.z <= 9,
                MatrixInstance::Plain(_) => true,
            }
        &&& self.camera.buffer is Some
        &&& self.light_camera.buffer is Some
        &&& self.index_len <= u32::MAX
        &&& self.time <= TICK_LIMIT
    }

    /// Builds the whole scene at the given surface size: targets, geometry,
    /// the instance grid and floor with their shared buffer, and the two
    /// cameras with their uniform buffers. The two matrices are the
    /// caller's evaluations of each camera's initial projection-times-view.
    pub fn new(width: u32, height: u32, proj_view: &Mat4, light_proj_view: &Mat4) -> (s: State)
        requires
            width > 0,
            height > 0,
            proj_view.bounded(MAT_BOUND as int),
            light_proj_view.bounded(MAT_BOUND as int),
        ensures
            s.config == (ScreenSize { width, height }),
            s.size == (ScreenSize { width, height }),
            s.bg_color == (Rgba {
                r: Fx { raw: 9 },
                g: Fx { raw: 18 },
                b: Fx { raw: 27 },
                a: Fx { raw: FX_ONE },
            }),
            s.depth_texture == (TargetInfo { width, height, sample_count: SAMPLE_COUNT }),
            s.shadow_texture == (TargetInfo { width, height, sample_count: 1 }),
            s.msaa_texture == (TargetInfo { width, height, sample_count: SAMPLE_COUNT }),
            s.index_len == 36,
            s.time == 0,
            s.camera == spec_initial_camera(width, height, *proj_view),
            s.light_camera == spec_initial_light(*light_proj_view),
            s.instance_set.items@ == spec_initial_instances(),
            s.instance_set.spec_buffer() == Some(
                raws_of(spec_initial_instances(), spec_identity_trigs(101)),
            ),
            s.wf(),
    {
        let mut items: Vec<MatrixInstance> = Vec::new();
        let mut i: usize = 0;
        while i < 100
            invariant
                i <= 100,
                items@.len() == i,
                forall|k: int| 0 <= k < i ==> #[trigger] items@[k] == spec_initial_instance(k),
            decreases 100 - i,
        {
            let x = (i % 10) as u32;
            let z = (i / 10) as u32;
            items.push(ArrayInstance::make(x, z));
            i = i + 1;
        }
        let floor = Instance::make(
            Vec3Fx { x: Fx { raw: 0 }, y: Fx { raw: -900i64 }, z: Fx { raw: 0 } },
            YawAngle { half_degrees: 0 },
            Vec3Fx { x: Fx { raw: 2700 }, y: Fx { raw: FX_ONE }, z: Fx { raw: 2700 } },
        );
        items.push(floor);
        proof {
            assert(items@ =~= spec_initial_instances());
        }
        let mut instance_set = InstanceSet::make(items);

        let mut trig: Vec<TrigPair> = Vec::new();
        let mut j: usize = 0;
        while j < 101
            invariant
                j <= 101,
                trig@.len() == j,
                forall|k: int| 0 <= k < j ==> #[trigger] trig@[k] == spec_identity_trig(),
            decreases 101 - j,
        {
            trig.push(TrigPair::identity());
            j = j + 1;
        }
        proof {
            assert(trig@ =~= spec_identity_trigs(101));
            assert forall|k: int|
                0 <= k < instance_set.items@.len() implies spec_instance_bounded(
                #[trigger] instance_set.items@[k],
            ) by {
                assert(instance_set.items@[k] == spec_initial_instance(k));
            }
            assert forall|k: int|
                0 <= k < instance_set.items@.len() implies match #[trigger] instance_set.items@[k] {
                MatrixInstance::Grid(g) => g.z <= 9,
                MatrixInstance::Plain(_) => true,
            } by {
                assert(instance_set.items@[k] == spec_initial_instance(k));
            }
        }
        instance_set.create_buffer(&trig);

        let mut camera = Camera::make_perspective(
            Vec3Fx { x: Fx { raw: 0 }, y: Fx { raw: 0 }, z: Fx { raw: 4500 } },
            Vec3Fx { x: Fx { raw: 0 }, y: Fx { raw: 0 }, z: Fx { raw: 0 } },
            Vec3Fx { x: Fx { raw: 0 }, y: Fx { raw: FX_ONE }, z: Fx { raw: 0 } },
            AspectRatio { width, height },
            Fx { raw: 4050 },
            Fx { raw: 9 },
            Fx { raw: 9000 },
        );
        camera.create_buffer(proj_view);

        let mut light_camera = Camera::make_orthogonal(
            Vec3Fx { x: Fx { raw: -900i64 }, y: Fx { raw: 900 }, z: Fx { raw: 900 } },
            Vec3Fx { x: Fx { raw: 0 }, y: Fx { raw: 0 }, z: Fx { raw: 0 } },
            Vec3Fx { x: Fx { raw: 0 }, y: Fx { raw: FX_ONE }, z: Fx { raw: 0 } },
            Fx { raw: -4500i64 },
            Fx { raw: 4500 },
            Fx { raw: -4500i64 },
            Fx { raw: 4500 },
            Fx { raw: 9 },
            Fx { raw: 9000 },
        );
        light_camera.create_buffer(light_proj_view);

        State {
            config: ScreenSize { width, height },
            size: ScreenSize { width, height },
            bg_color: Rgba {
                r: Fx { raw: 9 },
                g: Fx { raw: 18 },
                b: Fx { raw: 27 },
                a: Fx { raw: FX_ONE },
            },
            depth_texture: TargetInfo { width, height, sample_count: SAMPLE_COUNT },
            shadow_texture: TargetInfo { width, height, sample_count: 1 },
            msaa_texture: TargetInfo { width, height, sample_count: SAMPLE_COUNT },
            instance_set,
            camera,
            light_camera,
            index_len: 36,
            time: 0,
        }
    }

    /// Reconfigures the surface and recreates the size-following targets
    /// at a new extent; a zero width or height makes this a no-op.
    pub fn resize(&mut self, width: u32, height: u32)
        ensures
            *final(self) == spec_state_resize(*old(self), width, height),
    {
        if width > 0 && height > 0 {
            self.config = ScreenSize { width, height };
            self.size = ScreenSize { width, height };
            self.depth_texture = TargetInfo { width, height, sample_count: SAMPLE_COUNT };
            self.msaa_texture = TargetInfo { width, height, sample_count: SAMPLE_COUNT };
        }
    }

    /// Reconfigures at the last recorded size — the recovery step after a
    /// lost surface.
    pub fn resize_with_current_size(&mut self)
        ensures
            *final(self) == spec_state_resize(
                *old(self),
                old(self).size.width,
                old(self).size.height,
            ),
    {
        let width = self.size.width;
        let height = self.size.height;
        self.resize(width, height);
    }

    /// Reacts to one input event by moving the camera eye, and says whether
    /// the event was consumed (a consumed event is not reinterpreted by the
    /// surrounding loop).
    pub fn input(&mut self, event: &InputEvent) -> (consumed: bool)
        requires
            -(i64::MAX - FX_HALF) <= old(self).camera.eye.x.raw <= i64::MAX - FX_HALF,
            -(i64::MAX - FX_HALF) <= old(self).camera.eye.y.raw <= i64::MAX - FX_HALF,
            -(i64::MAX - FX_HALF) <= old(self).camera.eye.z.raw <= i64::MAX - FX_HALF,
        ensures
            final(self).camera.eye == spec_input_eye(old(self).camera.eye, *event).0,
            consumed == spec_input_eye(old(self).camera.eye, *event).1,
            *final(self) == (State {
                camera: Camera { eye: final(self).camera.eye, ..old(self).camera },
                ..*old(self)
            }),
    {
        match event {
            InputEvent::KeyboardInput { pressed, key } => {
                if *pressed {
                    match key {
                        KeyCode::Space => true,
                        KeyCode::A => {
                            self.camera.eye.x = Fx { raw: self.camera.eye.x.raw - FX_HALF };
                            true
                        },
                        KeyCode::S => {
                            self.camera.eye.y = Fx { raw: self.camera.eye.y.raw - FX_HALF };
                            true
                        },
                        KeyCode::D => {
                            self.camera.eye.x = Fx { raw: self.camera.eye.x.raw + FX_HALF };
                            true
                        },
                        KeyCode::W => {
                            self.camera.eye.y = Fx { raw: self.camera.eye.y.raw + FX_HALF };
                            true
                        },
                        KeyCode::Other => false,
                    }
                } else {
                    false
                }
            },
            InputEvent::MouseWheel { scroll_up } => {
                if *scroll_up {
                    self.camera.eye.z = Fx { raw: self.camera.eye.z.raw - FX_HALF };
                } else {
                    self.camera.eye.z = Fx { raw: self.camera.eye.z.raw + FX_HALF };
                }
                false
            },
            InputEvent::Other => false,
        }
    }

    /// Advances one frame: rewrites the main camera's uniform from the
    /// caller's evaluation of its current projection-times-view, steps the
    /// animation clock by a half unit, animates every instance, and
    /// rewrites the whole instance buffer.
    ///
    /// `waves` and `trig` are the caller's evaluations at the *new* clock
    /// value: for each instance in order, the wave offset
    /// `sin(grid_phase) * grid_amplitude`, and the cosine/sine of its new
    /// yaw. The light camera is static and is not rewritten.
    pub fn update(&mut self, proj_view: &Mat4, waves: &Vec<Fx>, trig: &Vec<TrigPair>)
        requires
            old(self).wf(),
            old(self).time < TICK_LIMIT,
            proj_view.bounded(MAT_BOUND as int),
            waves@.len() == old(self).instance_set.items@.len(),
            trig@.len() == old(self).instance_set.items@.len(),
            forall|i: int| 0 <= i < waves@.len() ==> (#[trigger] waves@[i]).bounded(),
            forall|i: int| 0 <= i < trig@.len() ==> (#[trigger] trig@[i]).wf(),
        ensures
            final(self).time == old(self).time + 1,
            final(self).camera == (Camera {
                buffer: Some(CameraUniform { view_proj: spec_remap(*proj_view) }),
                ..old(self).camera
            }),
            final(self).instance_set.items@ == spec_updated_items(
                old(self).instance_set.items@,
                (old(self).time + 1) as u64,
                waves@,
            ),
            final(self).instance_set.spec_buffer() == Some(
                raws_of(final(self).instance_set.items@, trig@),
            ),
            final(self).config == old(self).config,
            final(self).size == old(self).size,
            final(self).bg_color == old(self).bg_color,
            final(self).depth_texture == old(self).depth_texture,
            final(self).shadow_texture == old(self).shadow_texture,
            final(self).msaa_texture == old(self).msaa_texture,
            final(self).light_camera == old(self).light_camera,
            final(self).index_len == old(self).index_len,
            final(self).wf(),
    {
        self.camera.update(proj_view);
        self.time = self.time + 1;
        let ticks = self.time;

        let n = self.instance_set.items.len();
        let mut new_items: Vec<MatrixInstance> = Vec::new();
        let mut i: usize = 0;
        while i < n
            invariant
                n == self.instance_set.items@.len(),
                waves@.len() == n,
                forall|k: int| 0 <= k < n ==> (#[trigger] waves@[k]).bounded(),
                self.instance_set.items_bounded(),
                forall|k: int|
                    0 <= k < n ==> match #[trigger] self.instance_set.items@[k] {
                        MatrixInstance::Grid(g) => g.z <= 9,
                        MatrixInstance::Plain(_) => true,
                    },
                ticks <= TICK_LIMIT,
                i <= n,
                new_items@.len() == i,
                forall|k: int|
                    0 <= k < i ==> #[trigger] new_items@[k] == spec_update(
                        self.instance_set.items@[k],
                        ticks,
                        waves@[k],
                    ),
            decreases n - i,
        {
            let mut m = self.instance_set.items[i];
            proof {
                match m {
                    MatrixInstance::Grid(g) => {
                        assert(g.z * ticks <= 9 * TICK_LIMIT) by (nonlinear_arith)
                            requires
                                g.z <= 9,
                                ticks <= TICK_LIMIT,
                        ;
                    },
                    MatrixInstance::Plain(_) => {},
                }
            }
            m.update(ticks, waves[i]);
            new_items.push(m);
            i = i + 1;
        }
        proof {
            assert(new_items@ =~= spec_updated_items(self.instance_set.items@, ticks, waves@));
            assert forall|k: int|
                0 <= k < new_items@.len() implies spec_instance_bounded(
                #[trigger] new_items@[k],
            ) by {
                assert(new_items@[k] == spec_update(
                    self.instance_set.items@[k],
                    ticks,
                    waves@[k],
                ));
            }
            assert forall|k: int|
                0 <= k < new_items@.len() implies match #[trigger] new_items@[k] {
                MatrixInstance::Grid(g) => g.z <= 9,
                MatrixInstance::Plain(_) => true,
            } by {
                assert(new_items@[k] == spec_update(
                    self.instance_set.items@[k],
                    ticks,
                    waves@[k],
                ));
            }
        }
        self.instance_set.items = new_items;
        self.instance_set.update_buffer(trig);
    }

    /// Records one frame's command sequence from an acquisition outcome:
    /// on success, the exact two-pass plan — the depth-only shadow pass
    /// over every instance, then the color pass on the MSAA target resolved
    /// to the surface, drawing all but the last instance on the diffuse
    /// pipeline and the last alone on the solid pipeline; on failure, the
    /// error as is, with no draws recorded for this iteration.
    pub fn render(&self, acquired: Result<(), SurfaceError>) -> (r: Result<FramePlan, SurfaceError>)
        requires
            self.wf(),
        ensures
            acquired is Ok <==> r is Ok,
            acquired matches Err(e) ==> r == Err::<FramePlan, SurfaceError>(e),
            r matches Ok(plan) ==> {
                &&& plan.shadow_pass.color is None
                &&& plan.shadow_pass.depth_target == DepthTargetKind::ShadowDepth
                &&& plan.shadow_pass.depth_clear == (Fx { raw: FX_ONE })
                &&& plan.shadow_pass.draws@ == spec_shadow_draws(*self)
                &&& plan.color_pass.color == Some(
                    ColorAttachment {
                        use_msaa_target: true,
                        resolve_to_surface: true,
                        clear: self.bg_color,
                    },
                )
                &&& plan.color_pass.depth_target == DepthTargetKind::SceneDepth
                &&& plan.color_pass.depth_clear == (Fx { raw: FX_ONE })
                &&& plan.color_pass.draws@ == spec_color_draws(*self)
            },
    {
        match acquired {
            Err(e) => Err(e),
            Ok(()) => {
                let count = self.instance_set.count() as u32;
                let index_len = self.index_len as u32;
                let shadow_draws = vec![
                    DrawCall {
                        pipeline: PipelineKind::Shadow,
                        group0: BindGroupKind::Light,
                        group1: None,
                        index_start: 0,
                        index_end: index_len,
                        instance_start: 0,
                        instance_end: count,
                    },
                ];
                let color_draws = vec![
                    DrawCall {
                        pipeline: PipelineKind::Diffuse,
                        group0: BindGroupKind::DiffuseTexture,
                        group1: Some(BindGroupKind::Camera),
                        index_start: 0,
                        index_end: index_len,
                        instance_start: 0,
                        instance_end: count - 1,
                    },
                    DrawCall {
                        pipeline: PipelineKind::Solid,
                        group0: BindGroupKind::Camera,
                        group1: None,
                        index_start: 0,
                        index_end: index_len,
                        instance_start: count - 1,
                        instance_end: count,
                    },
                ];
                proof {
                    assert(shadow_draws@ =~= spec_shadow_draws(*self));
                    assert(color_draws@ =~= spec_color_draws(*self));
                }
                Ok(
                    FramePlan {
                        shadow_pass: PassPlan {
                            color: None,
                            depth_target: DepthTargetKind::ShadowDepth,
                            depth_clear: Fx { raw: FX_ONE },
                            draws: shadow_draws,
                        },
                        color_pass: PassPlan {
                            color: Some(
                                ColorAttachment {
                                    use_msaa_target: true,
                                    resolve_to_surface: true,
                                    clear: self.bg_color,
                                },
                            ),
                            depth_target: DepthTargetKind::SceneDepth,
                            depth_clear: Fx { raw: FX_ONE },
                            draws: color_draws,
                        },
                    },
                )
            },
        }
    }

    /// Reacts to a failed frame: a lost or outdated surface is recovered by
    /// exactly one reconfigure at the last recorded size and the frame is
    /// skipped; a timeout skips the frame with nothing touched; running out
    /// of memory is fatal and stops the loop, with nothing touched.
    pub fn handle_surface_error(&mut self, e: SurfaceError) -> (stop: bool)
        ensures
            (e is Lost || e is Outdated) ==> (*final(self) == spec_state_resize(
                *old(self),
                old(self).size.width,
                old(self).size.height,
            ) && !stop),
            e is Timeout ==> (*final(self) == *old(self) && !stop),
            e is OutOfMemory ==> (*final(self) == *old(self) && stop),
    {
        match e {
            SurfaceError::Lost => {
                self.resize_with_current_size();
                false
            },
            SurfaceError::Outdated => {
                self.resize_with_current_size();
                false
            },
            SurfaceError::Timeout => false,
            SurfaceError::OutOfMemory => true,
        }
    }
}

/// Every draw a frame plan records stays inside the shared buffers: its
/// instance range never reaches an instance index at or past the set's
/// length, and its index range is exactly the index table.
pub proof fn lemma_frame_plan_draws_within_set(s: State)
    requires
        s.wf(),
    ensures
        forall|k: int|
            0 <= k < spec_shadow_draws(s).len() ==> {
                let d = #[trigger] spec_shadow_draws(s)[k];
                d.instance_start <= d.instance_end <= s.instance_set.items@.len()
                    && d.index_start == 0 && d.index_end == s.index_len
            },
        forall|k: int|
            0 <= k < spec_color_draws(s).len() ==> {
                let d = #[trigger] spec_color_draws(s)[k];
                d.instance_start <= d.instance_end <= s.instance_set.items@.len()
                    && d.index_start == 0 && d.index_end == s.index_len
            },
{
}

} // verus!
