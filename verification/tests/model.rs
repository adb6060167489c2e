use cubegrid::camera::{AspectRatio, Camera, Projector};
use cubegrid::fixed::Fx;
use cubegrid::fixed::Vec3Fx;
use cubegrid::instance::{
    grid_amplitude, grid_phase, ArrayInstance, Instance, InstanceSet, MatrixInstance, TrigPair,
    YawAngle,
};
use cubegrid::mat::{apply_depth_remap, Mat4, Vec4i};
use cubegrid::vertex::{indices, vertices, AttributeFormat, StepMode, Vertex};

fn fx(raw: i64) -> Fx {
    Fx { raw }
}

fn v3(x: i64, y: i64, z: i64) -> Vec3Fx {
    Vec3Fx {
        x: fx(x),
        y: fx(y),
        z: fx(z),
    }
}

fn identity_mat() -> Mat4 {
    Mat4 {
        x: Vec4i { x: 8100, y: 0, z: 0, w: 0 },
        y: Vec4i { x: 0, y: 8100, z: 0, w: 0 },
        z: Vec4i { x: 0, y: 0, z: 8100, w: 0 },
        w: Vec4i { x: 0, y: 0, z: 0, w: 8100 },
    }
}

fn transform_of(m: &MatrixInstance) -> Instance {
    match m {
        MatrixInstance::Plain(i) => *i,
        MatrixInstance::Grid(g) => g.instance,
    }
}

#[test]
fn fixed_point_constructors_land_on_the_grid() {
    assert_eq!(Fx::zero().raw, 0);
    assert_eq!(Fx::from_units(3).raw, 270);
    assert_eq!(Fx::from_units(-50).raw, -4500);
    // 14.5 units is 29 half-units.
    assert_eq!(Fx::from_half_units(29).raw, 1305);
    assert_eq!(
        Vec3Fx::make(Fx::from_units(1), Fx::zero(), Fx::from_half_units(-1)),
        v3(90, 0, -45)
    );
}

#[test]
fn grid_positions_follow_the_formula() {
    // 3 x - 14.5 and -2.5 z + 14.5, in steps of 1/90.
    let origin = ArrayInstance::make(0, 0);
    let t = transform_of(&origin);
    assert_eq!(t.position, v3(-1305, 0, 1305));
    assert_eq!(t.rotation, YawAngle { half_degrees: 0 });
    assert_eq!(t.scale, v3(90, 90, 90));

    let other = ArrayInstance::make(3, 7);
    let t = transform_of(&other);
    assert_eq!(t.position.x.raw, 270 * 3 - 1305);
    assert_eq!(t.position.z.raw, 1305 - 225 * 7);
}

#[test]
fn grid_phase_and_amplitude_formulas() {
    assert_eq!(grid_phase(0, 0).raw, 0);
    // 0.2 * (10 / 2) + 2 = 3 units.
    assert_eq!(grid_phase(2, 10).raw, 270);
    assert_eq!(grid_amplitude(0).raw, 90);
    // 1 + 2 * 9 / 9 = 3 units.
    assert_eq!(grid_amplitude(9).raw, 270);
}

#[test]
fn grid_update_sets_wave_and_yaw() {
    let mut m = ArrayInstance::make(1, 2);
    m.update(4, fx(33));
    let t = transform_of(&m);
    assert_eq!(t.position.x.raw, 270 - 1305);
    assert_eq!(t.position.y.raw, 33);
    assert_eq!(t.position.z.raw, 1305 - 450);
    // z * time degrees with time = 2 units: 4 degrees = 8 half-degrees.
    assert_eq!(t.rotation, YawAngle { half_degrees: 8 });
}

#[test]
fn plain_update_is_static() {
    let mut m = Instance::make(v3(1, 2, 3), YawAngle { half_degrees: 7 }, v3(90, 90, 90));
    let before = transform_of(&m);
    m.update(1000, fx(555));
    assert_eq!(transform_of(&m), before);
}

#[test]
fn same_row_same_rotation_different_wave_inputs() {
    // Two grid instances sharing z: identical yaw after an update, while
    // the wave each follows is driven by its own x.
    let mut a = ArrayInstance::make(1, 5);
    let mut b = ArrayInstance::make(7, 5);
    a.update(6, fx(10));
    b.update(6, fx(20));
    assert_eq!(transform_of(&a).rotation, transform_of(&b).rotation);
    assert_eq!(transform_of(&a).rotation, YawAngle { half_degrees: 30 });
    assert_ne!(grid_phase(1, 6).raw, grid_phase(7, 6).raw);
    assert_ne!(grid_amplitude(1).raw, grid_amplitude(7).raw);
}

#[test]
fn to_raw_composes_translation_rotation_scale() {
    let inst = Instance::make(v3(90, 180, 270), YawAngle { half_degrees: 0 }, v3(90, 90, 90));
    let raw = inst.to_raw(&TrigPair::identity());
    assert_eq!(raw.model.x, Vec4i { x: 8100, y: 0, z: 0, w: 0 });
    assert_eq!(raw.model.y, Vec4i { x: 0, y: 8100, z: 0, w: 0 });
    assert_eq!(raw.model.z, Vec4i { x: 0, y: 0, z: 8100, w: 0 });
    assert_eq!(raw.model.w, Vec4i { x: 8100, y: 16200, z: 24300, w: 8100 });
}

#[test]
fn grid_origin_matrix_translation_column() {
    // The cell at (x = 0, z = 0) before any animation: translation column
    // (-14.5, 0, 14.5, 1) in units of 1/8100.
    let mut m = ArrayInstance::make(0, 0);
    m.update(0, fx(0));
    let raw = m.to_raw(&TrigPair::identity());
    assert_eq!(raw.model.w, Vec4i { x: -117450, y: 0, z: 117450, w: 8100 });
}

#[test]
fn depth_remap_of_identity() {
    let r = apply_depth_remap(&identity_mat());
    assert_eq!(r.x, Vec4i { x: 16200, y: 0, z: 0, w: 0 });
    assert_eq!(r.y, Vec4i { x: 0, y: 16200, z: 0, w: 0 });
    assert_eq!(r.z, Vec4i { x: 0, y: 0, z: 8100, w: 0 });
    assert_eq!(r.w, Vec4i { x: 0, y: 0, z: 8100, w: 16200 });
}

fn mul_vec(m: &Mat4, v: (i64, i64, i64, i64)) -> (i64, i64, i64, i64) {
    let (vx, vy, vz, vw) = v;
    (
        m.x.x * vx + m.y.x * vy + m.z.x * vz + m.w.x * vw,
        m.x.y * vx + m.y.y * vy + m.z.y * vz + m.w.y * vw,
        m.x.z * vx + m.y.z * vy + m.z.z * vz + m.w.z * vw,
        m.x.w * vx + m.y.w * vy + m.z.w * vz + m.w.w * vw,
    )
}

#[test]
fn depth_remap_moves_depth_range_to_zero_one() {
    // Through the identity projection, a point at normalized depth -1 must
    // land at 0, one at +1 must land at its divisor (depth 1), and one at
    // 0 must land halfway.
    let m = identity_mat();
    let r = apply_depth_remap(&m);
    for (z, expect_num, expect_den) in [(-1i64, 0i64, 1i64), (1, 1, 1), (0, 1, 2)] {
        let (_, _, rz, rw) = mul_vec(&r, (0, 0, z, 1));
        assert_eq!(rz * expect_den, rw * expect_num);
        assert!(rw > 0);
        assert!(0 <= rz && rz <= rw);
    }
}

#[test]
fn update_buffer_is_idempotent_for_a_fixed_time() {
    let items = vec![ArrayInstance::make(0, 0), ArrayInstance::make(1, 0), {
        Instance::make(v3(0, -900, 0), YawAngle { half_degrees: 0 }, v3(2700, 90, 2700))
    }];
    let trig = vec![TrigPair::identity(); 3];
    let mut set = InstanceSet::make(items);
    assert!(set.get_buffer().is_none());
    set.create_buffer(&trig);
    set.update_buffer(&trig);
    let first = set.get_buffer().unwrap().clone();
    set.update_buffer(&trig);
    let second = set.get_buffer().unwrap().clone();
    assert_eq!(first, second);
}

#[test]
fn buffer_reflects_every_instance_in_order() {
    let items = vec![
        ArrayInstance::make(2, 3),
        ArrayInstance::make(9, 9),
        Instance::make(v3(0, -900, 0), YawAngle { half_degrees: 0 }, v3(2700, 90, 2700)),
    ];
    let trig = vec![TrigPair::identity(); 3];
    let mut set = InstanceSet::make(items);
    set.create_buffer(&trig);
    assert_eq!(set.count(), 3);
    let buffer = set.get_buffer().unwrap().clone();
    assert_eq!(buffer.len(), 3);
    for i in 0..3 {
        assert_eq!(buffer[i], set.items[i].to_raw(&trig[i]));
    }
}

#[test]
fn perspective_resize_takes_the_new_aspect() {
    let mut cam = Camera::make_perspective(
        v3(0, 0, 4500),
        v3(0, 0, 0),
        v3(0, 90, 0),
        AspectRatio { width: 640, height: 480 },
        fx(4050),
        fx(9),
        fx(9000),
    );
    let pose = (cam.eye, cam.target, cam.up);
    cam.resize(1024, 768);
    match cam.projector {
        Projector::Perspective { aspect, fovy_degrees, znear, zfar } => {
            assert_eq!(aspect, AspectRatio { width: 1024, height: 768 });
            assert_eq!(fovy_degrees, fx(4050));
            assert_eq!(znear, fx(9));
            assert_eq!(zfar, fx(9000));
        }
        Projector::Orthogonal { .. } => panic!("projector changed kind"),
    }
    assert_eq!((cam.eye, cam.target, cam.up), pose);
}

#[test]
fn orthogonal_camera_ignores_resize() {
    let mut cam = Camera::make_orthogonal(
        v3(-900, 900, 900),
        v3(0, 0, 0),
        v3(0, 90, 0),
        fx(-4500),
        fx(4500),
        fx(-4500),
        fx(4500),
        fx(9),
        fx(9000),
    );
    let before = cam;
    cam.resize(12345, 1);
    assert_eq!(cam, before);
}

#[test]
fn camera_buffer_holds_the_remapped_matrix() {
    let mut cam = Camera::make_perspective(
        v3(0, 0, 4500),
        v3(0, 0, 0),
        v3(0, 90, 0),
        AspectRatio { width: 640, height: 480 },
        fx(4050),
        fx(9),
        fx(9000),
    );
    assert!(cam.get_view_projection_buffer().is_none());
    let pv = identity_mat();
    cam.create_buffer(&pv);
    let expected = apply_depth_remap(&pv);
    assert_eq!(cam.get_view_projection_buffer().unwrap().view_proj, expected);

    let pv2 = Mat4 {
        x: Vec4i { x: 8100, y: 0, z: 0, w: 0 },
        y: Vec4i { x: 0, y: 8100, z: 0, w: 0 },
        z: Vec4i { x: 0, y: 0, z: -16200, w: -8100 },
        w: Vec4i { x: 0, y: 0, z: -1620, w: 8100 },
    };
    cam.update(&pv2);
    let expected2 = apply_depth_remap(&pv2);
    assert_eq!(cam.get_view_projection_buffer().unwrap().view_proj, expected2);
    assert_ne!(expected, expected2);
}

#[test]
fn vertex_layout_matches_the_shader_slots() {
    let d = Vertex::desc();
    assert_eq!(d.array_stride, 20);
    assert_eq!(d.step_mode, StepMode::Vertex);
    assert_eq!(d.attributes.len(), 2);
    assert_eq!(
        (d.attributes[0].offset, d.attributes[0].shader_location, d.attributes[0].format),
        (0, 0, AttributeFormat::Float32x3)
    );
    assert_eq!(
        (d.attributes[1].offset, d.attributes[1].shader_location, d.attributes[1].format),
        (12, 1, AttributeFormat::Float32x2)
    );
}

#[test]
fn instance_layout_matches_the_shader_slots() {
    let d = Instance::desc();
    assert_eq!(d.array_stride, 64);
    assert_eq!(d.step_mode, StepMode::Instance);
    assert_eq!(d.attributes.len(), 4);
    for (i, a) in d.attributes.iter().enumerate() {
        assert_eq!(a.offset, 16 * i as u64);
        assert_eq!(a.shader_location, 5 + i as u32);
        assert_eq!(a.format, AttributeFormat::Float32x4);
    }
}

#[test]
fn mesh_tables_are_the_cube() {
    let v = vertices();
    assert_eq!(v.len(), 24);
    for vertex in &v {
        for c in [vertex.position.x, vertex.position.y, vertex.position.z] {
            assert!(c.raw == 90 || c.raw == -90);
        }
        for c in [vertex.color.x, vertex.color.y] {
            assert!(c.raw == 0 || c.raw == 90);
        }
    }
    assert_eq!(v[0].position, v3(-90, -90, -90));

    let idx = indices();
    assert_eq!(idx.len(), 36);
    assert_eq!(&idx[0..6], &[0, 2, 1, 2, 3, 1]);
    assert!(idx.iter().all(|&i| (i as usize) < v.len()));
}
