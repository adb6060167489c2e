use cubegrid::fixed::Fx;
use cubegrid::graphics::{
    BindGroupKind, DepthTargetKind, InputEvent, KeyCode, PipelineKind, ScreenSize, State,
    SurfaceError, TargetInfo,
};
use cubegrid::instance::{MatrixInstance, TrigPair};
use cubegrid::mat::{Mat4, Vec4i};

fn fx(raw: i64) -> Fx {
    Fx { raw }
}

fn identity_mat() -> Mat4 {
    Mat4 {
        x: Vec4i { x: 8100, y: 0, z: 0, w: 0 },
        y: Vec4i { x: 0, y: 8100, z: 0, w: 0 },
        z: Vec4i { x: 0, y: 0, z: 8100, w: 0 },
        w: Vec4i { x: 0, y: 0, z: 0, w: 8100 },
    }
}

fn fresh_state() -> State {
    let pv = identity_mat();
    State::new(640, 480, &pv, &pv)
}

#[test]
fn new_builds_the_whole_scene() {
    let s = fresh_state();
    assert_eq!(s.config, ScreenSize { width: 640, height: 480 });
    assert_eq!(s.size, ScreenSize { width: 640, height: 480 });
    assert_eq!(s.depth_texture, TargetInfo { width: 640, height: 480, sample_count: 4 });
    assert_eq!(s.msaa_texture, TargetInfo { width: 640, height: 480, sample_count: 4 });
    assert_eq!(s.shadow_texture, TargetInfo { width: 640, height: 480, sample_count: 1 });
    assert_eq!(s.index_len, 36);
    assert_eq!(s.time, 0);
    assert_eq!(s.camera.eye, cubegrid::fixed::Vec3Fx { x: fx(0), y: fx(0), z: fx(4500) });
    assert!(s.camera.buffer.is_some());
    assert!(s.light_camera.buffer.is_some());

    assert_eq!(s.instance_set.items.len(), 101);
    for i in 0..100 {
        match &s.instance_set.items[i] {
            MatrixInstance::Grid(g) => {
                assert_eq!((g.x, g.z), ((i % 10) as u32, (i / 10) as u32));
            }
            MatrixInstance::Plain(_) => panic!("grid cell expected at {i}"),
        }
    }
    match &s.instance_set.items[100] {
        MatrixInstance::Plain(floor) => {
            assert_eq!(floor.position.y, fx(-900));
            assert_eq!(floor.scale.x, fx(2700));
            assert_eq!(floor.scale.y, fx(90));
            assert_eq!(floor.scale.z, fx(2700));
        }
        MatrixInstance::Grid(_) => panic!("floor expected last"),
    }

    let buffer = s.instance_set.get_buffer().unwrap();
    assert_eq!(buffer.len(), 101);
    // The origin cell sits at index 0 with translation (-14.5, 0, 14.5, 1).
    assert_eq!(buffer[0].model.w, Vec4i { x: -117450, y: 0, z: 117450, w: 8100 });
}

#[test]
fn zero_sized_resize_touches_nothing() {
    let mut s = fresh_state();
    let config = s.config;
    let depth = s.depth_texture;
    let msaa = s.msaa_texture;
    let shadow = s.shadow_texture;
    s.resize(0, 555);
    s.resize(555, 0);
    s.resize(0, 0);
    assert_eq!(s.config, config);
    assert_eq!(s.size, config);
    assert_eq!(s.depth_texture, depth);
    assert_eq!(s.msaa_texture, msaa);
    assert_eq!(s.shadow_texture, shadow);
}

#[test]
fn resize_recreates_size_following_targets_only() {
    let mut s = fresh_state();
    s.resize(800, 600);
    assert_eq!(s.config, ScreenSize { width: 800, height: 600 });
    assert_eq!(s.size, ScreenSize { width: 800, height: 600 });
    assert_eq!(s.depth_texture, TargetInfo { width: 800, height: 600, sample_count: 4 });
    assert_eq!(s.msaa_texture, TargetInfo { width: 800, height: 600, sample_count: 4 });
    // The shadow map keeps its fixed resolution.
    assert_eq!(s.shadow_texture, TargetInfo { width: 640, height: 480, sample_count: 1 });
}

#[test]
fn opposite_keys_cancel_on_the_same_frame() {
    let mut s = fresh_state();
    let eye = s.camera.eye;
    let d = InputEvent::KeyboardInput { pressed: true, key: KeyCode::D };
    let a = InputEvent::KeyboardInput { pressed: true, key: KeyCode::A };
    assert!(s.input(&d));
    assert_eq!(s.camera.eye.x.raw, eye.x.raw + 45);
    assert!(s.input(&a));
    assert_eq!(s.camera.eye, eye);
}

#[test]
fn keys_and_wheel_move_the_eye() {
    let mut s = fresh_state();
    assert!(s.input(&InputEvent::KeyboardInput { pressed: true, key: KeyCode::W }));
    assert_eq!(s.camera.eye.y.raw, 45);
    assert!(s.input(&InputEvent::KeyboardInput { pressed: true, key: KeyCode::S }));
    assert_eq!(s.camera.eye.y.raw, 0);

    // Space is consumed without moving anything.
    let eye = s.camera.eye;
    assert!(s.input(&InputEvent::KeyboardInput { pressed: true, key: KeyCode::Space }));
    assert_eq!(s.camera.eye, eye);

    // Releases and unknown keys are not consumed.
    assert!(!s.input(&InputEvent::KeyboardInput { pressed: false, key: KeyCode::D }));
    assert!(!s.input(&InputEvent::KeyboardInput { pressed: true, key: KeyCode::Other }));
    assert_eq!(s.camera.eye, eye);

    // A wheel notch moves z against the scroll direction and is never
    // treated as consumed.
    assert!(!s.input(&InputEvent::MouseWheel { scroll_up: true }));
    assert_eq!(s.camera.eye.z.raw, 4500 - 45);
    assert!(!s.input(&InputEvent::MouseWheel { scroll_up: false }));
    assert_eq!(s.camera.eye.z.raw, 4500);
}

#[test]
fn update_advances_clock_animation_and_buffers() {
    let mut s = fresh_state();
    let pv2 = Mat4 {
        x: Vec4i { x: 8100, y: 0, z: 0, w: 0 },
        y: Vec4i { x: 0, y: 8100, z: 0, w: 0 },
        z: Vec4i { x: 0, y: 0, z: -16200, w: -8100 },
        w: Vec4i { x: 0, y: 0, z: -1620, w: 8100 },
    };
    let waves = vec![fx(7); 101];
    let trig = vec![TrigPair::identity(); 101];
    s.update(&pv2, &waves, &trig);

    assert_eq!(s.time, 1);
    let expected = cubegrid::mat::apply_depth_remap(&pv2);
    assert_eq!(s.camera.buffer.unwrap().view_proj, expected);

    // Grid cells took the supplied wave height and turned by z * time
    // degrees; the floor did not move.
    for i in 0..100 {
        match &s.instance_set.items[i] {
            MatrixInstance::Grid(g) => {
                assert_eq!(g.instance.position.y, fx(7));
                assert_eq!(g.instance.rotation.half_degrees, (i as i64 / 10) * 1);
            }
            MatrixInstance::Plain(_) => panic!("grid cell expected at {i}"),
        }
    }
    match &s.instance_set.items[100] {
        MatrixInstance::Plain(floor) => assert_eq!(floor.position.y, fx(-900)),
        MatrixInstance::Grid(_) => panic!("floor expected last"),
    }

    // The buffer was rewritten wholesale from the new transforms.
    let buffer = s.instance_set.get_buffer().unwrap();
    for i in 0..101 {
        assert_eq!(buffer[i], s.instance_set.items[i].to_raw(&trig[i]));
    }
}

#[test]
fn render_plans_the_two_passes() {
    let s = fresh_state();
    let plan = s.render(Ok(())).unwrap();

    assert!(plan.shadow_pass.color.is_none());
    assert_eq!(plan.shadow_pass.depth_target, DepthTargetKind::ShadowDepth);
    assert_eq!(plan.shadow_pass.depth_clear, fx(90));
    assert_eq!(plan.shadow_pass.draws.len(), 1);
    let d = &plan.shadow_pass.draws[0];
    assert_eq!(d.pipeline, PipelineKind::Shadow);
    assert_eq!(d.group0, BindGroupKind::Light);
    assert_eq!(d.group1, None);
    assert_eq!((d.index_start, d.index_end), (0, 36));
    assert_eq!((d.instance_start, d.instance_end), (0, 101));

    let color = plan.color_pass.color.unwrap();
    assert!(color.use_msaa_target);
    assert!(color.resolve_to_surface);
    assert_eq!((color.clear.r, color.clear.g, color.clear.b, color.clear.a), (
        fx(9),
        fx(18),
        fx(27),
        fx(90),
    ));
    assert_eq!(plan.color_pass.depth_target, DepthTargetKind::SceneDepth);
    assert_eq!(plan.color_pass.depth_clear, fx(90));
    assert_eq!(plan.color_pass.draws.len(), 2);
    let diffuse = &plan.color_pass.draws[0];
    assert_eq!(diffuse.pipeline, PipelineKind::Diffuse);
    assert_eq!(diffuse.group0, BindGroupKind::DiffuseTexture);
    assert_eq!(diffuse.group1, Some(BindGroupKind::Camera));
    assert_eq!((diffuse.instance_start, diffuse.instance_end), (0, 100));
    let solid = &plan.color_pass.draws[1];
    assert_eq!(solid.pipeline, PipelineKind::Solid);
    assert_eq!(solid.group0, BindGroupKind::Camera);
    assert_eq!(solid.group1, None);
    assert_eq!((solid.instance_start, solid.instance_end), (100, 101));
}

#[test]
fn lost_surface_reconfigures_once_at_the_recorded_size() {
    let mut s = fresh_state();
    s.resize(800, 600);
    let depth_before = s.depth_texture;

    // The acquisition failed: no plan, so no draw is submitted this
    // iteration.
    let r = s.render(Err(SurfaceError::Lost));
    assert!(matches!(r, Err(SurfaceError::Lost)));

    // Recovery is one reconfigure at the previously recorded size.
    let stop = s.handle_surface_error(SurfaceError::Lost);
    assert!(!stop);
    assert_eq!(s.config, ScreenSize { width: 800, height: 600 });
    assert_eq!(s.size, ScreenSize { width: 800, height: 600 });
    assert_eq!(s.depth_texture, depth_before);
    assert_eq!(s.shadow_texture, TargetInfo { width: 640, height: 480, sample_count: 1 });
}

#[test]
fn outdated_timeout_and_out_of_memory_policies() {
    let mut s = fresh_state();
    let config = s.config;

    assert!(!s.handle_surface_error(SurfaceError::Outdated));
    assert_eq!(s.config, config);

    assert!(!s.handle_surface_error(SurfaceError::Timeout));
    assert_eq!(s.config, config);

    // Out of memory is fatal: the loop must stop, with nothing touched.
    assert!(s.handle_surface_error(SurfaceError::OutOfMemory));
    assert_eq!(s.config, config);
    assert_eq!(s.time, 0);
}
