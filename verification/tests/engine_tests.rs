//! Scenario tests for the renderer state machine, the resource
//! registry, the scene graph and the engine's frame sequencing.

use shiota_engine::camera::Camera;
use shiota_engine::components::{CameraComponent, Component, MeshComponent};
use shiota_engine::engine::EngineBuilder;
use shiota_engine::error::EngineError;
use shiota_engine::fx::{FX_ONE, HALF_PI_FX, PI_FX};
use shiota_engine::math::{Matrix4, Vector2, Vector3, Vector4};
use shiota_engine::mesh::{Texture, Vertex};
use shiota_engine::objects::Object;
use shiota_engine::renderer::{
    CompileOutcome, ContextBinding, DisplayEvent, DrawCommand, PrismRenderer, ScreenId,
    WindowPair,
};
use shiota_engine::scene::Scene;
use shiota_engine::shader::{Shader, UniformValue};

fn pair() -> WindowPair {
    WindowPair {
        upper_native_id: 11,
        lower_native_id: 22,
        context_major: 3,
        context_minor: 3,
        width: 800,
        height: 480,
    }
}

fn initialized_renderer() -> PrismRenderer {
    let mut r = PrismRenderer::new();
    r.init(Some(pair())).expect("init should succeed");
    r
}

/// A 1x2 PNG whose two pixels differ, to observe the vertical flip.
fn two_pixel_png() -> Vec<u8> {
    let mut img = image::RgbaImage::new(1, 2);
    img.put_pixel(0, 0, image::Rgba([10, 20, 30, 255]));
    img.put_pixel(0, 1, image::Rgba([40, 50, 60, 255]));
    let mut out = std::io::Cursor::new(Vec::new());
    img.write_to(&mut out, image::ImageFormat::Png).expect("png encode");
    out.into_inner()
}

#[test]
fn init_creates_two_distinct_displays_with_one_version() {
    let r = initialized_renderer();
    assert!(r.initialized);
    let u = r.upper_window.expect("upper display");
    let l = r.lower_window.expect("lower display");
    assert_eq!(u.name, ScreenId::Upper);
    assert_eq!(l.name, ScreenId::Lower);
    assert_ne!(u.native_id, l.native_id);
    assert_eq!(u.context_major, l.context_major);
    assert_eq!(u.context_minor, l.context_minor);
    assert!(!u.close_requested && !l.close_requested);
}

#[test]
fn init_twice_fails_and_leaves_state_unchanged() {
    let mut r = initialized_renderer();
    let e = r.init(Some(pair())).unwrap_err();
    assert!(matches!(e, EngineError::AlreadyInitialized));
    assert!(r.initialized);
    assert!(!r.should_close());
}

#[test]
fn init_rejects_identical_native_windows() {
    let mut r = PrismRenderer::new();
    let mut p = pair();
    p.lower_native_id = p.upper_native_id;
    let e = r.init(Some(p)).unwrap_err();
    assert!(matches!(e, EngineError::Initialization(_)));
    assert!(!r.initialized);
}

#[test]
fn init_reports_platform_failure() {
    let mut r = PrismRenderer::new();
    let e = r.init(None).unwrap_err();
    assert!(matches!(e, EngineError::Initialization(_)));
    assert!(!r.initialized);
}

#[test]
fn should_close_is_false_after_init_and_follows_or_semantics() {
    let mut r = initialized_renderer();
    assert!(!r.should_close());

    // a close event only on the lower display raises the shared signal
    let none: Vec<DisplayEvent> = Vec::new();
    let lower = vec![DisplayEvent::Other, DisplayEvent::CloseRequested];
    r.handle_events(&none, &lower, false, false).expect("events");
    assert!(r.should_close());
    assert!(!r.upper_window.as_ref().unwrap().close_requested);
    assert!(r.lower_window.as_ref().unwrap().close_requested);
}

#[test]
fn window_level_close_flag_also_raises_the_signal() {
    let mut r = initialized_renderer();
    let none: Vec<DisplayEvent> = Vec::new();
    r.handle_events(&none, &none, true, false).expect("events");
    assert!(r.should_close());
}

#[test]
fn handle_events_before_init_is_an_error() {
    let mut r = PrismRenderer::new();
    let none: Vec<DisplayEvent> = Vec::new();
    let e = r.handle_events(&none, &none, false, false).unwrap_err();
    assert!(matches!(e, EngineError::NotInitialized));
}

#[test]
fn screen_operations_before_init_are_errors() {
    let mut r = PrismRenderer::new();
    assert!(matches!(r.begin_upper_screen(0), Err(EngineError::NotInitialized)));
    assert!(matches!(r.end_upper_screen(0), Err(EngineError::NotInitialized)));
    assert!(matches!(r.begin_lower_screen(0), Err(EngineError::NotInitialized)));
    assert!(matches!(r.end_lower_screen(0), Err(EngineError::NotInitialized)));
    assert!(matches!(r.clear_screen(Vector4::zero()), Err(EngineError::NotInitialized)));
}

#[test]
fn begin_and_end_cycle_the_binding_and_record_the_delta() {
    let mut r = initialized_renderer();
    assert_eq!(r.binding, ContextBinding::Unbound);
    r.begin_upper_screen(1_000_000).expect("begin upper");
    assert_eq!(r.binding, ContextBinding::Upper);
    r.end_upper_screen(2_000_000).expect("end upper");
    assert_eq!(r.binding, ContextBinding::Unbound);
    // one second elapsed: exactly one fixed-point unit
    assert_eq!(r.get_delta(), FX_ONE);
    r.begin_lower_screen(2_000_000).expect("begin lower");
    assert_eq!(r.binding, ContextBinding::Lower);
    r.end_lower_screen(2_500_000).expect("end lower");
    assert_eq!(r.binding, ContextBinding::Unbound);
    assert_eq!(r.get_delta(), FX_ONE / 2);
}

#[test]
fn second_begin_without_end_rebinds_and_draws_target_the_lower_display() {
    let mut r = initialized_renderer();
    let mesh = r
        .create_mesh(Vec::new(), vec![0, 1, 2], Vec::new())
        .expect("mesh");
    let shader = r
        .create_shader_from_source("v", "f", &CompileOutcome::success())
        .expect("shader");
    r.begin_upper_screen(0).expect("begin upper");
    r.begin_lower_screen(1).expect("begin lower without ending upper");
    assert_eq!(r.binding, ContextBinding::Lower);
    r.draw_mesh(&mesh, &shader).expect("draw");
    match r.commands.last().expect("one command") {
        DrawCommand::DrawMesh { target, .. } => assert_eq!(*target, ScreenId::Lower),
        other => panic!("unexpected command {other:?}"),
    }
}

#[test]
fn resources_created_once_draw_on_both_screens() {
    let mut r = initialized_renderer();
    let texture = r.create_texture(&two_pixel_png()).expect("texture");
    let vertices = vec![Vertex::new(
        Vector3::zero(),
        Vector3::new(0, 0, FX_ONE),
        Vector2::zero(),
    )];
    let mesh = r
        .create_mesh(vertices, vec![0, 0, 0], vec![texture])
        .expect("mesh");
    let shader = r
        .create_shader_from_source("v", "f", &CompileOutcome::success())
        .expect("shader");
    let textures_before = r.textures.len();
    let counter_before = r.next_gpu_id;

    r.begin_upper_screen(0).expect("begin upper");
    r.draw_mesh(&mesh, &shader).expect("draw upper");
    r.end_upper_screen(1).expect("end upper");
    r.begin_lower_screen(1).expect("begin lower");
    r.draw_mesh(&mesh, &shader).expect("draw lower");
    r.end_lower_screen(2).expect("end lower");

    // the registry and the handle counter never changed between passes
    assert_eq!(r.textures.len(), textures_before);
    assert_eq!(r.next_gpu_id, counter_before);

    // both submissions reference the same resources, on different screens
    let n = r.commands.len();
    match (&r.commands[n - 2], &r.commands[n - 1]) {
        (
            DrawCommand::DrawMesh { target: tu, vao: vu, shader_id: su, .. },
            DrawCommand::DrawMesh { target: tl, vao: vl, shader_id: sl, .. },
        ) => {
            assert_eq!(*tu, ScreenId::Upper);
            assert_eq!(*tl, ScreenId::Lower);
            assert_eq!(vu, vl);
            assert_eq!(su, sl);
        }
        other => panic!("unexpected commands {other:?}"),
    }
}

#[test]
fn texture_decoding_flips_vertically_and_expands_to_rgba() {
    let mut r = initialized_renderer();
    let t = r.create_texture(&two_pixel_png()).expect("texture");
    let record = r.textures.last().expect("registered");
    assert_eq!(record.id, t.id);
    assert_eq!(record.width, 1);
    assert_eq!(record.height, 2);
    assert_eq!(record.pixels.len(), 8);
    // the bottom source pixel (40, 50, 60) comes first after the flip
    assert_eq!(&record.pixels[0..4], &[40, 50, 60, 255]);
    assert_eq!(&record.pixels[4..8], &[10, 20, 30, 255]);
}

#[test]
fn texture_from_undecodable_bytes_is_a_resource_error() {
    let mut r = initialized_renderer();
    let junk = vec![1u8, 2, 3, 4];
    let before = r.textures.len();
    let e = r.create_texture(&junk).unwrap_err();
    assert!(matches!(e, EngineError::ResourceLoad(_)));
    assert_eq!(r.textures.len(), before);
}

#[test]
fn create_texture_before_init_is_an_error() {
    let mut r = PrismRenderer::new();
    let e = r.create_texture(&two_pixel_png()).unwrap_err();
    assert!(matches!(e, EngineError::NotInitialized));
}

#[test]
fn shader_stage_failures_carry_their_diagnostics() {
    let mut r = initialized_renderer();
    let vertex_failure = CompileOutcome {
        vertex_error: Some("bad vertex".to_owned()),
        fragment_error: None,
        link_error: None,
    };
    match r.create_shader_from_source("v", "f", &vertex_failure) {
        Err(EngineError::ShaderCompile(d)) => assert_eq!(d, "bad vertex"),
        other => panic!("unexpected {other:?}"),
    }
    let link_failure = CompileOutcome {
        vertex_error: None,
        fragment_error: None,
        link_error: Some("bad link".to_owned()),
    };
    match r.create_shader_from_source("v", "f", &link_failure) {
        Err(EngineError::ShaderLink(d)) => assert_eq!(d, "bad link"),
        other => panic!("unexpected {other:?}"),
    }
    // failures allocate nothing: the next success takes the next handle
    let before = r.next_gpu_id;
    let s = r
        .create_shader_from_source("v", "f", &CompileOutcome::success())
        .expect("shader");
    assert_eq!(s.id, before);
}

#[test]
fn draw_without_a_bound_context_is_an_error() {
    let mut r = initialized_renderer();
    let mesh = r.create_mesh(Vec::new(), Vec::new(), Vec::new()).expect("mesh");
    let shader = r
        .create_shader_from_source("v", "f", &CompileOutcome::success())
        .expect("shader");
    let e = r.draw_mesh(&mesh, &shader).unwrap_err();
    assert!(matches!(e, EngineError::ContextNotBound));
    assert!(r.commands.is_empty());
}

#[test]
fn deinit_is_idempotent() {
    let mut r = initialized_renderer();
    let none: Vec<DisplayEvent> = Vec::new();
    let close = vec![DisplayEvent::CloseRequested];
    r.handle_events(&close, &none, false, false).expect("events");
    r.deinit();
    assert!(!r.initialized);
    assert!(r.upper_window.is_none() && r.lower_window.is_none());
    assert!(r.textures.is_empty() && r.commands.is_empty());
    let close_after_one = r.should_close();
    let delta_after_one = r.get_delta();
    r.deinit();
    assert!(!r.initialized);
    assert!(r.upper_window.is_none() && r.lower_window.is_none());
    assert_eq!(r.should_close(), close_after_one);
    assert_eq!(r.get_delta(), delta_after_one);
}

#[test]
fn model_matrix_of_identity_transform_is_identity() {
    let mut r = initialized_renderer();
    let mesh = r.create_mesh(Vec::new(), Vec::new(), Vec::new()).expect("mesh");
    assert_eq!(mesh.get_model().to_array(), Matrix4::identity().to_array());
}

#[test]
fn model_matrix_composes_in_the_fixed_order() {
    let mut r = initialized_renderer();
    let mut mesh = r.create_mesh(Vec::new(), Vec::new(), Vec::new()).expect("mesh");
    mesh.set_rotation_y(PI_FX);

    let expected = Matrix4::from_translation(Vector3::zero())
        .multiply(&Matrix4::from_rotation_z(0))
        .multiply(&Matrix4::from_rotation_y(PI_FX))
        .multiply(&Matrix4::from_rotation_x(0))
        .multiply(&Matrix4::from_scale(Vector3::one()));
    assert_eq!(mesh.get_model().to_array(), expected.to_array());

    mesh.set_translation(Vector3::new(2 * FX_ONE, 0, -FX_ONE));
    mesh.set_scale(Vector3::new(5 * FX_ONE, 5 * FX_ONE, 5 * FX_ONE));
    mesh.set_rotation_x(PI_FX / 3);
    mesh.set_rotation_z(PI_FX / 7);
    let expected = Matrix4::from_translation(Vector3::new(2 * FX_ONE, 0, -FX_ONE))
        .multiply(&Matrix4::from_rotation_z(PI_FX / 7))
        .multiply(&Matrix4::from_rotation_y(PI_FX))
        .multiply(&Matrix4::from_rotation_x(PI_FX / 3))
        .multiply(&Matrix4::from_scale(Vector3::new(
            5 * FX_ONE,
            5 * FX_ONE,
            5 * FX_ONE,
        )));
    assert_eq!(mesh.get_model().to_array(), expected.to_array());
}

#[test]
fn components_overwrite_never_stack() {
    let mut object = Object::new();
    assert!(object.try_get_camera().is_none());
    assert!(object.try_get_mesh_instance().is_none());
    assert_eq!(object.get_name(), "New Object");
    object.set_name("Camera");
    assert_eq!(object.get_name(), "Camera");

    let mut first = CameraComponent::new();
    first.translate(Vector3::new(0, 0, 5 * FX_ONE));
    object.add_component(Component::Camera(first));
    let second = CameraComponent::new();
    object.add_component(Component::Camera(second));
    let held = object.try_get_camera().expect("camera present");
    // the second add replaced the translated camera with the fresh one
    assert_eq!(held.get_prism_camera().get_position(), Vector3::zero());
}

#[test]
fn scene_object_insertion_replaces_by_identity() {
    let mut scene = Scene::new();
    let a = Object::new();
    let a_id = a.get_id();
    scene.add_object_upper(a);
    let mut b = Object::new();
    b.id = a_id;
    b.set_name("replacement");
    scene.add_object_upper(b);
    assert_eq!(scene.upper_screen_objects.len(), 1);
    assert_eq!(scene.upper_screen_objects[0].get_name(), "replacement");
    let c = Object::new();
    scene.add_object_upper(c);
    assert_eq!(scene.upper_screen_objects.len(), 2);
    assert_eq!(scene.lower_screen_objects.len(), 0);
}

#[test]
fn render_upper_with_translated_camera_writes_its_view_matrix() {
    let mut r = initialized_renderer();
    let mut shader = r
        .create_shader_from_source("v", "f", &CompileOutcome::success())
        .expect("shader");
    let mesh = r.create_mesh(Vec::new(), vec![0, 1, 2], Vec::new()).expect("mesh");

    let mut scene = Scene::new();
    let mut camera_object = Object::new();
    camera_object.set_name("Camera");
    let mut camera_component = CameraComponent::new();
    camera_component.translate(Vector3::new(0, 0, 5 * FX_ONE));
    let camera_id = camera_object.get_id();
    camera_object.add_component(Component::Camera(camera_component));
    scene.add_object_upper(camera_object);
    scene.set_upper_camera(camera_id);
    let mut cube = Object::new();
    cube.add_component(Component::MeshInstance(MeshComponent::new(mesh)));
    scene.add_object_upper(cube);

    r.begin_upper_screen(0).expect("begin upper");
    scene
        .render_upper(r.get_delta(), &mut r, &mut shader)
        .expect("no active-camera error");

    assert_eq!(shader.writes[0].name, "view");
    let view = match shader.writes[0].value {
        UniformValue::Mat4(m) => m.to_array(),
        other => panic!("unexpected uniform {other:?}"),
    };
    // camera at (0, 0, 5) looking down -Z: the view translation carries
    // the eye back by five units along z, exactly in fixed point
    assert_eq!(view[14], -5 * FX_ONE);
    assert_eq!(view[13], 0);
    assert!(view[12].abs() <= 16, "x translation {}", view[12]);
    assert_eq!(shader.writes[1].name, "projection");
    assert_eq!(shader.writes[2].name, "viewPos");

    // the mesh was submitted on the upper screen
    match r.commands.last().expect("submission") {
        DrawCommand::DrawMesh { target, .. } => assert_eq!(*target, ScreenId::Upper),
        other => panic!("unexpected command {other:?}"),
    }
}

#[test]
fn render_lower_without_camera_skips_that_screen_only() {
    let mut engine = EngineBuilder::new()
        .application_name("Test Application")
        .build(Some(pair()))
        .expect("engine");
    let mut scene = Scene::new();
    let mut camera_object = Object::new();
    let camera_id = camera_object.get_id();
    camera_object.add_component(Component::Camera(CameraComponent::new()));
    scene.add_object_upper(camera_object);
    scene.set_upper_camera(camera_id);
    let scene_id = engine.add_scene(scene);
    engine.set_main_scene(scene_id);
    engine.begin_run(&CompileOutcome::success()).expect("begin run");

    let none: Vec<DisplayEvent> = Vec::new();
    let report = engine
        .frame(&none, &none, false, false, 0, 1, 1, 2)
        .expect("frame");
    assert!(report.upper_error.is_none());
    assert!(matches!(report.lower_error, Some(EngineError::NoActiveCamera)));
    assert_eq!(engine.rendering_context.binding, ContextBinding::Unbound);
    assert!(!engine.rendering_context.should_close);
}

#[test]
fn engine_requires_a_main_scene_before_running() {
    let mut engine = EngineBuilder::new().build(Some(pair())).expect("engine");
    let e = engine.begin_run(&CompileOutcome::success()).unwrap_err();
    assert!(matches!(e, EngineError::Initialization(_)));
}

#[test]
fn frame_propagates_the_close_signal() {
    let mut engine = EngineBuilder::new().build(Some(pair())).expect("engine");
    let mut scene = Scene::new();
    let mut camera_object = Object::new();
    let camera_id = camera_object.get_id();
    camera_object.add_component(Component::Camera(CameraComponent::new()));
    scene.add_object_upper(camera_object);
    scene.set_upper_camera(camera_id);
    let scene_id = engine.add_scene(scene);
    engine.set_main_scene(scene_id);
    engine.begin_run(&CompileOutcome::success()).expect("begin run");

    let none: Vec<DisplayEvent> = Vec::new();
    let close = vec![DisplayEvent::CloseRequested];
    assert!(!engine.rendering_context.should_close);
    engine
        .frame(&none, &close, false, false, 0, 1, 1, 2)
        .expect("frame");
    assert!(engine.rendering_context.should_close);
}

#[test]
fn uniform_writes_are_recorded_in_order() {
    let mut shader = Shader::new(7);
    assert_eq!(shader.id, 7);
    shader.set_uniform_mat4("model", Matrix4::identity());
    shader.set_uniform_vec3("viewPos", Vector3::new(1, 2, 3));
    shader.set_uniform_vec4("color", Vector4::one());
    shader.set_uniform_float("material.shininess", 32 * FX_ONE);
    shader.set_uniform_int("texture_0", 0);
    shader.set_uniform_bool("lit", true);
    assert_eq!(shader.writes.len(), 6);
    assert_eq!(shader.writes[0].name, "model");
    assert_eq!(shader.writes[3].name, "material.shininess");
    assert!(matches!(shader.writes[4].value, UniformValue::Int(0)));
    assert!(matches!(shader.writes[5].value, UniformValue::Bool(true)));
}

#[test]
fn null_texture_handle_is_zero() {
    assert_eq!(Texture::new().id, 0);
}

#[test]
fn builder_carries_the_application_name() {
    let b = EngineBuilder::new();
    assert_eq!(b.application_name, "Shiota Application");
    let b = b.application_name("Test Application");
    assert_eq!(b.application_name, "Test Application");
    let engine = b.build(Some(pair())).expect("engine");
    assert_eq!(engine.application_name, "Test Application");
    assert!(engine.scenes.is_empty());
    assert!(engine.main_scene_id.is_none());
}

#[test]
fn builder_reports_platform_failure() {
    let e = EngineBuilder::new().build(None).unwrap_err();
    assert!(matches!(e, EngineError::Initialization(_)));
}

#[test]
fn camera_basis_looks_down_negative_z() {
    let cam = Camera::new(
        Vector3::new(0, 0, 8 * FX_ONE),
        Vector3::new(0, FX_ONE, 0),
        -HALF_PI_FX,
        0,
    );
    assert!((cam.front.z + FX_ONE).abs() <= 16, "front.z = {}", cam.front.z);
    assert!(cam.front.x.abs() <= 16);
    assert_eq!(cam.front.y, 0);
    assert!((cam.right.x - FX_ONE).abs() <= 16, "right.x = {}", cam.right.x);
    assert!((cam.up.y - FX_ONE).abs() <= 16, "up.y = {}", cam.up.y);
}

#[test]
fn camera_moves_without_disturbing_its_basis() {
    let mut cam = Camera::new(
        Vector3::new(0, 0, 8 * FX_ONE),
        Vector3::new(0, FX_ONE, 0),
        -HALF_PI_FX,
        0,
    );
    let front = cam.front;
    cam.adjust_x(2 * FX_ONE);
    cam.adjust_z(-3 * FX_ONE);
    assert_eq!(cam.get_position(), Vector3::new(2 * FX_ONE, 0, 5 * FX_ONE));
    assert_eq!(cam.front, front);
}

#[test]
fn key_state_aggregates_across_both_windows() {
    let r = initialized_renderer();
    assert_eq!(r.key_pressed(false, false), Ok(false));
    assert_eq!(r.key_pressed(true, false), Ok(true));
    assert_eq!(r.key_pressed(false, true), Ok(true));
    let uninitialized = PrismRenderer::new();
    assert!(matches!(
        uninitialized.key_pressed(true, true),
        Err(EngineError::NotInitialized)
    ));
}

#[test]
fn render_pass_appends_one_submission_per_mesh_object() {
    let mut r = initialized_renderer();
    let mut shader = r
        .create_shader_from_source("v", "f", &CompileOutcome::success())
        .expect("shader");
    let mesh_a = r.create_mesh(Vec::new(), vec![0, 1, 2], Vec::new()).expect("mesh a");
    let mesh_b = r.create_mesh(Vec::new(), vec![0, 1, 2, 3, 4, 5], Vec::new())
        .expect("mesh b");
    let vao_a = mesh_a.vao;
    let vao_b = mesh_b.vao;

    let mut scene = Scene::new();
    let mut camera_object = Object::new();
    let camera_id = camera_object.get_id();
    camera_object.add_component(Component::Camera(CameraComponent::new()));
    scene.add_object_upper(camera_object);
    scene.set_upper_camera(camera_id);
    let mut a = Object::new();
    a.add_component(Component::MeshInstance(MeshComponent::new(mesh_a)));
    scene.add_object_upper(a);
    let mut b = Object::new();
    b.add_component(Component::MeshInstance(MeshComponent::new(mesh_b)));
    scene.add_object_upper(b);

    r.begin_upper_screen(0).expect("begin upper");
    scene.render_upper(0, &mut r, &mut shader).expect("render");

    // exactly one submission per mesh-carrying object, in set order; the
    // camera object contributes none
    assert_eq!(r.commands.len(), 2);
    match (&r.commands[0], &r.commands[1]) {
        (
            DrawCommand::DrawMesh { vao: v0, index_count: n0, .. },
            DrawCommand::DrawMesh { vao: v1, index_count: n1, .. },
        ) => {
            assert_eq!(*v0, vao_a);
            assert_eq!(*n0, 3);
            assert_eq!(*v1, vao_b);
            assert_eq!(*n1, 6);
        }
        other => panic!("unexpected commands {other:?}"),
    }
    // eleven uniform writes per drawn object
    assert_eq!(shader.writes.len(), 22);
}

#[test]
fn render_pass_writes_the_whole_uniform_block() {
    let mut r = initialized_renderer();
    let mut shader = r
        .create_shader_from_source("v", "f", &CompileOutcome::success())
        .expect("shader");
    let mesh = r.create_mesh(Vec::new(), vec![0, 1, 2], Vec::new()).expect("mesh");

    let mut scene = Scene::new();
    let mut camera_object = Object::new();
    let camera_id = camera_object.get_id();
    camera_object.add_component(Component::Camera(CameraComponent::new()));
    scene.add_object_upper(camera_object);
    scene.set_upper_camera(camera_id);
    let mut cube = Object::new();
    cube.add_component(Component::MeshInstance(MeshComponent::new(mesh)));
    scene.add_object_upper(cube);

    r.begin_upper_screen(0).expect("begin upper");
    scene.render_upper(0, &mut r, &mut shader).expect("render");

    let names: Vec<&str> = shader.writes.iter().map(|w| w.name.as_str()).collect();
    assert_eq!(
        names,
        vec![
            "view",
            "projection",
            "viewPos",
            "material.ambient",
            "material.diffuse",
            "material.specular",
            "material.shininess",
            "light.position",
            "light.ambient",
            "light.diffuse",
            "light.specular",
        ]
    );
    match shader.writes[3].value {
        UniformValue::Vec3(v) => assert_eq!(v, Vector3::new(47514, 62194, 65536)),
        other => panic!("unexpected value {other:?}"),
    }
    match shader.writes[6].value {
        UniformValue::Float(shininess) => assert_eq!(shininess, 32 * FX_ONE),
        other => panic!("unexpected value {other:?}"),
    }
    match shader.writes[10].value {
        UniformValue::Vec3(v) => assert_eq!(v, Vector3::new(FX_ONE, FX_ONE, FX_ONE)),
        other => panic!("unexpected value {other:?}"),
    }
}

#[test]
fn begin_run_allocates_exactly_one_program_handle() {
    let mut engine = EngineBuilder::new().build(Some(pair())).expect("engine");
    let scene_id = engine.create_scene();
    engine.set_main_scene(scene_id);
    let counter = engine.rendering_context.next_gpu_id;
    engine.begin_run(&CompileOutcome::success()).expect("begin run");
    assert_eq!(engine.shader.as_ref().expect("shader").id, counter);
    assert_eq!(engine.rendering_context.next_gpu_id, counter + 1);
}

#[test]
fn frame_records_clear_then_upper_then_lower() {
    let mut engine = EngineBuilder::new().build(Some(pair())).expect("engine");
    let mesh_upper;
    let mesh_lower;
    {
        let ctx = &mut engine.rendering_context;
        mesh_upper = ctx.create_mesh(Vec::new(), vec![0, 1, 2], Vec::new()).expect("m1");
        mesh_lower = ctx.create_mesh(Vec::new(), vec![0, 1, 2], Vec::new()).expect("m2");
    }
    let upper_vao = mesh_upper.vao;
    let lower_vao = mesh_lower.vao;

    let mut scene = Scene::new();
    let mut camera_object = Object::new();
    let camera_id = camera_object.get_id();
    camera_object.add_component(Component::Camera(CameraComponent::new()));
    scene.add_object_upper(camera_object);
    scene.set_upper_camera(camera_id);
    let mut up = Object::new();
    up.add_component(Component::MeshInstance(MeshComponent::new(mesh_upper)));
    scene.add_object_upper(up);
    let mut lower_camera = Object::new();
    let lower_camera_id = lower_camera.get_id();
    lower_camera.add_component(Component::Camera(CameraComponent::new()));
    scene.add_object_lower(lower_camera);
    scene.set_lower_camera(lower_camera_id);
    let mut low = Object::new();
    low.add_component(Component::MeshInstance(MeshComponent::new(mesh_lower)));
    scene.add_object_lower(low);

    let scene_id = engine.add_scene(scene);
    engine.set_main_scene(scene_id);
    engine.begin_run(&CompileOutcome::success()).expect("begin run");

    let none: Vec<DisplayEvent> = Vec::new();
    let report = engine.frame(&none, &none, false, false, 0, 1, 1, 2).expect("frame");
    assert!(report.upper_error.is_none() && report.lower_error.is_none());

    let commands = &engine.rendering_context.commands;
    assert_eq!(commands.len(), 3);
    assert!(matches!(
        commands[0],
        DrawCommand::Clear { target: ScreenId::Upper, .. }
    ));
    match (&commands[1], &commands[2]) {
        (
            DrawCommand::DrawMesh { target: t1, vao: v1, .. },
            DrawCommand::DrawMesh { target: t2, vao: v2, .. },
        ) => {
            assert_eq!(*t1, ScreenId::Upper);
            assert_eq!(*v1, upper_vao);
            assert_eq!(*t2, ScreenId::Lower);
            assert_eq!(*v2, lower_vao);
        }
        other => panic!("unexpected commands {other:?}"),
    }
}
