use tri_render::config::{AlphaMode, PresentMode, SurfaceConfig, MAX_FRAME_LATENCY};
use tri_render::frame::{Color, FrameRenderer, RenderCommand, FLOAT64_ONE_BITS, FLOAT64_ZERO_BITS};
use tri_render::lifecycle::{Action, AppEvent, Application};
use tri_render::pipeline::{
    build_pipeline, EntryPoint, PipelineError, PrimitiveTopology, ShaderArtifact, ShaderStage,
};
use tri_render::vertex::{
    encode_vertices, triangle_vertex_layout, triangle_vertices, GeometryBuffer, VertexFormat,
    COLOR_OFFSET, FLOAT_HALF_BITS, FLOAT_NEG_HALF_BITS, FLOAT_ONE_BITS, FLOAT_ZERO_BITS,
    POSITION_OFFSET, VERTEX_STRIDE,
};

fn good_shader() -> ShaderArtifact {
    ShaderArtifact {
        entry_points: vec![
            EntryPoint { name: "vs_main".to_string(), stage: ShaderStage::Vertex },
            EntryPoint { name: "fs_main".to_string(), stage: ShaderStage::Fragment },
        ],
        vertex_inputs: vec![VertexFormat::Float32x2, VertexFormat::Float32x3],
    }
}

fn expected_frame_commands() -> Vec<RenderCommand> {
    vec![
        RenderCommand::BeginPass {
            clear: Color {
                r_bits: FLOAT64_ZERO_BITS,
                g_bits: FLOAT64_ZERO_BITS,
                b_bits: FLOAT64_ZERO_BITS,
                a_bits: FLOAT64_ONE_BITS,
            },
        },
        RenderCommand::SetPipeline,
        RenderCommand::SetVertexBuffer { slot: 0, offset: 0 },
        RenderCommand::Draw { first_vertex: 0, vertex_count: 3, first_instance: 0, instance_count: 1 },
        RenderCommand::EndPass,
    ]
}

#[test]
fn float_bit_constants_match() {
    assert_eq!(FLOAT_ZERO_BITS, 0.0f32.to_bits());
    assert_eq!(FLOAT_HALF_BITS, 0.5f32.to_bits());
    assert_eq!(FLOAT_NEG_HALF_BITS, (-0.5f32).to_bits());
    assert_eq!(FLOAT_ONE_BITS, 1.0f32.to_bits());
    assert_eq!(FLOAT64_ZERO_BITS, 0.0f64.to_bits());
    assert_eq!(FLOAT64_ONE_BITS, 1.0f64.to_bits());
}

#[test]
fn triangle_has_three_white_vertices() {
    let vs = triangle_vertices();
    assert_eq!(vs.len(), 3);
    assert_eq!(f32::from_bits(vs[0].position_x), 0.0);
    assert_eq!(f32::from_bits(vs[0].position_y), 0.5);
    assert_eq!(f32::from_bits(vs[1].position_x), 0.5);
    assert_eq!(f32::from_bits(vs[1].position_y), -0.5);
    assert_eq!(f32::from_bits(vs[2].position_x), -0.5);
    assert_eq!(f32::from_bits(vs[2].position_y), -0.5);
    for v in &vs {
        assert_eq!(f32::from_bits(v.color_r), 1.0);
        assert_eq!(f32::from_bits(v.color_g), 1.0);
        assert_eq!(f32::from_bits(v.color_b), 1.0);
    }
}

#[test]
fn vertex_layout_is_two_packed_attributes() {
    let l = triangle_vertex_layout();
    assert_eq!(l.array_stride, VERTEX_STRIDE);
    assert_eq!(l.array_stride, 20);
    assert_eq!(l.attributes.len(), 2);
    assert_eq!(l.attributes[0].shader_location, 0);
    assert_eq!(l.attributes[0].offset, POSITION_OFFSET);
    assert_eq!(l.attributes[0].offset, 0);
    assert_eq!(l.attributes[0].format, VertexFormat::Float32x2);
    assert_eq!(l.attributes[1].shader_location, 1);
    assert_eq!(l.attributes[1].offset, COLOR_OFFSET);
    assert_eq!(l.attributes[1].offset, 8);
    assert_eq!(l.attributes[1].format, VertexFormat::Float32x3);
}

#[test]
fn encoded_vertices_match_float_bytes() {
    let vs = triangle_vertices();
    let bytes = encode_vertices(&vs);
    assert_eq!(bytes.len(), 60);
    let mut expected: Vec<u8> = Vec::new();
    for &(px, py) in &[(0.0f32, 0.5f32), (0.5, -0.5), (-0.5, -0.5)] {
        expected.extend_from_slice(&px.to_le_bytes());
        expected.extend_from_slice(&py.to_le_bytes());
        expected.extend_from_slice(&1.0f32.to_le_bytes());
        expected.extend_from_slice(&1.0f32.to_le_bytes());
        expected.extend_from_slice(&1.0f32.to_le_bytes());
    }
    assert_eq!(bytes, expected);
}

#[test]
fn encoding_depends_on_the_vertices() {
    let mut vs = triangle_vertices();
    let before = encode_vertices(&vs);
    vs[0].position_x = FLOAT_ONE_BITS;
    let after = encode_vertices(&vs);
    assert_ne!(before, after);
    assert_eq!(&after[0..4], &1.0f32.to_le_bytes());
}

#[test]
fn geometry_upload_is_one_shot() {
    let vs = triangle_vertices();
    let buffer = GeometryBuffer::upload(&vs);
    assert_eq!(buffer.vertex_count, 3);
    assert_eq!(buffer.bytes, encode_vertices(&vs));
}

#[test]
fn configure_picks_first_format_and_fixed_modes() {
    let formats: Vec<u32> = vec![7, 9, 11];
    let cfg = SurfaceConfig::configure(&formats, 800, 600);
    assert_eq!(cfg.format, 7);
    assert_eq!(cfg.width, 800);
    assert_eq!(cfg.height, 600);
    assert_eq!(cfg.present_mode, PresentMode::AutoVsync);
    assert_eq!(cfg.alpha_mode, AlphaMode::Auto);
    assert_eq!(cfg.frame_latency, MAX_FRAME_LATENCY);
    assert_eq!(cfg.frame_latency, 2);
}

#[test]
fn resize_updates_both_dimensions() {
    let formats: Vec<u32> = vec![3];
    let mut cfg = SurfaceConfig::configure(&formats, 800, 600);
    let reconfigure = cfg.resize(400, 300);
    assert!(reconfigure);
    assert_eq!(cfg.width, 400);
    assert_eq!(cfg.height, 300);
    assert_eq!(cfg.format, 3);
}

#[test]
fn resize_twice_equals_resize_once() {
    let formats: Vec<u32> = vec![3];
    let mut once = SurfaceConfig::configure(&formats, 800, 600);
    let mut twice = SurfaceConfig::configure(&formats, 800, 600);
    once.resize(400, 300);
    twice.resize(400, 300);
    twice.resize(400, 300);
    assert_eq!(once, twice);
}

#[test]
fn zero_dimension_resize_is_a_noop() {
    let formats: Vec<u32> = vec![3];
    let mut cfg = SurfaceConfig::configure(&formats, 800, 600);
    let before = cfg;
    assert!(!cfg.resize(0, 500));
    assert_eq!(cfg, before);
    assert!(!cfg.resize(500, 0));
    assert_eq!(cfg, before);
    assert!(!cfg.resize(0, 0));
    assert_eq!(cfg, before);
}

#[test]
fn pipeline_build_accepts_good_shader() {
    let shader = good_shader();
    let d = build_pipeline(&shader, 42).expect("build should accept the artifact");
    assert_eq!(d.vertex_entry, "vs_main");
    assert_eq!(d.fragment_entry, "fs_main");
    assert_eq!(d.target_format, 42);
    assert_eq!(d.vertex_layout.array_stride, 20);
    assert_eq!(d.vertex_layout.attributes[0].offset, 0);
    assert_eq!(d.vertex_layout.attributes[0].format, VertexFormat::Float32x2);
    assert_eq!(d.vertex_layout.attributes[1].offset, 8);
    assert_eq!(d.vertex_layout.attributes[1].format, VertexFormat::Float32x3);
    assert_eq!(d.topology, PrimitiveTopology::TriangleList);
    assert!(!d.blend_enabled);
    assert!(d.write_mask_all);
    assert!(!d.has_depth_stencil);
    assert_eq!(d.sample_count, 1);
}

#[test]
fn pipeline_build_rejects_missing_vertex_entry() {
    let mut shader = good_shader();
    shader.entry_points.remove(0);
    match build_pipeline(&shader, 0) {
        Err(e) => assert_eq!(e, PipelineError::MissingVertexEntry),
        Ok(_) => panic!("the artifact should be rejected"),
    }
}

#[test]
fn pipeline_build_rejects_missing_fragment_entry() {
    let mut shader = good_shader();
    shader.entry_points.pop();
    match build_pipeline(&shader, 0) {
        Err(e) => assert_eq!(e, PipelineError::MissingFragmentEntry),
        Ok(_) => panic!("the artifact should be rejected"),
    }
}

#[test]
fn pipeline_build_rejects_wrong_stage_under_right_name() {
    let mut shader = good_shader();
    shader.entry_points[0].stage = ShaderStage::Fragment;
    match build_pipeline(&shader, 0) {
        Err(e) => assert_eq!(e, PipelineError::MissingVertexEntry),
        Ok(_) => panic!("the artifact should be rejected"),
    }
}

#[test]
fn pipeline_build_rejects_attribute_mismatch() {
    let mut shader = good_shader();
    shader.vertex_inputs = vec![VertexFormat::Float32x3, VertexFormat::Float32x2];
    match build_pipeline(&shader, 0) {
        Err(e) => assert_eq!(e, PipelineError::AttributeMismatch),
        Ok(_) => panic!("the artifact should be rejected"),
    }
}

#[test]
fn frame_plan_is_clear_black_then_one_draw() {
    let mut renderer = FrameRenderer::new();
    let sealed = renderer.render_frame();
    assert_eq!(sealed.commands, expected_frame_commands());
    let draws: Vec<&RenderCommand> = sealed
        .commands
        .iter()
        .filter(|c| matches!(c, RenderCommand::Draw { .. }))
        .collect();
    assert_eq!(draws.len(), 1);
}

#[test]
fn frames_are_submitted_in_request_order() {
    let mut renderer = FrameRenderer::new();
    for _ in 0..3 {
        renderer.render_frame();
    }
    assert_eq!(renderer.submitted, vec![0, 1, 2]);
    assert_eq!(renderer.next_frame, 3);
}

#[test]
fn events_before_activation_are_absorbed() {
    let mut state = Application::new();
    assert!(matches!(state.handle_event(AppEvent::RedrawRequested), Action::Ignore));
    assert!(matches!(state.handle_event(AppEvent::Resized { width: 10, height: 10 }), Action::Ignore));
    assert!(matches!(state, Application::Uninitialized));
}

#[test]
fn activation_rejects_bad_shader() {
    let mut state = Application::new();
    let mut shader = good_shader();
    shader.entry_points.clear();
    let formats: Vec<u32> = vec![1];
    let r = state.activate(&formats, 800, 600, &shader);
    assert_eq!(r, Err(PipelineError::MissingVertexEntry));
    assert!(matches!(state, Application::Uninitialized));
}

#[test]
fn full_session_at_800_by_600() {
    let mut state = Application::new();
    let formats: Vec<u32> = vec![5, 8];
    state.activate(&formats, 800, 600, &good_shader()).expect("activation should succeed");
    match &state {
        Application::Ready(app) => {
            assert_eq!(app.config.format, 5);
            assert_eq!(app.config.width, 800);
            assert_eq!(app.config.height, 600);
            assert_eq!(app.pipeline.target_format, 5);
            assert_eq!(app.buffer.vertex_count, 3);
            assert_eq!(app.buffer.bytes.len(), 60);
        },
        Application::Uninitialized => panic!("application should be ready"),
    }

    match state.handle_event(AppEvent::RedrawRequested) {
        Action::SubmitFrame { commands } => assert_eq!(commands.commands, expected_frame_commands()),
        _ => panic!("a redraw request should render a frame"),
    }

    match state.handle_event(AppEvent::Resized { width: 400, height: 300 }) {
        Action::Reconfigure { width, height } => {
            assert_eq!((width, height), (400, 300));
        },
        _ => panic!("a non-degenerate resize should reconfigure"),
    }
    match &state {
        Application::Ready(app) => {
            assert_eq!((app.config.width, app.config.height), (400, 300));
            assert_eq!(app.config.format, 5);
        },
        Application::Uninitialized => panic!("application should stay ready"),
    }

    match state.handle_event(AppEvent::RedrawRequested) {
        Action::SubmitFrame { commands } => assert_eq!(commands.commands, expected_frame_commands()),
        _ => panic!("a redraw request should render a frame"),
    }

    assert!(matches!(state.handle_event(AppEvent::CloseRequested), Action::Exit));
    match &state {
        Application::Ready(app) => assert_eq!(app.renderer.submitted, vec![0, 1]),
        Application::Uninitialized => panic!("application should stay ready"),
    }
}

#[test]
fn zero_resize_keeps_prior_size_for_next_frame() {
    let mut state = Application::new();
    let formats: Vec<u32> = vec![2];
    state.activate(&formats, 640, 480, &good_shader()).expect("activation should succeed");

    assert!(matches!(state.handle_event(AppEvent::Resized { width: 0, height: 500 }), Action::Ignore));
    match &state {
        Application::Ready(app) => {
            assert_eq!((app.config.width, app.config.height), (640, 480));
        },
        Application::Uninitialized => panic!("application should stay ready"),
    }

    match state.handle_event(AppEvent::RedrawRequested) {
        Action::SubmitFrame { commands } => assert_eq!(commands.commands, expected_frame_commands()),
        _ => panic!("a redraw after the ignored resize should still render"),
    }
}

#[test]
fn other_events_are_ignored_when_ready() {
    let mut state = Application::new();
    let formats: Vec<u32> = vec![2];
    state.activate(&formats, 100, 100, &good_shader()).expect("activation should succeed");
    assert!(matches!(state.handle_event(AppEvent::Other), Action::Ignore));
    match &state {
        Application::Ready(app) => assert_eq!(app.renderer.submitted.len(), 0),
        Application::Uninitialized => panic!("application should stay ready"),
    }
}
