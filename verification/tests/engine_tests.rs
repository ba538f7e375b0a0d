//! Tests of the surface lifecycle, the binding model, the render-loop
//! decisions and the per-frame command recording.

use render_core::binding::{
    build_group, mat4_bind_group_layout, texture_bind_group_layout, BindGroupEntry, BoundResource,
    UniformBuffer,
};
use render_core::error::RenderError;
use render_core::events::{LoopAction, LoopEvent, RenderLoopState, TickOutcome};
use render_core::frame::{check_pipeline_compatible, record_frame, RenderCommand};
use render_core::surface::{AcquireOutcome, SurfaceManager};
use render_core::variant::{clear_color, frame_plan, is_continuous, parse_variant, pipeline_for,
    ClearColor, RenderVariant};

#[test]
fn resize_then_acquire_returns_the_new_size() {
    let mut m = SurfaceManager::configure(0, 0, 640, 480);
    m.on_resize(800, 600);
    let frame = m.acquire_frame(AcquireOutcome::Success).unwrap();
    assert_eq!((frame.width, frame.height), (800, 600));

    // several further sizes, including extremes
    for (w, h) in [(1, 1), (2560, 1440), (123, 7)] {
        m.on_resize(w, h);
        let frame = m.acquire_frame(AcquireOutcome::Success).unwrap();
        assert_eq!((frame.width, frame.height), (w, h));
    }
}

#[test]
fn acquire_failures_map_to_their_errors() {
    let m = SurfaceManager::configure(0, 0, 640, 480);
    assert_eq!(
        m.acquire_frame(AcquireOutcome::Lost),
        Err(RenderError::SurfaceLost)
    );
    assert_eq!(
        m.acquire_frame(AcquireOutcome::Timeout),
        Err(RenderError::SurfaceTimeout)
    );
    assert_eq!(
        m.acquire_frame(AcquireOutcome::OutOfMemory),
        Err(RenderError::SurfaceOutOfMemory)
    );
}

#[test]
fn fatal_and_transient_errors_split_as_specified() {
    assert!(RenderError::NoCompatibleAdapter.is_fatal());
    assert!(RenderError::DeviceCreationFailed.is_fatal());
    assert!(RenderError::BindingMismatch.is_fatal());
    assert!(RenderError::UnknownVariant.is_fatal());
    assert!(RenderError::SurfaceOutOfMemory.is_fatal());
    assert!(RenderError::SurfaceLost.is_transient());
    assert!(RenderError::SurfaceTimeout.is_transient());
    for e in [
        RenderError::NoCompatibleAdapter,
        RenderError::SurfaceLost,
        RenderError::SurfaceTimeout,
        RenderError::SurfaceOutOfMemory,
    ] {
        assert!(!e.describe().is_empty());
    }
}

#[test]
fn conforming_texture_group_builds() {
    let layout = texture_bind_group_layout();
    let resources = vec![
        BindGroupEntry {
            binding: 0,
            resource: BoundResource::TextureView,
        },
        BindGroupEntry {
            binding: 1,
            resource: BoundResource::SamplerResource,
        },
    ];
    let group = build_group(layout, resources).unwrap();
    assert_eq!(group.entries.len(), 2);
}

#[test]
fn swapped_texture_and_sampler_is_a_binding_mismatch() {
    let layout = texture_bind_group_layout();
    let swapped = vec![
        BindGroupEntry {
            binding: 0,
            resource: BoundResource::SamplerResource,
        },
        BindGroupEntry {
            binding: 1,
            resource: BoundResource::TextureView,
        },
    ];
    assert_eq!(build_group(layout, swapped), Err(RenderError::BindingMismatch));
}

#[test]
fn uniform_buffer_must_cover_the_minimum_binding_size() {
    let too_small = vec![BindGroupEntry {
        binding: 0,
        resource: BoundResource::WholeBuffer { size: 63 },
    }];
    assert_eq!(
        build_group(mat4_bind_group_layout(), too_small),
        Err(RenderError::BindingMismatch)
    );

    let buffer = UniformBuffer::create(vec![0u8; 64]);
    let exact = vec![buffer.as_entire_binding(0)];
    assert!(build_group(mat4_bind_group_layout(), exact).is_ok());
}

#[test]
fn upload_overwrites_the_whole_buffer() {
    let mut buffer = UniformBuffer::create(vec![0u8; 64]);
    let payload: Vec<u8> = (0..64u8).collect();
    buffer.upload(&payload);
    assert_eq!(buffer.contents, payload);
}

#[test]
fn wrong_slot_count_is_a_binding_mismatch() {
    let one_missing = vec![BindGroupEntry {
        binding: 0,
        resource: BoundResource::TextureView,
    }];
    assert_eq!(
        build_group(texture_bind_group_layout(), one_missing),
        Err(RenderError::BindingMismatch)
    );
}

#[test]
fn pipeline_rejects_groups_built_against_other_layouts() {
    let pipeline = pipeline_for(RenderVariant::TexturedQuad).unwrap();
    let good = build_group(
        texture_bind_group_layout(),
        vec![
            BindGroupEntry {
                binding: 0,
                resource: BoundResource::TextureView,
            },
            BindGroupEntry {
                binding: 1,
                resource: BoundResource::SamplerResource,
            },
        ],
    )
    .unwrap();
    assert!(check_pipeline_compatible(&pipeline, &vec![good]).is_ok());

    let wrong = build_group(
        mat4_bind_group_layout(),
        vec![BindGroupEntry {
            binding: 0,
            resource: BoundResource::WholeBuffer { size: 64 },
        }],
    )
    .unwrap();
    assert_eq!(
        check_pipeline_compatible(&pipeline, &vec![wrong]),
        Err(RenderError::BindingMismatch)
    );
}

#[test]
fn static_triangle_draws_three_vertices_one_instance() {
    let plan = frame_plan(RenderVariant::BufferedTriangle, 3, 0).unwrap();
    let commands = record_frame(&plan);
    assert_eq!(
        commands,
        vec![
            RenderCommand::SetPipeline { pipeline: 0 },
            RenderCommand::SetVertexBuffer { slot: 0, buffer: 0 },
            RenderCommand::Draw {
                vertices: 3,
                instances: 1
            },
        ]
    );
}

#[test]
fn textured_quad_draws_six_indices_one_instance() {
    let plan = frame_plan(RenderVariant::TexturedQuad, 4, 6).unwrap();
    let commands = record_frame(&plan);
    assert_eq!(
        commands,
        vec![
            RenderCommand::SetPipeline { pipeline: 0 },
            RenderCommand::SetBindGroup { index: 0, group: 0 },
            RenderCommand::SetVertexBuffer { slot: 0, buffer: 0 },
            RenderCommand::SetIndexBuffer { buffer: 0 },
            RenderCommand::DrawIndexed {
                indices: 6,
                instances: 1
            },
        ]
    );
}

#[test]
fn animated_quad_binds_texture_view_and_projection_groups() {
    let plan = frame_plan(RenderVariant::AnimatedQuad, 4, 6).unwrap();
    let commands = record_frame(&plan);
    assert_eq!(
        commands,
        vec![
            RenderCommand::SetPipeline { pipeline: 0 },
            RenderCommand::SetBindGroup { index: 0, group: 0 },
            RenderCommand::SetBindGroup { index: 1, group: 1 },
            RenderCommand::SetBindGroup { index: 2, group: 2 },
            RenderCommand::SetVertexBuffer { slot: 0, buffer: 0 },
            RenderCommand::SetVertexBuffer { slot: 1, buffer: 1 },
            RenderCommand::SetIndexBuffer { buffer: 0 },
            RenderCommand::DrawIndexed {
                indices: 6,
                instances: 1
            },
        ]
    );
}

#[test]
fn close_request_mid_loop_stops_rendering() {
    let mut state = RenderLoopState::new(SurfaceManager::configure(0, 0, 640, 480), true);
    assert_eq!(
        state.handle_event(LoopEvent::RedrawRequested),
        vec![LoopAction::RenderFrame]
    );
    assert_eq!(
        state.handle_event(LoopEvent::CloseRequested),
        vec![LoopAction::Exit]
    );
    assert!(state.exiting);
    // no further event yields any action, in particular no frame
    assert_eq!(state.handle_event(LoopEvent::RedrawRequested), vec![]);
    assert_eq!(state.handle_event(LoopEvent::RedrawsCleared), vec![]);
    assert_eq!(
        state.handle_event(LoopEvent::WindowResized {
            width: 100,
            height: 100
        }),
        vec![]
    );
}

#[test]
fn escape_key_is_equivalent_to_close() {
    let mut state = RenderLoopState::new(SurfaceManager::configure(0, 0, 640, 480), true);
    assert_eq!(
        state.handle_event(LoopEvent::EscapePressed),
        vec![LoopAction::Exit]
    );
    assert!(state.exiting);
    assert_eq!(state.handle_event(LoopEvent::RedrawRequested), vec![]);
}

#[test]
fn resize_reconfigures_and_forces_a_redraw() {
    let mut state = RenderLoopState::new(SurfaceManager::configure(0, 0, 640, 480), true);
    let actions = state.handle_event(LoopEvent::WindowResized {
        width: 1024,
        height: 768,
    });
    assert_eq!(
        actions,
        vec![LoopAction::ReconfigureSurface, LoopAction::RequestRedraw]
    );
    assert_eq!(state.surface.config.width, 1024);
    assert_eq!(state.surface.config.height, 768);
    // a zero-sized drawable cannot be configured; the event is ignored
    assert_eq!(
        state.handle_event(LoopEvent::WindowResized {
            width: 0,
            height: 768
        }),
        vec![]
    );
    assert_eq!(state.surface.config.width, 1024);
}

#[test]
fn transient_acquire_failures_skip_the_tick() {
    let mut state = RenderLoopState::new(SurfaceManager::configure(0, 0, 640, 480), true);
    let plan = frame_plan(RenderVariant::AnimatedQuad, 4, 6).unwrap();
    match state.render_tick(0.5_f32.to_bits(), AcquireOutcome::Lost, &plan) {
        TickOutcome::Skipped { retry } => assert_eq!(retry, RenderError::SurfaceLost),
        _ => panic!("a lost surface must skip the tick"),
    }
    // the animation still advanced
    assert_eq!(state.animator.last_elapsed, 0.5_f32.to_bits());
    match state.render_tick(0.6_f32.to_bits(), AcquireOutcome::OutOfMemory, &plan) {
        TickOutcome::Failed { error } => assert_eq!(error, RenderError::SurfaceOutOfMemory),
        _ => panic!("out of memory is fatal"),
    }
}

#[test]
fn successful_tick_renders_the_planned_frame() {
    let mut state = RenderLoopState::new(SurfaceManager::configure(0, 0, 640, 480), true);
    let plan = frame_plan(RenderVariant::AnimatedQuad, 4, 6).unwrap();
    match state.render_tick(0.25_f32.to_bits(), AcquireOutcome::Success, &plan) {
        TickOutcome::Rendered {
            matrix_bytes,
            commands,
            frame,
        } => {
            assert_eq!((frame.width, frame.height), (640, 480));
            assert_eq!(matrix_bytes.len(), 64);
            assert_eq!(commands, record_frame(&plan));
            // the payload is the serialized matrix of the advanced transform
            let expected: Vec<u8> = state
                .animator
                .transform
                .to_mat4()
                .iter()
                .flat_map(|w| w.to_le_bytes())
                .collect();
            assert_eq!(matrix_bytes, expected);
        }
        _ => panic!("a successful acquire must render"),
    }
}

#[test]
fn variant_identifiers_parse_exactly() {
    assert_eq!(parse_variant("window"), Ok(RenderVariant::Window));
    assert_eq!(parse_variant("v1"), Ok(RenderVariant::SolidTriangle));
    assert_eq!(parse_variant("v2"), Ok(RenderVariant::BufferedTriangle));
    assert_eq!(parse_variant("v3"), Ok(RenderVariant::MultiTriangle));
    assert_eq!(parse_variant("shader"), Ok(RenderVariant::IndexedTriangle));
    assert_eq!(parse_variant("texture"), Ok(RenderVariant::TexturedQuad));
    assert_eq!(parse_variant("coord"), Ok(RenderVariant::AnimatedQuad));
    assert_eq!(parse_variant("v9"), Err(RenderError::UnknownVariant));
    assert_eq!(parse_variant(""), Err(RenderError::UnknownVariant));
    assert_eq!(parse_variant("Window"), Err(RenderError::UnknownVariant));
}

#[test]
fn clear_colors_match_the_variants() {
    assert_eq!(clear_color(RenderVariant::Window), ClearColor::Green);
    assert_eq!(clear_color(RenderVariant::SolidTriangle), ClearColor::Green);
    assert_eq!(clear_color(RenderVariant::BufferedTriangle), ClearColor::Black);
    assert_eq!(clear_color(RenderVariant::AnimatedQuad), ClearColor::Black);
}

#[test]
fn pipelines_declare_the_variant_layouts() {
    assert!(pipeline_for(RenderVariant::Window).is_none());
    let solid = pipeline_for(RenderVariant::SolidTriangle).unwrap();
    assert!(solid.bind_group_layouts.is_empty());
    assert!(solid.vertex_layouts.is_empty());

    let buffered = pipeline_for(RenderVariant::BufferedTriangle).unwrap();
    assert_eq!(buffered.vertex_layouts.len(), 1);
    assert_eq!(buffered.vertex_layouts[0].array_stride, 24);

    let animated = pipeline_for(RenderVariant::AnimatedQuad).unwrap();
    assert_eq!(animated.bind_group_layouts.len(), 3);
    assert_eq!(animated.vertex_layouts.len(), 2);
    assert_eq!(animated.vertex_layouts[1].array_stride, 64);
}

#[test]
fn multi_triangle_draws_all_twelve_vertices() {
    let plan = frame_plan(RenderVariant::MultiTriangle, 12, 0).unwrap();
    let commands = record_frame(&plan);
    assert_eq!(
        commands.last(),
        Some(&RenderCommand::Draw {
            vertices: 12,
            instances: 1
        })
    );
}

#[test]
fn bare_window_variant_has_no_plan_and_no_pipeline() {
    assert!(frame_plan(RenderVariant::Window, 0, 0).is_none());
    assert!(pipeline_for(RenderVariant::Window).is_none());
}

#[test]
fn only_continuous_variants_keep_requesting_redraws() {
    let mut continuous = RenderLoopState::new(SurfaceManager::configure(0, 0, 640, 480), true);
    assert_eq!(
        continuous.handle_event(LoopEvent::RedrawsCleared),
        vec![LoopAction::RequestRedraw]
    );
    let mut on_demand = RenderLoopState::new(SurfaceManager::configure(0, 0, 640, 480), false);
    assert_eq!(on_demand.handle_event(LoopEvent::RedrawsCleared), vec![]);

    assert!(is_continuous(RenderVariant::Window));
    assert!(is_continuous(RenderVariant::IndexedTriangle));
    assert!(is_continuous(RenderVariant::TexturedQuad));
    assert!(is_continuous(RenderVariant::AnimatedQuad));
    assert!(!is_continuous(RenderVariant::SolidTriangle));
    assert!(!is_continuous(RenderVariant::BufferedTriangle));
    assert!(!is_continuous(RenderVariant::MultiTriangle));
}
