use render_core::app::App;
use render_core::device::{adapter_request, device_request, PowerPreference};
use render_core::event::{EventResponse, WindowEvent};
use render_core::frame::{
    background_color, decide_acquire, AcquireDecision, AcquireOutcome, FrameStep,
};
use render_core::pipeline::{
    build_pipeline, BlendMode, CullMode, FrontFace, PolygonMode, Topology, COLOR_WRITE_ALL,
};
use render_core::surface::{choose_format, SurfaceCaps, TextureFormat};

fn sample_caps() -> SurfaceCaps {
    SurfaceCaps {
        formats: vec![
            TextureFormat { code: 5, srgb: false },
            TextureFormat { code: 7, srgb: true },
            TextureFormat { code: 9, srgb: true },
        ],
        present_modes: vec![2, 4],
        alpha_modes: vec![3, 6],
    }
}

#[test]
fn format_prefers_first_srgb() {
    let caps = sample_caps();
    let f = choose_format(&caps);
    assert_eq!(f, TextureFormat { code: 7, srgb: true });
}

#[test]
fn format_falls_back_to_first() {
    let caps = SurfaceCaps {
        formats: vec![
            TextureFormat { code: 11, srgb: false },
            TextureFormat { code: 12, srgb: false },
        ],
        present_modes: vec![0],
        alpha_modes: vec![0],
    };
    let f = choose_format(&caps);
    assert_eq!(f, TextureFormat { code: 11, srgb: false });
}

#[test]
fn initial_config_matches_window() {
    let app = App::new(sample_caps(), 800, 600);
    assert_eq!(app.config.width, 800);
    assert_eq!(app.config.height, 600);
    assert_eq!(app.config.format, TextureFormat { code: 7, srgb: true });
    assert_eq!(app.config.present_mode, 2);
    assert_eq!(app.config.alpha_mode, 3);
    assert_eq!(app.window_width, 800);
    assert_eq!(app.window_height, 600);
}

#[test]
fn pipeline_defaults() {
    let format = TextureFormat { code: 7, srgb: true };
    let p = build_pipeline(format);
    assert_eq!(p.format, format);
    assert_eq!(p.topology, Topology::TriangleList);
    assert_eq!(p.front_face, FrontFace::Ccw);
    assert_eq!(p.cull_mode, CullMode::Back);
    assert_eq!(p.polygon_mode, PolygonMode::Fill);
    assert_eq!(p.blend, BlendMode::Replace);
    assert_eq!(p.write_mask, COLOR_WRITE_ALL);
    assert_eq!(p.sample_count, 1);
}

#[test]
fn resize_updates_configuration() {
    let mut app = App::new(sample_caps(), 800, 600);
    let before_format = app.config.format;
    let applied = app.update_surface_size(400, 300);
    assert_eq!(app.config.width, 400);
    assert_eq!(app.config.height, 300);
    assert_eq!(app.config.format, before_format);
    assert_eq!(applied, Some(app.config));
}

#[test]
fn degenerate_resize_is_noop() {
    let mut app = App::new(sample_caps(), 400, 300);
    let before = app.config;
    assert_eq!(app.update_surface_size(0, 10), None);
    assert_eq!(app.config, before);
    assert_eq!(app.update_surface_size(10, 0), None);
    assert_eq!(app.config, before);
    assert_eq!(app.update_surface_size(0, 0), None);
    assert_eq!(app.config, before);
    assert_eq!(app.window_width, 400);
    assert_eq!(app.window_height, 300);
}

#[test]
fn render_plan_steps() {
    let mut app = App::new(sample_caps(), 800, 600);
    let plan = app.render();
    assert_eq!(plan.steps.len(), 4);
    assert_eq!(plan.steps[0], FrameStep::Acquire);
    assert_eq!(plan.steps[2], FrameStep::Submit);
    assert_eq!(plan.steps[3], FrameStep::Present);
    match plan.steps[1] {
        FrameStep::Record(pass) => {
            let clear = background_color();
            assert_eq!(clear.red_milli, 100);
            assert_eq!(clear.green_milli, 200);
            assert_eq!(clear.blue_milli, 800);
            assert_eq!(clear.alpha_milli, 1000);
            assert_eq!(pass.clear, clear);
            assert!(pass.store_result);
            assert_eq!(pass.draw_vertices, 3);
            assert_eq!(pass.draw_instances, 1);
            assert_eq!(pass.pipeline, app.pipeline);
            assert_eq!(pass.pipeline.format, app.config.format);
        }
        ref other => panic!("second step should record the pass, got {:?}", other),
    }
}

#[test]
fn render_repeats_without_changing_state() {
    let mut app = App::new(sample_caps(), 800, 600);
    let config_before = app.config;
    let pipeline_before = app.pipeline;
    let first = app.render();
    let second = app.render();
    let third = app.render();
    assert_eq!(first.steps, second.steps);
    assert_eq!(second.steps, third.steps);
    assert_eq!(app.config, config_before);
    assert_eq!(app.pipeline, pipeline_before);
}

#[test]
fn acquire_policy() {
    assert_eq!(decide_acquire(AcquireOutcome::Ready, false), AcquireDecision::Proceed);
    assert_eq!(decide_acquire(AcquireOutcome::Ready, true), AcquireDecision::Proceed);
    assert_eq!(
        decide_acquire(AcquireOutcome::Outdated, false),
        AcquireDecision::ReconfigureAndRetry
    );
    assert_eq!(decide_acquire(AcquireOutcome::Outdated, true), AcquireDecision::Abort);
    assert_eq!(decide_acquire(AcquireOutcome::Lost, false), AcquireDecision::ReconfigureAndRetry);
    assert_eq!(decide_acquire(AcquireOutcome::Lost, true), AcquireDecision::Abort);
    assert_eq!(decide_acquire(AcquireOutcome::Timeout, false), AcquireDecision::Abort);
    assert_eq!(decide_acquire(AcquireOutcome::OutOfMemory, false), AcquireDecision::Abort);
}

#[test]
fn startup_requests() {
    let a = adapter_request();
    assert_eq!(a.power_preference, PowerPreference::HighPerformance);
    assert!(!a.force_fallback_adapter);
    assert!(a.require_surface_compatible);
    let d = device_request();
    assert_eq!(d.features, 0);
    assert!(d.default_limits);
}

#[test]
fn close_event_exits() {
    let mut app = App::new(sample_caps(), 800, 600);
    let r = app.handle_event(&WindowEvent::CloseRequested);
    assert!(matches!(r, EventResponse::Exit));
}

#[test]
fn main_events_cleared_requests_redraw() {
    let mut app = App::new(sample_caps(), 800, 600);
    let r = app.handle_event(&WindowEvent::MainEventsCleared);
    assert!(matches!(r, EventResponse::RequestRedraw));
}

#[test]
fn other_event_ignored() {
    let mut app = App::new(sample_caps(), 800, 600);
    let before = app.config;
    let r = app.handle_event(&WindowEvent::Other);
    assert!(matches!(r, EventResponse::Ignore));
    assert_eq!(app.config, before);
}

#[test]
fn scenario_resize_render_close() {
    let mut app = App::new(sample_caps(), 800, 600);
    assert_eq!(app.config.width, 800);
    assert_eq!(app.config.height, 600);
    assert_eq!(app.config.format, TextureFormat { code: 7, srgb: true });

    let r = app.handle_event(&WindowEvent::Resized(400, 300));
    match r {
        EventResponse::ApplyConfig(c) => {
            assert_eq!(c.width, 400);
            assert_eq!(c.height, 300);
            assert_eq!(c, app.config);
        }
        ref other => panic!("resize should apply a configuration, got {:?}", other),
    }

    let r = app.handle_event(&WindowEvent::Resized(0, 10));
    assert!(matches!(r, EventResponse::Ignore));
    assert_eq!(app.config.width, 400);
    assert_eq!(app.config.height, 300);

    let r = app.handle_event(&WindowEvent::RedrawRequested);
    match r {
        EventResponse::Render(plan) => {
            let draws: Vec<(u32, u32)> = plan
                .steps
                .iter()
                .filter_map(|s| match s {
                    FrameStep::Record(p) => Some((p.draw_vertices, p.draw_instances)),
                    _ => None,
                })
                .collect();
            assert_eq!(draws, vec![(3, 1)]);
            match plan.steps[1] {
                FrameStep::Record(p) => {
                    assert_eq!(
                        (
                            p.clear.red_milli,
                            p.clear.green_milli,
                            p.clear.blue_milli,
                            p.clear.alpha_milli
                        ),
                        (100, 200, 800, 1000)
                    );
                }
                _ => unreachable!(),
            }
        }
        ref other => panic!("redraw should render a frame, got {:?}", other),
    }

    let r = app.handle_event(&WindowEvent::CloseRequested);
    assert!(matches!(r, EventResponse::Exit));
}
