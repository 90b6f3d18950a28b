//! Lifecycle, sequencing and teardown behavior of the pipeline.

use ui_overlay::command::{BlendFactor, Cmd, ContextId};
use ui_overlay::engine::EngineMsg;
use ui_overlay::pipeline::{Phase, Pipeline};
use ui_overlay::surface::{FatalError, Framebuffer, FramebufferStatus};

/// Drives a pipeline through setup into its running state, with GPU object
/// names 7 (framebuffer) and 9 (texture).
fn running_pipeline(width: u32, height: u32) -> Pipeline {
    let mut p = Pipeline::new(width, height);
    p.main_context_created();
    p.ui_context_created();
    let setup = p.begin_setup();
    assert!(matches!(setup[0], Cmd::Engine(EngineMsg::Create { .. })));
    let cmds = p
        .install_surface(7, 9, FramebufferStatus::Complete)
        .expect("complete framebuffer must be accepted");
    assert_eq!(cmds, vec![Cmd::MakeCurrent(ContextId::Main)]);
    assert!(matches!(p.phase, Phase::Running));
    p
}

#[test]
fn complete_framebuffer_yields_surface() {
    let surface = Framebuffer::create(500, 500, 3, 4, FramebufferStatus::Complete)
        .expect("complete status must yield a surface");
    assert_eq!(surface.framebuffer, 3);
    assert_eq!(surface.texture, 4);
    assert_eq!(surface.width, 500);
    assert_eq!(surface.height, 500);
    assert!(surface.alive);
    assert_eq!(surface.texture(), 4);
}

#[test]
fn incomplete_framebuffer_is_fatal() {
    let result = Framebuffer::create(500, 500, 3, 4, FramebufferStatus::Incomplete);
    assert_eq!(result, Err(FatalError::IncompleteFramebuffer));
}

#[test]
fn incomplete_framebuffer_leaves_pipeline_unchanged() {
    let mut p = Pipeline::new(500, 500);
    p.main_context_created();
    p.ui_context_created();
    let _ = p.begin_setup();
    let result = p.install_surface(7, 9, FramebufferStatus::Incomplete);
    assert_eq!(result, Err(FatalError::IncompleteFramebuffer));
    assert!(p.surface.is_none());
    assert_eq!(p.live_gpu_object_count(), 0);
}

fn heartbeat_of(cmds: &[Cmd]) -> u32 {
    for cmd in cmds {
        if let Cmd::Engine(EngineMsg::Heartbeat { milliseconds }) = cmd {
            return *milliseconds;
        }
    }
    panic!("frame without a heartbeat");
}

#[test]
fn heartbeat_values_never_decrease() {
    let mut p = running_pipeline(500, 500);
    let clock_readings = [5u32, 3, 3, 10, 8, 10, 11];
    let mut sent = Vec::new();
    for now in clock_readings {
        sent.push(heartbeat_of(&p.frame(now)));
    }
    assert_eq!(sent, vec![5, 5, 5, 10, 10, 10, 11]);
    for i in 1..sent.len() {
        assert!(sent[i - 1] <= sent[i]);
    }
}

fn required_context(cmd: &Cmd) -> Option<ContextId> {
    match cmd {
        Cmd::Engine(EngineMsg::RequestRedraw) => Some(ContextId::Ui),
        Cmd::Engine(_) => None,
        Cmd::DrawScene => Some(ContextId::Main),
        Cmd::BindFramebuffer(_) => Some(ContextId::Ui),
        Cmd::Clear(_) => Some(ContextId::Ui),
        Cmd::Composite { .. } => Some(ContextId::Main),
        Cmd::SwapBuffers => Some(ContextId::Main),
        Cmd::AllocateSurface { .. } => Some(ContextId::Ui),
        _ => None,
    }
}

#[test]
fn every_gl_command_runs_under_its_context() {
    // Instruments the current context as a single flag, as the design asks,
    // and checks every context-bound command against it, across setup,
    // several frames, and teardown.
    let mut p = Pipeline::new(500, 500);
    p.main_context_created();
    p.ui_context_created();
    let mut schedule = p.begin_setup();
    schedule.extend(p.install_surface(7, 9, FramebufferStatus::Complete).unwrap());
    for now in [0u32, 16, 33] {
        schedule.extend(p.frame(now));
    }
    schedule.extend(p.shutdown());

    let mut current = ContextId::Main;
    for cmd in &schedule {
        if let Some(required) = required_context(cmd) {
            assert_eq!(required, current, "command {cmd:?} under wrong context");
        }
        if let Cmd::MakeCurrent(id) = cmd {
            current = *id;
        }
    }
    assert_eq!(current, ContextId::Main);
}

#[test]
fn frame_schedule_is_in_fixed_order() {
    let mut p = running_pipeline(500, 500);
    let cmds = p.frame(16);
    assert_eq!(
        cmds,
        vec![
            Cmd::PollEvents,
            Cmd::Engine(EngineMsg::Heartbeat { milliseconds: 16 }),
            Cmd::DrawScene,
            Cmd::MakeCurrent(ContextId::Ui),
            Cmd::BindFramebuffer(7),
            Cmd::Clear(ui_overlay::color::transparent()),
            Cmd::Engine(EngineMsg::RequestRedraw),
            Cmd::BindFramebuffer(0),
            Cmd::MakeCurrent(ContextId::Main),
            Cmd::Composite {
                texture: 9,
                src_factor: BlendFactor::One,
                dst_factor: BlendFactor::OneMinusSrcAlpha,
            },
            Cmd::SwapBuffers,
        ]
    );
}

#[test]
fn surface_stays_at_fixed_size_and_no_resize_is_resent() {
    let mut p = running_pipeline(500, 500);
    for now in 0..100u32 {
        let cmds = p.frame(now);
        for cmd in &cmds {
            assert!(!matches!(cmd, Cmd::Engine(EngineMsg::Resize { .. })));
        }
        let surface = p.surface.expect("running pipeline keeps its surface");
        assert_eq!(surface.width, 500);
        assert_eq!(surface.height, 500);
    }
    let teardown = p.shutdown();
    for cmd in &teardown {
        assert!(!matches!(cmd, Cmd::Engine(EngineMsg::Resize { .. })));
    }
}

#[test]
fn exactly_one_resize_at_startup() {
    let mut p = Pipeline::new(500, 500);
    p.main_context_created();
    p.ui_context_created();
    let setup = p.begin_setup();
    let resizes: Vec<&Cmd> = setup
        .iter()
        .filter(|cmd| matches!(cmd, Cmd::Engine(EngineMsg::Resize { .. })))
        .collect();
    assert_eq!(resizes.len(), 1);
    assert_eq!(
        *resizes[0],
        Cmd::Engine(EngineMsg::Resize { width: 500, height: 500 })
    );
}

#[test]
fn teardown_releases_surface_before_contexts() {
    let mut p = running_pipeline(500, 500);
    assert_eq!(p.live_gpu_object_count(), 2);
    let cmds = p.shutdown();
    assert_eq!(p.live_gpu_object_count(), 0);
    assert!(matches!(p.phase, Phase::Closed));

    let release = cmds
        .iter()
        .position(|cmd| matches!(cmd, Cmd::ReleaseSurface { .. }))
        .expect("teardown must release the surface");
    assert_eq!(
        cmds[release],
        Cmd::ReleaseSurface { framebuffer: 7, texture: 9 }
    );
    for (i, cmd) in cmds.iter().enumerate() {
        if matches!(cmd, Cmd::DestroyContext(_)) {
            assert!(release < i, "context destroyed before surface release");
        }
    }
    let window = cmds
        .iter()
        .position(|cmd| matches!(cmd, Cmd::DestroyWindow))
        .expect("teardown must destroy the window");
    assert_eq!(window, cmds.len() - 1);
}
