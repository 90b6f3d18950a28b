//! The dual-context window and the frame loop.
//!
//! One window owns two OpenGL contexts that share a GPU object namespace: the
//! presented `Main` context, and a hidden `Ui` context used only while the UI
//! engine draws into the offscreen surface. The `Pipeline` walks the window's
//! lifecycle, tracks which context is current, and emits, once per frame, the
//! fixed command schedule that keeps the two contexts exclusive: heartbeat,
//! scene render under main, offscreen UI render under ui, composite and
//! present under main.

use vstd::prelude::*;
use crate::color::{transparent, transparent_spec};
use crate::command::{context_after, context_consistent, BlendFactor, Cmd, ContextId};
use crate::engine::{tick_spec, Backend, EngineBridge, EngineMsg, FrameClock};
use crate::surface::{FatalError, Framebuffer, FramebufferStatus};

verus! {

/// The window's lifecycle. `Running` is the steady state of the frame loop;
/// `Closed` is reached by orderly teardown once the close condition holds.
#[derive(Clone, Copy, Debug, PartialEq, Eq, Structural)]
pub enum Phase {
    Uninitialized,
    MainContextCreated,
    UiContextCreated,
    Running,
    Closed,
}

/// The whole pipeline state: window geometry, lifecycle phase, which context
/// is current, the frame clock, the engine bridge, and the offscreen surface.
#[derive(Clone, Copy, Debug, PartialEq, Eq, Structural)]
pub struct Pipeline {
    pub phase: Phase,
    /// Window and surface pixel width; the window is not resizable, so this
    /// never changes after construction.
    pub width: u32,
    /// Window and surface pixel height; fixed like `width`.
    pub height: u32,
    /// The context current on the acting thread. The pipeline is the sole
    /// issuer of `MakeCurrent` commands, so this mirrors the real state.
    pub current: ContextId,
    pub clock: FrameClock,
    pub engine: EngineBridge,
    pub surface: Option<Framebuffer>,
}

/// The setup schedule: attach the engine (transparent, GPU-accelerated), give
/// it its one and only viewport size, then switch to the ui context and have
/// the offscreen surface allocated there.
pub open spec fn setup_cmds(width: u32, height: u32) -> Seq<Cmd> {
    seq![
        Cmd::Engine(
            EngineMsg::Create { backend: Backend::SkiaOpenGl, transparent: true },
        ),
        Cmd::Engine(EngineMsg::Resize { width, height }),
        Cmd::MakeCurrent(ContextId::Ui),
        Cmd::AllocateSurface { width, height },
    ]
}

/// One frame's schedule, in the fixed order no step of which may be skipped
/// or reordered: poll, heartbeat, scene render under main, switch to ui, bind
/// the surface, clear it fully transparent, let the engine redraw into it,
/// unbind, switch back to main, composite the surface texture over the scene
/// with factors `one, one minus source alpha`, present.
pub open spec fn frame_cmds(heartbeat_ms: u32, framebuffer: u32, texture: u32) -> Seq<Cmd> {
    seq![
        Cmd::PollEvents,
        Cmd::Engine(EngineMsg::Heartbeat { milliseconds: heartbeat_ms }),
        Cmd::DrawScene,
        Cmd::MakeCurrent(ContextId::Ui),
        Cmd::BindFramebuffer(framebuffer),
        Cmd::Clear(transparent_spec()),
        Cmd::Engine(EngineMsg::RequestRedraw),
        Cmd::BindFramebuffer(0u32),
        Cmd::MakeCurrent(ContextId::Main),
        Cmd::Composite {
            texture,
            src_factor: BlendFactor::One,
            dst_factor: BlendFactor::OneMinusSrcAlpha,
        },
        Cmd::SwapBuffers,
    ]
}

/// The teardown schedule: release the surface's GPU objects first, destroy
/// the contexts only after, the window last.
pub open spec fn shutdown_cmds(framebuffer: u32, texture: u32) -> Seq<Cmd> {
    seq![
        Cmd::ReleaseSurface { framebuffer, texture },
        Cmd::DestroyContext(ContextId::Ui),
        Cmd::DestroyContext(ContextId::Main),
        Cmd::DestroyWindow,
    ]
}

/// The setup schedule is context-exclusive from any starting context and
/// leaves the ui context current, ready for the surface allocation.
pub proof fn lemma_setup_consistent(width: u32, height: u32, init: ContextId)
    ensures
        context_consistent(setup_cmds(width, height), init),
        context_after(setup_cmds(width, height), init) == ContextId::Ui,
{
    let s0 = setup_cmds(width, height);
    let s1 = s0.drop_first();
    let s2 = s1.drop_first();
    let s3 = s2.drop_first();
    let s4 = s3.drop_first();
    assert(s4.len() == 0);
    assert(context_consistent(s4, ContextId::Ui));
    assert(context_after(s4, ContextId::Ui) == ContextId::Ui);
    assert(context_consistent(s3, ContextId::Ui));
    assert(context_after(s3, ContextId::Ui) == ContextId::Ui);
    assert(context_consistent(s2, init));
    assert(context_after(s2, init) == ContextId::Ui);
    assert(context_consistent(s1, init));
    assert(context_after(s1, init) == ContextId::Ui);
    assert(context_consistent(s0, init));
    assert(context_after(s0, init) == ContextId::Ui);
}

/// Context exclusivity of a frame: started with the main context current,
/// the frame schedule never issues a context-bound command while the other
/// context is current, and it leaves the main context current again.
pub proof fn lemma_frame_context_exclusive(heartbeat_ms: u32, framebuffer: u32, texture: u32)
    ensures
        context_consistent(frame_cmds(heartbeat_ms, framebuffer, texture), ContextId::Main),
        context_after(frame_cmds(heartbeat_ms, framebuffer, texture), ContextId::Main)
            == ContextId::Main,
{
    let s0 = frame_cmds(heartbeat_ms, framebuffer, texture);
    let s1 = s0.drop_first();
    let s2 = s1.drop_first();
    let s3 = s2.drop_first();
    let s4 = s3.drop_first();
    let s5 = s4.drop_first();
    let s6 = s5.drop_first();
    let s7 = s6.drop_first();
    let s8 = s7.drop_first();
    let s9 = s8.drop_first();
    let s10 = s9.drop_first();
    let s11 = s10.drop_first();
    assert(s11.len() == 0);
    assert(context_consistent(s11, ContextId::Main));
    assert(context_after(s11, ContextId::Main) == ContextId::Main);
    assert(context_consistent(s10, ContextId::Main));
    assert(context_after(s10, ContextId::Main) == ContextId::Main);
    assert(context_consistent(s9, ContextId::Main));
    assert(context_after(s9, ContextId::Main) == ContextId::Main);
    assert(context_consistent(s8, ContextId::Ui));
    assert(context_after(s8, ContextId::Ui) == ContextId::Main);
    assert(context_consistent(s7, ContextId::Ui));
    assert(context_after(s7, ContextId::Ui) == ContextId::Main);
    assert(context_consistent(s6, ContextId::Ui));
    assert(context_after(s6, ContextId::Ui) == ContextId::Main);
    assert(context_consistent(s5, ContextId::Ui));
    assert(context_after(s5, ContextId::Ui) == ContextId::Main);
    assert(context_consistent(s4, ContextId::Ui));
    assert(context_after(s4, ContextId::Ui) == ContextId::Main);
    assert(context_consistent(s3, ContextId::Main));
    assert(context_after(s3, ContextId::Main) == ContextId::Main);
    assert(context_consistent(s2, ContextId::Main));
    assert(context_after(s2, ContextId::Main) == ContextId::Main);
    assert(context_consistent(s1, ContextId::Main));
    assert(context_after(s1, ContextId::Main) == ContextId::Main);
    assert(context_consistent(s0, ContextId::Main));
    assert(context_after(s0, ContextId::Main) == ContextId::Main);
}

/// The teardown schedule issues no context-bound GL command, so it is
/// context-exclusive from any starting context.
pub proof fn lemma_shutdown_consistent(framebuffer: u32, texture: u32, init: ContextId)
    ensures
        context_consistent(shutdown_cmds(framebuffer, texture), init),
{
    let s0 = shutdown_cmds(framebuffer, texture);
    let s1 = s0.drop_first();
    let s2 = s1.drop_first();
    let s3 = s2.drop_first();
    let s4 = s3.drop_first();
    assert(s4.len() == 0);
    assert(context_consistent(s4, init));
    assert(context_consistent(s3, init));
    assert(context_consistent(s2, init));
    assert(context_consistent(s1, init));
    assert(context_consistent(s0, init));
}

/// Teardown ordering: within the teardown schedule, the command that releases
/// the surface's GPU objects stands strictly before every command that
/// destroys a rendering context.
pub proof fn lemma_teardown_order(framebuffer: u32, texture: u32, i: int, j: int)
    requires
        0 <= i < shutdown_cmds(framebuffer, texture).len(),
        0 <= j < shutdown_cmds(framebuffer, texture).len(),
        shutdown_cmds(framebuffer, texture)[i] is ReleaseSurface,
        shutdown_cmds(framebuffer, texture)[j] is DestroyContext,
    ensures
        i < j,
{
    let s = shutdown_cmds(framebuffer, texture);
    assert(s[0] == Cmd::ReleaseSurface { framebuffer, texture });
    assert(s[1] == Cmd::DestroyContext(ContextId::Ui));
    assert(s[2] == Cmd::DestroyContext(ContextId::Main));
    assert(s[3] == Cmd::DestroyWindow);
}

/// No frame and no teardown ever carries a `Resize` message: the engine's
/// viewport is sized exactly once, at startup.
pub proof fn lemma_no_resize_after_startup(heartbeat_ms: u32, framebuffer: u32, texture: u32)
    ensures
        forall|i: int| 0 <= i < frame_cmds(heartbeat_ms, framebuffer, texture).len()
            ==> !(#[trigger] frame_cmds(heartbeat_ms, framebuffer, texture)[i] matches Cmd::Engine(
            EngineMsg::Resize { .. },
        )),
        forall|i: int| 0 <= i < shutdown_cmds(framebuffer, texture).len()
            ==> !(#[trigger] shutdown_cmds(framebuffer, texture)[i] matches Cmd::Engine(
            EngineMsg::Resize { .. },
        )),
{
}

impl Pipeline {
    /// How many GPU objects the pipeline holds allocated: 2 while the
    /// offscreen surface lives, 0 once it is released.
    pub open spec fn live_gpu_objects(self) -> nat {
        match self.surface {
            Some(s) => s.live_objects(),
            None => 0,
        }
    }

    /// Well-formedness across the lifecycle. The dimensions are positive and
    /// fixed; while running, the main context is current between frames, the
    /// engine has been created and sized, and the surface is live with
    /// exactly the window's dimensions; once closed, no GPU object is held.
    pub open spec fn wf(self) -> bool {
        &&& self.width > 0
        &&& self.height > 0
        &&& self.engine.last_heartbeat <= self.clock.last_ms
        &&& match self.phase {
            Phase::Uninitialized => {
                &&& self.surface is None
                &&& !self.engine.created
                &&& !self.engine.sized
            },
            Phase::MainContextCreated => {
                &&& self.current is Main
                &&& self.surface is None
                &&& !self.engine.created
                &&& !self.engine.sized
            },
            Phase::UiContextCreated => {
                &&& self.surface is None
                &&& self.engine.created == self.engine.sized
            },
            Phase::Running => {
                &&& self.current is Main
                &&& self.engine.created
                &&& self.engine.sized
                &&& self.surface matches Some(s) && s.alive && s.framebuffer != 0 && s.texture
                    != 0 && s.width == self.width && s.height == self.height
            },
            Phase::Closed => self.live_gpu_objects() == 0,
        }
    }

    /// A pipeline for one fixed-size, non-resizable window.
    pub fn new(width: u32, height: u32) -> (pipeline: Pipeline)
        requires
            0 < width,
            0 < height,
        ensures
            pipeline.wf(),
            pipeline.phase is Uninitialized,
            pipeline.width == width,
            pipeline.height == height,
            pipeline.live_gpu_objects() == 0,
            pipeline.clock.last_ms == 0,
            pipeline.engine.last_heartbeat == 0,
    {
        Pipeline {
            phase: Phase::Uninitialized,
            width,
            height,
            current: ContextId::Main,
            clock: FrameClock::new(),
            engine: EngineBridge::new(),
            surface: None,
        }
    }

    /// Records that the window and its main context exist and that the main
    /// context is current. The embedding calls this after window creation
    /// succeeds; a failed creation is fatal and never reaches the pipeline.
    pub fn main_context_created(&mut self)
        requires
            old(self).wf(),
            old(self).phase is Uninitialized,
        ensures
            final(self).wf(),
            final(self).phase is MainContextCreated,
            final(self).current is Main,
            final(self).width == old(self).width,
            final(self).height == old(self).height,
            final(self).clock == old(self).clock,
            final(self).engine == old(self).engine,
    {
        self.phase = Phase::MainContextCreated;
        self.current = ContextId::Main;
    }

    /// Records that the hidden ui context exists, created sharing the main
    /// context's GPU object namespace — the only mechanism that lets a
    /// texture rendered under ui be sampled under main without a copy.
    pub fn ui_context_created(&mut self)
        requires
            old(self).wf(),
            old(self).phase is MainContextCreated,
        ensures
            final(self).wf(),
            final(self).phase is UiContextCreated,
            final(self).current is Main,
            final(self).width == old(self).width,
            final(self).height == old(self).height,
            !final(self).engine.created,
            final(self).clock == old(self).clock,
            final(self).engine == old(self).engine,
    {
        self.phase = Phase::UiContextCreated;
    }

    /// Emits the setup schedule: engine creation and its single resize, then
    /// the switch to the ui context and the surface allocation request. The
    /// embedding executes it in order and reports the allocation through
    /// `install_surface`.
    pub fn begin_setup(&mut self) -> (cmds: Vec<Cmd>)
        requires
            old(self).wf(),
            old(self).phase is UiContextCreated,
            !old(self).engine.created,
        ensures
            cmds@ == setup_cmds(old(self).width, old(self).height),
            final(self).wf(),
            final(self).phase is UiContextCreated,
            final(self).current is Ui,
            final(self).engine.created,
            final(self).engine.sized,
            final(self).width == old(self).width,
            final(self).height == old(self).height,
            final(self).clock == old(self).clock,
            final(self).engine.last_heartbeat == old(self).engine.last_heartbeat,
            context_consistent(cmds@, old(self).current),
            context_after(cmds@, old(self).current) == final(self).current,
    {
        let mut cmds: Vec<Cmd> = Vec::new();
        cmds.push(self.engine.create(Backend::SkiaOpenGl, true));
        cmds.push(self.engine.resize(self.width, self.height));
        cmds.push(Cmd::MakeCurrent(ContextId::Ui));
        self.current = ContextId::Ui;
        cmds.push(Cmd::AllocateSurface { width: self.width, height: self.height });
        proof {
            assert(cmds@ =~= setup_cmds(old(self).width, old(self).height));
            lemma_setup_consistent(old(self).width, old(self).height, old(self).current);
        }
        cmds
    }

    /// Judges the surface allocation the embedding performed under the ui
    /// context. A complete framebuffer puts the pipeline into its running
    /// state, with the single returned command switching back to the main
    /// context; an incomplete one is a fatal construction error and leaves
    /// the pipeline untouched.
    pub fn install_surface(
        &mut self,
        framebuffer_id: u32,
        texture_id: u32,
        status: FramebufferStatus,
    ) -> (result: Result<Vec<Cmd>, FatalError>)
        requires
            old(self).wf(),
            old(self).phase is UiContextCreated,
            old(self).engine.created,
            old(self).engine.sized,
            old(self).current is Ui,
            framebuffer_id != 0,
            texture_id != 0,
        ensures
            result is Ok <==> status is Complete,
            result matches Ok(cmds) ==> {
                &&& cmds@ =~= seq![Cmd::MakeCurrent(ContextId::Main)]
                &&& final(self).wf()
                &&& final(self).phase is Running
                &&& final(self).current is Main
                &&& final(self).width == old(self).width
                &&& final(self).height == old(self).height
                &&& final(self).surface == Some(
                    Framebuffer {
                        framebuffer: framebuffer_id,
                        texture: texture_id,
                        width: old(self).width,
                        height: old(self).height,
                        alive: true,
                    },
                )
                &&& final(self).live_gpu_objects() == 2
                &&& final(self).clock == old(self).clock
                &&& final(self).engine == old(self).engine
                &&& context_consistent(cmds@, old(self).current)
            },
            result is Err ==> *final(self) == *old(self),
            result matches Err(e) ==> e == FatalError::IncompleteFramebuffer,
    {
        match Framebuffer::create(self.width, self.height, framebuffer_id, texture_id, status) {
            Ok(surface) => {
                self.surface = Some(surface);
                self.phase = Phase::Running;
                self.current = ContextId::Main;
                let mut cmds: Vec<Cmd> = Vec::new();
                cmds.push(Cmd::MakeCurrent(ContextId::Main));
                proof {
                    assert(cmds@ =~= seq![Cmd::MakeCurrent(ContextId::Main)]);
                    assert(cmds@.drop_first().len() == 0);
                    assert(context_consistent(cmds@.drop_first(), ContextId::Main));
                    assert(context_consistent(cmds@, old(self).current));
                }
                Ok(cmds)
            },
            Err(e) => Err(e),
        }
    }

    /// One frame iteration. Emits exactly the frame schedule, with the
    /// heartbeat clamped so it never runs backward whatever the embedding's
    /// clock reports, and leaves the pipeline running with the main context
    /// current and the surface untouched at its fixed size.
    pub fn frame(&mut self, now_ms: u32) -> (cmds: Vec<Cmd>)
        requires
            old(self).wf(),
            old(self).phase is Running,
        ensures
            old(self).surface matches Some(s) ==> cmds@ == frame_cmds(
                tick_spec(old(self).clock.last_ms, now_ms),
                s.framebuffer,
                s.texture,
            ),
            final(self).wf(),
            final(self).phase is Running,
            final(self).current is Main,
            final(self).surface == old(self).surface,
            final(self).width == old(self).width,
            final(self).height == old(self).height,
            final(self).clock.last_ms == tick_spec(old(self).clock.last_ms, now_ms),
            final(self).engine.last_heartbeat == final(self).clock.last_ms,
            final(self).clock.last_ms >= old(self).clock.last_ms,
            final(self).engine.last_heartbeat >= old(self).engine.last_heartbeat,
            context_consistent(cmds@, old(self).current),
            context_after(cmds@, old(self).current) == final(self).current,
    {
        let surface = match self.surface {
            Some(s) => s,
            None => vstd::pervasive::unreached(),
        };
        let mut cmds: Vec<Cmd> = Vec::new();
        cmds.push(Cmd::PollEvents);
        let ms = self.clock.tick(now_ms);
        cmds.push(self.engine.heartbeat(ms));
        cmds.push(Cmd::DrawScene);
        cmds.push(Cmd::MakeCurrent(ContextId::Ui));
        self.current = ContextId::Ui;
        cmds.push(surface.bind());
        cmds.push(Cmd::Clear(transparent()));
        cmds.push(self.engine.request_redraw());
        cmds.push(surface.unbind());
        cmds.push(Cmd::MakeCurrent(ContextId::Main));
        self.current = ContextId::Main;
        cmds.push(
            Cmd::Composite {
                texture: surface.texture(),
                src_factor: BlendFactor::One,
                dst_factor: BlendFactor::OneMinusSrcAlpha,
            },
        );
        cmds.push(Cmd::SwapBuffers);
        proof {
            let hb = tick_spec(old(self).clock.last_ms, now_ms);
            assert(cmds@ =~= frame_cmds(hb, surface.framebuffer, surface.texture));
            lemma_frame_context_exclusive(hb, surface.framebuffer, surface.texture);
        }
        cmds
    }

    /// Orderly teardown once the close condition has been observed: the
    /// surface's GPU objects are released strictly before either context is
    /// destroyed, the window goes last, and no GPU object stays allocated.
    pub fn shutdown(&mut self) -> (cmds: Vec<Cmd>)
        requires
            old(self).wf(),
            old(self).phase is Running,
        ensures
            old(self).surface matches Some(s) ==> cmds@ == shutdown_cmds(s.framebuffer, s.texture),
            final(self).wf(),
            final(self).phase is Closed,
            final(self).live_gpu_objects() == 0,
            final(self).width == old(self).width,
            final(self).height == old(self).height,
            context_consistent(cmds@, old(self).current),
    {
        let mut cmds: Vec<Cmd> = Vec::new();
        match &mut self.surface {
            Some(s) => {
                cmds.push(s.delete());
            },
            None => {},
        }
        cmds.push(Cmd::DestroyContext(ContextId::Ui));
        cmds.push(Cmd::DestroyContext(ContextId::Main));
        cmds.push(Cmd::DestroyWindow);
        self.phase = Phase::Closed;
        proof {
            let s = old(self).surface->Some_0;
            assert(cmds@ =~= shutdown_cmds(s.framebuffer, s.texture));
            lemma_shutdown_consistent(s.framebuffer, s.texture, old(self).current);
        }
        cmds
    }

    /// The resource-leak counter: how many GPU objects the pipeline holds.
    pub fn live_gpu_object_count(&self) -> (count: u32)
        ensures
            count == self.live_gpu_objects(),
    {
        match &self.surface {
            Some(s) => {
                if s.alive {
                    2
                } else {
                    0
                }
            },
            None => 0,
        }
    }
}

} // verus!
