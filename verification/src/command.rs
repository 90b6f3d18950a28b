//! Abstract commands emitted by the pipeline.
//!
//! The library decides *what* to do each frame; an embedding executes the
//! commands in order against the real window system, GPU and UI engine. Each
//! command that stands for a GL call carries a fixed context requirement, and
//! `context_consistent` says that a command sequence never asks for a GL call
//! while the wrong context is current.

use vstd::prelude::*;
use crate::color::Rgba;
use crate::engine::EngineMsg;

verus! {

/// The two rendering contexts of the window. `Main` is the presented one;
/// `Ui` is hidden and used only while the UI engine draws into the offscreen
/// surface. Both share one GPU object namespace.
#[derive(Clone, Copy, Debug, PartialEq, Eq, Structural)]
pub enum ContextId {
    Main,
    Ui,
}

/// A blend factor of the composite step. Only the two factors of the
/// premultiplied-alpha equation appear.
#[derive(Clone, Copy, Debug, PartialEq, Eq, Structural)]
pub enum BlendFactor {
    One,
    OneMinusSrcAlpha,
}

/// One step for the embedding to execute. Stateful GL sequences
/// (bind, configure, draw, restore) are single commands, so the restore half
/// can never be separated from the acquire half.
#[derive(Clone, Copy, Debug, PartialEq, Eq, Structural)]
pub enum Cmd {
    /// Poll window-system events; may set the close flag the loop checks.
    PollEvents,
    /// Deliver one message to the embedded UI engine.
    Engine(EngineMsg),
    /// Render the application scene into the main context's default
    /// framebuffer; opaque to this library.
    DrawScene,
    /// Make the given context current on the acting thread.
    MakeCurrent(ContextId),
    /// Bind the framebuffer object with this name; 0 is the default
    /// (window) framebuffer.
    BindFramebuffer(u32),
    /// Clear the bound framebuffer to this color.
    Clear(Rgba),
    /// Draw the surface texture over the full viewport with the given blend
    /// factors enabled, then restore blend and texture state.
    Composite { texture: u32, src_factor: BlendFactor, dst_factor: BlendFactor },
    /// Present the main context's back buffer.
    SwapBuffers,
    /// Allocate a framebuffer object and an RGBA8 color texture of this size
    /// and report their names and the completeness status back.
    AllocateSurface { width: u32, height: u32 },
    /// Delete the surface's two GPU objects.
    ReleaseSurface { framebuffer: u32, texture: u32 },
    /// Destroy this rendering context.
    DestroyContext(ContextId),
    /// Destroy the window.
    DestroyWindow,
}

/// The context a command's GL calls are intended for, if it makes any.
/// `None` means the command is legal whatever context is current: it is not a
/// GL call, or (for `ReleaseSurface`) acts on the shared object namespace.
pub open spec fn required_context(c: Cmd) -> Option<ContextId> {
    match c {
        Cmd::PollEvents => None,
        Cmd::Engine(m) => if m is RequestRedraw {
            // The engine issues GL draw calls synchronously during a redraw,
            // and must do so only into the offscreen surface.
            Some(ContextId::Ui)
        } else {
            None
        },
        Cmd::DrawScene => Some(ContextId::Main),
        Cmd::MakeCurrent(_) => None,
        Cmd::BindFramebuffer(_) => Some(ContextId::Ui),
        Cmd::Clear(_) => Some(ContextId::Ui),
        Cmd::Composite { .. } => Some(ContextId::Main),
        Cmd::SwapBuffers => Some(ContextId::Main),
        Cmd::AllocateSurface { .. } => Some(ContextId::Ui),
        Cmd::ReleaseSurface { .. } => None,
        Cmd::DestroyContext(_) => None,
        Cmd::DestroyWindow => None,
    }
}

/// The context that is current after executing `c` when `cur` was current
/// before: only `MakeCurrent` switches.
pub open spec fn step_context(cur: ContextId, c: Cmd) -> ContextId {
    match c {
        Cmd::MakeCurrent(id) => id,
        _ => cur,
    }
}

/// The context current after a whole sequence has run.
pub open spec fn context_after(cmds: Seq<Cmd>, cur: ContextId) -> ContextId
    decreases cmds.len(),
{
    if cmds.len() == 0 {
        cur
    } else {
        context_after(cmds.drop_first(), step_context(cur, cmds[0]))
    }
}

/// Context exclusivity: executed in order starting with `cur` current, every
/// command that requires a particular context finds exactly that context
/// current.
pub open spec fn context_consistent(cmds: Seq<Cmd>, cur: ContextId) -> bool
    decreases cmds.len(),
{
    cmds.len() == 0 || {
        &&& (required_context(cmds[0]) matches Some(c) ==> c == cur)
        &&& context_consistent(cmds.drop_first(), step_context(cur, cmds[0]))
    }
}

} // verus!
