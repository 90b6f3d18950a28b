//! The offscreen surface: a framebuffer object with an RGBA8 color texture,
//! sized exactly to the UI viewport.
//!
//! The UI engine renders into this surface under the ui context; the main
//! context then samples the texture when compositing, which the shared GPU
//! object namespace makes legal. The GPU objects themselves live outside this
//! library: the embedding allocates them on request and reports their names
//! and the framebuffer completeness status, and `Framebuffer::create` decides
//! whether that report yields a usable surface. An incomplete framebuffer is
//! never accepted silently.

use vstd::prelude::*;
use crate::command::Cmd;

verus! {

/// What the GPU reported when the framebuffer's completeness was checked
/// right after attaching the color texture.
#[derive(Clone, Copy, Debug, PartialEq, Eq, Structural)]
pub enum FramebufferStatus {
    /// The framebuffer can be rendered into.
    Complete,
    /// Any other status: the GPU or driver cannot support this attachment
    /// combination, and the program cannot work around it.
    Incomplete,
}

/// An unrecoverable construction failure: the caller should abort startup,
/// not retry.
#[derive(Clone, Copy, Debug, PartialEq, Eq, Structural)]
pub enum FatalError {
    /// The offscreen framebuffer did not report complete after creation.
    IncompleteFramebuffer,
}

/// The offscreen surface: the names of its two GPU objects, its pixel size,
/// and whether the objects are still allocated.
#[derive(Clone, Copy, Debug, PartialEq, Eq, Structural)]
pub struct Framebuffer {
    /// GL name of the framebuffer object; never 0, which names the default
    /// framebuffer.
    pub framebuffer: u32,
    /// GL name of the backing RGBA8 color texture; never 0.
    pub texture: u32,
    /// Pixel width; fixed for the surface's lifetime.
    pub width: u32,
    /// Pixel height; fixed for the surface's lifetime.
    pub height: u32,
    /// Both GPU objects are still allocated; cleared by `delete`.
    pub alive: bool,
}

impl Framebuffer {
    /// How many GPU objects this surface holds allocated: the leak counter
    /// teardown is measured by.
    pub open spec fn live_objects(self) -> nat {
        if self.alive {
            2
        } else {
            0
        }
    }

    /// Judges the embedding's allocation report. A complete framebuffer
    /// yields a live surface with exactly the requested dimensions; anything
    /// else is a fatal error — never an incomplete surface.
    pub fn create(
        width: u32,
        height: u32,
        framebuffer_id: u32,
        texture_id: u32,
        status: FramebufferStatus,
    ) -> (result: Result<Framebuffer, FatalError>)
        requires
            width > 0,
            height > 0,
            framebuffer_id != 0,
            texture_id != 0,
        ensures
            result is Ok <==> status is Complete,
            result matches Ok(surface) ==> surface == (Framebuffer {
                framebuffer: framebuffer_id,
                texture: texture_id,
                width,
                height,
                alive: true,
            }),
            result matches Err(e) ==> e == FatalError::IncompleteFramebuffer,
    {
        match status {
            FramebufferStatus::Complete => Ok(
                Framebuffer {
                    framebuffer: framebuffer_id,
                    texture: texture_id,
                    width,
                    height,
                    alive: true,
                },
            ),
            FramebufferStatus::Incomplete => Err(FatalError::IncompleteFramebuffer),
        }
    }

    /// The command that makes this framebuffer the active render target in
    /// the current context.
    pub fn bind(&self) -> (cmd: Cmd)
        requires
            self.alive,
        ensures
            cmd == Cmd::BindFramebuffer(self.framebuffer),
    {
        Cmd::BindFramebuffer(self.framebuffer)
    }

    /// The command that restores the default (window) framebuffer as the
    /// active render target.
    pub fn unbind(&self) -> (cmd: Cmd)
        ensures
            cmd == Cmd::BindFramebuffer(0u32),
    {
        Cmd::BindFramebuffer(0)
    }

    /// The GL name of the color texture, for the composite step; ownership
    /// stays with the surface.
    pub fn texture(&self) -> (texture: u32)
        ensures
            texture == self.texture,
    {
        self.texture
    }

    /// Releases the surface: the returned command deletes both GPU objects,
    /// and the surface counts no live objects afterwards. Must be executed
    /// before either rendering context is destroyed.
    pub fn delete(&mut self) -> (cmd: Cmd)
        requires
            old(self).alive,
        ensures
            cmd == (Cmd::ReleaseSurface {
                framebuffer: old(self).framebuffer,
                texture: old(self).texture,
            }),
            *final(self) == (Framebuffer { alive: false, ..*old(self) }),
            final(self).live_objects() == 0,
    {
        self.alive = false;
        Cmd::ReleaseSurface { framebuffer: self.framebuffer, texture: self.texture }
    }
}

} // verus!
