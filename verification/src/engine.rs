//! The UI engine bridge: the message protocol spoken to the embedded UI
//! engine, and the frame clock that drives its heartbeat.
//!
//! The bridge enforces the protocol order: `Create` exactly once, with a
//! transparent background and a GPU-accelerated backend; `Resize` exactly once
//! after creation (the window is fixed-size, so no further resize is ever
//! sent); then any number of heartbeats and redraw requests. The heartbeat
//! value never decreases.

use vstd::prelude::*;
use crate::command::Cmd;

verus! {

/// The rendering backend the engine is asked to draw with. The offscreen
/// composition needs a GPU-accelerated path, so that the engine's output
/// lands in the shared GPU object namespace.
#[derive(Clone, Copy, Debug, PartialEq, Eq, Structural)]
pub enum Backend {
    /// Software rasterization; draws to a CPU bitmap, unusable here.
    Cpu,
    /// GPU-accelerated rasterization through OpenGL.
    SkiaOpenGl,
}

impl Backend {
    /// Whether this backend draws through the GPU, as the composition needs.
    pub open spec fn gpu_accelerated(self) -> bool {
        self is SkiaOpenGl
    }
}

/// One message of the engine protocol. Each is a fire-and-forget call keyed
/// to the window; the engine returns nothing this library observes.
#[derive(Clone, Copy, Debug, PartialEq, Eq, Structural)]
pub enum EngineMsg {
    /// Attach the engine to the window. `transparent` makes it clear to a
    /// zero-alpha background, which the compositing blend depends on.
    Create { backend: Backend, transparent: bool },
    /// Tell the engine its viewport size in pixels.
    Resize { width: u32, height: u32 },
    /// Advance the engine's timers to this many milliseconds since startup.
    Heartbeat { milliseconds: u32 },
    /// Ask the engine to draw, synchronously, into the framebuffer bound in
    /// the currently current context.
    RequestRedraw,
}

/// What a heartbeat sends when the wall clock reports `now` and `last` was
/// sent before: the later of the two, so the sent value never goes backward.
pub open spec fn tick_spec(last: u32, now: u32) -> u32 {
    if now >= last {
        now
    } else {
        last
    }
}

/// The heartbeat values sent for a run of wall-clock readings `nows`, when
/// `last` was the value sent before the run.
pub open spec fn heartbeats_sent(nows: Seq<u32>, last: u32) -> Seq<u32>
    decreases nows.len(),
{
    if nows.len() == 0 {
        Seq::empty()
    } else {
        seq![tick_spec(last, nows[0])] + heartbeats_sent(nows.drop_first(), tick_spec(last, nows[0]))
    }
}

pub proof fn lemma_heartbeats_sent_len(nows: Seq<u32>, last: u32)
    ensures
        heartbeats_sent(nows, last).len() == nows.len(),
    decreases nows.len(),
{
    if nows.len() > 0 {
        lemma_heartbeats_sent_len(nows.drop_first(), tick_spec(last, nows[0]));
    }
}

/// Every sent heartbeat is at least the value sent before the run began.
pub proof fn lemma_heartbeats_sent_lower_bound(nows: Seq<u32>, last: u32, i: int)
    requires
        0 <= i < heartbeats_sent(nows, last).len(),
    ensures
        heartbeats_sent(nows, last)[i] >= last,
    decreases i,
{
    lemma_heartbeats_sent_len(nows, last);
    if i > 0 {
        lemma_heartbeats_sent_lower_bound(nows.drop_first(), tick_spec(last, nows[0]), i - 1);
    }
}

/// Heartbeat monotonicity: over any run of frame iterations, whatever the
/// wall clock reports, consecutive heartbeat values never decrease.
pub proof fn lemma_heartbeat_monotone(nows: Seq<u32>, last: u32, i: int)
    requires
        0 <= i,
        i + 1 < heartbeats_sent(nows, last).len(),
    ensures
        heartbeats_sent(nows, last)[i] <= heartbeats_sent(nows, last)[i + 1],
    decreases i,
{
    lemma_heartbeats_sent_len(nows, last);
    let first: u32 = tick_spec(last, nows[0]);
    if i == 0 {
        lemma_heartbeats_sent_lower_bound(nows.drop_first(), first, 0);
    } else {
        lemma_heartbeat_monotone(nows.drop_first(), first, i - 1);
    }
}

/// The frame clock: remembers the largest elapsed-milliseconds value handed
/// out, so the heartbeat stream can be kept monotone whatever the caller's
/// time source reports.
#[derive(Clone, Copy, Debug, PartialEq, Eq, Structural)]
pub struct FrameClock {
    pub last_ms: u32,
}

impl FrameClock {
    pub fn new() -> (clock: FrameClock)
        ensures
            clock.last_ms == 0,
    {
        FrameClock { last_ms: 0 }
    }

    /// Turns one wall-clock reading into the next heartbeat value: never
    /// below any value handed out before.
    pub fn tick(&mut self, now_ms: u32) -> (ms: u32)
        ensures
            ms == tick_spec(old(self).last_ms, now_ms),
            ms >= old(self).last_ms,
            final(self).last_ms == ms,
    {
        if now_ms >= self.last_ms {
            self.last_ms = now_ms;
        }
        self.last_ms
    }
}

/// The bridge's record of where the engine stands in its protocol.
#[derive(Clone, Copy, Debug, PartialEq, Eq, Structural)]
pub struct EngineBridge {
    /// A `Create` message has been issued.
    pub created: bool,
    /// A `Resize` message has been issued; never more than one is.
    pub sized: bool,
    /// The last heartbeat value issued.
    pub last_heartbeat: u32,
}

impl EngineBridge {
    pub fn new() -> (bridge: EngineBridge)
        ensures
            !bridge.created,
            !bridge.sized,
            bridge.last_heartbeat == 0,
    {
        EngineBridge { created: false, sized: false, last_heartbeat: 0 }
    }

    /// The one `Create` message: first of the protocol, transparent
    /// background, GPU-accelerated backend.
    pub fn create(&mut self, backend: Backend, transparent: bool) -> (cmd: Cmd)
        requires
            !old(self).created,
            transparent,
            backend.gpu_accelerated(),
        ensures
            cmd == Cmd::Engine(EngineMsg::Create { backend, transparent }),
            *final(self) == (EngineBridge { created: true, ..*old(self) }),
    {
        self.created = true;
        Cmd::Engine(EngineMsg::Create { backend, transparent })
    }

    /// The one `Resize` message: sent once, after creation, with the fixed
    /// viewport size. Its precondition rules out any later resize.
    pub fn resize(&mut self, width: u32, height: u32) -> (cmd: Cmd)
        requires
            old(self).created,
            !old(self).sized,
        ensures
            cmd == Cmd::Engine(EngineMsg::Resize { width, height }),
            *final(self) == (EngineBridge { sized: true, ..*old(self) }),
    {
        self.sized = true;
        Cmd::Engine(EngineMsg::Resize { width, height })
    }

    /// One heartbeat. The caller hands in a clock reading already clamped by
    /// `FrameClock::tick`, so the stream of issued values never decreases.
    pub fn heartbeat(&mut self, milliseconds: u32) -> (cmd: Cmd)
        requires
            old(self).created,
            milliseconds >= old(self).last_heartbeat,
        ensures
            cmd == Cmd::Engine(EngineMsg::Heartbeat { milliseconds }),
            *final(self) == (EngineBridge { last_heartbeat: milliseconds, ..*old(self) }),
    {
        self.last_heartbeat = milliseconds;
        Cmd::Engine(EngineMsg::Heartbeat { milliseconds })
    }

    /// One redraw request; valid only once the engine knows its viewport.
    /// The pipeline issues it only while the ui context is current and the
    /// offscreen surface is bound.
    pub fn request_redraw(&self) -> (cmd: Cmd)
        requires
            self.created,
            self.sized,
        ensures
            cmd == Cmd::Engine(EngineMsg::RequestRedraw),
    {
        Cmd::Engine(EngineMsg::RequestRedraw)
    }
}

} // verus!
