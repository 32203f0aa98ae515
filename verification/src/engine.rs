//! The rendering engine collaborator, as the abstract interface this core
//! consumes.  Navigation, layout, compositing and GL execution live behind
//! it; the core only pumps its event queue, reads back two booleans, and
//! captures the framebuffer.

use vstd::prelude::*;
use crate::bridge::WakeBridge;

verus! {

/// Opaque handle to an engine-managed page instance, obtained synchronously
/// once per session after requesting navigation.
#[derive(Clone, Copy, Debug, PartialEq, Eq, Structural)]
pub struct BrowsingContextId(pub u64);

/// One batch of window events handed to the engine's event pump.  An empty
/// batch still drains the engine's internal event queue.
#[derive(Clone, Copy, Debug, PartialEq, Eq, Structural)]
pub enum EventBatch {
    /// Drain internal events only.
    Empty,
    /// Force a synchronous recomposite of the current frame.
    ForceRefresh,
    /// Make the given browsing context the active one.
    SelectContext(BrowsingContextId),
    /// Ask the engine to close the given browsing context.
    CloseContext(BrowsingContextId),
    /// Ask the engine to shut down its run loop.
    Quit,
}

/// Abstract contract point for the rendering engine.  The engine does its
/// genuinely long-running work on its own background threads and surfaces
/// progress only through wake signals; every method here must return
/// promptly.  None of the methods carries a specification: the engine is an
/// unverified collaborator, and everything the core concludes is stated over
/// the values these methods return, whatever they are.
pub trait Engine {
    /// Request navigation to the locator; deliver the new browsing context's
    /// id through the synchronous local hand-off.
    fn create_browsing_context(&mut self, locator: &str) -> BrowsingContextId;

    /// Pump one batch of events through the engine; the result reports
    /// whether the engine's run loop still considers itself active.
    fn submit_events(&mut self, batch: EventBatch) -> bool;

    /// Whether the primary document's load lifecycle has completed.  The
    /// engine sets this monotonically, false to true, at most once.
    fn has_loaded(&self) -> bool;

    /// Read the framebuffer back as raw RGBA8 bytes, rows bottom-to-top.
    fn capture_framebuffer(&mut self) -> Vec<u8>;

    /// Deliver any wake notifications from the engine's background activity
    /// into the session's bridge; report permanent closure by closing it.
    fn pump_wakes(&mut self, bridge: &mut WakeBridge);

    /// Release the engine's native resources.  The session guarantees this
    /// is invoked exactly once, before the engine is reclaimed.
    fn deinitialize(&mut self);
}

} // verus!
