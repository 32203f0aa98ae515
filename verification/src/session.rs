//! Session: the aggregate owner of one request's native resources — the
//! rendering engine instance, the window abstraction, and the consumer end
//! of one wake bridge.  Every engine interaction is mediated here, which is
//! what makes the teardown discipline provable: the engine is deinitialized
//! exactly once, on every exit path, and never touched afterwards.

use vstd::prelude::*;
use crate::bridge::{WakeBridge, WakePoll};
use crate::engine::{BrowsingContextId, Engine, EventBatch};

verus! {

/// The window abstraction's fixed geometry: logical size, scale factor, and
/// the device size the framebuffer actually has.
#[derive(Clone, Copy, Debug, PartialEq, Eq, Structural)]
pub struct WindowConfig {
    logical_width: u32,
    logical_height: u32,
    scale_factor: u32,
    device_width: u32,
    device_height: u32,
}

impl WindowConfig {
    /// The device size is the logical size under the scale factor, and no
    /// dimension is degenerate.
    pub open spec fn wf(&self) -> bool {
        &&& self.spec_device_width() == self.logical_width() * self.scale_factor()
        &&& self.spec_device_height() == self.logical_height() * self.scale_factor()
        &&& self.logical_width() > 0
        &&& self.logical_height() > 0
        &&& self.scale_factor() > 0
    }

    /// Build a window geometry from a logical size and scale factor.
    /// Succeeds exactly when the device size fits the pixel coordinate
    /// range and nothing is zero.
    pub fn new(logical_width: u32, logical_height: u32, scale_factor: u32) -> (config: Option<
        WindowConfig,
    >)
        ensures
            config is Some <==> logical_width > 0 && logical_height > 0 && scale_factor > 0
                && logical_width * scale_factor <= u32::MAX
                && logical_height * scale_factor <= u32::MAX,
            config is Some ==> config.unwrap().wf()
                && config.unwrap().logical_width() == logical_width
                && config.unwrap().logical_height() == logical_height
                && config.unwrap().scale_factor() == scale_factor,
    {
        if logical_width == 0 || logical_height == 0 || scale_factor == 0 {
            return None;
        }
        let dw = logical_width.checked_mul(scale_factor);
        let dh = logical_height.checked_mul(scale_factor);
        match (dw, dh) {
            (Some(device_width), Some(device_height)) => Some(
                WindowConfig {
                    logical_width,
                    logical_height,
                    scale_factor,
                    device_width,
                    device_height,
                },
            ),
            _ => None,
        }
    }

    pub closed spec fn logical_width(&self) -> u32 {
        self.logical_width
    }

    pub closed spec fn logical_height(&self) -> u32 {
        self.logical_height
    }

    pub closed spec fn scale_factor(&self) -> u32 {
        self.scale_factor
    }

    pub closed spec fn spec_device_width(&self) -> u32 {
        self.device_width
    }

    pub closed spec fn spec_device_height(&self) -> u32 {
        self.device_height
    }

    /// The framebuffer's size in device pixels.
    #[verifier::when_used_as_spec(spec_device_size)]
    pub fn device_size(&self) -> (size: (u32, u32))
        ensures
            size == self.spec_device_size(),
    {
        (self.device_width, self.device_height)
    }

    pub open spec fn spec_device_size(&self) -> (u32, u32) {
        (self.spec_device_width(), self.spec_device_height())
    }

    /// The window's logical size, before the scale factor.
    pub fn logical_size(&self) -> (size: (u32, u32))
        ensures
            size.0 == self.logical_width(),
            size.1 == self.logical_height(),
    {
        (self.logical_width, self.logical_height)
    }

    /// The scale factor between logical and device pixels.
    pub fn hidpi_factor(&self) -> (scale: u32)
        ensures
            scale == self.scale_factor(),
    {
        self.scale_factor
    }
}

/// One engine interaction, as the session records it in its ghost log.
/// The log is what lets the machine's contracts pin down the protocol: not
/// just that an outcome was reached, but which commands were handed to the
/// engine, with which payloads, in which order.
pub enum EngineCall {
    /// Navigation was requested for this locator text; the engine handed
    /// back this browsing context id through the synchronous hand-off.
    Navigate(Seq<char>, BrowsingContextId),
    /// This batch was pumped; the engine read back this `should_continue`.
    Pump(EventBatch, bool),
    /// The framebuffer was captured and held these raw bytes.
    Capture(Seq<u8>),
    /// The wake bridge was polled and this was observed.
    Wake(WakePoll),
    /// The engine's `deinitialize` ran.
    Deinitialize,
}

/// One request's session.  Exclusively owns its engine instance and wake
/// bridge consumer; `wf` ties the ghost deinitialization count to the
/// liveness flag, so "exactly once" is a statement every method preserves,
/// and the ghost interaction log records every mediated engine call.
pub struct Session<E: Engine> {
    engine: E,
    bridge: WakeBridge,
    window: WindowConfig,
    engine_alive: bool,
    loaded_seen: bool,
    deinit_calls: Ghost<nat>,
    wake_polls: Ghost<nat>,
    log: Ghost<Seq<EngineCall>>,
}

impl<E: Engine> Session<E> {
    /// Whether the engine has not yet been deinitialized.
    pub closed spec fn is_alive(&self) -> bool {
        self.engine_alive
    }

    /// How many times the engine's `deinitialize` has run.
    pub closed spec fn deinit_count(&self) -> nat {
        self.deinit_calls@
    }

    /// How many times the wake bridge has been polled.
    pub closed spec fn wake_poll_count(&self) -> nat {
        self.wake_polls@
    }

    /// Whether this session has ever observed the engine's load flag true.
    /// The flag is monotonic: the session latches the first observation and
    /// never lets it revert.
    pub closed spec fn load_observed(&self) -> bool {
        self.loaded_seen
    }

    /// The session's window geometry.
    pub closed spec fn window_config(&self) -> WindowConfig {
        self.window
    }

    /// Every engine interaction this session has performed, in order.
    pub closed spec fn interactions(&self) -> Seq<EngineCall> {
        self.log@
    }

    /// A live session has never deinitialized its engine; a dead one has
    /// done so exactly once.
    pub open spec fn wf(&self) -> bool {
        &&& self.is_alive() ==> self.deinit_count() == 0
        &&& !self.is_alive() ==> self.deinit_count() == 1
    }

    /// Construction acquires the engine, the window abstraction, and a
    /// fresh wake bridge consumer, all exclusively owned by this session.
    pub fn new(engine: E, window: WindowConfig) -> (session: Session<E>)
        ensures
            session.wf(),
            session.is_alive(),
            session.deinit_count() == 0,
            session.wake_poll_count() == 0,
            !session.load_observed(),
            session.window_config() == window,
            session.interactions() == Seq::<EngineCall>::empty(),
    {
        Session {
            engine,
            bridge: WakeBridge::new(),
            window,
            engine_alive: true,
            loaded_seen: false,
            deinit_calls: Ghost(0nat),
            wake_polls: Ghost(0nat),
            log: Ghost(Seq::empty()),
        }
    }

    /// Ask the engine to navigate; hand back the new context's id, received
    /// through the engine's synchronous local hand-off.
    pub fn create_browsing_context(&mut self, locator: &str) -> (cx: BrowsingContextId)
        requires
            old(self).wf(),
            old(self).is_alive(),
        ensures
            final(self).wf(),
            final(self).is_alive(),
            final(self).deinit_count() == old(self).deinit_count(),
            final(self).wake_poll_count() == old(self).wake_poll_count(),
            final(self).load_observed() == old(self).load_observed(),
            final(self).window_config() == old(self).window_config(),
            final(self).interactions() == old(self).interactions().push(
                EngineCall::Navigate(locator@, cx),
            ),
    {
        let cx = self.engine.create_browsing_context(locator);
        self.log = Ghost(self.log@.push(EngineCall::Navigate(locator@, cx)));
        cx
    }

    /// Pump one event batch; report whether the engine still runs.
    pub fn submit_events(&mut self, batch: EventBatch) -> (should_continue: bool)
        requires
            old(self).wf(),
            old(self).is_alive(),
        ensures
            final(self).wf(),
            final(self).is_alive(),
            final(self).deinit_count() == old(self).deinit_count(),
            final(self).wake_poll_count() == old(self).wake_poll_count(),
            final(self).load_observed() == old(self).load_observed(),
            final(self).window_config() == old(self).window_config(),
            final(self).interactions() == old(self).interactions().push(
                EngineCall::Pump(batch, should_continue),
            ),
    {
        let should_continue = self.engine.submit_events(batch);
        self.log = Ghost(self.log@.push(EngineCall::Pump(batch, should_continue)));
        should_continue
    }

    /// Whether the primary document finished loading.  The engine sets its
    /// flag monotonically; the session additionally latches the first true
    /// observation, so its own view never reverts.
    pub fn has_loaded(&mut self) -> (loaded: bool)
        ensures
            final(self).is_alive() == old(self).is_alive(),
            final(self).deinit_count() == old(self).deinit_count(),
            final(self).wake_poll_count() == old(self).wake_poll_count(),
            final(self).window_config() == old(self).window_config(),
            final(self).interactions() == old(self).interactions(),
            old(self).load_observed() ==> final(self).load_observed(),
            loaded == final(self).load_observed(),
    {
        if self.engine.has_loaded() {
            self.loaded_seen = true;
        }
        self.loaded_seen
    }

    /// Read the raw framebuffer back, rows bottom-to-top.
    pub fn capture_framebuffer(&mut self) -> (frame: Vec<u8>)
        requires
            old(self).wf(),
            old(self).is_alive(),
        ensures
            final(self).wf(),
            final(self).is_alive(),
            final(self).deinit_count() == old(self).deinit_count(),
            final(self).wake_poll_count() == old(self).wake_poll_count(),
            final(self).load_observed() == old(self).load_observed(),
            final(self).window_config() == old(self).window_config(),
            final(self).interactions() == old(self).interactions().push(
                EngineCall::Capture(frame@),
            ),
    {
        let frame = self.engine.capture_framebuffer();
        self.log = Ghost(self.log@.push(EngineCall::Capture(frame@)));
        frame
    }

    /// The sole suspension point: let the engine deliver any pending wake
    /// notifications into the bridge, then poll the bridge once.
    pub fn poll_wake(&mut self) -> (observed: WakePoll)
        requires
            old(self).wf(),
            old(self).is_alive(),
        ensures
            final(self).wf(),
            final(self).is_alive(),
            final(self).deinit_count() == old(self).deinit_count(),
            final(self).wake_poll_count() == old(self).wake_poll_count() + 1,
            final(self).load_observed() == old(self).load_observed(),
            final(self).window_config() == old(self).window_config(),
            final(self).interactions() == old(self).interactions().push(
                EngineCall::Wake(observed),
            ),
    {
        self.engine.pump_wakes(&mut self.bridge);
        let observed = self.bridge.poll();
        self.wake_polls = Ghost(self.wake_polls@ + 1);
        self.log = Ghost(self.log@.push(EngineCall::Wake(observed)));
        observed
    }

    /// Release the engine, exactly once: a second, defensive call changes
    /// nothing.  Runs synchronously, before any native resource could be
    /// reclaimed.
    pub fn teardown(&mut self)
        requires
            old(self).wf(),
        ensures
            final(self).wf(),
            !final(self).is_alive(),
            final(self).deinit_count() == 1,
            final(self).wake_poll_count() == old(self).wake_poll_count(),
            final(self).load_observed() == old(self).load_observed(),
            final(self).window_config() == old(self).window_config(),
            old(self).is_alive() ==> final(self).interactions() == old(
                self,
            ).interactions().push(EngineCall::Deinitialize),
            !old(self).is_alive() ==> final(self).interactions() == old(self).interactions(),
    {
        if self.engine_alive {
            self.engine.deinitialize();
            self.engine_alive = false;
            self.deinit_calls = Ghost(self.deinit_calls@ + 1);
            self.log = Ghost(self.log@.push(EngineCall::Deinitialize));
        }
    }

    /// Give the (deinitialized) engine back to the caller once the session
    /// is over.
    pub fn into_engine(self) -> E
        requires
            !self.is_alive(),
    {
        self.engine
    }

    /// The framebuffer's device size, from the window abstraction.
    pub fn device_size(&self) -> (size: (u32, u32))
        ensures
            size == self.window_config().spec_device_size(),
    {
        self.window.device_size()
    }
}

/// Law: a session that is no longer live has deinitialized its engine
/// exactly once — never zero times, never twice.  With `teardown`'s own
/// contract this makes defensive re-teardown harmless: every path that
/// ends a well-formed session leaves the count at one.
pub proof fn lemma_dead_session_deinitialized_once<E: Engine>(session: Session<E>)
    requires
        session.wf(),
        !session.is_alive(),
    ensures
        session.deinit_count() == 1,
{
}

} // verus!
