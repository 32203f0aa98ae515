//! Headless page-rendering service core: a per-request render session is
//! driven from admission to a terminal HTTP outcome.  The rendering engine
//! itself is an opaque collaborator behind the [`engine::Engine`] trait; this
//! crate verifies the orchestration around it: the coalescing wake bridge,
//! the render state machine, exactly-once session teardown, the screenshot
//! encoder's row flip, and the mapping from outcomes to HTTP responses.

pub mod adapter;
pub mod bridge;
pub mod codec;
pub mod engine;
pub mod locator;
pub mod machine;
pub mod session;
