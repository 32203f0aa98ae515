use headshot::adapter::{
    admit_request, outcome_to_response, percent_decode, serve_request, MediaType, ResponseBody,
};
use headshot::bridge::WakeBridge;
use headshot::engine::{BrowsingContextId, Engine, EventBatch};
use headshot::locator::Locator;
use headshot::machine::{run_session, FatalReason, RenderOutcome};
use headshot::session::{Session, WindowConfig};

/// How a scripted engine behaves at its wake and pump points.
#[derive(Clone, Copy, PartialEq, Eq)]
enum Script {
    /// Signal every wake; report loaded after the given number of wakes;
    /// acknowledge shutdown as soon as Quit is submitted.
    LoadAfterWakes(usize),
    /// Signal the first wake, then report should_continue=false with the
    /// page never loaded.
    HaltImmediately,
    /// Close the wake bridge instead of signaling.
    CloseBridge,
    /// Signal every wake but never load and never stop.
    NeverFinish,
    /// Report the load flag true on odd wakes only — an engine breaking
    /// the monotonicity it promised.
    FlickeringLoad,
}

/// A scripted stand-in for the rendering engine collaborator.
struct MockEngine {
    script: Script,
    frame: Vec<u8>,
    wakes: usize,
    quit_seen: bool,
    navigations: usize,
    deinit_calls: usize,
    submitted: Vec<EventBatch>,
}

impl MockEngine {
    fn new(script: Script, frame: Vec<u8>) -> MockEngine {
        MockEngine {
            script,
            frame,
            wakes: 0,
            quit_seen: false,
            navigations: 0,
            deinit_calls: 0,
            submitted: Vec::new(),
        }
    }
}

impl Engine for MockEngine {
    fn create_browsing_context(&mut self, _locator: &str) -> BrowsingContextId {
        self.navigations += 1;
        BrowsingContextId(7)
    }

    fn submit_events(&mut self, batch: EventBatch) -> bool {
        self.submitted.push(batch);
        if let EventBatch::Quit = batch {
            self.quit_seen = true;
        }
        match self.script {
            Script::HaltImmediately => false,
            _ => !self.quit_seen,
        }
    }

    fn has_loaded(&self) -> bool {
        match self.script {
            Script::LoadAfterWakes(n) => self.wakes >= n,
            Script::FlickeringLoad => self.wakes % 2 == 1,
            _ => false,
        }
    }

    fn capture_framebuffer(&mut self) -> Vec<u8> {
        self.frame.clone()
    }

    fn pump_wakes(&mut self, bridge: &mut WakeBridge) {
        if self.script == Script::CloseBridge {
            bridge.close();
        } else {
            self.wakes += 1;
            bridge.send();
        }
    }

    fn deinitialize(&mut self) {
        self.deinit_calls += 1;
    }
}

fn red_frame(width: u32, height: u32) -> Vec<u8> {
    let mut frame = Vec::new();
    for _ in 0..width * height {
        frame.extend_from_slice(&[0xff, 0x00, 0x00, 0xff]);
    }
    frame
}

fn small_window() -> WindowConfig {
    WindowConfig::new(4, 4, 1).expect("small window fits")
}

// --- Render state machine with a scripted engine ---

#[test]
fn success_path_deinitializes_exactly_once() {
    let engine = MockEngine::new(Script::LoadAfterWakes(2), red_frame(4, 4));
    let locator = Locator::parse("http://example.test/ok").expect("valid locator");
    let mut session = Session::new(engine, small_window());
    let outcome = run_session(&mut session, &locator, 64);
    let engine = session.into_engine();
    assert!(matches!(outcome, RenderOutcome::Success(_)));
    assert_eq!(engine.deinit_calls, 1);
    assert_eq!(engine.navigations, 1);
    // Shutdown was requested through the event pump.
    assert!(engine.submitted.contains(&EventBatch::Quit));
    assert!(engine.submitted.contains(&EventBatch::CloseContext(BrowsingContextId(7))));
    // Success was reached through the closing phase, never directly from
    // the waiting phase: the engine was pumped again after Quit.
    let quit_pos = engine
        .submitted
        .iter()
        .position(|batch| *batch == EventBatch::Quit)
        .expect("quit was submitted");
    assert!(engine.submitted[quit_pos + 1..].contains(&EventBatch::Empty));
}

#[test]
fn halted_path_deinitializes_exactly_once() {
    let engine = MockEngine::new(Script::HaltImmediately, red_frame(4, 4));
    let locator = Locator::parse("http://example.test/halt").expect("valid locator");
    let mut session = Session::new(engine, small_window());
    let outcome = run_session(&mut session, &locator, 64);
    let engine = session.into_engine();
    match outcome {
        RenderOutcome::EngineHalted(text) => {
            assert_eq!(text, "engine stopped responding before page load completed");
        }
        _ => panic!("first wake with should_continue=false and not loaded must halt"),
    }
    assert_eq!(engine.deinit_calls, 1);
}

#[test]
fn bridge_closure_is_fatal_and_still_torn_down() {
    let engine = MockEngine::new(Script::CloseBridge, red_frame(4, 4));
    let locator = Locator::parse("http://example.test/closed").expect("valid locator");
    let mut session = Session::new(engine, small_window());
    let outcome = run_session(&mut session, &locator, 64);
    let engine = session.into_engine();
    assert!(matches!(
        outcome,
        RenderOutcome::Fatal(FatalReason::BridgeClosed)
    ));
    assert_eq!(engine.deinit_calls, 1);
}

#[test]
fn mismatched_capture_is_fatal_encoding_failure() {
    // The engine hands back 3 bytes for a 4x4 window: an internal
    // consistency error, aborted rather than served.
    let engine = MockEngine::new(Script::LoadAfterWakes(1), vec![1, 2, 3]);
    let locator = Locator::parse("http://example.test/bad-frame").expect("valid locator");
    let mut session = Session::new(engine, small_window());
    let outcome = run_session(&mut session, &locator, 64);
    let engine = session.into_engine();
    assert!(matches!(
        outcome,
        RenderOutcome::Fatal(FatalReason::EncodingFailure)
    ));
    assert_eq!(engine.deinit_calls, 1);
}

#[test]
fn exhausted_wake_budget_is_fatal_not_a_hang() {
    let engine = MockEngine::new(Script::NeverFinish, red_frame(4, 4));
    let locator = Locator::parse("http://example.test/slow").expect("valid locator");
    let mut session = Session::new(engine, small_window());
    let outcome = run_session(&mut session, &locator, 3);
    let engine = session.into_engine();
    assert!(matches!(
        outcome,
        RenderOutcome::Fatal(FatalReason::WakeBudgetExhausted)
    ));
    assert_eq!(engine.deinit_calls, 1);
}

// --- Locator admission ---

#[test]
fn locator_text_is_normalized() {
    let locator = Locator::parse("HTTP://Example.TEST/ok").expect("parses");
    assert_eq!(locator.as_str(), "http://example.test/ok");
}

#[test]
fn admit_strips_the_leading_separator() {
    let locator = admit_request("/http://example.test/a").expect("admitted");
    assert_eq!(locator.as_str(), "http://example.test/a");
}

#[test]
fn unparseable_locator_is_rejected_with_400() {
    match admit_request("/no scheme at all") {
        Ok(_) => panic!("a schemeless string with spaces is not a locator"),
        Err(resp) => {
            assert_eq!(resp.status, 400);
            assert_eq!(resp.media_type, MediaType::TextPlain);
            assert!(matches!(resp.body, ResponseBody::Text(_)));
        }
    }
}

// --- Outcome mapping ---

#[test]
fn success_maps_to_200_with_exact_length() {
    let resp = outcome_to_response(RenderOutcome::Success(vec![9, 8, 7]))
        .expect("success is served");
    assert_eq!(resp.status, 200);
    assert_eq!(resp.media_type, MediaType::ImagePng);
    assert_eq!(resp.content_length, Some(3));
    match resp.body {
        ResponseBody::Bytes(bytes) => assert_eq!(bytes, vec![9, 8, 7]),
        ResponseBody::Text(_) => panic!("image responses carry bytes"),
    }
}

#[test]
fn halted_maps_to_500_text() {
    let resp = outcome_to_response(RenderOutcome::EngineHalted("stopped".to_owned()))
        .expect("halting is served");
    assert_eq!(resp.status, 500);
    assert_eq!(resp.media_type, MediaType::TextPlain);
    match resp.body {
        ResponseBody::Text(text) => assert_eq!(text, "stopped"),
        ResponseBody::Bytes(_) => panic!("diagnostics are text"),
    }
}

#[test]
fn fatal_outcomes_get_no_synthesized_response() {
    assert!(outcome_to_response(RenderOutcome::Fatal(FatalReason::BridgeClosed)).is_none());
    assert!(outcome_to_response(RenderOutcome::Fatal(FatalReason::EncodingFailure)).is_none());
}

#[test]
fn fatal_reasons_have_diagnostic_text() {
    assert_eq!(
        FatalReason::BridgeClosed.diagnostic_text(),
        "wake bridge closed while its session was alive"
    );
    assert_eq!(
        FatalReason::EncodingFailure.diagnostic_text(),
        "captured framebuffer did not match its dimensions"
    );
    assert_eq!(
        FatalReason::WakeBudgetExhausted.diagnostic_text(),
        "wake budget exhausted before the engine finished"
    );
}

// --- End to end ---

#[test]
fn session_load_view_is_monotonic() {
    // The engine misbehaves and lets its load flag revert; the session's
    // own view latches the first true observation and never reverts.
    let engine = MockEngine::new(Script::FlickeringLoad, red_frame(4, 4));
    let mut session = Session::new(engine, small_window());
    session.poll_wake();
    assert!(session.has_loaded());
    session.poll_wake();
    assert!(session.has_loaded());
    session.teardown();
}

#[test]
fn percent_escapes_decode_to_their_bytes() {
    let decoded = percent_decode(&b"/http%3A%2F%2Fexample.test%2Fok".to_vec());
    assert_eq!(decoded, b"/http://example.test/ok".to_vec());
    assert_eq!(percent_decode(&b"%41%62c".to_vec()), b"Abc".to_vec());
    assert_eq!(percent_decode(&b"%2541".to_vec()), b"%41".to_vec());
}

#[test]
fn malformed_percent_escapes_pass_through() {
    assert_eq!(percent_decode(&b"%".to_vec()), b"%".to_vec());
    assert_eq!(percent_decode(&b"%4".to_vec()), b"%4".to_vec());
    assert_eq!(percent_decode(&b"%zz9".to_vec()), b"%zz9".to_vec());
    assert_eq!(percent_decode(&b"plain".to_vec()), b"plain".to_vec());
}

#[test]
fn bad_locator_serves_400_and_allocates_no_session() {
    let engine = MockEngine::new(Script::LoadAfterWakes(2), red_frame(4, 4));
    let (response, served) = serve_request("/not a locator", engine, small_window(), 64);
    let resp = response.expect("rejections are answered");
    assert_eq!(resp.status, 400);
    assert_eq!(resp.media_type, MediaType::TextPlain);
    let engine = served.into_engine();
    assert_eq!(engine.navigations, 0);
    assert_eq!(engine.deinit_calls, 0);
    assert!(engine.submitted.is_empty());
}

#[test]
fn end_to_end_renders_a_red_square() {
    let engine = MockEngine::new(Script::LoadAfterWakes(2), red_frame(4, 4));
    let (response, served) = serve_request(
        "/http://example.test/ok",
        engine,
        small_window(),
        64,
    );
    let engine = served.into_engine();
    assert_eq!(engine.deinit_calls, 1);
    assert_eq!(engine.navigations, 1);
    let resp = response.expect("a loaded page is served");
    assert_eq!(resp.status, 200);
    assert_eq!(resp.media_type, MediaType::ImagePng);
    let bytes = match resp.body {
        ResponseBody::Bytes(bytes) => bytes,
        ResponseBody::Text(_) => panic!("image responses carry bytes"),
    };
    assert!(resp.content_length.expect("exact length is declared") > 0);
    assert_eq!(resp.content_length, Some(bytes.len() as u64));

    let decoded = image::load_from_memory(&bytes).expect("body is a png image");
    let buffer = decoded.to_rgba8();
    assert_eq!(buffer.dimensions(), (4, 4));
    for pixel in buffer.pixels() {
        assert_eq!(pixel.0, [0xff, 0x00, 0x00, 0xff]);
    }
}

#[test]
fn fatal_runs_serve_no_response_but_still_tear_down() {
    let engine = MockEngine::new(Script::CloseBridge, red_frame(4, 4));
    let (response, served) = serve_request(
        "/http://example.test/fatal",
        engine,
        small_window(),
        64,
    );
    assert!(response.is_none());
    assert_eq!(served.into_engine().deinit_calls, 1);
}
