//! Render State Machine: drives one session from request admission to a
//! terminal outcome.  The engine signals progress only through opaque,
//! edge-triggered wakes, so the machine is a level-triggered polling loop on
//! top of them: on every wake it re-reads `should_continue` and the window's
//! load flag and decides afresh.
//!
//! Within one session the phases advance strictly `WaitingForOnload` →
//! `Closing` → `Ready`; no phase is skipped or revisited, and in particular
//! a successful outcome is only ever reached through `Closing`.

use vstd::prelude::*;
use crate::bridge::WakePoll;
use crate::codec::{encode_screenshot, flipped, frame_len, png_encoding};
use crate::engine::{BrowsingContextId, Engine, EventBatch};
use crate::locator::Locator;
use crate::session::{EngineCall, Session};

verus! {

/// Tagged terminal result of one render run.
#[derive(Debug)]
pub enum RenderOutcome {
    /// The page loaded and was captured: the encoded screenshot bytes.
    Success(Vec<u8>),
    /// The engine reported itself stopped before the load completed; the
    /// diagnostic text says so.  Recoverable per request.
    EngineHalted(String),
    /// A broken invariant, not bad input: process-level, never served as a
    /// normal response.
    Fatal(FatalReason),
}

/// The fatal, process-level conditions a run can end in.
#[derive(Clone, Copy, Debug, PartialEq, Eq, Structural)]
pub enum FatalReason {
    /// The wake bridge reported closure while the session was still alive.
    BridgeClosed,
    /// The captured framebuffer contradicted its stated dimensions.
    EncodingFailure,
    /// The caller's wake budget ran out before the engine reached a
    /// terminal answer.
    WakeBudgetExhausted,
}

impl FatalReason {
    /// The diagnostic text for logging and escalation.
    pub fn diagnostic_text(&self) -> (text: String)
        ensures
            *self == FatalReason::BridgeClosed ==> text@
                == "wake bridge closed while its session was alive"@,
            *self == FatalReason::EncodingFailure ==> text@
                == "captured framebuffer did not match its dimensions"@,
            *self == FatalReason::WakeBudgetExhausted ==> text@
                == "wake budget exhausted before the engine finished"@,
    {
        match self {
            FatalReason::BridgeClosed => "wake bridge closed while its session was alive"
                .to_owned(),
            FatalReason::EncodingFailure => "captured framebuffer did not match its dimensions"
                .to_owned(),
            FatalReason::WakeBudgetExhausted => "wake budget exhausted before the engine finished"
                .to_owned(),
        }
    }
}

/// The engine-halted outcome, with its fixed diagnostic text.
pub fn engine_halted_outcome() -> (outcome: RenderOutcome)
    ensures
        outcome matches RenderOutcome::EngineHalted(text) && text@
            == "engine stopped responding before page load completed"@,
{
    RenderOutcome::EngineHalted("engine stopped responding before page load completed".to_owned())
}

/// The machine's phases, from admission to a terminal answer.
#[derive(Clone, Copy, Debug, PartialEq, Eq, Structural)]
pub enum Phase {
    /// Initial: suspended at the wake bridge until the page load ends.
    WaitingForOnload,
    /// The screenshot is captured and encoded; the engine is shutting down.
    Closing,
    /// Terminal: the encoded screenshot is the answer.
    ReadySuccess,
    /// Terminal: the engine halted before the load completed.
    ReadyEngineHalted,
    /// Terminal: the wake bridge closed under a live session.
    Failed,
}

/// Where one wake takes the machine, given the engine's two read-backs.
pub open spec fn phase_after_wake(phase: Phase, should_continue: bool, load_ended: bool) -> Phase {
    match phase {
        Phase::WaitingForOnload => if load_ended {
            Phase::Closing
        } else if should_continue {
            Phase::WaitingForOnload
        } else {
            Phase::ReadyEngineHalted
        },
        Phase::Closing => if should_continue {
            Phase::Closing
        } else {
            Phase::ReadySuccess
        },
        _ => phase,
    }
}

/// Where bridge closure takes the machine: fatal under any live phase.
pub open spec fn phase_after_closure(phase: Phase) -> Phase {
    match phase {
        Phase::WaitingForOnload => Phase::Failed,
        Phase::Closing => Phase::Failed,
        _ => phase,
    }
}

/// How far along a phase is; transitions never go backwards.
pub open spec fn phase_rank(phase: Phase) -> nat {
    match phase {
        Phase::WaitingForOnload => 0,
        Phase::Closing => 1,
        _ => 2,
    }
}

/// Law: `WaitingForOnload` never reaches `ReadySuccess` in one step —
/// success must pass through `Closing` — and more generally a wake yields
/// `ReadySuccess` only out of `Closing` or out of `ReadySuccess` itself.
pub proof fn lemma_success_only_through_closing(
    phase: Phase,
    should_continue: bool,
    load_ended: bool,
)
    ensures
        phase_after_wake(Phase::WaitingForOnload, should_continue, load_ended)
            != Phase::ReadySuccess,
        phase_after_wake(phase, should_continue, load_ended) == Phase::ReadySuccess ==> phase
            == Phase::Closing || phase == Phase::ReadySuccess,
{
}

/// Law: if a wake in `WaitingForOnload` reads back `should_continue` false
/// while the load has not ended, the machine lands in
/// `ReadyEngineHalted`, deterministically — never in a hung state.
pub proof fn lemma_halt_is_deterministic()
    ensures
        phase_after_wake(Phase::WaitingForOnload, false, false) == Phase::ReadyEngineHalted,
{
}

/// Law: within one session the phases only advance — `WaitingForOnload`,
/// then `Closing`, then a terminal phase — and terminal phases absorb both
/// wakes and closure, so no phase is revisited.
pub proof fn lemma_phases_never_regress(phase: Phase, should_continue: bool, load_ended: bool)
    ensures
        phase_rank(phase_after_wake(phase, should_continue, load_ended)) >= phase_rank(phase),
        phase_rank(phase_after_closure(phase)) >= phase_rank(phase),
        phase_rank(phase) == 2 ==> phase_after_wake(phase, should_continue, load_ended) == phase
            && phase_after_closure(phase) == phase,
{
}

/// What a wake in `WaitingForOnload` asks the machine to do.
#[derive(Clone, Copy, Debug, PartialEq, Eq, Structural)]
pub enum WaitingDecision {
    /// The load ended: recomposite, capture, encode, begin shutdown.
    CaptureAndClose,
    /// Still loading and the engine still runs: suspend again.
    KeepWaiting,
    /// The engine stopped before the load ended: report it halted.
    Halt,
}

/// The phase a waiting-state decision leads to.
pub open spec fn waiting_decision_phase(decision: WaitingDecision) -> Phase {
    match decision {
        WaitingDecision::CaptureAndClose => Phase::Closing,
        WaitingDecision::KeepWaiting => Phase::WaitingForOnload,
        WaitingDecision::Halt => Phase::ReadyEngineHalted,
    }
}

/// Decide a `WaitingForOnload` wake from the engine's two read-backs.  The
/// load flag wins over `should_continue`: a finished page is captured even
/// if the engine is already winding down.
pub fn waiting_decision(should_continue: bool, load_ended: bool) -> (decision: WaitingDecision)
    ensures
        decision == WaitingDecision::CaptureAndClose <==> load_ended,
        decision == WaitingDecision::KeepWaiting <==> !load_ended && should_continue,
        decision == WaitingDecision::Halt <==> !load_ended && !should_continue,
        waiting_decision_phase(decision) == phase_after_wake(
            Phase::WaitingForOnload,
            should_continue,
            load_ended,
        ),
{
    if load_ended {
        WaitingDecision::CaptureAndClose
    } else if should_continue {
        WaitingDecision::KeepWaiting
    } else {
        WaitingDecision::Halt
    }
}

/// What a wake in `Closing` asks the machine to do.
#[derive(Clone, Copy, Debug, PartialEq, Eq, Structural)]
pub enum ClosingDecision {
    /// The engine acknowledged shutdown: the captured bytes are the answer.
    Finish,
    /// The engine still runs: suspend again.
    KeepWaiting,
}

/// The phase a closing-state decision leads to.
pub open spec fn closing_decision_phase(decision: ClosingDecision) -> Phase {
    match decision {
        ClosingDecision::Finish => Phase::ReadySuccess,
        ClosingDecision::KeepWaiting => Phase::Closing,
    }
}

/// Decide a `Closing` wake from the engine's read-back.
pub fn closing_decision(should_continue: bool) -> (decision: ClosingDecision)
    ensures
        decision == ClosingDecision::Finish <==> !should_continue,
        closing_decision_phase(decision) == phase_after_wake(
            Phase::Closing,
            should_continue,
            false,
        ),
{
    if should_continue {
        ClosingDecision::KeepWaiting
    } else {
        ClosingDecision::Finish
    }
}

/// The log only grew: every entry already recorded is still there,
/// unchanged and in place.
pub open spec fn log_extended(pre: Seq<EngineCall>, post: Seq<EngineCall>) -> bool {
    &&& pre.len() <= post.len()
    &&& forall|i: int| 0 <= i < pre.len() ==> #[trigger] post[i] == pre[i]
}

/// The capture protocol in its mandatory order, recorded at `at`: the wake
/// whose pump observed the load end, one more empty pump (skipping it
/// risks a blank frame), the forced recomposite, then the capture of
/// `frame`.
pub open spec fn capture_calls_at(log: Seq<EngineCall>, at: int, frame: Seq<u8>) -> bool {
    &&& log[at] == EngineCall::Wake(WakePoll::Signal)
    &&& log[at + 1] matches EngineCall::Pump(EventBatch::Empty, _)
    &&& log[at + 2] matches EngineCall::Pump(EventBatch::Empty, _)
    &&& log[at + 3] matches EngineCall::Pump(EventBatch::ForceRefresh, _)
    &&& log[at + 4] == EngineCall::Capture(frame)
}

/// The shutdown hand-off recorded at `at`: close this browsing context,
/// then quit, in that order.
pub open spec fn shutdown_calls_at(log: Seq<EngineCall>, at: int, cx: BrowsingContextId) -> bool {
    &&& (log[at] matches EngineCall::Pump(EventBatch::CloseContext(closed), _) && closed == cx)
    &&& log[at + 1] matches EngineCall::Pump(EventBatch::Quit, _)
}

/// Somewhere at or after `from`, this log records the whole capture-and-
/// shutdown protocol for context `cx`, and `png` is exactly the PNG
/// encoding of the frame captured there — a frame of the window's device
/// size, rows flipped top-down.
pub open spec fn capture_and_shutdown(
    log: Seq<EngineCall>,
    from: int,
    png: Seq<u8>,
    cx: BrowsingContextId,
    width: u32,
    height: u32,
) -> bool {
    exists|at: int|
        #![trigger log[at]]
        0 <= at && from <= at && at + 7 <= log.len() && (log[at + 4] matches EngineCall::Capture(frame)
            && frame.len() == frame_len(width as nat, height as nat) && png == png_encoding(
            flipped(frame, width as nat, height as nat),
            width as int,
            height as int,
        ) && png.len() > 0 && capture_calls_at(log, at, frame) && shutdown_calls_at(
            log,
            at + 5,
            cx,
        ))
}

/// A wake poll at or after `from` observed that the bridge had closed.
pub open spec fn closure_observed(log: Seq<EngineCall>, from: int) -> bool {
    exists|i: int|
        0 <= i && from <= i < log.len() && #[trigger] log[i] == EngineCall::Wake(WakePoll::Closed)
}

/// Extending the log preserves a recorded capture-and-shutdown protocol.
pub proof fn lemma_capture_and_shutdown_persists(
    pre: Seq<EngineCall>,
    post: Seq<EngineCall>,
    from: int,
    png: Seq<u8>,
    cx: BrowsingContextId,
    width: u32,
    height: u32,
)
    requires
        capture_and_shutdown(pre, from, png, cx, width, height),
        log_extended(pre, post),
    ensures
        capture_and_shutdown(post, from, png, cx, width, height),
{
    let at = choose|at: int|
        #![trigger pre[at]]
        0 <= at && from <= at && at + 7 <= pre.len() && (pre[at + 4]
            matches EngineCall::Capture(frame)
            && frame.len() == frame_len(width as nat, height as nat) && png == png_encoding(
            flipped(frame, width as nat, height as nat),
            width as int,
            height as int,
        ) && png.len() > 0 && capture_calls_at(pre, at, frame) && shutdown_calls_at(
            pre,
            at + 5,
            cx,
        ));
    assert(post[at] == pre[at]);
    assert(post[at + 1] == pre[at + 1]);
    assert(post[at + 2] == pre[at + 2]);
    assert(post[at + 3] == pre[at + 3]);
    assert(post[at + 4] == pre[at + 4]);
    assert(post[at + 5] == pre[at + 5]);
    assert(post[at + 6] == pre[at + 6]);
}

/// One polling quantum of `WaitingForOnload`.
#[derive(Debug)]
pub enum WaitingPoll {
    /// No wake signal was pending; suspend and poll again later.
    Pending,
    /// The load ended: here are the encoded screenshot bytes; shutdown
    /// commands have been issued; the machine is now `Closing`.
    ToClosing(Vec<u8>),
    /// The engine halted before the load ended: terminal.
    Halted,
    /// The wake bridge closed under a live session: fatal.
    BridgeClosed,
    /// The captured frame contradicted the window's dimensions: fatal.
    CaptureFailed,
}

/// Process at most one wake while waiting for the page load to end.  On a
/// wake: pump an empty batch, read back `should_continue` and the load
/// flag, and follow `waiting_decision`.  When the load has ended, pump one
/// more empty batch *before* forcing the synchronous recomposite — with
/// nothing queued, the engine's redraw path can otherwise produce a blank
/// frame — then capture, encode, and issue the close-context and quit
/// commands (both non-blocking).
pub fn poll_waiting_for_onload<E: Engine>(session: &mut Session<E>, cx: BrowsingContextId) -> (step:
    WaitingPoll)
    requires
        old(session).wf(),
        old(session).is_alive(),
    ensures
        final(session).wf(),
        final(session).is_alive(),
        final(session).deinit_count() == old(session).deinit_count(),
        final(session).window_config() == old(session).window_config(),
        final(session).wake_poll_count() == old(session).wake_poll_count() + 1,
        log_extended(old(session).interactions(), final(session).interactions()),
        step is Pending ==> (final(session).interactions() == old(session).interactions().push(
            EngineCall::Wake(WakePoll::Empty),
        ) && final(session).load_observed() == old(session).load_observed()) || (final(session).interactions() == old(session).interactions().push(
            EngineCall::Wake(WakePoll::Signal),
        ).push(EngineCall::Pump(EventBatch::Empty, true)) && !final(session).load_observed()),
        step is Halted ==> final(session).interactions() == old(session).interactions().push(
            EngineCall::Wake(WakePoll::Signal),
        ).push(EngineCall::Pump(EventBatch::Empty, false)) && !final(session).load_observed(),
        step is BridgeClosed ==> final(session).interactions() == old(session).interactions().push(EngineCall::Wake(WakePoll::Closed)) && final(session).load_observed() == old(session).load_observed(),
        step matches WaitingPoll::ToClosing(png) ==> final(session).interactions().len() == old(session).interactions().len() + 7 && (final(session).interactions()[old(session).interactions().len() as int + 4] matches EngineCall::Capture(frame) && frame.len()
            == frame_len(
            old(session).window_config().spec_device_width() as nat,
            old(session).window_config().spec_device_height() as nat,
        ) && png@ == png_encoding(
            flipped(
                frame,
                old(session).window_config().spec_device_width() as nat,
                old(session).window_config().spec_device_height() as nat,
            ),
            old(session).window_config().spec_device_width() as int,
            old(session).window_config().spec_device_height() as int,
        ) && png@.len() > 0 && capture_calls_at(
            final(session).interactions(),
            old(session).interactions().len() as int,
            frame,
        ) && shutdown_calls_at(
            final(session).interactions(),
            old(session).interactions().len() as int + 5,
            cx,
        )) && final(session).load_observed(),
        step is CaptureFailed ==> final(session).interactions().len() == old(session).interactions().len() + 5 && (final(session).interactions()[old(session).interactions().len() as int + 4] matches EngineCall::Capture(frame) && capture_calls_at(
            final(session).interactions(),
            old(session).interactions().len() as int,
            frame,
        ) && !(frame.len() == frame_len(
            old(session).window_config().spec_device_width() as nat,
            old(session).window_config().spec_device_height() as nat,
        ) && old(session).window_config().spec_device_width() > 0 && old(session).window_config().spec_device_height() > 0)) && final(session).load_observed(),
{
    match session.poll_wake() {
        WakePoll::Empty => WaitingPoll::Pending,
        WakePoll::Closed => WaitingPoll::BridgeClosed,
        WakePoll::Signal => {
            let should_continue = session.submit_events(EventBatch::Empty);
            let load_ended = session.has_loaded();
            match waiting_decision(should_continue, load_ended) {
                WaitingDecision::KeepWaiting => WaitingPoll::Pending,
                WaitingDecision::Halt => WaitingPoll::Halted,
                WaitingDecision::CaptureAndClose => {
                    session.submit_events(EventBatch::Empty);
                    session.submit_events(EventBatch::ForceRefresh);
                    let frame = session.capture_framebuffer();
                    let (width, height) = session.device_size();
                    match encode_screenshot(&frame, width, height) {
                        Err(_) => WaitingPoll::CaptureFailed,
                        Ok(png) => {
                            session.submit_events(EventBatch::CloseContext(cx));
                            session.submit_events(EventBatch::Quit);
                            WaitingPoll::ToClosing(png)
                        },
                    }
                },
            }
        },
    }
}

/// One polling quantum of `Closing`.
#[derive(Clone, Copy, Debug, PartialEq, Eq, Structural)]
pub enum ClosingPoll {
    /// No wake signal was pending; suspend and poll again later.
    Pending,
    /// The engine acknowledged shutdown: terminal success.
    Done,
    /// The wake bridge closed under a live session: fatal.
    BridgeClosed,
}

/// Process at most one wake while the engine shuts down: on a wake, pump an
/// empty batch and finish when the engine reports itself stopped.
pub fn poll_closing<E: Engine>(session: &mut Session<E>) -> (step: ClosingPoll)
    requires
        old(session).wf(),
        old(session).is_alive(),
    ensures
        final(session).wf(),
        final(session).is_alive(),
        final(session).deinit_count() == old(session).deinit_count(),
        final(session).window_config() == old(session).window_config(),
        final(session).wake_poll_count() == old(session).wake_poll_count() + 1,
        final(session).load_observed() == old(session).load_observed(),
        log_extended(old(session).interactions(), final(session).interactions()),
        step is Pending ==> final(session).interactions() == old(session).interactions().push(
            EngineCall::Wake(WakePoll::Empty),
        ) || final(session).interactions() == old(session).interactions().push(
            EngineCall::Wake(WakePoll::Signal),
        ).push(EngineCall::Pump(EventBatch::Empty, true)),
        step is Done ==> final(session).interactions() == old(session).interactions().push(
            EngineCall::Wake(WakePoll::Signal),
        ).push(EngineCall::Pump(EventBatch::Empty, false)),
        step is BridgeClosed ==> final(session).interactions() == old(session).interactions().push(EngineCall::Wake(WakePoll::Closed)),
{
    match session.poll_wake() {
        WakePoll::Empty => ClosingPoll::Pending,
        WakePoll::Closed => ClosingPoll::BridgeClosed,
        WakePoll::Signal => {
            let should_continue = session.submit_events(EventBatch::Empty);
            match closing_decision(should_continue) {
                ClosingDecision::Finish => ClosingPoll::Done,
                ClosingDecision::KeepWaiting => ClosingPoll::Pending,
            }
        },
    }
}

/// A capture at or after `from` handed back a frame that contradicts the
/// window's device size — the internal consistency error behind the
/// encoding-failure fatal.
pub open spec fn bad_capture_observed(
    log: Seq<EngineCall>,
    from: int,
    width: u32,
    height: u32,
) -> bool {
    exists|i: int|
        0 <= i && from <= i < log.len() && (#[trigger] log[i] matches EngineCall::Capture(frame)
            && !(frame.len() == frame_len(width as nat, height as nat) && width > 0 && height
            > 0))
}

/// Extending the log preserves an observed bad capture.
proof fn lemma_bad_capture_persists(
    pre: Seq<EngineCall>,
    post: Seq<EngineCall>,
    from: int,
    width: u32,
    height: u32,
)
    requires
        bad_capture_observed(pre, from, width, height),
        log_extended(pre, post),
    ensures
        bad_capture_observed(post, from, width, height),
{
    let i = choose|i: int|
        0 <= i && from <= i < pre.len() && (#[trigger] pre[i] matches EngineCall::Capture(frame)
            && !(frame.len() == frame_len(width as nat, height as nat) && width > 0 && height
            > 0));
    assert(post[i] == pre[i]);
}

/// Extending the log preserves an observed closure.
proof fn lemma_closure_persists(pre: Seq<EngineCall>, post: Seq<EngineCall>, from: int)
    requires
        closure_observed(pre, from),
        log_extended(pre, post),
    ensures
        closure_observed(post, from),
{
    let i = choose|i: int|
        0 <= i && from <= i < pre.len() && #[trigger] pre[i] == EngineCall::Wake(WakePoll::Closed);
    assert(post[i] == pre[i]);
}

/// Extending a closure-free log stretch with closure-free entries keeps it
/// closure-free.
proof fn lemma_no_closure_extended(pre: Seq<EngineCall>, post: Seq<EngineCall>, from: int)
    requires
        0 <= from,
        forall|i: int| from <= i < pre.len() ==> #[trigger] pre[i] != EngineCall::Wake(
            WakePoll::Closed,
        ),
        log_extended(pre, post),
        forall|i: int| pre.len() <= i < post.len() ==> #[trigger] post[i] != EngineCall::Wake(
            WakePoll::Closed,
        ),
    ensures
        forall|i: int| from <= i < post.len() ==> #[trigger] post[i] != EngineCall::Wake(
            WakePoll::Closed,
        ),
{
}

/// Run one session to its terminal outcome: request navigation, select the
/// new context, wait for the load, capture and close, and tear the session
/// down — exactly one engine deinitialization on every path, success,
/// engine-halted, or fatal, recorded as the final entry of the session's
/// interaction log.  `wake_budget` bounds how many times the machine is
/// willing to suspend; a genuine engine answers within a few wakes, and
/// exhaustion is reported as a fatal condition rather than a hang, and only
/// once more wake polls than the budget have really been taken.
pub fn run_session<E: Engine>(session: &mut Session<E>, locator: &Locator, wake_budget: u64) -> (outcome:
    RenderOutcome)
    requires
        old(session).wf(),
        old(session).is_alive(),
    ensures
        final(session).wf(),
        !final(session).is_alive(),
        final(session).deinit_count() == 1,
        final(session).window_config() == old(session).window_config(),
        log_extended(old(session).interactions(), final(session).interactions()),
        final(session).interactions().len() >= old(session).interactions().len() + 3,
        (final(session).interactions()[old(session).interactions().len() as int]
            matches EngineCall::Navigate(text, navigated) && text == locator@ && (final(session).interactions()[old(session).interactions().len() as int + 1] matches EngineCall::Pump(
            selected,
            _,
        ) && selected == EventBatch::SelectContext(navigated))),
        final(session).interactions().last() == EngineCall::Deinitialize,
        outcome matches RenderOutcome::Success(png) ==> (final(session).interactions()[old(session).interactions().len() as int] matches EngineCall::Navigate(_, navigated)
            && capture_and_shutdown(
            final(session).interactions(),
            old(session).interactions().len() as int,
            png@,
            navigated,
            old(session).window_config().spec_device_width(),
            old(session).window_config().spec_device_height(),
        ) && final(session).load_observed()),
        outcome matches RenderOutcome::EngineHalted(text) ==> text@
            == "engine stopped responding before page load completed"@ && !final(session).load_observed() && final(session).interactions()[final(session).interactions().len()
            - 2] == EngineCall::Pump(EventBatch::Empty, false) && final(session).interactions()[final(session).interactions().len() - 3] == EngineCall::Wake(
            WakePoll::Signal,
        ),
        (outcome matches RenderOutcome::Fatal(FatalReason::BridgeClosed)) <==> closure_observed(
            final(session).interactions(),
            old(session).interactions().len() as int,
        ),
        outcome matches RenderOutcome::Fatal(FatalReason::WakeBudgetExhausted) ==> final(session).wake_poll_count() > old(session).wake_poll_count() + wake_budget,
        outcome matches RenderOutcome::Fatal(FatalReason::EncodingFailure) ==> bad_capture_observed(
            final(session).interactions(),
            old(session).interactions().len() as int,
            old(session).window_config().spec_device_width(),
            old(session).window_config().spec_device_height(),
        ),
{
    let ghost log0 = old(session).interactions();
    let ghost n0 = log0.len() as int;
    let ghost wp0 = old(session).wake_poll_count();
    let ghost dw = old(session).window_config().spec_device_width();
    let ghost dh = old(session).window_config().spec_device_height();
    let cx = session.create_browsing_context(locator.as_str());
    session.submit_events(EventBatch::SelectContext(cx));
    let mut remaining: u64 = wake_budget;
    let mut pending_image: Option<Vec<u8>> = None;
    let mut early_outcome: Option<RenderOutcome> = None;
    loop
        invariant_except_break
            pending_image is None,
            early_outcome is None,
            forall|i: int| n0 <= i < session.interactions().len() ==> #[trigger] session.interactions()[i]
                != EngineCall::Wake(WakePoll::Closed),
        invariant
            n0 == log0.len(),
            dw == old(session).window_config().spec_device_width(),
            dh == old(session).window_config().spec_device_height(),
            session.wf(),
            session.is_alive(),
            session.deinit_count() == old(session).deinit_count(),
            session.window_config() == old(session).window_config(),
            session.wake_poll_count() >= wp0 + wake_budget - remaining,
            remaining <= wake_budget,
            log_extended(log0, session.interactions()),
            session.interactions().len() >= n0 + 2,
            session.interactions()[n0] == EngineCall::Navigate(locator@, cx),
            (session.interactions()[n0 + 1] matches EngineCall::Pump(selected, _) && selected
                == EventBatch::SelectContext(cx)),
        ensures
            session.wf(),
            session.is_alive(),
            session.deinit_count() == old(session).deinit_count(),
            session.window_config() == old(session).window_config(),
            session.wake_poll_count() >= wp0,
            log_extended(log0, session.interactions()),
            session.interactions().len() >= n0 + 2,
            session.interactions()[n0] == EngineCall::Navigate(locator@, cx),
            (session.interactions()[n0 + 1] matches EngineCall::Pump(selected, _) && selected
                == EventBatch::SelectContext(cx)),
            pending_image is Some || early_outcome is Some,
            !(pending_image is Some && early_outcome is Some),
            pending_image matches Some(png) ==> capture_and_shutdown(
                session.interactions(),
                n0,
                png@,
                cx,
                dw,
                dh,
            ) && session.load_observed(),
            pending_image is Some ==> forall|i: int|
                n0 <= i < session.interactions().len() ==> #[trigger] session.interactions()[i]
                    != EngineCall::Wake(WakePoll::Closed),
            early_outcome matches Some(o) ==> !(o is Success),
            early_outcome matches Some(o) ==> ((o matches RenderOutcome::Fatal(
                FatalReason::BridgeClosed,
            )) <==> closure_observed(session.interactions(), n0)),
            early_outcome matches Some(o) ==> (o matches RenderOutcome::Fatal(
                FatalReason::WakeBudgetExhausted,
            ) ==> session.wake_poll_count() > wp0 + wake_budget),
            early_outcome matches Some(o) ==> (o matches RenderOutcome::Fatal(
                FatalReason::EncodingFailure,
            ) ==> bad_capture_observed(session.interactions(), n0, dw, dh)),
            early_outcome matches Some(o) ==> (o matches RenderOutcome::EngineHalted(text)
                ==> text@ == "engine stopped responding before page load completed"@
                && !session.load_observed() && session.interactions().last()
                == EngineCall::Pump(EventBatch::Empty, false)
                && session.interactions()[session.interactions().len() - 2]
                == EngineCall::Wake(WakePoll::Signal)),
        decreases remaining,
    {
        let ghost pre_log = session.interactions();
        match poll_waiting_for_onload(session, cx) {
            WaitingPoll::Pending => {
                proof {
                    lemma_no_closure_extended(pre_log, session.interactions(), n0);
                }
                if remaining == 0 {
                    early_outcome = Some(RenderOutcome::Fatal(FatalReason::WakeBudgetExhausted));
                    break;
                }
                remaining = remaining - 1;
            },
            WaitingPoll::ToClosing(png) => {
                proof {
                    lemma_no_closure_extended(pre_log, session.interactions(), n0);
                    assert(capture_and_shutdown(session.interactions(), n0, png@, cx, dw, dh))
                        by {
                        assert(session.interactions()[pre_log.len() as int] == EngineCall::Wake(
                            WakePoll::Signal,
                        ));
                    }
                }
                pending_image = Some(png);
                break;
            },
            WaitingPoll::Halted => {
                proof {
                    lemma_no_closure_extended(pre_log, session.interactions(), n0);
                }
                early_outcome = Some(engine_halted_outcome());
                break;
            },
            WaitingPoll::BridgeClosed => {
                proof {
                    assert(closure_observed(session.interactions(), n0)) by {
                        assert(session.interactions()[pre_log.len() as int] == EngineCall::Wake(
                            WakePoll::Closed,
                        ));
                    }
                }
                early_outcome = Some(RenderOutcome::Fatal(FatalReason::BridgeClosed));
                break;
            },
            WaitingPoll::CaptureFailed => {
                proof {
                    lemma_no_closure_extended(pre_log, session.interactions(), n0);
                    assert(bad_capture_observed(session.interactions(), n0, dw, dh)) by {
                        assert(session.interactions()[pre_log.len() as int + 4]
                            is Capture);
                    }
                }
                early_outcome = Some(RenderOutcome::Fatal(FatalReason::EncodingFailure));
                break;
            },
        }
    }
    let outcome_value: RenderOutcome = match early_outcome {
        Some(o) => o,
        None => {
            let png = pending_image.unwrap();
            // Entering `Closing`: pump once immediately, then once per wake.
            let ghost pre_pump = session.interactions();
            let first_continue = session.submit_events(EventBatch::Empty);
            proof {
                lemma_capture_and_shutdown_persists(
                    pre_pump,
                    session.interactions(),
                    n0,
                    png@,
                    cx,
                    dw,
                    dh,
                );
                lemma_no_closure_extended(pre_pump, session.interactions(), n0);
            }
            let mut closing_fatal: Option<FatalReason> = None;
            if first_continue {
                loop
                    invariant_except_break
                        closing_fatal is None,
                        forall|i: int| n0 <= i < session.interactions().len()
                            ==> #[trigger] session.interactions()[i] != EngineCall::Wake(
                            WakePoll::Closed,
                        ),
                    invariant
                        n0 == log0.len(),
                        dw == old(session).window_config().spec_device_width(),
                        dh == old(session).window_config().spec_device_height(),
                        session.wf(),
                        session.is_alive(),
                        session.deinit_count() == old(session).deinit_count(),
                        session.window_config() == old(session).window_config(),
                        session.wake_poll_count() >= wp0 + wake_budget - remaining,
                        remaining <= wake_budget,
                        log_extended(log0, session.interactions()),
                        session.interactions().len() >= n0 + 2,
                        session.interactions()[n0] == EngineCall::Navigate(locator@, cx),
                        (session.interactions()[n0 + 1] matches EngineCall::Pump(selected, _)
                            && selected == EventBatch::SelectContext(cx)),
                        capture_and_shutdown(session.interactions(), n0, png@, cx, dw, dh),
                        session.load_observed(),
                    ensures
                        session.wf(),
                        session.is_alive(),
                        session.deinit_count() == old(session).deinit_count(),
                        session.window_config() == old(session).window_config(),
                        session.wake_poll_count() >= wp0,
                        log_extended(log0, session.interactions()),
                        session.interactions().len() >= n0 + 2,
                        session.interactions()[n0] == EngineCall::Navigate(locator@, cx),
                        (session.interactions()[n0 + 1] matches EngineCall::Pump(selected, _)
                            && selected == EventBatch::SelectContext(cx)),
                        capture_and_shutdown(session.interactions(), n0, png@, cx, dw, dh),
                        session.load_observed(),
                        closing_fatal matches Some(reason) ==> ((reason
                            == FatalReason::BridgeClosed) <==> closure_observed(
                            session.interactions(),
                            n0,
                        )),
                        closing_fatal matches Some(reason) ==> (reason
                            == FatalReason::BridgeClosed || reason
                            == FatalReason::WakeBudgetExhausted),
                        closing_fatal matches Some(reason) ==> (reason
                            == FatalReason::WakeBudgetExhausted ==> session.wake_poll_count()
                            > wp0 + wake_budget),
                        closing_fatal is None ==> !closure_observed(session.interactions(), n0),
                    decreases remaining,
                {
                    let ghost pre_log = session.interactions();
                    match poll_closing(session) {
                        ClosingPoll::Pending => {
                            proof {
                                lemma_capture_and_shutdown_persists(
                                    pre_log,
                                    session.interactions(),
                                    n0,
                                    png@,
                                    cx,
                                    dw,
                                    dh,
                                );
                                lemma_no_closure_extended(pre_log, session.interactions(), n0);
                            }
                            if remaining == 0 {
                                closing_fatal = Some(FatalReason::WakeBudgetExhausted);
                                break;
                            }
                            remaining = remaining - 1;
                        },
                        ClosingPoll::Done => {
                            proof {
                                lemma_capture_and_shutdown_persists(
                                    pre_log,
                                    session.interactions(),
                                    n0,
                                    png@,
                                    cx,
                                    dw,
                                    dh,
                                );
                                lemma_no_closure_extended(pre_log, session.interactions(), n0);
                            }
                            break;
                        },
                        ClosingPoll::BridgeClosed => {
                            proof {
                                lemma_capture_and_shutdown_persists(
                                    pre_log,
                                    session.interactions(),
                                    n0,
                                    png@,
                                    cx,
                                    dw,
                                    dh,
                                );
                                assert(closure_observed(session.interactions(), n0)) by {
                                    assert(session.interactions()[pre_log.len() as int]
                                        == EngineCall::Wake(WakePoll::Closed));
                                }
                            }
                            closing_fatal = Some(FatalReason::BridgeClosed);
                            break;
                        },
                    }
                }
            }
            match closing_fatal {
                Some(reason) => RenderOutcome::Fatal(reason),
                None => RenderOutcome::Success(png),
            }
        },
    };
    let ghost pre_teardown = session.interactions();
    session.teardown();
    proof {
        if let RenderOutcome::Success(png) = &outcome_value {
            lemma_capture_and_shutdown_persists(
                pre_teardown,
                session.interactions(),
                n0,
                png@,
                cx,
                dw,
                dh,
            );
        }
        if outcome_value matches RenderOutcome::Fatal(FatalReason::BridgeClosed) {
            lemma_closure_persists(pre_teardown, session.interactions(), n0);
        } else {
            lemma_no_closure_extended(pre_teardown, session.interactions(), n0);
        }
        if outcome_value matches RenderOutcome::Fatal(FatalReason::EncodingFailure) {
            lemma_bad_capture_persists(pre_teardown, session.interactions(), n0, dw, dh);
        }
    }
    outcome_value
}

} // verus!
