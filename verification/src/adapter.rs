//! HTTP Service Adapter: one request maps to exactly one session and one
//! render run.  The request path, stripped of its leading separator, is the
//! whole target locator; a locator that fails to parse is answered with a
//! diagnostic and no session is ever allocated for it; a fatal outcome is
//! deliberately given no response body — it is a process-level condition to
//! escalate, not to serve.

use vstd::prelude::*;
use vstd::string::StrSliceExecFns;
use crate::engine::{Engine, EventBatch};
use crate::locator::{parsed_locator, Locator};
use crate::machine::{
    bad_capture_observed, capture_and_shutdown, closure_observed, run_session, RenderOutcome,
};
use crate::session::{EngineCall, Session, WindowConfig};

verus! {

/// The content type a response declares.
#[derive(Clone, Copy, Debug, PartialEq, Eq, Structural)]
pub enum MediaType {
    /// `image/png`
    ImagePng,
    /// `text/plain`
    TextPlain,
}

/// A response body: encoded image bytes, or diagnostic text.
#[derive(Debug)]
pub enum ResponseBody {
    Bytes(Vec<u8>),
    Text(String),
}

/// The adapter's view of an HTTP response: status, content type, the exact
/// byte length to declare (where one is owed), and the body.
#[derive(Debug)]
pub struct HttpResponse {
    pub status: u16,
    pub media_type: MediaType,
    pub content_length: Option<u64>,
    pub body: ResponseBody,
}

/// The request path without its leading separator: the target locator text.
pub open spec fn stripped(path: Seq<char>) -> Seq<char> {
    if path.len() > 0 && path[0] == '/' {
        path.subrange(1, path.len() as int)
    } else {
        path
    }
}

/// Strip the leading path separator, if any.
pub fn strip_leading_separator(path: &str) -> (rest: &str)
    ensures
        rest@ == stripped(path@),
{
    let n = path.unicode_len();
    if n > 0 && path.get_char(0) == '/' {
        path.substring_char(1, n)
    } else {
        path
    }
}

/// Whether a byte is an ASCII hexadecimal digit.
pub open spec fn is_hex_digit(b: u8) -> bool {
    (48 <= b <= 57) || (65 <= b <= 70) || (97 <= b <= 102)
}

/// The numeric value of an ASCII hexadecimal digit.
pub open spec fn hex_value(b: u8) -> u8 {
    if 48 <= b <= 57 {
        (b - 48) as u8
    } else if 65 <= b <= 70 {
        (b - 55) as u8
    } else {
        (b - 87) as u8
    }
}

/// The URL-decoding of a byte string: each `%` followed by two hexadecimal
/// digits becomes the byte they spell; everything else, a malformed escape
/// included, passes through unchanged.
pub open spec fn percent_decoded(s: Seq<u8>) -> Seq<u8>
    decreases s.len(),
{
    if s.len() == 0 {
        Seq::empty()
    } else if s[0] == 37 && s.len() >= 3 && is_hex_digit(s[1]) && is_hex_digit(s[2]) {
        seq![(hex_value(s[1]) * 16 + hex_value(s[2])) as u8] + percent_decoded(s.skip(3))
    } else {
        seq![s[0]] + percent_decoded(s.skip(1))
    }
}

/// The value of a hexadecimal digit byte, or `None` for any other byte.
fn hex_digit_value(b: u8) -> (v: Option<u8>)
    ensures
        v is Some <==> is_hex_digit(b),
        v matches Some(value) ==> value == hex_value(b),
{
    if 48 <= b && b <= 57 {
        Some(b - 48)
    } else if 65 <= b && b <= 70 {
        Some(b - 55)
    } else if 97 <= b && b <= 102 {
        Some(b - 87)
    } else {
        None
    }
}

/// URL-decode a request path's bytes before the path is interpreted: each
/// percent escape becomes its byte, malformed escapes pass through.
pub fn percent_decode(input: &Vec<u8>) -> (out: Vec<u8>)
    ensures
        out@ == percent_decoded(input@),
{
    let len: usize = input.len();
    let mut out: Vec<u8> = Vec::new();
    let mut i: usize = 0;
    proof {
        assert(input@.skip(0) =~= input@);
        assert(Seq::<u8>::empty() + percent_decoded(input@) =~= percent_decoded(input@));
    }
    while i < len
        invariant
            len == input@.len(),
            i <= len,
            percent_decoded(input@) == out@ + percent_decoded(input@.skip(i as int)),
        decreases len - i,
    {
        let ghost pre = input@.skip(i as int);
        let ghost out_before = out@;
        let b = input[i];
        let mut step: usize = 1;
        let mut decoded: u8 = b;
        if b == 37 && len - i >= 3 {
            let high = hex_digit_value(input[i + 1]);
            let low = hex_digit_value(input[i + 2]);
            match (high, low) {
                (Some(h), Some(l)) => {
                    decoded = h * 16 + l;
                    step = 3;
                },
                _ => {},
            }
        }
        out.push(decoded);
        proof {
            assert(pre[0] == input@[i as int]);
            if step == 3 {
                assert(pre[1] == input@[i as int + 1] && pre[2] == input@[i as int + 2]);
                assert(percent_decoded(pre) == seq![
                    (hex_value(pre[1]) * 16 + hex_value(pre[2])) as u8,
                ] + percent_decoded(pre.skip(3)));
                assert(pre.skip(3) =~= input@.skip(i as int + 3));
                assert(out_before + (seq![decoded] + percent_decoded(pre.skip(3))) =~= out@
                    + percent_decoded(pre.skip(3)));
            } else {
                assert(!(pre[0] == 37 && pre.len() >= 3 && is_hex_digit(pre[1]) && is_hex_digit(
                    pre[2],
                )));
                assert(percent_decoded(pre) == seq![pre[0]] + percent_decoded(pre.skip(1)));
                assert(pre.skip(1) =~= input@.skip(i as int + 1));
                assert(out_before + (seq![decoded] + percent_decoded(pre.skip(1))) =~= out@
                    + percent_decoded(pre.skip(1)));
            }
        }
        i = i + step;
    }
    proof {
        assert(input@.skip(len as int) =~= Seq::<u8>::empty());
        assert(out@ + Seq::<u8>::empty() =~= out@);
    }
    out
}

/// Admit or reject a request by its path alone.  Succeeds exactly when the
/// stripped path parses as a locator; a rejection is the complete `400`
/// response, with the parser's diagnostic as its text body, and allocates
/// nothing.
pub fn admit_request(path: &str) -> (admitted: Result<Locator, HttpResponse>)
    ensures
        admitted is Ok <==> parsed_locator(stripped(path@)) is Some,
        admitted matches Ok(locator) ==> locator@ == parsed_locator(stripped(path@)).unwrap(),
        admitted matches Err(resp) ==> resp.status == 400 && resp.media_type
            == MediaType::TextPlain && resp.content_length is None && resp.body is Text,
{
    let target = strip_leading_separator(path);
    match Locator::parse(target) {
        Ok(locator) => Ok(locator),
        Err(diagnostic) => Err(
            HttpResponse {
                status: 400,
                media_type: MediaType::TextPlain,
                content_length: None,
                body: ResponseBody::Text(diagnostic),
            },
        ),
    }
}

/// Map a terminal render outcome to its HTTP response: success is `200`
/// with the image bytes and their exact length; an engine halt is `500`
/// with the diagnostic text; a fatal outcome gets no synthesized response
/// at all.
pub fn outcome_to_response(outcome: RenderOutcome) -> (response: Option<HttpResponse>)
    ensures
        outcome matches RenderOutcome::Success(png) ==> (response matches Some(resp)
            && resp.status == 200 && resp.media_type == MediaType::ImagePng && (
        resp.body matches ResponseBody::Bytes(bytes) && bytes@ == png@) && resp.content_length
            == Some(png@.len() as u64)),
        outcome matches RenderOutcome::EngineHalted(text) ==> (response matches Some(resp)
            && resp.status == 500 && resp.media_type == MediaType::TextPlain && (
        resp.body matches ResponseBody::Text(body_text) && body_text@ == text@)
            && resp.content_length is None),
        outcome is Fatal ==> response is None,
{
    match outcome {
        RenderOutcome::Success(png) => {
            let length = png.len() as u64;
            Some(
                HttpResponse {
                    status: 200,
                    media_type: MediaType::ImagePng,
                    content_length: Some(length),
                    body: ResponseBody::Bytes(png),
                },
            )
        },
        RenderOutcome::EngineHalted(text) => Some(
            HttpResponse {
                status: 500,
                media_type: MediaType::TextPlain,
                content_length: None,
                body: ResponseBody::Text(text),
            },
        ),
        RenderOutcome::Fatal(_) => None,
    }
}

/// What became of the engine a request was served with.
pub enum ServedSession<E: Engine> {
    /// The request was rejected before any session existed: the engine was
    /// never touched and is handed back as it came.
    NotAdmitted(E),
    /// The one session this request ran, already torn down; its interaction
    /// log is the complete record of what was handed to the engine.
    Completed(Session<E>),
}

impl<E: Engine> ServedSession<E> {
    /// Recover the engine instance.
    pub fn into_engine(self) -> E
        requires
            self matches ServedSession::Completed(session) ==> !session.is_alive(),
    {
        match self {
            ServedSession::NotAdmitted(engine) => engine,
            ServedSession::Completed(session) => session.into_engine(),
        }
    }
}

/// Serve one request end to end: admit the path, and only for an admitted
/// locator allocate the one session, run the render state machine to its
/// terminal outcome, tear the session down, and map the outcome.  The
/// session comes back with the response: its interaction log pins what was
/// really handed to the engine — the navigation for exactly this locator
/// first, then the selection of the returned context, the one
/// deinitialization last, and for a `200` the full capture protocol whose
/// frame the body encodes.  A `None` response is the fatal case, to be
/// escalated rather than answered, and arises only on recorded evidence:
/// an observed bridge closure, an exhausted wake budget, or a capture that
/// contradicted the window's dimensions.
pub fn serve_request<E: Engine>(
    path: &str,
    engine: E,
    window: WindowConfig,
    wake_budget: u64,
) -> (served: (Option<HttpResponse>, ServedSession<E>))
    ensures
        parsed_locator(stripped(path@)) is None ==> (served.0 matches Some(resp) && resp.status
            == 400 && resp.media_type == MediaType::TextPlain) && served.1 is NotAdmitted,
        served.0 matches Some(resp) ==> (resp.status == 400 ==> parsed_locator(stripped(path@))
            is None),
        parsed_locator(stripped(path@)) is Some ==> (served.1 matches ServedSession::Completed(
            session,
        ) && session.wf() && !session.is_alive() && session.deinit_count() == 1
            && session.window_config() == window && session.interactions().len() >= 3 && (
        session.interactions()[0] matches EngineCall::Navigate(text, navigated) && text
            == parsed_locator(stripped(path@)).unwrap() && (session.interactions()[1]
            matches EngineCall::Pump(selected, _) && selected == EventBatch::SelectContext(
            navigated,
        ))) && session.interactions().last() == EngineCall::Deinitialize),
        served.0 matches Some(resp) ==> (resp.status == 200 ==> resp.media_type
            == MediaType::ImagePng && (resp.body matches ResponseBody::Bytes(bytes) && (
        served.1 matches ServedSession::Completed(session) && (session.interactions()[0]
            matches EngineCall::Navigate(_, navigated) && capture_and_shutdown(
            session.interactions(),
            0,
            bytes@,
            navigated,
            window.spec_device_width(),
            window.spec_device_height(),
        ))) && resp.content_length == Some(bytes@.len() as u64))),
        served.0 matches Some(resp) ==> (resp.status == 500 ==> resp.media_type
            == MediaType::TextPlain && (resp.body matches ResponseBody::Text(text) && text@
            == "engine stopped responding before page load completed"@) && (served.1
            matches ServedSession::Completed(session) && !session.load_observed()
            && session.interactions()[session.interactions().len() - 2] == EngineCall::Pump(
            EventBatch::Empty,
            false,
        ) && session.interactions()[session.interactions().len() - 3] == EngineCall::Wake(
            crate::bridge::WakePoll::Signal,
        ))),
        served.0 is None ==> (served.1 matches ServedSession::Completed(session) && (
        closure_observed(session.interactions(), 0) || session.wake_poll_count() > wake_budget
            || bad_capture_observed(
            session.interactions(),
            0,
            window.spec_device_width(),
            window.spec_device_height(),
        ))),
{
    match admit_request(path) {
        Err(resp) => (Some(resp), ServedSession::NotAdmitted(engine)),
        Ok(locator) => {
            let mut session = Session::new(engine, window);
            let outcome = run_session(&mut session, &locator, wake_budget);
            let response = outcome_to_response(outcome);
            (response, ServedSession::Completed(session))
        },
    }
}

} // verus!
