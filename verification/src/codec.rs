//! The line-protocol codec: newline-delimited, UTF-8, JSON-encoded messages,
//! one message per line. Encoding and decoding of the collaborator's message
//! shapes go through serde_json and niri_ipc behind trusted wrappers; the
//! framing discipline and the reading of decoded values are verified.

use vstd::prelude::*;

verus! {

use vstd::string::StringExecFns;
use crate::engine::WindowEvent;

/// Declares serde_json's error type so wrappers can hand it back; verified
/// code maps it to this library's own error kinds.
#[verifier::external_type_specification]
#[verifier::external_body]
pub struct ExSerdeJsonError(serde_json::Error);

/// Declares niri_ipc's successful-response payload; this library never looks
/// inside it, only at which side of the reply envelope it sits on.
#[verifier::external_type_specification]
#[verifier::external_body]
pub struct ExNiriResponse(niri_ipc::Response);

/// A failure of the protocol layer. A malformed line is fatal to its stream:
/// a corrupted stream offers no reliable resynchronization point.
#[derive(Clone, Copy, Debug, PartialEq, Eq, Structural)]
pub enum ProtocolError {
    /// An event line was not valid JSON for a stream event.
    MalformedEvent,
}

/// The decimal rendering of `n`, most significant digit first.
pub open spec fn decimal(n: u64) -> Seq<char>
    decreases n,
{
    if n < 10 {
        seq![digit_char(n)]
    } else {
        decimal(n / 10).push(digit_char(n % 10))
    }
}

/// The digit character for `d`, meaningful for `d < 10`.
pub open spec fn digit_char(d: u64) -> char {
    if d == 0 {
        '0'
    } else if d == 1 {
        '1'
    } else if d == 2 {
        '2'
    } else if d == 3 {
        '3'
    } else if d == 4 {
        '4'
    } else if d == 5 {
        '5'
    } else if d == 6 {
        '6'
    } else if d == 7 {
        '7'
    } else if d == 8 {
        '8'
    } else {
        '9'
    }
}

/// The JSON text that precedes the window id in a consolidate command.
pub open spec fn consume_command_prefix() -> Seq<char> {
    "{\"Action\":{\"ConsumeOrExpelWindowLeft\":{\"id\":"@
}

/// The JSON text that follows the window id in a consolidate command.
pub open spec fn consume_command_suffix() -> Seq<char> {
    "}}}"@
}

/// Relies on serde_json::to_string with niri_ipc's derived Serialize:
/// `Request::EventStream` is a unit variant and renders as the bare JSON
/// string `"EventStream"`. The call cannot fail: to_string writes to a
/// `Vec` and errors only when a `Serialize` impl does, which the derived
/// impl never does.
#[verifier::external_body]
fn encode_event_stream_request() -> (r: Result<String, serde_json::Error>)
    ensures
        r is Ok,
        r matches Ok(s) ==> s@ == "\"EventStream\""@,
{
    serde_json::to_string(&niri_ipc::Request::EventStream)
}

/// Relies on serde_json::to_string with niri_ipc's derived Serialize:
/// `Request::Action(Action::ConsumeOrExpelWindowLeft { id: Some(id) })`
/// renders as an externally tagged object whose only varying part is the
/// decimal window id. The call cannot fail: to_string writes to a `Vec`
/// and errors only when a `Serialize` impl does, which the derived impl
/// never does.
#[verifier::external_body]
fn encode_consume_request(id: u64) -> (r: Result<String, serde_json::Error>)
    ensures
        r is Ok,
        r matches Ok(s) ==> s@ == consume_command_prefix() + decimal(id)
            + consume_command_suffix(),
{
    let action = niri_ipc::Action::ConsumeOrExpelWindowLeft { id: Some(id) };
    serde_json::to_string(&niri_ipc::Request::Action(action))
}

/// Newline-terminates one protocol message: one message per line.
pub fn frame_line(msg: &str) -> (r: String)
    ensures
        r@ == msg@ + "\n"@,
        r@.len() == msg@.len() + 1,
        r@.last() == '\n',
{
    proof {
        reveal_strlit("\n");
    }
    let mut s = msg.to_owned();
    s.append("\n");
    s
}

/// The one-line subscribe request that activates event-stream delivery,
/// newline-terminated.
pub fn subscribe_line() -> (r: String)
    ensures
        r@ == "\"EventStream\""@ + "\n"@,
{
    match encode_event_stream_request() {
        Ok(s) => frame_line(s.as_str()),
        Err(_) => vstd::pervasive::unreached(),
    }
}

/// The one-line command that consolidates window `id` into the group to its
/// left, newline-terminated.
pub fn consume_command_line(id: u64) -> (r: String)
    ensures
        r@ == consume_command_prefix() + decimal(id) + consume_command_suffix() + "\n"@,
{
    match encode_consume_request(id) {
        Ok(s) => frame_line(s.as_str()),
        Err(_) => vstd::pervasive::unreached(),
    }
}

/// Names the window-event reading of one line: `None` when the line is not
/// valid JSON for a stream event; `Some(None)` when it decodes to an event of
/// another kind; `Some(Some((id, column_position)))` for a window-opened-or-
/// changed event with that payload.
pub uninterp spec fn window_event_of_line(line: Seq<char>) -> Option<
    Option<(u64, Option<(usize, usize)>)>,
>;

/// Relies on serde_json::from_str with niri_ipc's derived Deserialize for
/// `Event`: the result is a function of the line's characters alone. Picks
/// the window id and its scrolling-layout position out of the one variant of
/// interest.
#[verifier::external_body]
fn decode_event_line(line: &str) -> (r: Result<Option<WindowEvent>, serde_json::Error>)
    ensures
        r is Ok <==> window_event_of_line(line@) is Some,
        r matches Ok(Some(ev)) ==> window_event_of_line(line@) == Some(
            Some((ev.id, ev.column_position)),
        ),
        r matches Ok(None) ==> window_event_of_line(line@) == Some(
            None::<(u64, Option<(usize, usize)>)>,
        ),
{
    match serde_json::from_str::<niri_ipc::Event>(line) {
        Ok(niri_ipc::Event::WindowOpenedOrChanged { window }) => Ok(Some(WindowEvent {
            id: window.id,
            column_position: window.layout.pos_in_scrolling_layout,
        })),
        Ok(_) => Ok(None),
        Err(e) => Err(e),
    }
}

/// Decodes one event line. `Ok(Some(..))` carries the window event the engine
/// consumes, `Ok(None)` an event of another kind (explicitly ignored), and
/// `Err` a malformed line, which is fatal.
pub fn decode_window_event(line: &str) -> (r: Result<Option<WindowEvent>, ProtocolError>)
    ensures
        r is Ok <==> window_event_of_line(line@) is Some,
        r matches Ok(Some(ev)) ==> window_event_of_line(line@) == Some(
            Some((ev.id, ev.column_position)),
        ),
        r matches Ok(None) ==> window_event_of_line(line@) == Some(
            None::<(u64, Option<(usize, usize)>)>,
        ),
        r matches Err(e) ==> e == ProtocolError::MalformedEvent,
{
    match decode_event_line(line) {
        Ok(ev) => Ok(ev),
        Err(_) => Err(ProtocolError::MalformedEvent),
    }
}

/// Names the reply reading of one line: `None` when the line is not a valid
/// reply envelope; `Some(None)` for the success envelope; `Some(Some(msg))`
/// for the failure envelope carrying message `msg`.
pub uninterp spec fn reply_of_line(line: Seq<char>) -> Option<Option<Seq<char>>>;

/// Relies on serde_json::from_str with niri_ipc's `Reply`
/// (`Result<Response, String>`): the result is a function of the line's
/// characters alone.
#[verifier::external_body]
fn decode_reply_line(line: &str) -> (r: Result<
    Result<niri_ipc::Response, String>,
    serde_json::Error,
>)
    ensures
        r is Ok <==> reply_of_line(line@) is Some,
        r matches Ok(Ok(_)) ==> reply_of_line(line@) == Some(None::<Seq<char>>),
        r matches Ok(Err(m)) ==> reply_of_line(line@) == Some(Some(m@)),
{
    serde_json::from_str::<niri_ipc::Reply>(line)
}

/// The success/failure classification carried by one reply envelope.
#[derive(Debug)]
pub enum ReplyOutcome {
    /// The success envelope: the request was handled.
    Success,
    /// The failure envelope, with the collaborator's message.
    Failure(String),
    /// Not a valid reply envelope.
    Malformed,
}

impl ReplyOutcome {
    /// The classification this outcome stands for, in the shape of
    /// `reply_of_line`.
    pub open spec fn classification(self) -> Option<Option<Seq<char>>> {
        match self {
            ReplyOutcome::Success => Some(None),
            ReplyOutcome::Failure(m) => Some(Some(m@)),
            ReplyOutcome::Malformed => None,
        }
    }
}

/// Decodes one reply line and recovers, without loss, the success/failure
/// classification its envelope carries.
pub fn classify_reply_line(line: &str) -> (out: ReplyOutcome)
    ensures
        out.classification() == reply_of_line(line@),
{
    match decode_reply_line(line) {
        Ok(Ok(_)) => ReplyOutcome::Success,
        Ok(Err(m)) => ReplyOutcome::Failure(m),
        Err(_) => ReplyOutcome::Malformed,
    }
}

/// A fatal startup failure of the subscription handshake.
#[derive(Debug)]
pub enum HandshakeError {
    /// The reply line was not a valid reply envelope.
    MalformedReply,
    /// The collaborator refused the subscription, with its message.
    Refused(String),
}

/// Validates the handshake reply line: event consumption may begin if and
/// only if the line is the success envelope.
pub fn check_handshake_reply(line: &str) -> (r: Result<(), HandshakeError>)
    ensures
        r is Ok <==> reply_of_line(line@) == Some(None::<Seq<char>>),
        r matches Err(HandshakeError::Refused(m)) ==> reply_of_line(line@) == Some(Some(m@)),
        r matches Err(e) ==> (e is MalformedReply <==> reply_of_line(line@) is None),
{
    match classify_reply_line(line) {
        ReplyOutcome::Success => Ok(()),
        ReplyOutcome::Failure(m) => Err(HandshakeError::Refused(m)),
        ReplyOutcome::Malformed => Err(HandshakeError::MalformedReply),
    }
}

/// A failure of one consolidation dispatch; recoverable, never escalated.
#[derive(Debug)]
pub enum DispatchError {
    /// The reply line was not a valid reply envelope.
    MalformedReply,
    /// The collaborator refused the command, with its message.
    Refused(String),
}

/// Interprets the reply line of one consolidation dispatch: the command
/// succeeded if and only if the line is the success envelope.
pub fn check_dispatch_reply(line: &str) -> (r: Result<(), DispatchError>)
    ensures
        r is Ok <==> reply_of_line(line@) == Some(None::<Seq<char>>),
        r matches Err(DispatchError::Refused(m)) ==> reply_of_line(line@) == Some(Some(m@)),
        r matches Err(e) ==> (e is MalformedReply <==> reply_of_line(line@) is None),
{
    match classify_reply_line(line) {
        ReplyOutcome::Success => Ok(()),
        ReplyOutcome::Failure(m) => Err(DispatchError::Refused(m)),
        ReplyOutcome::Malformed => Err(DispatchError::MalformedReply),
    }
}

} // verus!
