//! The routing decisions of one session: which transport an envelope from
//! the host goes to, what line a message from the kernel becomes, and when
//! routing ends.
use vstd::prelude::*;

use runtimelib::{Channel, JupyterMessage, JupyterMessageContent};

use crate::error::{by_kind, ErrorKind, JupyterApiError};
use crate::protocol::{
    content_reads, decode_content, decode_message, decoded_envelope, encode_message,
    json_channel, line_content, read_typed_content,
};

verus! {

/// Where an outbound envelope tagged `channel` is sent: Shell, Stdin and
/// Control are send targets; IOPub and Heartbeat are not.
pub open spec fn send_target_spec(channel: Option<Channel>) -> Result<Channel, ErrorKind> {
    match channel {
        None => Err(ErrorKind::MissingChannel),
        Some(Channel::Shell) => Ok(Channel::Shell),
        Some(Channel::Stdin) => Ok(Channel::Stdin),
        Some(Channel::Control) => Ok(Channel::Control),
        Some(Channel::IOPub) => Err(ErrorKind::InvalidTargetChannel),
        Some(Channel::Heartbeat) => Err(ErrorKind::InvalidTargetChannel),
    }
}

/// Where one line from the host goes: the target transport, or the class of
/// the failure. The line must be a JSON object with a `content` key, decode
/// as a message, have content that reads under its type, and name a send
/// target, in that order.
pub open spec fn outbound_spec(line: Seq<char>) -> Result<Channel, ErrorKind> {
    match line_content(line) {
        None => Err(ErrorKind::Serialization),
        Some(None) => Err(ErrorKind::MissingContent),
        Some(Some(content)) => match decoded_envelope(line) {
            None => Err(ErrorKind::Serialization),
            Some((header, channel)) => if content_reads(header, content) {
                send_target_spec(channel)
            } else {
                Err(ErrorKind::Serialization)
            },
        },
    }
}

/// A routed result with the message left out and the error replaced by its
/// class.
pub open spec fn target_of(r: Result<(Channel, JupyterMessage), JupyterApiError>) -> Result<
    Channel,
    ErrorKind,
> {
    match r {
        Ok((target, _)) => Ok(target),
        Err(e) => Err(e.kind_spec()),
    }
}

/// What a decoded message becomes once its content has been read under its
/// type: the target transport and the message holding that content, or the
/// class of the failure.
pub open spec fn assembled(
    message: JupyterMessage,
    typed: Result<JupyterMessageContent, serde_json::Error>,
) -> Result<(Channel, JupyterMessage), ErrorKind> {
    match typed {
        Err(_) => Err(ErrorKind::Serialization),
        Ok(content) => match send_target_spec(message.channel) {
            Err(k) => Err(k),
            Ok(target) => Ok((target, JupyterMessage { content, ..message })),
        },
    }
}

/// A message with its channel tag set to `origin`.
pub open spec fn stamped(m: JupyterMessage, origin: Channel) -> JupyterMessage {
    JupyterMessage { channel: Some(origin), ..m }
}

/// The line for the host made from the encoder's result: the text and one
/// newline, or the class of the failure.
pub open spec fn framed(encoded: Result<String, serde_json::Error>) -> Result<Seq<char>, ErrorKind> {
    match encoded {
        Ok(text) => Ok(text@.push('\n')),
        Err(_) => Err(ErrorKind::Serialization),
    }
}

/// A line holding exactly one newline, at its end.
pub open spec fn is_single_line(l: Seq<char>) -> bool {
    l.len() > 0 && l.last() == '\n' && !l.drop_last().contains('\n')
}

/// Decides where an outbound envelope's channel tag sends it.
pub fn send_target(channel: &Option<Channel>) -> (r: Result<Channel, JupyterApiError>)
    ensures
        by_kind(r) == send_target_spec(*channel),
{
    match channel {
        None => Err(JupyterApiError::SendNoChannelError),
        Some(Channel::Shell) => Ok(Channel::Shell),
        Some(Channel::Stdin) => Ok(Channel::Stdin),
        Some(Channel::Control) => Ok(Channel::Control),
        Some(Channel::IOPub) => Err(JupyterApiError::SendSubChannelError),
        Some(Channel::Heartbeat) => Err(JupyterApiError::SendSubChannelError),
    }
}

/// Puts the content read under the message's type into the message and
/// picks the transport it goes to.
pub fn assemble_outbound(
    message: JupyterMessage,
    typed: Result<JupyterMessageContent, serde_json::Error>,
) -> (r: Result<(Channel, JupyterMessage), JupyterApiError>)
    ensures
        match r {
            Ok(p) => assembled(message, typed) == Ok::<(Channel, JupyterMessage), ErrorKind>(p),
            Err(e) => assembled(message, typed) == Err::<(Channel, JupyterMessage), ErrorKind>(
                e.kind_spec(),
            ),
        },
{
    let mut message = message;
    match typed {
        Ok(content) => {
            message.content = content;
            match send_target(&message.channel) {
                Ok(target) => Ok((target, message)),
                Err(e) => Err(e),
            }
        },
        Err(e) => Err(JupyterApiError::SerdeJsonError(e)),
    }
}

/// Reads one line from the host as an outbound envelope and picks the
/// transport it goes to. The message sent keeps the header and channel tag
/// the line decodes to, and holds the content read under its type.
pub fn route_outbound(line: &str) -> (r: Result<(Channel, JupyterMessage), JupyterApiError>)
    ensures
        target_of(r) == outbound_spec(line@),
        r matches Ok((target, m)) ==> m.channel == Some(target) && decoded_envelope(line@) == Some(
            (m.header, m.channel),
        ),
{
    let content = match decode_content(line) {
        Ok(Some(c)) => c,
        Ok(None) => return Err(JupyterApiError::ReceiveNoContentError),
        Err(e) => return Err(JupyterApiError::SerdeJsonError(e)),
    };
    let message = match decode_message(line) {
        Ok(m) => m,
        Err(e) => return Err(JupyterApiError::SerdeJsonError(e)),
    };
    let typed = read_typed_content(&message.header, content);
    assemble_outbound(message, typed)
}

/// Tags a message received on `origin` with that channel, replacing any tag
/// it carried.
pub fn stamp(message: JupyterMessage, origin: Channel) -> (r: JupyterMessage)
    ensures
        r == stamped(message, origin),
{
    let mut message = message;
    message.channel = Some(origin);
    message
}

/// Frames the encoder's result as a line for the host.
pub fn frame_line(encoded: Result<String, serde_json::Error>) -> (r: Result<String, JupyterApiError>)
    ensures
        match r {
            Ok(l) => framed(encoded) == Ok::<Seq<char>, ErrorKind>(l@),
            Err(e) => framed(encoded) == Err::<Seq<char>, ErrorKind>(e.kind_spec()),
        },
        encoded matches Ok(t) && !t@.contains('\n') ==> (r matches Ok(l) && is_single_line(l@)),
{
    match encoded {
        Ok(text) => {
            let ghost t = text@;
            let line = text.concat("\n");
            proof {
                reveal_strlit("\n");
                assert(line@ =~= t.push('\n'));
                assert(line@.drop_last() =~= t);
            }
            Ok(line)
        },
        Err(e) => Err(JupyterApiError::SerdeJsonError(e)),
    }
}

/// Tags a message received on `origin` with that channel and frames its JSON
/// as one line for the host.
pub fn inbound_line(message: JupyterMessage, origin: Channel) -> (r: Result<String, JupyterApiError>)
    ensures
        r matches Ok(l) ==> is_single_line(l@) && json_channel(l@.drop_last()) == Some(Some(origin)),
        r matches Err(e) ==> e.kind_spec() == ErrorKind::Serialization,
{
    let message = stamp(message, origin);
    let encoded = encode_message(&message);
    let ghost sent = encoded;
    let r = frame_line(encoded);
    assert(r matches Ok(l) ==> (sent matches Ok(t) && l@.drop_last() =~= t@));
    r
}

/// Something that became ready while the router waited.
pub enum RouterEvent {
    /// A line read from the host's pipe.
    HostLine(String),
    /// Reading from the host's pipe failed.
    HostReadFailed(std::io::Error),
    /// A receive on the transport of channel `origin` completed.
    Received(Channel, Result<JupyterMessage, runtimelib::RuntimeError>),
}

/// What the router does about one event.
pub enum RouterAction {
    /// Send the message on the transport of this channel.
    Send(Channel, JupyterMessage),
    /// Write this line to the host's pipe and flush it.
    Emit(String),
    /// Stop routing, for this reason.
    Stop(JupyterApiError),
    /// Nothing: routing has already stopped.
    Halted,
}

/// The action that a running router takes on an event.
pub open spec fn handles(action: RouterAction, event: RouterEvent) -> bool {
    match event {
        RouterEvent::HostLine(l) => match outbound_spec(l@) {
            Ok(target) => action matches RouterAction::Send(t, m) && t == target && m.channel == Some(
                target,
            ) && decoded_envelope(l@) == Some((m.header, m.channel)),
            Err(k) => action matches RouterAction::Stop(e) && e.kind_spec() == k,
        },
        RouterEvent::HostReadFailed(e) => action == RouterAction::Stop(JupyterApiError::IOError(e)),
        RouterEvent::Received(origin, Ok(_)) => match action {
            RouterAction::Emit(l) => is_single_line(l@) && json_channel(l@.drop_last()) == Some(
                Some(origin),
            ),
            RouterAction::Stop(e) => e.kind_spec() == ErrorKind::Serialization,
            _ => false,
        },
        RouterEvent::Received(_, Err(e)) => action == RouterAction::Stop(
            JupyterApiError::RuntimelibError(e),
        ),
    }
}

/// Decides what to do about one event.
pub fn route_event(event: RouterEvent) -> (r: RouterAction)
    ensures
        handles(r, event),
{
    match event {
        RouterEvent::HostLine(line) => match route_outbound(line.as_str()) {
            Ok((target, message)) => RouterAction::Send(target, message),
            Err(e) => RouterAction::Stop(e),
        },
        RouterEvent::HostReadFailed(e) => RouterAction::Stop(JupyterApiError::IOError(e)),
        RouterEvent::Received(origin, Ok(message)) => match inbound_line(message, origin) {
            Ok(line) => RouterAction::Emit(line),
            Err(e) => RouterAction::Stop(e),
        },
        RouterEvent::Received(_, Err(e)) => RouterAction::Stop(JupyterApiError::RuntimelibError(e)),
    }
}

/// The multiplexing loop's state for one session: running until the first
/// failure, then terminated for good.
pub struct Router {
    live: bool,
}

impl Router {
    pub closed spec fn is_live(&self) -> bool {
        self.live
    }

    /// A router that has not stopped.
    pub fn new() -> (r: Router)
        ensures
            r.is_live(),
    {
        Router { live: true }
    }

    /// Whether the router still routes.
    pub fn is_running(&self) -> (r: bool)
        ensures
            r == self.is_live(),
    {
        self.live
    }

    /// Handles one event: a running router acts on it and terminates on a
    /// failure; a terminated one does nothing.
    pub fn step(&mut self, event: RouterEvent) -> (r: RouterAction)
        ensures
            old(self).is_live() ==> handles(r, event),
            !old(self).is_live() ==> r is Halted,
            final(self).is_live() == (old(self).is_live() && !(r is Stop)),
    {
        if !self.live {
            return RouterAction::Halted;
        }
        let action = route_event(event);
        if let RouterAction::Stop(_) = action {
            self.live = false;
        }
        action
    }
}

} // verus!
