//! What holds of routing for every input, proved from the contracts of
//! `router`.
use vstd::prelude::*;

use runtimelib::{Channel, Header, JupyterMessage};

use crate::error::ErrorKind;
use crate::protocol::{content_reads, decoded_envelope, json_channel, line_content};
use crate::router::{handles, is_single_line, stamped, RouterAction, RouterEvent};

verus! {

/// An envelope that decodes, whose content reads under its message type and
/// whose channel is Shell, Stdin or Control, leads to exactly one send: on
/// that channel's transport, of a message with the header and tag the line
/// decodes to.
pub proof fn lemma_sendable_envelope_is_sent(
    line: String,
    content: serde_json::Value,
    header: Header,
    target: Channel,
)
    requires
        line_content(line@) == Some(Some(content)),
        decoded_envelope(line@) == Some((header, Some(target))),
        content_reads(header, content),
        target is Shell || target is Stdin || target is Control,
    ensures
        forall|a: RouterAction|
            #![auto]
            handles(a, RouterEvent::HostLine(line)) ==> (a matches RouterAction::Send(t, m) && t
                == target && m.header == header && m.channel == Some(target)),
{
}

/// An envelope that decodes and whose content reads under its type, but that
/// has no channel tag or is tagged IOPub or Heartbeat, stops routing with
/// the matching error and is sent nowhere.
pub proof fn lemma_unsendable_envelope_stops(
    line: String,
    content: serde_json::Value,
    header: Header,
    channel: Option<Channel>,
)
    requires
        line_content(line@) == Some(Some(content)),
        decoded_envelope(line@) == Some((header, channel)),
        content_reads(header, content),
        channel matches None || (channel matches Some(c) && (c is IOPub || c is Heartbeat)),
    ensures
        forall|a: RouterAction|
            #![auto]
            handles(a, RouterEvent::HostLine(line)) ==> (a matches RouterAction::Stop(e) && e.kind_spec()
                == (if channel is None {
                ErrorKind::MissingChannel
            } else {
                ErrorKind::InvalidTargetChannel
            })),
{
}

/// A JSON object without a `content` key stops routing with the
/// missing-content error.
pub proof fn lemma_missing_content_stops(line: String)
    requires
        line_content(line@) == Some(None::<serde_json::Value>),
    ensures
        forall|a: RouterAction|
            #![auto]
            handles(a, RouterEvent::HostLine(line)) ==> (a matches RouterAction::Stop(e) && e.kind_spec()
                == ErrorKind::MissingContent),
{
}

/// A message received on any channel leads to exactly one line for the
/// host, whose JSON carries that channel as its tag, or, where the message
/// cannot be encoded, to a serialization stop; never to a send. The message
/// encoded is the received one with only its tag changed.
pub proof fn lemma_received_message_is_tagged_line(origin: Channel, m: JupyterMessage)
    ensures
        stamped(m, origin).channel == Some(origin),
        stamped(m, origin).header == m.header,
        stamped(m, origin).content == m.content,
        stamped(m, origin).metadata == m.metadata,
        stamped(m, origin).parent_header == m.parent_header,
        forall|a: RouterAction|
            #![auto]
            handles(a, RouterEvent::Received(origin, Ok(m))) ==> (a matches RouterAction::Emit(l)
                && is_single_line(l@) && json_channel(l@.drop_last()) == Some(Some(origin))) || (
            a matches RouterAction::Stop(e) && e.kind_spec() == ErrorKind::Serialization),
{
}

/// A message that routing sends to Shell, handed back unchanged by the shell
/// transport, is encoded for the host with nothing changed: stamping it
/// Shell leaves it as it was sent, and the line emitted carries the Shell
/// tag and the header the host's line decoded to.
pub proof fn lemma_shell_round_trip(line: String, sent: JupyterMessage, back: RouterAction)
    requires
        handles(RouterAction::Send(Channel::Shell, sent), RouterEvent::HostLine(line)),
        handles(back, RouterEvent::Received(Channel::Shell, Ok(sent))),
    ensures
        stamped(sent, Channel::Shell) == sent,
        decoded_envelope(line@) == Some((sent.header, Some(Channel::Shell))),
        back matches RouterAction::Emit(l) ==> json_channel(l@.drop_last()) == Some(
            Some(Channel::Shell),
        ),
{
}

/// Whether no action before position `i` stopped routing.
pub open spec fn live_before(actions: Seq<RouterAction>, i: int) -> bool {
    forall|j: int| 0 <= j < i ==> !(#[trigger] actions[j] is Stop)
}

/// Actions that a router, running at first, could have taken on the events,
/// one by one.
pub open spec fn is_trace(events: Seq<RouterEvent>, actions: Seq<RouterAction>) -> bool {
    &&& events.len() == actions.len()
    &&& forall|i: int|
        0 <= i < events.len() ==> (live_before(actions, i) ==> handles(
            #[trigger] actions[i],
            events[i],
        )) && (!live_before(actions, i) ==> actions[i] is Halted)
}

/// A failed receive on any transport ends routing: every event after it is
/// left unhandled.
pub proof fn lemma_failed_receive_ends_routing(
    events: Seq<RouterEvent>,
    actions: Seq<RouterAction>,
    i: int,
    j: int,
)
    requires
        is_trace(events, actions),
        0 <= i < j < events.len(),
        events[i] matches RouterEvent::Received(_, Err(_)),
    ensures
        actions[j] is Halted,
{
    if live_before(actions, i) {
        assert(actions[i] is Stop);
    } else {
        let k = choose|k: int| 0 <= k < i && #[trigger] actions[k] is Stop;
        assert(actions[k] is Stop);
    }
    assert(!live_before(actions, j));
}

} // verus!
