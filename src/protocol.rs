//! The kernel-protocol values that the router reads and writes, as Verus
//! sees them, and the decoding and encoding calls it makes on them.
use vstd::prelude::*;

verus! {

/// A channel tag of the kernel protocol.
#[verifier::external_type_specification]
pub struct ExChannel(runtimelib::Channel);

/// A protocol message: every field is public, so Verus tracks them.
#[verifier::external_type_specification]
pub struct ExJupyterMessage(runtimelib::JupyterMessage);

/// A message header, carried through unopened; its `msg_type` selects how
/// the content is read.
#[verifier::external_type_specification]
#[verifier::external_body]
pub struct ExHeader(runtimelib::Header);

/// Typed message content, carried through unopened.
#[verifier::external_type_specification]
#[verifier::external_body]
pub struct ExJupyterMessageContent(runtimelib::JupyterMessageContent);

/// Transport parameters of a kernel session, carried through unopened.
#[verifier::external_type_specification]
#[verifier::external_body]
pub struct ExConnectionInfo(runtimelib::ConnectionInfo);

/// An untyped JSON value.
#[verifier::external_type_specification]
#[verifier::external_body]
pub struct ExValue(serde_json::Value);

/// A JSON decoding or encoding failure.
#[verifier::external_type_specification]
#[verifier::external_body]
pub struct ExSerdeError(serde_json::Error);

/// A failure of the kernel-connection library.
#[verifier::external_type_specification]
#[verifier::external_body]
pub struct ExRuntimeError(runtimelib::RuntimeError);

/// A pipe read or write failure.
#[verifier::external_type_specification]
#[verifier::external_body]
pub struct ExIoError(std::io::Error);

/// Binary message buffers (never decoded from or encoded to JSON).
#[verifier::external_type_specification]
#[verifier::external_body]
pub struct ExBytes(bytes::Bytes);

/// What the line's top-level JSON object holds under `content`: `None` when
/// the line is not a JSON object, `Some(None)` when the key is absent.
pub uninterp spec fn line_content(line: Seq<char>) -> Option<Option<serde_json::Value>>;

/// The header and channel tag of the protocol message that the line decodes
/// to, or `None` when it decodes to none. The rest of a decoded message is
/// not named: its content may hold hash maps, which differ from one decode
/// to the next in the order their entries are walked.
pub uninterp spec fn decoded_envelope(line: Seq<char>) -> Option<(runtimelib::Header, Option<runtimelib::Channel>)>;

/// Whether `content` reads as the content type that the header's `msg_type`
/// names.
pub uninterp spec fn content_reads(header: runtimelib::Header, content: serde_json::Value) -> bool;

/// The top-level `channel` field of a JSON object's text: `None` when the
/// text is not a JSON object with that field, `Some(None)` when it is null.
pub uninterp spec fn json_channel(text: Seq<char>) -> Option<Option<runtimelib::Channel>>;

/// Relies on serde_json::from_str into a serde_json::Map and Map::remove:
/// decodes the line as one JSON object and takes its `content` entry.
#[verifier::external_body]
pub(crate) fn decode_content(line: &str) -> (r: Result<Option<serde_json::Value>, serde_json::Error>)
    ensures
        r.is_ok() == line_content(line@).is_some(),
        r matches Ok(c) ==> line_content(line@) == Some(c),
{
    serde_json::from_str::<serde_json::Map<String, serde_json::Value>>(line).map(
        |mut fields| fields.remove("content"),
    )
}

/// Relies on serde_json::from_str into runtimelib::JupyterMessage: decodes the
/// line as one protocol message. Its header holds strings and a timestamp,
/// and its channel a unit variant, so both are fixed by the line.
#[verifier::external_body]
pub(crate) fn decode_message(line: &str) -> (r: Result<runtimelib::JupyterMessage, serde_json::Error>)
    ensures
        r.is_ok() == decoded_envelope(line@).is_some(),
        r matches Ok(m) ==> decoded_envelope(line@) == Some((m.header, m.channel)),
{
    serde_json::from_str::<runtimelib::JupyterMessage>(line)
}

/// Relies on runtimelib::JupyterMessageContent::from_type_and_content: reads
/// untyped content as the content type that the header's `msg_type` names.
#[verifier::external_body]
pub(crate) fn read_typed_content(header: &runtimelib::Header, content: serde_json::Value) -> (r:
    Result<runtimelib::JupyterMessageContent, serde_json::Error>)
    ensures
        r.is_ok() == content_reads(*header, content),
{
    runtimelib::JupyterMessageContent::from_type_and_content(&header.msg_type, content)
}

/// Relies on serde_json::to_string on runtimelib::JupyterMessage: compact JSON,
/// in which a newline can only stand escaped, so the text holds none; the
/// derived Serialize writes the message's channel tag as the top-level
/// `channel` field. The text as a whole is not a function of the message:
/// content may hold hash maps, whose entries come out in an order that each
/// process picks.
#[verifier::external_body]
pub(crate) fn encode_message(m: &runtimelib::JupyterMessage) -> (r: Result<String, serde_json::Error>)
    ensures
        r matches Ok(t) ==> !t@.contains('\n'),
        r matches Ok(t) ==> json_channel(t@) == Some(m.channel),
{
    serde_json::to_string(m)
}

} // verus!
