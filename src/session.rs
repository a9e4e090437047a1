//! The host-visible handle of one kernel session.
use vstd::prelude::*;

use runtimelib::ConnectionInfo;

verus! {

/// A lowercase hex digit.
pub open spec fn is_lower_hex(c: char) -> bool {
    ('0' <= c && c <= '9') || ('a' <= c && c <= 'f')
}

/// The hyphenated text of a random (version 4, RFC 4122 variant) UUID: 32
/// lowercase hex digits in groups of 8, 4, 4, 4 and 12, the version digit 4,
/// and a variant digit among 8, 9, a and b.
pub open spec fn is_v4_text(s: Seq<char>) -> bool {
    &&& s.len() == 36
    &&& forall|i: int|
        0 <= i < 36 ==> if i == 8 || i == 13 || i == 18 || i == 23 {
            #[trigger] s[i] == '-'
        } else {
            is_lower_hex(s[i])
        }
    &&& s[14] == '4'
    &&& (s[19] == '8' || s[19] == '9' || s[19] == 'a' || s[19] == 'b')
}

/// Relies on uuid::Uuid::new_v4, which masks in the version and variant
/// bits, and on its Display, which writes the lowercase hyphenated form. The
/// value is random.
#[verifier::external_body]
fn fresh_session_id() -> (r: String)
    ensures
        is_v4_text(r@),
{
    uuid::Uuid::new_v4().to_string()
}

/// One established session as the host sees it: its parameters, its
/// identifier, and the descriptors of the pipe ends the host reads from and
/// writes to. The router owns the other ends.
pub struct Connection {
    connection_info: ConnectionInfo,
    session_id: String,
    read_pipe: i32,
    write_pipe: i32,
}

impl Connection {
    pub closed spec fn info_spec(&self) -> ConnectionInfo {
        self.connection_info
    }

    pub closed spec fn session_id_spec(&self) -> Seq<char> {
        self.session_id@
    }

    pub closed spec fn read_pipe_spec(&self) -> i32 {
        self.read_pipe
    }

    pub closed spec fn write_pipe_spec(&self) -> i32 {
        self.write_pipe
    }

    /// Starts a session handle under a freshly generated identifier.
    pub fn open(connection_info: ConnectionInfo, read_pipe: i32, write_pipe: i32) -> (r: Connection)
        ensures
            r.info_spec() == connection_info,
            is_v4_text(r.session_id_spec()),
            r.read_pipe_spec() == read_pipe,
            r.write_pipe_spec() == write_pipe,
    {
        let session_id = fresh_session_id();
        Connection { connection_info, session_id, read_pipe, write_pipe }
    }

    pub fn connection_info(&self) -> (r: &ConnectionInfo)
        ensures
            *r == self.info_spec(),
    {
        &self.connection_info
    }

    pub fn session_id(&self) -> (r: &str)
        ensures
            r@ == self.session_id_spec(),
    {
        self.session_id.as_str()
    }

    pub fn read_pipe_fd(&self) -> (r: i32)
        ensures
            r == self.read_pipe_spec(),
    {
        self.read_pipe
    }

    pub fn write_pipe_fd(&self) -> (r: i32)
        ensures
            r == self.write_pipe_spec(),
    {
        self.write_pipe
    }
}

} // verus!
