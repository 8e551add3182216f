//! Daemon-facing model: where the local daemon listens, request ids, and the
//! errors a daemon exchange can end with.

use vstd::prelude::*;

use crate::text::{dec, join_path, join_path_exec, owned, push_decimal};

verus! {

/// Kind of a typed protocol error reported by the daemon.
#[derive(Debug, Clone, Copy, PartialEq, Eq, Structural)]
pub enum ProtocolErrorKind {
    RuntimeNotFound,
    OwnershipConflict,
    TakeoverRequired,
    ProtocolMismatch,
    UnsupportedCapability,
    /// Any other kind the daemon may report.
    Other,
}

/// Errors from daemon communication, with the values the client logic reads.
#[derive(Debug, PartialEq, Eq)]
pub enum DaemonError {
    /// I/O error on the transport, with its message.
    Io(String),
    /// Protocol framing error, with its message.
    Frame(String),
    /// Protocol version mismatch.
    VersionMismatch { server: u32, client: u32 },
    /// The server returned a typed protocol error.
    ProtocolError { kind: ProtocolErrorKind, message: String, retryable: bool },
    /// The server returned a legacy coded error.
    ServerError { code: u32, message: String },
    /// Unexpected message type received.
    UnexpectedMessage,
    /// Attach was blocked because another client already owns the runtime.
    AttachBlocked,
    /// The connection was closed by the server.
    Disconnected,
}

/// The text of a daemon error, as it is shown to the user.
pub open spec fn error_text(e: DaemonError) -> Seq<char> {
    match e {
        DaemonError::Io(t) => "io: "@ + t@,
        DaemonError::Frame(t) => "frame: "@ + t@,
        DaemonError::VersionMismatch { server, client } => "protocol version mismatch: server="@ + dec(
            server as nat,
        ) + ", client="@ + dec(client as nat),
        DaemonError::ProtocolError { message, .. } => "server error: "@ + message@,
        DaemonError::ServerError { code, message } => "server error ("@ + dec(code as nat) + "): "@ + message@,
        DaemonError::UnexpectedMessage => "unexpected message from server"@,
        DaemonError::AttachBlocked => "runtime attach blocked"@,
        DaemonError::Disconnected => "connection closed"@,
    }
}

impl DaemonError {
    /// The text of this error, as it is shown to the user.
    pub fn message(&self) -> (s: String)
        ensures
            s@ == error_text(*self),
    {
        match self {
            DaemonError::Io(t) => {
                let mut s = owned("io: ");
                s.append(t.as_str());
                s
            },
            DaemonError::Frame(t) => {
                let mut s = owned("frame: ");
                s.append(t.as_str());
                s
            },
            DaemonError::VersionMismatch { server, client } => {
                let mut s = owned("protocol version mismatch: server=");
                push_decimal(&mut s, *server as u64);
                s.append(", client=");
                push_decimal(&mut s, *client as u64);
                s
            },
            DaemonError::ProtocolError { message, .. } => {
                let mut s = owned("server error: ");
                s.append(message.as_str());
                s
            },
            DaemonError::ServerError { code, message } => {
                let mut s = owned("server error (");
                push_decimal(&mut s, *code as u64);
                s.append("): ");
                s.append(message.as_str());
                s
            },
            DaemonError::UnexpectedMessage => owned("unexpected message from server"),
            DaemonError::AttachBlocked => owned("runtime attach blocked"),
            DaemonError::Disconnected => owned("connection closed"),
        }
    }
}

/// The daemon's socket path under a runtime directory.
pub open spec fn socket_path_spec(runtime_dir: Seq<char>, is_dev: bool) -> Seq<char> {
    let dir_name = if is_dev { "rttx-server-devel"@ } else { "rttx-server"@ };
    join_path(join_path(join_path(runtime_dir, dir_name), "v1"@), "rttx-server.sock"@)
}

/// The socket path of the local daemon under `runtime_dir`.
pub fn socket_path_for(runtime_dir: &str, is_dev: bool) -> (p: String)
    ensures
        p@ == socket_path_spec(runtime_dir@, is_dev),
{
    let dir_name = if is_dev { "rttx-server-devel" } else { "rttx-server" };
    let a = join_path_exec(runtime_dir, dir_name);
    let b = join_path_exec(a.as_str(), "v1");
    join_path_exec(b.as_str(), "rttx-server.sock")
}

/// The daemon binary name.
pub fn daemon_binary() -> (name: &'static str)
    ensures
        name@ == "rttx-server"@,
{
    "rttx-server"
}

/// Request id generator for envelope correlation; id 0 is reserved for push
/// events and is never handed out.
#[derive(Debug)]
pub struct RequestIdGenerator {
    next: u64,
}

impl RequestIdGenerator {
    /// The next id to hand out (before skipping zero).
    pub closed spec fn next_spec(&self) -> u64 {
        self.next
    }

    /// A generator starting at 1.
    pub fn new() -> (g: Self)
        ensures
            g.next_spec() == 1,
    {
        RequestIdGenerator { next: 1 }
    }

    /// Hand out the next id, skipping 0 when the counter wraps.
    pub fn next_id(&mut self) -> (id: u64)
        ensures
            id != 0,
            old(self).next_spec() != 0 ==> id == old(self).next_spec(),
            old(self).next_spec() == 0 ==> id == 1,
            final(self).next_spec() == (id as int + 1) % 0x1_0000_0000_0000_0000,
    {
        let mut id = self.next;
        self.next = self.next.wrapping_add(1);
        if id == 0 {
            id = self.next;
            self.next = self.next.wrapping_add(1);
        }
        id
    }
}

/// Where the next length-prefixed frame of a read buffer stands.
#[derive(Debug, Clone, Copy, PartialEq, Eq, Structural)]
pub enum FrameStep {
    /// More bytes must be read first.
    NeedMore,
    /// The announced payload length exceeds the largest message allowed.
    TooLarge(u32),
    /// A whole frame (prefix and payload) of this many bytes is buffered.
    Complete(usize),
}

/// The little-endian `u32` in the first four bytes.
pub open spec fn le_u32(b: Seq<u8>) -> nat {
    b[0] as nat + 256 * (b[1] as nat) + 65536 * (b[2] as nat) + 16777216 * (b[3] as nat)
}

/// The next frame of a read buffer: a four-byte little-endian payload
/// length, then the payload.
pub open spec fn frame_step(buf: Seq<u8>, max_message_size: u32) -> FrameStep {
    if buf.len() < 4 {
        FrameStep::NeedMore
    } else if le_u32(buf) > max_message_size {
        FrameStep::TooLarge(le_u32(buf) as u32)
    } else if buf.len() >= 4 + le_u32(buf) {
        FrameStep::Complete((4 + le_u32(buf)) as usize)
    } else {
        FrameStep::NeedMore
    }
}

/// Where the next raw frame of `buf` stands, for payloads of at most
/// `max_message_size` bytes.
pub fn next_raw_frame(buf: &[u8], max_message_size: u32) -> (r: FrameStep)
    ensures
        r == frame_step(buf@, max_message_size),
{
    if buf.len() < 4 {
        return FrameStep::NeedMore;
    }
    let len: u64 = buf[0] as u64 + 256 * (buf[1] as u64) + 65536 * (buf[2] as u64) + 16777216 * (buf[3] as u64);
    assert(len == le_u32(buf@));
    if len > max_message_size as u64 {
        return FrameStep::TooLarge(len as u32);
    }
    if (buf.len() - 4) as u64 >= len {
        FrameStep::Complete(4 + len as usize)
    } else {
        FrameStep::NeedMore
    }
}

} // verus!
