//! The Typio IPC protocol (TIP) envelope: 4-byte big-endian length-prefixed
//! JSON-RPC 2.0 frames over a Unix socket. This module holds the framing
//! arithmetic and the envelope rules; the socket and JSON text are handled at
//! the edge.
use vstd::prelude::*;

use crate::paths::{join_path, join_path_str};
use crate::text::{opt_str_view, str_eq};

verus! {

/// Largest accepted frame payload: 1 MiB.
pub const TIP_MAX_FRAME: usize = 1048576;

/// The value of four bytes read as a big-endian unsigned integer.
pub open spec fn be_value(b: [u8; 4]) -> int {
    b[0] as int * 16777216 + b[1] as int * 65536 + b[2] as int * 256 + b[3] as int
}

/// Why a frame length is rejected.
#[derive(Debug, Clone, Copy, PartialEq, Eq, Structural)]
pub enum FrameError {
    /// The payload exceeds [`TIP_MAX_FRAME`].
    TooLarge,
}

/// The length prefix for a payload of `len` bytes: its big-endian encoding,
/// or `TooLarge` when the payload exceeds the frame limit.
pub fn encode_frame_len(len: usize) -> (prefix: Result<[u8; 4], FrameError>)
    ensures
        len > TIP_MAX_FRAME ==> prefix == Err::<[u8; 4], FrameError>(FrameError::TooLarge),
        len <= TIP_MAX_FRAME ==> (prefix matches Ok(b) && be_value(b) == len),
{
    if len > TIP_MAX_FRAME {
        return Err(FrameError::TooLarge);
    }
    let n = len as u32;
    let b0 = (n >> 24u32) as u8;
    let b1 = ((n >> 16u32) & 0xff) as u8;
    let b2 = ((n >> 8u32) & 0xff) as u8;
    let b3 = (n & 0xff) as u8;
    proof {
        assert(b0 as int * 16777216 + b1 as int * 65536 + b2 as int * 256 + b3 as int == n)
            by (bit_vector)
            requires
                b0 == (n >> 24u32) as u8,
                b1 == ((n >> 16u32) & 0xff) as u8,
                b2 == ((n >> 8u32) & 0xff) as u8,
                b3 == (n & 0xff) as u8,
        ;
    }
    Ok([b0, b1, b2, b3])
}

/// The payload length announced by a big-endian prefix, or `TooLarge` when
/// it exceeds the frame limit (the frame is then not read).
pub fn decode_frame_len(prefix: [u8; 4]) -> (len: Result<usize, FrameError>)
    ensures
        be_value(prefix) > TIP_MAX_FRAME ==> len == Err::<usize, FrameError>(FrameError::TooLarge),
        be_value(prefix) <= TIP_MAX_FRAME ==> len == Ok::<usize, FrameError>(
            be_value(prefix) as usize,
        ),
{
    let b0 = prefix[0];
    let b1 = prefix[1];
    let b2 = prefix[2];
    let b3 = prefix[3];
    let n: u32 = ((b0 as u32) << 24u32) | ((b1 as u32) << 16u32) | ((b2 as u32) << 8u32) | (
    b3 as u32);
    proof {
        assert(n == b0 as int * 16777216 + b1 as int * 65536 + b2 as int * 256 + b3 as int)
            by (bit_vector)
            requires
                n == ((b0 as u32) << 24u32) | ((b1 as u32) << 16u32) | ((b2 as u32) << 8u32) | (
                b3 as u32),
        ;
    }
    if n as usize > TIP_MAX_FRAME {
        Err(FrameError::TooLarge)
    } else {
        Ok(n as usize)
    }
}

/// Framing round-trips: every length the encoder accepts decodes back to
/// itself, and the decoder accepts exactly the lengths the encoder accepts.
pub proof fn lemma_frame_len_roundtrip(len: usize, prefix: [u8; 4])
    requires
        len <= TIP_MAX_FRAME,
        be_value(prefix) == len,
    ensures
        be_value(prefix) <= TIP_MAX_FRAME,
        be_value(prefix) as usize == len,
{
}

/// A length prefix is canonical: two prefixes that announce the same length
/// are the same bytes, so re-encoding a decoded length gives back the prefix
/// that was read.
pub proof fn lemma_frame_prefix_unique(a: [u8; 4], b: [u8; 4])
    requires
        be_value(a) == be_value(b),
    ensures
        a@ == b@,
{
    let (a0, a1, a2, a3) = (a[0], a[1], a[2], a[3]);
    let (b0, b1, b2, b3) = (b[0], b[1], b[2], b[3]);
    let na: u32 = ((a0 as u32) << 24u32) | ((a1 as u32) << 16u32) | ((a2 as u32) << 8u32) | (
    a3 as u32);
    let nb: u32 = ((b0 as u32) << 24u32) | ((b1 as u32) << 16u32) | ((b2 as u32) << 8u32) | (
    b3 as u32);
    assert(na == a0 as int * 16777216 + a1 as int * 65536 + a2 as int * 256 + a3 as int)
        by (bit_vector)
        requires
            na == ((a0 as u32) << 24u32) | ((a1 as u32) << 16u32) | ((a2 as u32) << 8u32) | (
            a3 as u32),
    ;
    assert(nb == b0 as int * 16777216 + b1 as int * 65536 + b2 as int * 256 + b3 as int)
        by (bit_vector)
        requires
            nb == ((b0 as u32) << 24u32) | ((b1 as u32) << 16u32) | ((b2 as u32) << 8u32) | (
            b3 as u32),
    ;
    assert(a0 == b0 && a1 == b1 && a2 == b2 && a3 == b3) by (bit_vector)
        requires
            na == ((a0 as u32) << 24u32) | ((a1 as u32) << 16u32) | ((a2 as u32) << 8u32) | (
            a3 as u32),
            nb == ((b0 as u32) << 24u32) | ((b1 as u32) << 16u32) | ((b2 as u32) << 8u32) | (
            b3 as u32),
            na == nb,
    ;
    assert(a@ =~= b@);
}

/// The request id after `id`, or `None` once ids are exhausted.
pub fn next_request_id(id: i64) -> (next: Option<i64>)
    ensures
        id < i64::MAX ==> next == Some((id + 1) as i64),
        id == i64::MAX ==> next is None,
{
    id.checked_add(1)
}

/// The daemon socket: under `$XDG_RUNTIME_DIR`, else under
/// `$HOME/.local/share`, else in `/tmp`; an empty variable counts as unset.
pub open spec fn socket_path_spec(runtime_dir: Option<Seq<char>>, home: Option<Seq<char>>) -> Seq<
    char,
> {
    match runtime_dir {
        Some(r) if r.len() > 0 => join_path(r, "typio/daemon.sock"@),
        _ => match home {
            Some(h) if h.len() > 0 => join_path(h, ".local/share/typio/daemon.sock"@),
            _ => "/tmp/typio-daemon.sock"@,
        },
    }
}

/// The daemon socket path for the given `XDG_RUNTIME_DIR` and `HOME`.
pub fn socket_path(runtime_dir: Option<&str>, home: Option<&str>) -> (p: String)
    ensures
        p@ == socket_path_spec(opt_str_view(runtime_dir), opt_str_view(home)),
{
    match runtime_dir {
        Some(r) if r.unicode_len() > 0 => {
            return join_path_str(r, "typio/daemon.sock");
        },
        _ => {},
    }
    match home {
        Some(h) if h.unicode_len() > 0 => join_path_str(h, ".local/share/typio/daemon.sock"),
        _ => String::from_str("/tmp/typio-daemon.sock"),
    }
}

/// A JSON-RPC request id, as far as the envelope rules distinguish it.
#[derive(Debug, Clone, PartialEq, Eq)]
pub enum RequestId {
    /// A numeric id; TIP requires these.
    Number(i64),
    /// A string id.
    String(String),
    /// An explicit `null` id.
    Null,
}

/// JSON-RPC 2.0 standard errors answered by the request bus.
#[derive(Debug, Clone, Copy, PartialEq, Eq, Structural)]
pub enum StandardError {
    /// The text is not JSON.
    ParseError,
    /// Valid JSON that is not an acceptable request envelope.
    InvalidRequest,
    /// No such method.
    MethodNotFound,
    /// Bad parameters.
    InvalidParams,
    /// Failure inside the daemon.
    InternalError,
}

impl StandardError {
    /// The JSON-RPC error code.
    pub fn code(self) -> (c: i32)
        ensures
            self == StandardError::ParseError ==> c == -32700,
            self == StandardError::InvalidRequest ==> c == -32600,
            self == StandardError::MethodNotFound ==> c == -32601,
            self == StandardError::InvalidParams ==> c == -32602,
            self == StandardError::InternalError ==> c == -32603,
    {
        match self {
            StandardError::ParseError => -32700,
            StandardError::InvalidRequest => -32600,
            StandardError::MethodNotFound => -32601,
            StandardError::InvalidParams => -32602,
            StandardError::InternalError => -32603,
        }
    }
}

/// Accept a request envelope: it must be JSON-RPC `"2.0"` and carry a
/// numeric id, which is returned.
pub fn validate_request_envelope(jsonrpc: &str, id: &RequestId) -> (r: Result<i64, StandardError>)
    ensures
        jsonrpc@ != "2.0"@ ==> r == Err::<i64, StandardError>(StandardError::InvalidRequest),
        jsonrpc@ == "2.0"@ ==> match *id {
            RequestId::Number(n) => r == Ok::<i64, StandardError>(n),
            _ => r == Err::<i64, StandardError>(StandardError::InvalidRequest),
        },
{
    if !str_eq(jsonrpc, "2.0") {
        return Err(StandardError::InvalidRequest);
    }
    match id {
        RequestId::Number(n) => Ok(*n),
        _ => Err(StandardError::InvalidRequest),
    }
}

/// Why a response envelope is rejected by the client.
#[derive(Debug, Clone, PartialEq, Eq)]
pub enum ResponseError {
    /// `jsonrpc` is missing or not `"2.0"`.
    InvalidVersion,
    /// The response answers a different request.
    IdMismatch,
    /// The response holds both or neither of `result` and `error`.
    ResultErrorConflict,
    /// The daemon answered with an error; its message (or `unknown error`).
    Remote(String),
}

/// Accept a response envelope for request `expected_id`: version `"2.0"`,
/// the same id, and exactly one of `result` and `error`. An `error` response
/// becomes `Remote` with the error's message, `unknown error` when it has
/// none. The checks apply in that order.
pub fn check_response(
    jsonrpc: Option<&str>,
    id: Option<i64>,
    expected_id: i64,
    has_result: bool,
    has_error: bool,
    error_message: Option<&str>,
) -> (r: Result<(), ResponseError>)
    ensures
        !(jsonrpc matches Some(v) && v@ == "2.0"@) ==> r == Err::<(), ResponseError>(
            ResponseError::InvalidVersion,
        ),
        (jsonrpc matches Some(v) && v@ == "2.0"@) && id != Some(expected_id) ==> r == Err::<
            (),
            ResponseError,
        >(ResponseError::IdMismatch),
        (jsonrpc matches Some(v) && v@ == "2.0"@) && id == Some(expected_id) && has_result
            == has_error ==> r == Err::<(), ResponseError>(ResponseError::ResultErrorConflict),
        (jsonrpc matches Some(v) && v@ == "2.0"@) && id == Some(expected_id) && has_error
            && !has_result ==> (r matches Err(ResponseError::Remote(m)) && m@ == (match error_message {
            Some(msg) => msg@,
            None => "unknown error"@,
        })),
        (jsonrpc matches Some(v) && v@ == "2.0"@) && id == Some(expected_id) && has_result
            && !has_error ==> r is Ok,
{
    let version_ok = match jsonrpc {
        Some(v) => str_eq(v, "2.0"),
        None => false,
    };
    if !version_ok {
        return Err(ResponseError::InvalidVersion);
    }
    let id_ok = match id {
        Some(n) => n == expected_id,
        None => false,
    };
    if !id_ok {
        return Err(ResponseError::IdMismatch);
    }
    if has_result == has_error {
        return Err(ResponseError::ResultErrorConflict);
    }
    if has_error {
        let message = match error_message {
            Some(m) => String::from_str(m),
            None => String::from_str("unknown error"),
        };
        return Err(ResponseError::Remote(message));
    }
    Ok(())
}

} // verus!
