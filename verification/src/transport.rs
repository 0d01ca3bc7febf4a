//! The transport's values, reduced to what the lifecycle rules read.
//!
//! The rules decide by the kind of a failure and pass its text on to the
//! consumer; error codes travel as plain numbers below a limit. The
//! transport's own types stay opaque to the verifier. The functions at the end
//! of this file call into `quinn`: each reads a kind, a text or a number off
//! one of its values, and whatever its contract says is taken on trust from
//! the transport's source. What such a call returns on a value has a name, a
//! spec function without a body, so that the rules' contracts can say which
//! error a text or a kind belongs to.

use vstd::prelude::*;

verus! {

#[verifier::external_type_specification]
#[verifier::external_body]
pub struct ExConnectionError(quinn::ConnectionError);

#[verifier::external_type_specification]
#[verifier::external_body]
pub struct ExReadError(quinn::ReadError);

#[verifier::external_type_specification]
#[verifier::external_body]
pub struct ExWriteError(quinn::WriteError);

#[verifier::external_type_specification]
#[verifier::external_body]
pub struct ExSendStream(quinn::SendStream);

/// Why a connection was lost, by kind.
#[derive(Clone, Copy, Debug, PartialEq, Eq, Structural)]
pub enum ConnectionFailure {
    /// The peer implements no version this side supports.
    VersionMismatch,
    /// The peer violated the protocol.
    TransportError,
    /// The peer's transport closed the connection.
    ConnectionClosed,
    /// The peer's application closed the connection with a code of its own.
    ApplicationClosed,
    /// The peer lost its state and reset the connection.
    Reset,
    /// Nothing was heard from the peer for longer than the idle timeout.
    TimedOut,
    /// This side closed the connection.
    LocallyClosed,
    /// The space of connection ids ran out.
    CidsExhausted,
}

impl ConnectionFailure {
    /// An orderly end of the connection, as opposed to a fault: a close by
    /// either side, or a reset by the peer.
    pub open spec fn is_benign(self) -> bool {
        self is ConnectionClosed || self is ApplicationClosed || self is Reset
            || self is LocallyClosed
    }

    /// Tells whether this kind of failure is an orderly end.
    pub fn benign(&self) -> (b: bool)
        ensures
            b == self.is_benign(),
    {
        match self {
            ConnectionFailure::ConnectionClosed => true,
            ConnectionFailure::ApplicationClosed => true,
            ConnectionFailure::Reset => true,
            ConnectionFailure::LocallyClosed => true,
            ConnectionFailure::VersionMismatch => false,
            ConnectionFailure::TransportError => false,
            ConnectionFailure::TimedOut => false,
            ConnectionFailure::CidsExhausted => false,
        }
    }
}

/// Why a read on a stream failed, by kind.
#[derive(Clone, Copy, Debug, PartialEq, Eq, Structural)]
pub enum ReadFailure {
    /// The peer abandoned the stream.
    Reset,
    /// The connection under the stream was lost.
    ConnectionLost,
    /// The stream had already been stopped, finished or reset.
    ClosedStream,
    /// An ordered read followed an unordered one.
    IllegalOrderedRead,
    /// The stream was opened on early data that the peer rejected.
    ZeroRttRejected,
}

impl ReadFailure {
    /// A failure after which the stream delivers nothing more.
    pub open spec fn is_fatal(self) -> bool {
        self is Reset || self is ConnectionLost || self is ClosedStream
    }

    /// Tells whether this kind of failure ends the stream.
    pub fn fatal(&self) -> (b: bool)
        ensures
            b == self.is_fatal(),
    {
        match self {
            ReadFailure::Reset => true,
            ReadFailure::ConnectionLost => true,
            ReadFailure::ClosedStream => true,
            ReadFailure::IllegalOrderedRead => false,
            ReadFailure::ZeroRttRejected => false,
        }
    }
}

/// The least value that is too large for an error code: codes travel as
/// variable-length integers of at most 62 bits.
pub const ERROR_CODE_LIMIT: u64 = 0x4000_0000_0000_0000;

/// An application error code, as sent when a stream or a connection is
/// closed. Always below `ERROR_CODE_LIMIT`.
#[derive(Clone, Copy, Debug, PartialEq, Eq)]
pub struct ErrorCode {
    value: u64,
}

impl View for ErrorCode {
    type V = u64;

    closed spec fn view(&self) -> u64 {
        self.value
    }
}

impl ErrorCode {
    #[verifier::type_invariant]
    spec fn in_range(self) -> bool {
        self.value < ERROR_CODE_LIMIT
    }

    /// The code `value`, if it fits; otherwise the transport's complaint as
    /// text.
    pub fn from_u64(value: u64) -> (code: Result<ErrorCode, String>)
        ensures
            code is Ok <==> value < ERROR_CODE_LIMIT,
            code matches Ok(c) ==> c@ == value,
            code matches Err(text) ==> text@ == "value too large for varint encoding"@,
    {
        match varint_from_u64(value) {
            Ok(checked) => Ok(ErrorCode { value: checked }),
            Err(text) => Err(text),
        }
    }

    /// The code `value`; every 32-bit value fits.
    pub fn from_u32(value: u32) -> (code: ErrorCode)
        ensures
            code@ == value,
    {
        ErrorCode { value: value as u64 }
    }

    /// The code as a number.
    pub fn value(&self) -> (value: u64)
        ensures
            value == self@,
            value < ERROR_CODE_LIMIT,
    {
        proof {
            use_type_invariant(self);
        }
        self.value
    }
}

impl Default for ErrorCode {
    /// The code zero.
    fn default() -> (code: ErrorCode)
        ensures
            code@ == 0,
    {
        ErrorCode { value: 0 }
    }
}

/// The kind of a connection error, as `connection_failure_kind` reads it.
pub uninterp spec fn connection_kind(error: quinn::ConnectionError) -> ConnectionFailure;

/// The text that a connection error displays as.
pub uninterp spec fn connection_text(error: quinn::ConnectionError) -> Seq<char>;

/// The kind of a read error, as `read_failure_kind` reads it.
pub uninterp spec fn read_kind(error: quinn::ReadError) -> ReadFailure;

/// The text that a read error displays as.
pub uninterp spec fn read_text(error: quinn::ReadError) -> Seq<char>;

/// The connection error that a read error carries, if it carries one.
pub uninterp spec fn read_lost_connection(error: quinn::ReadError) -> Option<
    quinn::ConnectionError,
>;

/// The text that a write error displays as.
pub uninterp spec fn write_text(error: quinn::WriteError) -> Seq<char>;

/// Whether the transport has been asked to finish this write half.
pub uninterp spec fn send_finish_requested(send: quinn::SendStream) -> bool;

/// The kind of a `quinn::ConnectionError`: each variant of the transport's
/// enum goes to the variant of the same name. The contract gives the result
/// its name; it claims no more than that the same error has the same kind.
#[verifier::external_body]
pub(crate) fn connection_failure_kind(error: &quinn::ConnectionError) -> (kind: ConnectionFailure)
    ensures
        kind == connection_kind(*error),
{
    match error {
        quinn::ConnectionError::VersionMismatch => ConnectionFailure::VersionMismatch,
        quinn::ConnectionError::TransportError(_) => ConnectionFailure::TransportError,
        quinn::ConnectionError::ConnectionClosed(_) => ConnectionFailure::ConnectionClosed,
        quinn::ConnectionError::ApplicationClosed(_) => ConnectionFailure::ApplicationClosed,
        quinn::ConnectionError::Reset => ConnectionFailure::Reset,
        quinn::ConnectionError::TimedOut => ConnectionFailure::TimedOut,
        quinn::ConnectionError::LocallyClosed => ConnectionFailure::LocallyClosed,
        quinn::ConnectionError::CidsExhausted => ConnectionFailure::CidsExhausted,
    }
}

/// The text that `quinn::ConnectionError` displays as, through `to_string`.
/// The contract gives the result its name; it claims no more than that the
/// same error displays as the same text.
#[verifier::external_body]
pub(crate) fn connection_error_text(error: &quinn::ConnectionError) -> (text: String)
    ensures
        text@ == connection_text(*error),
{
    error.to_string()
}

/// The kind of a `quinn::ReadError`: each variant of the transport's enum goes
/// to the variant of the same name. The contract gives the result its name;
/// it claims no more than that the same error has the same kind.
#[verifier::external_body]
pub(crate) fn read_failure_kind(error: &quinn::ReadError) -> (kind: ReadFailure)
    ensures
        kind == read_kind(*error),
{
    match error {
        quinn::ReadError::Reset(_) => ReadFailure::Reset,
        quinn::ReadError::ConnectionLost(_) => ReadFailure::ConnectionLost,
        quinn::ReadError::ClosedStream => ReadFailure::ClosedStream,
        quinn::ReadError::IllegalOrderedRead => ReadFailure::IllegalOrderedRead,
        quinn::ReadError::ZeroRttRejected => ReadFailure::ZeroRttRejected,
    }
}

/// The text that `quinn::ReadError` displays as, through `to_string`. The
/// contract gives the result its name; it claims no more than that the same
/// error displays as the same text.
#[verifier::external_body]
pub(crate) fn read_error_text(error: &quinn::ReadError) -> (text: String)
    ensures
        text@ == read_text(*error),
{
    error.to_string()
}

/// The connection error inside `quinn::ReadError::ConnectionLost`, and `None`
/// for every other variant. The contract gives the result its name; it claims
/// no more than that the same error carries the same.
#[verifier::external_body]
pub(crate) fn lost_connection(error: quinn::ReadError) -> (inner: Option<quinn::ConnectionError>)
    ensures
        inner == read_lost_connection(error),
{
    match error {
        quinn::ReadError::ConnectionLost(inner) => Some(inner),
        quinn::ReadError::Reset(_) => None,
        quinn::ReadError::ClosedStream => None,
        quinn::ReadError::IllegalOrderedRead => None,
        quinn::ReadError::ZeroRttRejected => None,
    }
}

/// `quinn::VarInt::from_u64`, with the integer read back by `into_inner` and
/// the error rendered by `to_string`. The transport documents that the call
/// succeeds exactly on values below 2^62 and keeps the value; its error type
/// always displays as the text given here.
#[verifier::external_body]
pub(crate) fn varint_from_u64(value: u64) -> (checked: Result<u64, String>)
    ensures
        checked is Ok <==> value < ERROR_CODE_LIMIT,
        checked matches Ok(v) ==> v == value,
        checked matches Err(text) ==> text@ == "value too large for varint encoding"@,
{
    match quinn::VarInt::from_u64(value) {
        Ok(code) => Ok(code.into_inner()),
        Err(error) => Err(error.to_string()),
    }
}

/// The text that `quinn::WriteError` displays as, through `to_string`. The
/// contract gives the result its name; it claims no more than that the same
/// error displays as the same text.
#[verifier::external_body]
pub(crate) fn write_error_text(error: &quinn::WriteError) -> (text: String)
    ensures
        text@ == write_text(*error),
{
    error.to_string()
}

/// `quinn::SendStream::finish`, reduced to whether it succeeded. Its one
/// error says that the stream had been finished or reset before; which of the
/// two comes back depends on the stream's state, so nothing is claimed of the
/// result. Of the half, the contract claims that it has been asked to finish:
/// that is what the call is.
#[verifier::external_body]
pub(crate) fn finish_send(send: &mut quinn::SendStream) -> (fresh: bool)
    ensures
        send_finish_requested(*final(send)),
{
    send.finish().is_ok()
}

} // verus!
