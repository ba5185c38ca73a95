//! Errors at the gRPC boundary: which status code each API error travels as,
//! and which API error a received status stands for. The mapping is shared by
//! the server and the client so that it cannot drift. Every code the daemon
//! sends is one-to-one with a status code.
//!
//! `DaemonGone` is the exception: the daemon cannot report its own absence,
//! so only [`api_error_for`] produces it, from a failure the transport raised
//! locally.

use vstd::prelude::*;

verus! {

/// What went wrong, as the API reports it.
#[derive(Clone, Copy, Debug, PartialEq, Eq, Structural)]
pub enum ErrorCode {
    InvalidInput,
    NotFound,
    Conflict,
    /// A source login expired: a precondition the user must fix.
    SourceAuthExpired,
    /// A media server did not answer.
    SourceUnreachable,
    /// The daemon itself is not there.
    DaemonGone,
    Unsupported,
    Internal,
}

/// An API error: its code and its message.
#[derive(Clone, Debug, PartialEq, Eq)]
pub struct ApiError {
    pub code: ErrorCode,
    pub message: String,
}

/// The gRPC status codes, in gRPC's numbering; `Success` is gRPC's `OK`.
#[derive(Clone, Copy, Debug, PartialEq, Eq, Structural)]
pub enum GrpcCode {
    Success,
    Cancelled,
    Unknown,
    InvalidArgument,
    DeadlineExceeded,
    NotFound,
    AlreadyExists,
    PermissionDenied,
    ResourceExhausted,
    FailedPrecondition,
    Aborted,
    OutOfRange,
    Unimplemented,
    Internal,
    Unavailable,
    DataLoss,
    Unauthenticated,
}

/// The status code an API error travels as.
pub open spec fn grpc_code_of(code: ErrorCode) -> GrpcCode {
    match code {
        ErrorCode::InvalidInput => GrpcCode::InvalidArgument,
        // Not UNAUTHENTICATED: that says the caller's own token failed. An
        // expired source login is a precondition the user must fix.
        ErrorCode::SourceAuthExpired => GrpcCode::FailedPrecondition,
        ErrorCode::NotFound => GrpcCode::NotFound,
        ErrorCode::Conflict => GrpcCode::AlreadyExists,
        ErrorCode::Unsupported => GrpcCode::Unimplemented,
        ErrorCode::SourceUnreachable => GrpcCode::Unavailable,
        // Never sent: the daemon is the thing that would be missing.
        ErrorCode::DaemonGone => GrpcCode::Internal,
        ErrorCode::Internal => GrpcCode::Internal,
    }
}

/// The API error code a received status stands for. The transport raises
/// UNAVAILABLE for a failure of its own and attaches the cause; a status the
/// daemon actually sent arrives with none. That is the only thing separating
/// "the daemon is not there" from "a media server did not answer".
pub open spec fn error_code_of(code: GrpcCode, from_transport: bool) -> ErrorCode {
    match code {
        GrpcCode::InvalidArgument => ErrorCode::InvalidInput,
        GrpcCode::FailedPrecondition => ErrorCode::SourceAuthExpired,
        GrpcCode::NotFound => ErrorCode::NotFound,
        GrpcCode::AlreadyExists => ErrorCode::Conflict,
        GrpcCode::Unimplemented => ErrorCode::Unsupported,
        GrpcCode::Unavailable => if from_transport { ErrorCode::DaemonGone } else { ErrorCode::SourceUnreachable },
        _ => ErrorCode::Internal,
    }
}

/// The status code an API error travels as.
pub fn grpc_code_for(code: ErrorCode) -> (r: GrpcCode)
    ensures
        r == grpc_code_of(code),
{
    match code {
        ErrorCode::InvalidInput => GrpcCode::InvalidArgument,
        ErrorCode::SourceAuthExpired => GrpcCode::FailedPrecondition,
        ErrorCode::NotFound => GrpcCode::NotFound,
        ErrorCode::Conflict => GrpcCode::AlreadyExists,
        ErrorCode::Unsupported => GrpcCode::Unimplemented,
        ErrorCode::SourceUnreachable => GrpcCode::Unavailable,
        ErrorCode::DaemonGone | ErrorCode::Internal => GrpcCode::Internal,
    }
}

/// The API error a received status stands for: its code by
/// [`error_code_of`], its message as it came.
pub fn api_error_for(code: GrpcCode, message: String, from_transport: bool) -> (r: ApiError)
    ensures
        r.code == error_code_of(code, from_transport),
        r.message@ == message@,
{
    let code = match code {
        GrpcCode::InvalidArgument => ErrorCode::InvalidInput,
        GrpcCode::FailedPrecondition => ErrorCode::SourceAuthExpired,
        GrpcCode::NotFound => ErrorCode::NotFound,
        GrpcCode::AlreadyExists => ErrorCode::Conflict,
        GrpcCode::Unimplemented => ErrorCode::Unsupported,
        GrpcCode::Unavailable => if from_transport { ErrorCode::DaemonGone } else { ErrorCode::SourceUnreachable },
        _ => ErrorCode::Internal,
    };
    ApiError { code, message }
}

/// Every code the daemon can send survives the status round trip: a status
/// the daemon sent carries no transport cause, and reads back as the code it
/// was made from. `DaemonGone` is left out on purpose: it is synthesized by
/// the client and never sent.
pub proof fn lemma_sent_codes_round_trip(code: ErrorCode)
    requires
        code != ErrorCode::DaemonGone,
    ensures
        error_code_of(grpc_code_of(code), false) == code,
{
}

/// A status the transport raised for itself with UNAVAILABLE means the daemon
/// is gone, and nothing the daemon sends reads back as that.
pub proof fn lemma_only_the_transport_reports_the_daemon_gone(code: ErrorCode)
    ensures
        error_code_of(GrpcCode::Unavailable, true) == ErrorCode::DaemonGone,
        error_code_of(grpc_code_of(code), false) != ErrorCode::DaemonGone,
{
}

/// Each API error travels as the gRPC code of the same meaning, and only it
/// does: a bad argument as INVALID_ARGUMENT, a missing thing as NOT_FOUND, a
/// clash as ALREADY_EXISTS, an expired source login as FAILED_PRECONDITION,
/// an unsupported request as UNIMPLEMENTED, an unreachable media server as
/// UNAVAILABLE; everything else as INTERNAL.
pub proof fn lemma_errors_travel_as_their_namesakes(code: ErrorCode)
    ensures
        (grpc_code_of(code) == GrpcCode::InvalidArgument) <==> (code == ErrorCode::InvalidInput),
        (grpc_code_of(code) == GrpcCode::NotFound) <==> (code == ErrorCode::NotFound),
        (grpc_code_of(code) == GrpcCode::AlreadyExists) <==> (code == ErrorCode::Conflict),
        (grpc_code_of(code) == GrpcCode::FailedPrecondition) <==> (code == ErrorCode::SourceAuthExpired),
        (grpc_code_of(code) == GrpcCode::Unimplemented) <==> (code == ErrorCode::Unsupported),
        (grpc_code_of(code) == GrpcCode::Unavailable) <==> (code == ErrorCode::SourceUnreachable),
        (grpc_code_of(code) == GrpcCode::Internal) <==> (code == ErrorCode::Internal || code == ErrorCode::DaemonGone),
{
}

/// A received status reads as the API error of the same meaning: NOT_FOUND
/// as a missing thing, ALREADY_EXISTS as a clash, INVALID_ARGUMENT as a bad
/// argument, FAILED_PRECONDITION as an expired source login, UNIMPLEMENTED as
/// an unsupported request, UNAVAILABLE as an unreachable server (or, raised
/// by the transport, a missing daemon); any other status is internal.
pub proof fn lemma_statuses_read_as_their_namesakes(code: GrpcCode, from_transport: bool)
    ensures
        (error_code_of(code, from_transport) == ErrorCode::NotFound) <==> (code == GrpcCode::NotFound),
        (error_code_of(code, from_transport) == ErrorCode::Conflict) <==> (code == GrpcCode::AlreadyExists),
        (error_code_of(code, from_transport) == ErrorCode::InvalidInput) <==> (code == GrpcCode::InvalidArgument),
        (error_code_of(code, from_transport) == ErrorCode::SourceAuthExpired) <==> (code == GrpcCode::FailedPrecondition),
        (error_code_of(code, from_transport) == ErrorCode::Unsupported) <==> (code == GrpcCode::Unimplemented),
        (error_code_of(code, from_transport) == ErrorCode::SourceUnreachable) <==> (code == GrpcCode::Unavailable && !from_transport),
        (error_code_of(code, from_transport) == ErrorCode::DaemonGone) <==> (code == GrpcCode::Unavailable && from_transport),
        (error_code_of(code, from_transport) == ErrorCode::Internal) <==> !(code == GrpcCode::NotFound
            || code == GrpcCode::AlreadyExists || code == GrpcCode::InvalidArgument
            || code == GrpcCode::FailedPrecondition || code == GrpcCode::Unimplemented || code == GrpcCode::Unavailable),
{
}

} // verus!
