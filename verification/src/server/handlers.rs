//! What the server does with a request: which handler serves it and which
//! error, if any, it answers.

use vstd::prelude::*;

use crate::message::{ErrorMessage, MessageType, SyncTargetType};

verus! {

/// The handler that serves a request.
#[derive(Debug, Clone, Copy, PartialEq, Eq, Structural)]
pub enum RequestRoute {
    Sync,
    Block,
}

/// The handler for a request whose header carries `t`; `None` for a message
/// type that no client sends.
pub fn route_request(t: MessageType) -> (res: Option<RequestRoute>)
    ensures
        t == MessageType::SyncRequest ==> res == Some(RequestRoute::Sync),
        t == MessageType::BlockRequest ==> res == Some(RequestRoute::Block),
        t != MessageType::SyncRequest && t != MessageType::BlockRequest ==> res is None,
{
    match t {
        MessageType::SyncRequest => Some(RequestRoute::Sync),
        MessageType::BlockRequest => Some(RequestRoute::Block),
        _ => None,
    }
}

/// The errors the server reports to a client.
#[derive(Debug, Clone, Copy, PartialEq, Eq, Structural)]
pub enum ErrorReply {
    InternalServerError,
    MalformedSyncRequest,
    MalformedBlockRequest,
    TargetTypeMismatch,
    PathDoesNotExist,
}

/// The text the client is shown for an error.
pub open spec fn spec_error_text(e: ErrorReply) -> Seq<char> {
    match e {
        ErrorReply::InternalServerError => "Internal server error"@,
        ErrorReply::MalformedSyncRequest => "Malformed sync request message"@,
        ErrorReply::MalformedBlockRequest => "Malformed block request message"@,
        ErrorReply::TargetTypeMismatch => "Remote and local target different types (dir/file/symlink)"@,
        ErrorReply::PathDoesNotExist => "Path does not exist"@,
    }
}

impl ErrorReply {
    /// The error message sent to the client.
    pub fn to_message(&self) -> (res: ErrorMessage)
        ensures
            res.message@ == spec_error_text(*self),
    {
        let text = match self {
            ErrorReply::InternalServerError => String::from_str("Internal server error"),
            ErrorReply::MalformedSyncRequest => String::from_str("Malformed sync request message"),
            ErrorReply::MalformedBlockRequest => String::from_str("Malformed block request message"),
            ErrorReply::TargetTypeMismatch => String::from_str(
                "Remote and local target different types (dir/file/symlink)",
            ),
            ErrorReply::PathDoesNotExist => String::from_str("Path does not exist"),
        };
        ErrorMessage::new(text)
    }
}

/// The step at which a request handler failed.
#[derive(Debug, Clone, Copy, PartialEq, Eq, Structural)]
pub enum HandlerFailure {
    /// The request body could not be read from the stream.
    ReadingRequest,
    /// The body is not a sync request.
    MalformedSyncRequest,
    /// The body is not a block request.
    MalformedBlockRequest,
    /// The target is not of the kind the client syncs.
    TargetTypeMismatch,
    /// The requested path does not exist.
    PathDoesNotExist,
    /// The checksums or the block could not be computed or read.
    ComputingAnswer,
    /// The answer could not be serialized.
    SerializingAnswer,
}

/// The error a failure is answered with, and whether the handler then
/// reports the failure as its own error (`true`) or ends normally (`false`).
pub open spec fn spec_failure_reply(f: HandlerFailure) -> (ErrorReply, bool) {
    match f {
        HandlerFailure::ReadingRequest => (ErrorReply::InternalServerError, true),
        HandlerFailure::MalformedSyncRequest => (ErrorReply::MalformedSyncRequest, false),
        HandlerFailure::MalformedBlockRequest => (ErrorReply::MalformedBlockRequest, true),
        HandlerFailure::TargetTypeMismatch => (ErrorReply::TargetTypeMismatch, false),
        HandlerFailure::PathDoesNotExist => (ErrorReply::PathDoesNotExist, false),
        HandlerFailure::ComputingAnswer => (ErrorReply::InternalServerError, true),
        HandlerFailure::SerializingAnswer => (ErrorReply::InternalServerError, true),
    }
}

/// How a handler answers a failure: the error sent to the client, and
/// whether the handler reports the failure as its own error. Failures of the
/// server itself are reported; a malformed sync request, a target of the
/// wrong kind and a missing path are the client's doing and end the handler
/// normally, while a malformed block request is reported too.
pub fn failure_reply(f: HandlerFailure) -> (res: (ErrorReply, bool))
    ensures
        res == spec_failure_reply(f),
{
    match f {
        HandlerFailure::ReadingRequest => (ErrorReply::InternalServerError, true),
        HandlerFailure::MalformedSyncRequest => (ErrorReply::MalformedSyncRequest, false),
        HandlerFailure::MalformedBlockRequest => (ErrorReply::MalformedBlockRequest, true),
        HandlerFailure::TargetTypeMismatch => (ErrorReply::TargetTypeMismatch, false),
        HandlerFailure::PathDoesNotExist => (ErrorReply::PathDoesNotExist, false),
        HandlerFailure::ComputingAnswer => (ErrorReply::InternalServerError, true),
        HandlerFailure::SerializingAnswer => (ErrorReply::InternalServerError, true),
    }
}

/// Whether the server's target is the kind of object that the client syncs:
/// file with file, directory with directory, symlink with symlink. The flags
/// describe the target itself, links not followed.
pub fn is_target_type_matching(file_type: SyncTargetType, is_symlink: bool, is_file: bool, is_dir: bool) -> (res: bool)
    ensures
        file_type == SyncTargetType::Symlink ==> res == is_symlink,
        file_type == SyncTargetType::File ==> res == is_file,
        file_type == SyncTargetType::Directory ==> res == is_dir,
{
    match file_type {
        SyncTargetType::Symlink => is_symlink,
        SyncTargetType::File => is_file,
        SyncTargetType::Directory => is_dir,
    }
}

/// Checks a sync request's target before its checksums are computed: first
/// that its kind matches the client's, then that the path exists.
pub fn check_sync_target(file_type: SyncTargetType, is_symlink: bool, is_file: bool, is_dir: bool, exists: bool) -> (res: Result<(), HandlerFailure>)
    ensures
        !is_target_type_matching_spec(file_type, is_symlink, is_file, is_dir) ==> res == Err::<(), HandlerFailure>(HandlerFailure::TargetTypeMismatch),
        is_target_type_matching_spec(file_type, is_symlink, is_file, is_dir) && !exists ==> res == Err::<(), HandlerFailure>(HandlerFailure::PathDoesNotExist),
        is_target_type_matching_spec(file_type, is_symlink, is_file, is_dir) && exists ==> res is Ok,
        res is Ok <==> exists && ((file_type == SyncTargetType::Directory && is_dir) || (file_type
            == SyncTargetType::File && is_file) || (file_type == SyncTargetType::Symlink && is_symlink)),
{
    if !is_target_type_matching(file_type, is_symlink, is_file, is_dir) {
        return Err(HandlerFailure::TargetTypeMismatch);
    }
    if !exists {
        return Err(HandlerFailure::PathDoesNotExist);
    }
    Ok(())
}

/// Whether a target of these kinds matches the requested kind.
pub open spec fn is_target_type_matching_spec(file_type: SyncTargetType, is_symlink: bool, is_file: bool, is_dir: bool) -> bool {
    match file_type {
        SyncTargetType::Symlink => is_symlink,
        SyncTargetType::File => is_file,
        SyncTargetType::Directory => is_dir,
    }
}


/// A target matches exactly when its own kind is the requested one: a
/// directory for a directory, a file for a file, a symlink for a symlink.
pub proof fn lemma_target_matches_only_own_kind(file_type: SyncTargetType, is_symlink: bool, is_file: bool, is_dir: bool)
    ensures
        is_target_type_matching_spec(file_type, is_symlink, is_file, is_dir) <==> ((file_type
            == SyncTargetType::Directory && is_dir) || (file_type == SyncTargetType::File && is_file)
            || (file_type == SyncTargetType::Symlink && is_symlink)),
{
}


/// Failures of the server itself are answered as internal errors and
/// reported; failures caused by the request are answered with their own
/// reply, and only a malformed block request is reported among them.
pub proof fn lemma_failure_reply_classes(f: HandlerFailure)
    ensures
        (spec_failure_reply(f).0 == ErrorReply::InternalServerError) <==> (f == HandlerFailure::ReadingRequest
            || f == HandlerFailure::ComputingAnswer || f == HandlerFailure::SerializingAnswer),
        !spec_failure_reply(f).1 <==> (f == HandlerFailure::MalformedSyncRequest || f
            == HandlerFailure::TargetTypeMismatch || f == HandlerFailure::PathDoesNotExist),
        f == HandlerFailure::MalformedSyncRequest ==> spec_failure_reply(f).0 == ErrorReply::MalformedSyncRequest,
        f == HandlerFailure::MalformedBlockRequest ==> spec_failure_reply(f).0 == ErrorReply::MalformedBlockRequest,
        f == HandlerFailure::TargetTypeMismatch ==> spec_failure_reply(f).0 == ErrorReply::TargetTypeMismatch,
        f == HandlerFailure::PathDoesNotExist ==> spec_failure_reply(f).0 == ErrorReply::PathDoesNotExist,
{
}

} // verus!
