use qsync::client::client::{classify_response, unexpected_response_message, ResponseKind};
use qsync::client::helpers::{is_absolute_path, naive_check, sync_target_type};
use qsync::client::sync::{block_source, BlockSource, FileSync, SyncAction, SyncEvent, SyncOptions};
use qsync::helpers::{format_error_chain, unroll_anyhow_result};
use qsync::message::{
    BlockDataMessage, BlockRequestMessage, ChecksumsResponseMessage, ErrorMessage, MessageType, SyncRequestMessage, SyncTargetType,
};
use qsync::file::{DirMeta, FileMeta};
use qsync::server::handlers::{
    check_sync_target, failure_reply, is_target_type_matching, route_request, ErrorReply, HandlerFailure, RequestRoute,
};

#[test]
fn error_chain_rendering() {
    let msgs = vec!["a".to_string(), "b".to_string(), "c".to_string()];
    assert_eq!(format_error_chain(&msgs), "a\n\tb\n\t\tc\n");
    assert_eq!(format_error_chain(&vec![]), "");
}

#[test]
fn anyhow_error_rendering() {
    let e = anyhow::Error::msg("inner cause").context("outer step");
    assert_eq!(unroll_anyhow_result(e), "outer step\n\tinner cause\n");
    let e = anyhow::Error::msg("only");
    assert_eq!(unroll_anyhow_result(e), "only\n");
    let e = anyhow::Error::msg("c").context("b").context("a");
    assert_eq!(unroll_anyhow_result(e), "a\n\tb\n\t\tc\n");
}

#[test]
fn response_classification() {
    assert_eq!(classify_response(MessageType::Error, MessageType::BlockData), ResponseKind::ServerError);
    assert_eq!(classify_response(MessageType::BlockData, MessageType::BlockData), ResponseKind::Expected);
    assert_eq!(classify_response(MessageType::ChecksumsResponse, MessageType::ChecksumsResponse), ResponseKind::Expected);
    assert_eq!(classify_response(MessageType::BlockData, MessageType::ChecksumsResponse), ResponseKind::Unexpected);
    assert_eq!(classify_response(MessageType::SyncRequest, MessageType::BlockData), ResponseKind::Unexpected);
}

#[test]
fn unexpected_response_text() {
    assert_eq!(unexpected_response_message(MessageType::BlockData), "Unexpected response from server, got: Block Data");
}

#[test]
fn naive_checks() {
    assert!(naive_check(10, 500, 10, 500));
    assert!(!naive_check(11, 500, 10, 500));
    assert!(!naive_check(10, 501, 10, 500));
}

#[test]
fn absolute_paths() {
    assert!(is_absolute_path("/srv"));
    assert!(!is_absolute_path("srv/x"));
    assert!(!is_absolute_path(""));
}

#[test]
fn target_types() {
    assert_eq!(sync_target_type(true, true), SyncTargetType::Symlink);
    assert_eq!(sync_target_type(false, true), SyncTargetType::Directory);
    assert_eq!(sync_target_type(false, false), SyncTargetType::File);
}

#[test]
fn block_sources() {
    let remote = "abc".to_string();
    assert_eq!(block_source(&Some("abc".to_string()), &remote), BlockSource::Local);
    assert_eq!(block_source(&Some("abd".to_string()), &remote), BlockSource::Remote);
    assert_eq!(block_source(&None, &remote), BlockSource::Remote);
}

fn remote_file(checksums: &[&str], size: u64, timestamp: u128, permissions: Option<u32>) -> FileMeta {
    FileMeta::new_file("/srv/f".to_string(), checksums.iter().map(|c| c.to_string()).collect(), timestamp, size, permissions)
}

const PLAIN: SyncOptions = SyncOptions { timestamp: false, permissions: false, naive: false };

#[test]
fn file_sync_reuses_matching_blocks() {
    let meta = remote_file(&["a", "b", "c"], 30, 1234, Some(0o640));
    let options = SyncOptions { timestamp: true, permissions: true, naive: false };
    let (mut s, action) = FileSync::start(&meta, options, true, Some((30, 1234)));
    assert_eq!(action, SyncAction::ReadLocalChecksum(0));
    assert_eq!(s.on_event(SyncEvent::LocalChecksum(Some("a".to_string()))), SyncAction::CopyLocalBlock(0));
    assert_eq!(s.on_event(SyncEvent::BlockWritten), SyncAction::ReadLocalChecksum(1));
    assert_eq!(s.on_event(SyncEvent::LocalChecksum(Some("x".to_string()))), SyncAction::RequestBlock(1));
    assert_eq!(s.on_event(SyncEvent::BlockWritten), SyncAction::ReadLocalChecksum(2));
    assert_eq!(s.on_event(SyncEvent::LocalChecksum(None)), SyncAction::RequestBlock(2));
    assert_eq!(s.on_event(SyncEvent::BlockWritten), SyncAction::SetTimestamp(1234));
    assert_eq!(s.on_event(SyncEvent::TimestampSet), SyncAction::SetPermissions(0o640));
    assert_eq!(s.on_event(SyncEvent::PermissionsSet), SyncAction::Finish(true));
}

#[test]
fn file_sync_without_local_file() {
    let meta = remote_file(&["a", "b"], 20, 0, None);
    let (mut s, action) = FileSync::start(&meta, PLAIN, false, None);
    assert_eq!(action, SyncAction::RequestBlock(0));
    assert_eq!(s.on_event(SyncEvent::BlockWritten), SyncAction::RequestBlock(1));
    assert_eq!(s.on_event(SyncEvent::BlockWritten), SyncAction::Finish(true));
}

#[test]
fn file_sync_refused_block() {
    let meta = remote_file(&["a", "b"], 20, 0, None);
    let options = SyncOptions { timestamp: true, permissions: false, naive: false };
    let (mut s, action) = FileSync::start(&meta, options, false, None);
    assert_eq!(action, SyncAction::RequestBlock(0));
    assert_eq!(s.on_event(SyncEvent::BlockRefused), SyncAction::Finish(false));
}

#[test]
fn file_sync_empty_file() {
    let meta = remote_file(&[], 0, 77, Some(0o600));
    let (_s, action) = FileSync::start(&meta, PLAIN, true, None);
    assert_eq!(action, SyncAction::Finish(true));
    let options = SyncOptions { timestamp: true, permissions: false, naive: false };
    let (_s, action) = FileSync::start(&meta, options, true, None);
    assert_eq!(action, SyncAction::SetTimestamp(77));
    let options = SyncOptions { timestamp: false, permissions: true, naive: false };
    let (_s, action) = FileSync::start(&meta, options, true, None);
    assert_eq!(action, SyncAction::SetPermissions(0o600));
}

#[test]
fn file_sync_naive_skips_unchanged_file() {
    let meta = remote_file(&["a", "b"], 20, 500, None);
    let options = SyncOptions { timestamp: true, permissions: false, naive: true };
    let (mut s, action) = FileSync::start(&meta, options, true, Some((20, 500)));
    assert_eq!(action, SyncAction::CopyLocalFile);
    assert_eq!(s.on_event(SyncEvent::FileCopied), SyncAction::SetTimestamp(500));
    assert_eq!(s.on_event(SyncEvent::TimestampSet), SyncAction::Finish(true));
}

#[test]
fn file_sync_naive_syncs_changed_file() {
    let meta = remote_file(&["a"], 20, 500, None);
    let naive = SyncOptions { timestamp: false, permissions: false, naive: true };
    let (_s, action) = FileSync::start(&meta, naive, true, Some((21, 500)));
    assert_eq!(action, SyncAction::ReadLocalChecksum(0));
    let (_s, action) = FileSync::start(&meta, naive, true, Some((20, 501)));
    assert_eq!(action, SyncAction::ReadLocalChecksum(0));
    let (_s, action) = FileSync::start(&meta, naive, false, None);
    assert_eq!(action, SyncAction::RequestBlock(0));
    // without naive mode a matching file is still compared block by block
    let (_s, action) = FileSync::start(&meta, PLAIN, true, Some((20, 500)));
    assert_eq!(action, SyncAction::ReadLocalChecksum(0));
}

#[test]
fn file_sync_symlink() {
    let meta = FileMeta::new_symlink("/srv/l".to_string(), "target".to_string());
    let options = SyncOptions { timestamp: true, permissions: true, naive: true };
    let (mut s, action) = FileSync::start(&meta, options, false, None);
    assert_eq!(action, SyncAction::CreateSymlink);
    assert_eq!(s.on_event(SyncEvent::SymlinkCreated), SyncAction::Finish(true));
    let mut broken = FileMeta::new_symlink("/srv/l".to_string(), "t".to_string());
    broken.symlink_target = None;
    let (_s, action) = FileSync::start(&broken, options, false, None);
    assert_eq!(action, SyncAction::Finish(false));
}

#[test]
fn request_routes() {
    assert_eq!(route_request(MessageType::SyncRequest), Some(RequestRoute::Sync));
    assert_eq!(route_request(MessageType::BlockRequest), Some(RequestRoute::Block));
    assert_eq!(route_request(MessageType::BlockData), None);
    assert_eq!(route_request(MessageType::Error), None);
    assert_eq!(route_request(MessageType::ChecksumsResponse), None);
}

#[test]
fn error_reply_texts() {
    assert_eq!(ErrorReply::InternalServerError.to_message().message, "Internal server error");
    assert_eq!(ErrorReply::MalformedSyncRequest.to_message().message, "Malformed sync request message");
    assert_eq!(ErrorReply::MalformedBlockRequest.to_message().message, "Malformed block request message");
    assert_eq!(ErrorReply::TargetTypeMismatch.to_message().message, "Remote and local target different types (dir/file/symlink)");
    assert_eq!(ErrorReply::PathDoesNotExist.to_message().message, "Path does not exist");
}

#[test]
fn target_matching() {
    assert!(is_target_type_matching(SyncTargetType::File, false, true, false));
    assert!(!is_target_type_matching(SyncTargetType::File, false, false, true));
    assert!(is_target_type_matching(SyncTargetType::Directory, false, false, true));
    assert!(is_target_type_matching(SyncTargetType::Symlink, true, false, false));
    assert!(!is_target_type_matching(SyncTargetType::Symlink, false, true, false));
}

#[test]
fn sync_target_checks() {
    assert_eq!(check_sync_target(SyncTargetType::File, false, true, false, true), Ok(()));
    assert_eq!(check_sync_target(SyncTargetType::File, false, false, true, true), Err(HandlerFailure::TargetTypeMismatch));
    assert_eq!(check_sync_target(SyncTargetType::Directory, false, false, true, false), Err(HandlerFailure::PathDoesNotExist));
    assert_eq!(check_sync_target(SyncTargetType::Symlink, false, false, true, false), Err(HandlerFailure::TargetTypeMismatch));
}

#[test]
fn message_constructors() {
    let m = SyncRequestMessage::new("/p".to_string(), SyncTargetType::Directory, 4096);
    assert_eq!(m.path, "/p");
    assert_eq!(m.file_type, SyncTargetType::Directory);
    assert_eq!(m.block_size, 4096);

    let m = BlockRequestMessage::new(7, "/f".to_string(), 1024);
    assert_eq!((m.block_idx, m.file_path.as_str(), m.block_size), (7, "/f", 1024));

    let m = BlockDataMessage::new(2, "/f".to_string(), vec![1, 2, 3]);
    assert_eq!((m.block_idx, m.file_path.as_str(), m.block_data), (2, "/f", vec![1, 2, 3]));

    let m = ChecksumsResponseMessage::new(
        vec![FileMeta::new_symlink("/l".to_string(), "/t".to_string())],
        vec![DirMeta::new("/d".to_string(), 1)],
    );
    assert_eq!(m.files.len(), 1);
    assert_eq!(m.files[0].path, "/l");
    assert_eq!(m.directories.len(), 1);
    assert_eq!(m.directories[0].path, "/d");

    let m = ErrorMessage::new("boom".to_string());
    assert_eq!(m.message, "boom");
}

#[test]
fn handler_failure_replies() {
    assert_eq!(failure_reply(HandlerFailure::ReadingRequest), (ErrorReply::InternalServerError, true));
    assert_eq!(failure_reply(HandlerFailure::MalformedSyncRequest), (ErrorReply::MalformedSyncRequest, false));
    assert_eq!(failure_reply(HandlerFailure::MalformedBlockRequest), (ErrorReply::MalformedBlockRequest, true));
    assert_eq!(failure_reply(HandlerFailure::TargetTypeMismatch), (ErrorReply::TargetTypeMismatch, false));
    assert_eq!(failure_reply(HandlerFailure::PathDoesNotExist), (ErrorReply::PathDoesNotExist, false));
    assert_eq!(failure_reply(HandlerFailure::ComputingAnswer), (ErrorReply::InternalServerError, true));
    assert_eq!(failure_reply(HandlerFailure::SerializingAnswer), (ErrorReply::InternalServerError, true));
}

#[test]
fn file_meta_equality() {
    let a = FileMeta::new_symlink("/l".to_string(), "t".to_string());
    let b = FileMeta::new_symlink("/l".to_string(), "t".to_string());
    assert_eq!(a, b);
    assert_ne!(a, FileMeta::new_symlink("/l".to_string(), "u".to_string()));
    assert_eq!(DirMeta::new("/d".to_string(), 1), DirMeta::new("/d".to_string(), 1));
}
