use std::sync::Arc;

use fuchsia_vfs::rio::{
    decode, decode_reply, encode_reply, status_reply, ProtocolError, ERR_INTERNAL, ERR_INVALID_ARGS,
    ERR_NOT_SUPPORTED, FDIO_PROTOCOL_REMOTE, NO_ERROR, O_PIPELINE, ZXRIO_HDR_SZ, ZXRIO_OPEN,
    ZXRIO_STAT,
};
use fuchsia_vfs::vfs::{
    open_outcome, route, EmptyVfs, split_open_flags, Connection, Effect, OpenError, RemoteNode,
    ReplyTarget, Resolved, Route, Vfs, Vnode,
};

const ERR_NOT_FOUND: i32 = -25;

fn request(op: u32, datalen: u32, arg: i32, mode: u32, data: &[u8]) -> Vec<u8> {
    let mut b = Vec::new();
    b.extend_from_slice(&7u32.to_le_bytes());
    b.extend_from_slice(&op.to_le_bytes());
    b.extend_from_slice(&datalen.to_le_bytes());
    b.extend_from_slice(&arg.to_le_bytes());
    b.extend_from_slice(&mode.to_le_bytes());
    b.resize(ZXRIO_HDR_SZ, 0);
    b.extend_from_slice(data);
    b
}

/// Resolves "/foo/" and nothing else.
struct FooFs;

impl Vfs for FooFs {
    type Node = RemoteNode;

    fn resolves(&self) -> bool {
        true
    }

    fn open(
        &self,
        _from: &RemoteNode,
        path: &Vec<u8>,
        _flags: i32,
        _mode: u32,
    ) -> Result<(RemoteNode, Vec<u8>), i32> {
        if path.as_slice() == b"/foo/" {
            Ok((RemoteNode {}, Vec::new()))
        } else {
            Err(ERR_NOT_FOUND)
        }
    }
}


fn reply_of(e: &Effect) -> (ReplyTarget, i32, u32, usize) {
    match e {
        Effect::Reply { target, bytes, handles } => {
            let (status, proto, extra) = decode_reply(bytes).expect("reply envelope");
            assert!(extra.is_empty());
            (*target, status, proto, *handles)
        }
        other => panic!("expected a reply, got {:?}", other),
    }
}

#[test]
fn open_foo_replies_with_protocol_on_child() {
    let conn = Connection::new(Arc::new(FooFs), RemoteNode {});
    let msg = request(ZXRIO_OPEN, 5, 0, 0, b"/foo/");
    let d = conn.dispatch(&msg, 1);
    assert!(d.alive);
    assert_eq!(d.effects.len(), 2);
    assert_eq!(reply_of(&d.effects[0]), (ReplyTarget::Child, 0, 2, 0));
    assert!(matches!(d.effects[1], Effect::Serve { flags: 0 }));
    assert!(d.node.is_some());
    assert_eq!(d.opened, Some(Ok(())));
}

#[test]
fn stat_is_not_supported_and_connection_lives() {
    let conn = Connection::new(Arc::new(FooFs), RemoteNode {});
    let msg = request(ZXRIO_STAT, 0, 0, 0, b"");
    let d = conn.dispatch(&msg, 0);
    assert!(d.alive);
    assert_eq!(d.effects.len(), 1);
    assert_eq!(reply_of(&d.effects[0]), (ReplyTarget::Connection, ERR_NOT_SUPPORTED, 0, 0));
    assert!(d.node.is_none());
    assert_eq!(d.opened, None);
}

#[test]
fn open_with_empty_path_is_refused_on_child() {
    let conn = Connection::new(Arc::new(FooFs), RemoteNode {});
    let msg = request(ZXRIO_OPEN, 0, 0, 0, b"");
    let d = conn.dispatch(&msg, 1);
    assert!(d.alive);
    assert_eq!(d.effects.len(), 2);
    assert_eq!(reply_of(&d.effects[0]), (ReplyTarget::Child, ERR_INVALID_ARGS, 0, 0));
    assert!(matches!(d.effects[1], Effect::CloseChild));
    assert_eq!(d.opened, None);
}

#[test]
fn open_with_overlong_path_is_refused_on_child() {
    let conn = Connection::new(Arc::new(FooFs), RemoteNode {});
    let path = vec![b'a'; 4097];
    let msg = request(ZXRIO_OPEN, 4097, 0, 0, &path);
    let d = conn.dispatch(&msg, 1);
    assert!(d.alive);
    assert_eq!(reply_of(&d.effects[0]), (ReplyTarget::Child, ERR_INVALID_ARGS, 0, 0));
}

#[test]
fn open_of_unknown_path_reports_status_on_child() {
    let conn = Connection::new(Arc::new(FooFs), RemoteNode {});
    let msg = request(ZXRIO_OPEN, 4, 0, 0, b"/bar");
    let d = conn.dispatch(&msg, 1);
    assert!(d.alive);
    assert_eq!(d.effects.len(), 2);
    assert_eq!(reply_of(&d.effects[0]), (ReplyTarget::Child, ERR_NOT_FOUND, 0, 0));
    assert!(matches!(d.effects[1], Effect::CloseChild));
    assert!(d.node.is_none());
    assert_eq!(d.opened, Some(Err(OpenError::Status(ERR_NOT_FOUND))));
}

#[test]
fn pipelined_open_failure_closes_child_silently() {
    let conn = Connection::new(Arc::new(FooFs), RemoteNode {});
    let msg = request(ZXRIO_OPEN, 4, O_PIPELINE, 0, b"/bar");
    let d = conn.dispatch(&msg, 1);
    assert!(d.alive);
    assert_eq!(d.effects.len(), 1);
    assert!(matches!(d.effects[0], Effect::CloseChild));
    assert_eq!(d.opened, Some(Err(OpenError::Status(ERR_NOT_FOUND))));
}

#[test]
fn pipelined_open_serves_without_reply() {
    let conn = Connection::new(Arc::new(FooFs), RemoteNode {});
    let msg = request(ZXRIO_OPEN, 5, O_PIPELINE | 3, 0, b"/foo/");
    let d = conn.dispatch(&msg, 1);
    assert_eq!(d.effects.len(), 1);
    assert!(matches!(d.effects[0], Effect::Serve { flags: 3 }));
    assert_eq!(d.opened, Some(Ok(())));
}

#[test]
fn default_filesystem_resolves_nothing() {
    let conn = Connection::new(Arc::new(EmptyVfs {}), RemoteNode {});
    let msg = request(ZXRIO_OPEN, 5, 0, 0, b"/foo/");
    let d = conn.dispatch(&msg, 1);
    assert_eq!(reply_of(&d.effects[0]), (ReplyTarget::Child, ERR_NOT_SUPPORTED, 0, 0));
}

#[test]
fn malformed_message_ends_connection() {
    let conn = Connection::new(Arc::new(FooFs), RemoteNode {});
    let msg = request(ZXRIO_OPEN, 6, 0, 0, b"/foo/");
    let d = conn.dispatch(&msg, 1);
    assert!(!d.alive);
    assert_eq!(d.effects.len(), 1);
    assert_eq!(reply_of(&d.effects[0]), (ReplyTarget::Connection, ERR_INVALID_ARGS, 0, 0));
}

#[test]
fn open_without_handle_ends_connection() {
    let conn = Connection::new(Arc::new(FooFs), RemoteNode {});
    let msg = request(ZXRIO_OPEN, 5, 0, 0, b"/foo/");
    let d = conn.dispatch(&msg, 0);
    assert!(!d.alive);
    assert_eq!(reply_of(&d.effects[0]), (ReplyTarget::Connection, ERR_INVALID_ARGS, 0, 0));
}

#[test]
fn decode_reads_header_fields() {
    let msg = request(ZXRIO_OPEN, 5, -3, 0o755, b"/foo/");
    let m = decode(&msg, 1).expect("valid");
    assert_eq!(m.txid, 7);
    assert_eq!(m.op, ZXRIO_OPEN);
    assert_eq!(m.datalen, 5);
    assert_eq!(m.arg, -3);
    assert_eq!(m.arg2, 0o755);
    assert_eq!(m.data, b"/foo/".to_vec());
}

#[test]
fn decode_refuses_short_message() {
    let msg = vec![0u8; ZXRIO_HDR_SZ - 1];
    assert!(matches!(decode(&msg, 0), Err(ProtocolError::Truncated)));
}

#[test]
fn decode_refuses_length_mismatch() {
    for declared in [0u32, 4, 6, 100] {
        let msg = request(ZXRIO_STAT, declared, 0, 0, b"/foo/");
        assert!(matches!(decode(&msg, 0), Err(ProtocolError::Malformed)));
    }
}

#[test]
fn decode_refuses_oversized_message() {
    let data = vec![0u8; 8192];
    let msg = request(ZXRIO_STAT, 8192, 0, 0, &data);
    assert!(matches!(decode(&msg, 0), Err(ProtocolError::Malformed)));
}

#[test]
fn decode_refuses_handle_mismatch() {
    let msg = request(ZXRIO_OPEN, 5, 0, 0, b"/foo/");
    assert!(matches!(decode(&msg, 2), Err(ProtocolError::HandleMismatch)));
    let stat = request(ZXRIO_STAT, 0, 0, 0, b"");
    assert!(matches!(decode(&stat, 1), Err(ProtocolError::HandleMismatch)));
    assert!(matches!(decode(&stat, 4), Err(ProtocolError::HandleMismatch)));
}

#[test]
fn encode_reply_layout() {
    let r = encode_reply(-10, 2, &[9, 8, 7], 0).expect("fits");
    assert_eq!(r, vec![0xF6, 0xFF, 0xFF, 0xFF, 2, 0, 0, 0, 9, 8, 7]);
}

#[test]
fn encode_reply_refuses_large_extra() {
    let extra = [0u8; 33];
    assert!(matches!(encode_reply(0, 2, &extra, 0), Err(ProtocolError::ExtraTooLarge)));
    assert!(encode_reply(0, 2, &extra[..32], 0).is_ok());
}

#[test]
fn encode_reply_refuses_too_many_handles() {
    assert!(matches!(encode_reply(0, 2, &[], 4), Err(ProtocolError::TooManyHandles)));
    assert!(encode_reply(0, 2, &[], 3).is_ok());
}

#[test]
fn reply_round_trip() {
    for (s, p, e) in [
        (0i32, 2u32, vec![]),
        (-40, 0, vec![1u8, 2, 3]),
        (i32::MIN, u32::MAX, vec![0xAB; 32]),
        (i32::MAX, 5, vec![0]),
    ] {
        let bytes = encode_reply(s, p, &e, 0).expect("fits");
        assert_eq!(decode_reply(&bytes), Some((s, p, e)));
    }
}

#[test]
fn decode_reply_refuses_bad_length() {
    assert_eq!(decode_reply(&[0u8; 7]), None);
    assert_eq!(decode_reply(&[0u8; 41]), None);
}

#[test]
fn status_reply_bytes() {
    assert_eq!(status_reply(-2), vec![0xFE, 0xFF, 0xFF, 0xFF, 0, 0, 0, 0]);
}

#[test]
fn split_flags() {
    assert_eq!(split_open_flags(O_PIPELINE | 0x41), (true, 0x41));
    assert_eq!(split_open_flags(0x41), (false, 0x41));
}

#[test]
fn route_open_extracts_path_and_mode() {
    let msg = request(ZXRIO_OPEN, 5, 1, 0o644, b"/foo/");
    match route(&msg, 1) {
        Route::Open { path, flags, mode } => {
            assert_eq!(path, b"/foo/".to_vec());
            assert_eq!(flags, 1);
            assert_eq!(mode, 0o644);
        }
        other => panic!("unexpected {:?}", other),
    }
}

#[test]
fn plain_open_replies_once_before_serve() {
    let (effects, result) =
        open_outcome(false, 0, Ok(Resolved { proto: FDIO_PROTOCOL_REMOTE, extra_handles: 1 }));
    assert_eq!(result, Ok(()));
    assert_eq!(effects.len(), 2);
    assert_eq!(reply_of(&effects[0]), (ReplyTarget::Child, NO_ERROR, 2, 1));
    assert!(matches!(effects[1], Effect::Serve { flags: 0 }));
}

#[test]
fn pipelined_open_without_handles_is_silent() {
    let (effects, result) = open_outcome(true, 4, Ok(Resolved { proto: 2, extra_handles: 0 }));
    assert_eq!(result, Ok(()));
    assert_eq!(effects.len(), 1);
    assert!(matches!(effects[0], Effect::Serve { flags: 4 }));
}

#[test]
fn pipelined_open_with_handles_closes_node_once() {
    let (effects, result) = open_outcome(true, 0, Ok(Resolved { proto: 2, extra_handles: 2 }));
    assert_eq!(result, Err(OpenError::InvalidInput));
    let closes = effects.iter().filter(|e| matches!(e, Effect::CloseNode)).count();
    assert_eq!(closes, 1);
    assert!(!effects.iter().any(|e| matches!(e, Effect::Serve { .. })));
}

#[test]
fn close_of_plain_node_always_succeeds() {
    let n = RemoteNode {};
    for _ in 0..3 {
        assert_eq!(n.close(), NO_ERROR);
    }
    assert_eq!(n.protocol(), FDIO_PROTOCOL_REMOTE);
    assert_eq!(n.extra_handles(), 0);
}

#[test]
fn plain_open_with_too_many_handles_fails() {
    let (effects, result) = open_outcome(false, 0, Ok(Resolved { proto: 2, extra_handles: 4 }));
    assert_eq!(result, Err(OpenError::TooManyHandles));
    assert_eq!(effects.len(), 3);
    assert!(matches!(effects[0], Effect::CloseNode));
    assert_eq!(reply_of(&effects[1]), (ReplyTarget::Child, ERR_INVALID_ARGS, 0, 0));
    assert!(matches!(effects[2], Effect::CloseChild));
}

#[test]
fn failure_with_success_status_is_reported_as_error() {
    let (effects, result) = open_outcome(false, 0, Err(NO_ERROR));
    assert_eq!(result, Err(OpenError::Status(ERR_INTERNAL)));
    assert_eq!(reply_of(&effects[0]), (ReplyTarget::Child, ERR_INTERNAL, 0, 0));
}

#[test]
fn empty_filesystem_refuses_every_path() {
    let fs = EmptyVfs {};
    for path in [b"/".to_vec(), b"/foo/".to_vec(), b"x".to_vec()] {
        assert!(matches!(fs.open(&RemoteNode {}, &path, 0, 0), Err(ERR_NOT_SUPPORTED)));
    }
}
