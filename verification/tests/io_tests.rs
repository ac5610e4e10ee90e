use libruntime::entry::{Entry, SerdeJsonEntry};
use libruntime::error::ErrorType;
use libruntime::fs::{expand_path, join_path, PivotAction, PivotOp, PivotRootfs};
use libruntime::ipc::{
    char_is_white_space, decode_message, ipc_error, target_fd, trim_white_space, write_error, IpcStage,
};

#[test]
fn join_path_like_path_join() {
    assert_eq!(join_path("/tmp", "file.bk"), "/tmp/file.bk");
    assert_eq!(join_path("/tmp/", "file.bk"), "/tmp/file.bk");
    assert_eq!(join_path("/tmp", "/etc"), "/etc");
    assert_eq!(join_path("", "x"), "x");
    let std_joined = std::path::Path::new("/a/b").join("c");
    assert_eq!(join_path("/a/b", "c"), std_joined.to_str().unwrap());
}

#[test]
fn plain_path_expands_to_itself() {
    assert_eq!(expand_path("/some/path").unwrap(), "/some/path");
    assert_eq!(expand_path("relative/p").unwrap(), "relative/p");
}

#[test]
fn unknown_variable_fails_expansion() {
    assert!(expand_path("/x/$LIBRUNTIME_SURELY_UNSET_VARIABLE_42").is_none());
}

fn ok() -> Result<(), String> {
    Ok(())
}

#[test]
fn pivot_runs_four_calls_in_order() {
    let (mut p, a) = PivotRootfs::new("/new".to_string());
    match a {
        PivotAction::Run(PivotOp::ChangeDir(d)) => assert_eq!(d, "/new"),
        _ => panic!("expected chdir"),
    }
    match p.advance(ok()) {
        PivotAction::Run(PivotOp::CreateDirAll(d)) => assert_eq!(d, "/new/old_root"),
        _ => panic!("expected mkdir"),
    }
    match p.advance(ok()) {
        PivotAction::Run(PivotOp::PivotRoot(n, o)) => {
            assert_eq!(n, "/new");
            assert_eq!(o, "/new/old_root");
        },
        _ => panic!("expected pivot_root"),
    }
    match p.advance(ok()) {
        PivotAction::Run(PivotOp::UnmountDetach(d)) => assert_eq!(d, "./old_root"),
        _ => panic!("expected umount"),
    }
    match p.advance(ok()) {
        PivotAction::Finish(r) => assert!(r.is_ok()),
        _ => panic!("expected finish"),
    }
}

#[test]
fn pivot_stops_at_failure() {
    let (mut p, _) = PivotRootfs::new("/new".to_string());
    p.advance(ok());
    p.advance(ok());
    match p.advance(Err("EPERM".to_string())) {
        PivotAction::Finish(Err(m)) => assert_eq!(m, "failed to pivot_root: EPERM"),
        _ => panic!("expected failure"),
    }
    let (mut q, _) = PivotRootfs::new("/r".to_string());
    match q.advance(Err("ENOENT".to_string())) {
        PivotAction::Finish(Err(m)) => assert_eq!(m, "failed to chdir to rootfs: ENOENT"),
        _ => panic!("expected failure"),
    }
}

#[test]
fn pivot_failure_messages() {
    let (mut p, _) = PivotRootfs::new("/r".to_string());
    p.advance(ok());
    match p.advance(Err("EEXIST".to_string())) {
        PivotAction::Finish(Err(m)) => assert_eq!(m, "failed to create old_root path: EEXIST"),
        _ => panic!("expected failure"),
    }
    let (mut q, _) = PivotRootfs::new("/r".to_string());
    q.advance(ok());
    q.advance(ok());
    q.advance(ok());
    match q.advance(Err("EBUSY".to_string())) {
        PivotAction::Finish(Err(m)) => assert_eq!(m, "failed to unmount old_root: EBUSY"),
        _ => panic!("expected failure"),
    }
}

#[test]
fn decode_trims_message() {
    assert_eq!(decode_message(b"  ready\n").unwrap(), "ready");
    assert_eq!(decode_message(b"").unwrap(), "");
    assert_eq!(decode_message(" \t\r\n".as_bytes()).unwrap(), "");
    assert_eq!(decode_message("\u{3000}héllo wörld\u{a0}".as_bytes()).unwrap(), "héllo wörld");
}

#[test]
fn decode_rejects_invalid_utf8() {
    let e = decode_message(&[0x66, 0xff, 0x67]).unwrap_err();
    assert_eq!(e.message, "error while converting byte to string {}");
    assert_eq!(e.error_type, ErrorType::Runtime);
}

#[test]
fn trim_matches_std() {
    for s in ["", "a", "  a b  ", "\u{2028}x\u{85}", "\u{200b}x", "\n\n", "\u{1680}\u{205f}y"] {
        assert_eq!(trim_white_space(s), s.trim());
    }
}

#[test]
fn ipc_error_messages() {
    assert_eq!(ipc_error(IpcStage::CreateSocket).message, "unable to create IPC socket");
    assert_eq!(ipc_error(IpcStage::CreateAddress).message, "unable to create unix socket");
    assert_eq!(ipc_error(IpcStage::Bind).message, "unable to bind IPC socket");
    assert_eq!(ipc_error(IpcStage::Backlog).message, "invalid backlog size");
    assert_eq!(ipc_error(IpcStage::Listen).message, "unable to listen IPC socket");
    assert_eq!(ipc_error(IpcStage::Connect).message, "unable to connect to unix socket");
    assert_eq!(ipc_error(IpcStage::Accept).message, "unable to accept incoming socket");
    assert_eq!(ipc_error(IpcStage::Close).message, "error closing socket");
    assert_eq!(ipc_error(IpcStage::RemoveSocket).message, "error removing socket");
    assert_eq!(ipc_error(IpcStage::Bind).error_type, ErrorType::Runtime);
    assert_eq!(write_error("EPIPE: Broken pipe").message, "unable to write to unix socket EPIPE: Broken pipe");
}

#[test]
fn target_fd_prefers_client() {
    assert_eq!(target_fd(3, None), 3);
    assert_eq!(target_fd(3, Some(7)), 7);
}

#[test]
fn json_entry_normalizes() {
    let mut e = SerdeJsonEntry::new("{ \"b\": 1, \"a\": [true, null] }".to_string());
    assert_eq!(e.get(), "{\"a\":[true,null],\"b\":1}");
    e.set(" 42 ".to_string());
    assert_eq!(e.get(), "42");
}

#[test]
fn json_entry_refuses_invalid_json() {
    assert!(SerdeJsonEntry::parse("{oops".to_string()).is_none());
    let mut e = SerdeJsonEntry::parse("\"x\"".to_string()).unwrap();
    assert_eq!(e.get(), "\"x\"");
    assert!(!e.try_set("[1,".to_string()));
    assert_eq!(e.get(), "\"x\"");
    assert!(e.try_set("[1, 2]".to_string()));
    assert_eq!(e.get(), "[1,2]");
}

#[test]
fn trim_is_idempotent() {
    for s in ["  x y  ", "\u{3000}\u{2029}", "abc", "\t a \t b \n"] {
        let once = trim_white_space(s);
        assert_eq!(trim_white_space(&once), once);
    }
}

#[test]
fn white_space_chars() {
    for c in ['\t', '\n', '\u{b}', '\u{c}', '\r', ' ', '\u{85}', '\u{a0}', '\u{1680}', '\u{2000}', '\u{200a}', '\u{2028}', '\u{2029}', '\u{202f}', '\u{205f}', '\u{3000}'] {
        assert!(char_is_white_space(c));
        assert!(c.is_whitespace());
    }
    for c in ['a', '\u{200b}', '\u{feff}', '_', '\u{180e}'] {
        assert!(!char_is_white_space(c));
        assert_eq!(c.is_whitespace(), false);
    }
}

#[test]
fn tilde_user_path_is_plain() {
    assert_eq!(expand_path("~other/x").unwrap(), "~other/x");
}

#[test]
fn home_path_always_expands() {
    let r = expand_path("~/x").unwrap();
    assert!(r.ends_with("/x"));
    assert!(expand_path("~").is_some());
}

#[test]
fn absolute_path_expands_to_itself() {
    let once = expand_path("/var/lib/balaeno").unwrap();
    assert_eq!(once, "/var/lib/balaeno");
    assert_eq!(expand_path(&once).unwrap(), once);
}
