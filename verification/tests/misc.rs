use std::io::{Error, ErrorKind};
use std::rc::Rc;

use mtcp_rs::{always, BufferManager, IoErrorKind, CancelFlag, LazyCell, TcpError, TokenCounter, SHUTDOWN_TOKEN};

#[test]
fn always_is_true() {
    assert!(always(()));
    assert!(always(17u32));
}

#[test]
fn error_messages() {
    assert_eq!(TcpError::Cancelled.message(), "The TCP socket operation was cancelled!");
    assert_eq!(TcpError::TimedOut.message(), "The TCP socket operation timed out!");
    assert_eq!(TcpError::Incomplete.message(), "The TCP socket operation is incomplete!");
    assert_eq!(TcpError::TooBig.message(), "The TCP socket operation aborted, data is too big!");
    assert_eq!(TcpError::Failed(Error::new(ErrorKind::Other, "boom")).message(), "boom");
}

#[test]
fn tokens_count_up() {
    let mut c = TokenCounter::new();
    assert_eq!(c.token(), 0);
    assert_eq!(c.token(), 1);
    assert_eq!(c.token(), 2);
}

#[test]
fn shutdown_token_is_never_handed_out() {
    assert_eq!(SHUTDOWN_TOKEN, usize::MAX);
    let mut c = TokenCounter::new();
    let mut last = c.token();
    for _ in 0..1000 {
        let t = c.token();
        assert_ne!(t, SHUTDOWN_TOKEN);
        assert_ne!(t, last);
        last = t;
    }
}

#[test]
fn lazy_cell_initialises_once() {
    let mut cell: LazyCell<u32> = LazyCell::empty();
    let failed: Result<Rc<u32>, &str> = cell.or_init_with(|| Err("no"));
    assert_eq!(failed, Err("no"));
    let first: Result<Rc<u32>, &str> = cell.or_init_with(|| Ok(Rc::new(5)));
    assert_eq!(*first.unwrap(), 5);
    let second: Result<Rc<u32>, &str> = cell.or_init_with(|| Ok(Rc::new(6)));
    assert_eq!(*second.unwrap(), 5);
}

#[test]
fn buffer_manager_commits_within_limit() {
    let mut data = b"ab".to_vec();
    {
        let mut m = BufferManager::from(&mut data, Some(5));
        assert_eq!(m.valid_data(), b"ab");
        let spare = m.alloc_spare_buffer(4);
        assert!(spare.len() >= 4);
        spare[..3].copy_from_slice(b"cde");
        assert!(m.commit(3).is_ok());
        assert_eq!(m.valid_data(), b"abcde");
        let spare = m.alloc_spare_buffer(1);
        spare[0] = b'f';
        let err = m.commit(1).unwrap_err();
        assert_eq!(err.kind, IoErrorKind::OutOfMemory);
        assert_eq!(err.error.kind(), ErrorKind::OutOfMemory);
        assert_eq!(m.valid_data(), b"abcde");
        assert!(m.commit(0).is_ok());
    }
    assert_eq!(data, b"abcde".to_vec());
}

#[test]
fn buffer_manager_without_limit() {
    let mut data = Vec::new();
    let mut m = BufferManager::from(&mut data, None);
    let spare = m.alloc_spare_buffer(2);
    spare[..2].copy_from_slice(b"hi");
    assert!(m.commit(2).is_ok());
    assert_eq!(m.valid_data(), b"hi");
}

#[test]
fn cancel_flag_raise_and_clear() {
    let f = CancelFlag::new();
    assert!(!f.check());
    assert!(f.raise());
    assert!(f.check());
    assert!(!f.raise());
    assert!(f.clear());
    assert!(!f.check());
    assert!(!f.clear());
}

#[test]
fn buffer_manager_commit_beyond_limit_without_room() {
    let mut v: Vec<u8> = Vec::with_capacity(16);
    let mut bm = BufferManager::from(&mut v, Some(4));
    assert!(bm.commit(0).is_ok());
    let err = bm.commit(5).unwrap_err();
    assert_eq!(err.kind, IoErrorKind::OutOfMemory);
    assert_eq!(err.error.kind(), ErrorKind::OutOfMemory);
    assert!(bm.valid_data().is_empty());
}

#[test]
fn buffer_manager_sequence_of_commits() {
    let mut data = b"x".to_vec();
    {
        let mut m = BufferManager::from(&mut data, Some(6));
        m.alloc_spare_buffer(2)[..2].copy_from_slice(b"ab");
        assert!(m.commit(2).is_ok());
        m.alloc_spare_buffer(9)[..9].copy_from_slice(b"123456789");
        assert!(m.commit(9).is_err());
        m.alloc_spare_buffer(3)[..3].copy_from_slice(b"cde");
        assert!(m.commit(3).is_ok());
        assert_eq!(m.valid_data(), b"xabcde");
    }
    assert_eq!(data, b"xabcde".to_vec());
}

#[test]
fn manager_without_flag_is_not_cancelled() {
    assert!(!mtcp_rs::manager_cancelled(None));
    assert!(!mtcp_rs::manager_cancelled(Some(false)));
    assert!(mtcp_rs::manager_cancelled(Some(true)));
}

#[test]
fn manager_restart_outcomes() {
    assert!(matches!(mtcp_rs::manager_restart(None), Ok(false)));
    assert!(matches!(mtcp_rs::manager_restart(Some(Ok(true))), Ok(true)));
    assert!(matches!(mtcp_rs::manager_restart(Some(Ok(false))), Ok(false)));
    let err = mtcp_rs::manager_restart(Some(Err(Error::new(ErrorKind::BrokenPipe, "w")))).unwrap_err();
    assert_eq!(err.kind(), ErrorKind::BrokenPipe);
}

#[test]
fn fresh_counter_hands_out_index() {
    let mut c = TokenCounter::new();
    for i in 0..100usize {
        assert_eq!(c.token(), i);
    }
}
