use std::io::{Error, ErrorKind};

use mtcp_rs::{compute_capacity, round_up, ReadAll, ReadAllAction, ReadAllPhase, TcpError, WriteAll, WriteAllAction};

#[test]
fn round_up_values() {
    assert_eq!(round_up(0, 4096), 0);
    assert_eq!(round_up(1, 4096), 4096);
    assert_eq!(round_up(4096, 4096), 4096);
    assert_eq!(round_up(4097, 4096), 8192);
    assert_eq!(round_up(10, 3), 12);
}

#[test]
fn capacity_values() {
    assert_eq!(compute_capacity(0, 4096, None), 4096);
    assert_eq!(compute_capacity(1, 4096, None), 4096);
    assert_eq!(compute_capacity(100, 4096, Some(5000)), 4096);
    assert_eq!(compute_capacity(4096, 4096, None), 8192);
    assert_eq!(compute_capacity(10, 4096, Some(10)), 4096);
    assert_eq!(compute_capacity(20, 4096, Some(10)), 20);
    assert_eq!(compute_capacity(5, 4, Some(6)), 8);
}

#[test]
fn read_all_until_complete() {
    let mut buffer = b"ab".to_vec();
    let mut r = ReadAll::new(buffer.len(), Some(4), None);
    assert!(r.sizes_fit());
    let (start, end) = match r.size(&mut buffer) {
        ReadAllAction::Read { start, end } => (start, end),
        other => panic!("unexpected {:?}", other),
    };
    assert_eq!((start, end), (2, 4));
    assert_eq!(buffer, b"ab\0\0".to_vec());
    buffer[2..4].copy_from_slice(b"cd");
    assert!(matches!(r.read_done(&mut buffer, Ok(2)), ReadAllAction::CheckComplete(4)));
    match r.checked(&mut buffer, false) {
        ReadAllAction::Read { start: 4, end: 8 } => (),
        other => panic!("unexpected {:?}", other),
    }
    buffer[4..7].copy_from_slice(b"efg");
    assert!(matches!(r.read_done(&mut buffer, Ok(3)), ReadAllAction::CheckComplete(7)));
    assert!(matches!(r.checked(&mut buffer, true), ReadAllAction::Finish(Ok(()))));
    assert_eq!(buffer, b"abcdefg".to_vec());
    assert_eq!(r.phase(), ReadAllPhase::Done);
}

#[test]
fn read_all_room_is_at_most_one_chunk() {
    let mut buffer = vec![9u8];
    let mut r = ReadAll::new(1, None, None);
    match r.size(&mut buffer) {
        ReadAllAction::Read { start, end } => {
            assert_eq!(start, 1);
            assert!(end - start <= 4096);
            assert_eq!(end, 4096);
        }
        other => panic!("unexpected {:?}", other),
    }
}

#[test]
fn read_all_end_of_stream_is_incomplete() {
    let mut buffer = Vec::new();
    let mut r = ReadAll::new(0, None, None);
    match r.size(&mut buffer) {
        ReadAllAction::Read { start: 0, end: 4096 } => (),
        other => panic!("unexpected {:?}", other),
    }
    buffer[0] = 7;
    assert!(matches!(r.read_done(&mut buffer, Ok(1)), ReadAllAction::CheckComplete(1)));
    assert!(matches!(r.checked(&mut buffer, false), ReadAllAction::Read { start: 1, end: 4096 }));
    assert!(matches!(r.read_done(&mut buffer, Ok(0)), ReadAllAction::Finish(Err(TcpError::Incomplete))));
    assert_eq!(buffer, vec![7u8]);
}

#[test]
fn read_all_too_big_once_beyond_maximum() {
    let mut buffer = Vec::new();
    let mut r = ReadAll::new(0, None, Some(10));
    assert!(matches!(r.size(&mut buffer), ReadAllAction::Read { start: 0, end: 4096 }));
    assert!(matches!(r.read_done(&mut buffer, Ok(20)), ReadAllAction::CheckComplete(20)));
    assert!(matches!(r.checked(&mut buffer, false), ReadAllAction::Finish(Err(TcpError::TooBig))));
    assert_eq!(buffer.len(), 20);
}

#[test]
fn read_all_at_maximum_reads_on() {
    let mut buffer = Vec::new();
    let mut r = ReadAll::new(0, Some(4), Some(4));
    assert!(matches!(r.size(&mut buffer), ReadAllAction::Read { start: 0, end: 4 }));
    assert!(matches!(r.read_done(&mut buffer, Ok(4)), ReadAllAction::CheckComplete(4)));
    assert!(matches!(r.checked(&mut buffer, false), ReadAllAction::Read { start: 4, end: 8 }));
    assert!(matches!(r.read_done(&mut buffer, Ok(1)), ReadAllAction::CheckComplete(5)));
    assert!(matches!(r.checked(&mut buffer, false), ReadAllAction::Finish(Err(TcpError::TooBig))));
    assert_eq!(buffer.len(), 5);
}

#[test]
fn read_all_complete_beyond_maximum_succeeds() {
    let mut buffer = Vec::new();
    let mut r = ReadAll::new(0, Some(8), Some(4));
    assert!(matches!(r.size(&mut buffer), ReadAllAction::Read { start: 0, end: 8 }));
    assert!(matches!(r.read_done(&mut buffer, Ok(6)), ReadAllAction::CheckComplete(6)));
    assert!(matches!(r.checked(&mut buffer, true), ReadAllAction::Finish(Ok(()))));
    assert_eq!(buffer.len(), 6);
}

#[test]
fn read_all_buffer_already_too_big() {
    let mut buffer = vec![1u8; 12];
    let mut r = ReadAll::new(12, None, Some(10));
    assert!(matches!(r.size(&mut buffer), ReadAllAction::Finish(Err(TcpError::TooBig))));
    assert_eq!(buffer, vec![1u8; 12]);
}

#[test]
fn read_all_failure_cuts_buffer_back() {
    let mut buffer = b"xy".to_vec();
    let mut r = ReadAll::new(2, Some(16), None);
    let _ = r.size(&mut buffer);
    assert_eq!(buffer.len(), 16);
    match r.read_done(&mut buffer, Err(TcpError::TimedOut)) {
        ReadAllAction::Finish(Err(TcpError::TimedOut)) => (),
        other => panic!("unexpected {:?}", other),
    }
    assert_eq!(buffer, b"xy".to_vec());
}

#[test]
fn write_all_in_chunks() {
    let mut w = WriteAll::new(10);
    assert!(matches!(w.begin(), WriteAllAction::Write { start: 0 }));
    assert!(matches!(w.written(Ok(3)), WriteAllAction::Write { start: 3 }));
    assert!(matches!(w.written(Ok(5)), WriteAllAction::Write { start: 8 }));
    assert!(matches!(w.written(Ok(2)), WriteAllAction::Finish(Ok(()))));
    assert!(w.done());
}

#[test]
fn write_all_closed_stream_is_incomplete() {
    let mut w = WriteAll::new(10);
    let _ = w.begin();
    assert!(matches!(w.written(Ok(4)), WriteAllAction::Write { start: 4 }));
    assert!(matches!(w.written(Ok(0)), WriteAllAction::Finish(Err(TcpError::Incomplete))));
}

#[test]
fn write_all_failure_is_passed_through() {
    let mut w = WriteAll::new(10);
    let _ = w.begin();
    match w.written(Err(TcpError::Failed(Error::new(ErrorKind::BrokenPipe, "pipe")))) {
        WriteAllAction::Finish(Err(TcpError::Failed(e))) => assert_eq!(e.kind(), ErrorKind::BrokenPipe),
        other => panic!("unexpected {:?}", other),
    }
}

#[test]
fn write_all_empty_data_is_complete_at_once() {
    let mut w = WriteAll::new(0);
    assert!(matches!(w.begin(), WriteAllAction::Finish(Ok(()))));
    assert!(w.done());
}
