use fd::error::check_ret;
use fd::pipe::O_CLOEXEC;
use fd::{FileDesc, OsError, Pipe};

#[test]
fn new_keeps_descriptor_and_policy() {
    let d = FileDesc::new(7, true);
    assert_eq!(d.as_raw_fd(), 7);
    assert!(d.close_on_drop());
    let e = FileDesc::new(3, false);
    assert_eq!(e.as_raw_fd(), 3);
    assert!(!e.close_on_drop());
}

#[test]
fn owned_descriptor_is_closed_exactly_once() {
    let mut d = FileDesc::new(9, true);
    assert_eq!(d.take_close(), Some(9));
    assert_eq!(d.take_close(), None);
    assert_eq!(d.take_close(), None);
    assert_eq!(d.as_raw_fd(), 9);
}

#[test]
fn borrowed_descriptor_is_never_closed() {
    let mut d = FileDesc::new(4, false);
    assert_eq!(d.take_close(), None);
}

#[test]
fn release_prevents_close() {
    let mut d = FileDesc::new(12, true);
    assert_eq!(d.release(), 12);
    assert!(!d.close_on_drop());
    assert_eq!(d.take_close(), None);
}

#[test]
fn into_raw_fd_hands_out_descriptor() {
    let d = FileDesc::new(21, true);
    assert_eq!(d.into_raw_fd(), 21);
}

#[test]
fn dup_keeps_ownership_policy() {
    let owned = FileDesc::new(5, true);
    let copy = owned.dup(8, 0).unwrap();
    assert_eq!(copy.as_raw_fd(), 8);
    assert!(copy.close_on_drop());
    let borrowed = FileDesc::new(5, false);
    let copy = borrowed.dup(10, 0).unwrap();
    assert_eq!(copy.as_raw_fd(), 10);
    assert!(!copy.close_on_drop());
}

#[test]
fn dup_survives_closing_the_original() {
    let mut original = FileDesc::new(5, true);
    let mut copy = original.dup(6, 0).unwrap();
    assert_eq!(original.take_close(), Some(5));
    assert_eq!(copy.as_raw_fd(), 6);
    assert_eq!(copy.take_close(), Some(6));
}

#[test]
fn dup_failure_reports_errno() {
    let d = FileDesc::new(5, true);
    let r = d.dup(-1, 24);
    assert!(matches!(r, Err(OsError { code: 24 })));
}

#[test]
fn check_ret_splits_on_minus_one() {
    assert_eq!(check_ret(-1, 9), Err(OsError { code: 9 }));
    assert_eq!(check_ret(0, 9), Ok(0));
    assert_eq!(check_ret(17, 9), Ok(17));
    assert_eq!(check_ret(-2, 9), Ok(-2));
}

#[test]
fn pipe_ends_are_owned() {
    let p = Pipe::new(0, 0, 3, 4).unwrap();
    assert_eq!(p.reader.as_raw_fd(), 3);
    assert_eq!(p.writer.as_raw_fd(), 4);
    assert!(p.reader.close_on_drop());
    assert!(p.writer.close_on_drop());
}

#[test]
fn pipe_failure_reports_errno() {
    let r = Pipe::new(-1, 23, -1, -1);
    assert!(matches!(r, Err(OsError { code: 23 })));
}

#[test]
fn pipe_is_created_close_on_exec() {
    assert_eq!(Pipe::creation_flags(), O_CLOEXEC);
    assert_eq!(O_CLOEXEC, 0o2000000);
}
