use fd::flags::append_change;
use fd::{finish_unset_append, set_flags, unset_append_flag, AppendChange, OsError};

const APPEND: i32 = libc::O_APPEND;
const WRITE_ONLY: i32 = libc::O_WRONLY;
const NONBLOCK: i32 = libc::O_NONBLOCK;

#[test]
fn append_change_clears_only_the_append_bit() {
    let status = APPEND | WRITE_ONLY | NONBLOCK;
    assert_eq!(
        append_change(status, APPEND),
        AppendChange::Cleared { original: status, cleared: WRITE_ONLY | NONBLOCK }
    );
}

#[test]
fn append_change_without_append_bit_is_unchanged() {
    assert_eq!(append_change(WRITE_ONLY | NONBLOCK, APPEND), AppendChange::Unchanged);
    assert_eq!(append_change(0, APPEND), AppendChange::Unchanged);
}

#[test]
fn unset_append_flag_clears_libc_append_bit() {
    let status = APPEND | WRITE_ONLY;
    assert_eq!(
        unset_append_flag(status, 0),
        Ok(AppendChange::Cleared { original: status, cleared: WRITE_ONLY })
    );
}

#[test]
fn unset_append_flag_is_idempotent() {
    let status = APPEND | WRITE_ONLY;
    let first = unset_append_flag(status, 0).unwrap();
    match first {
        AppendChange::Cleared { original, cleared } => {
            assert_eq!(original, status);
            assert_eq!(cleared & APPEND, 0);
            assert_eq!(unset_append_flag(cleared, 0), Ok(AppendChange::Unchanged));
            assert_eq!(finish_unset_append(first, 0, 0), Ok(Some(status)));
        }
        AppendChange::Unchanged => panic!("the append bit was set"),
    }
}

#[test]
fn unset_append_flag_on_fresh_pipe_writer_is_unchanged() {
    assert_eq!(unset_append_flag(WRITE_ONLY, 0), Ok(AppendChange::Unchanged));
    assert_eq!(finish_unset_append(AppendChange::Unchanged, -1, 5), Ok(None));
}

#[test]
fn unset_append_flag_read_failure() {
    assert_eq!(unset_append_flag(-1, 9), Err(OsError { code: 9 }));
}

#[test]
fn unset_append_flag_write_failure() {
    let change = unset_append_flag(APPEND | WRITE_ONLY, 0).unwrap();
    assert_eq!(finish_unset_append(change, -1, 13), Err(OsError { code: 13 }));
}

#[test]
fn set_flags_outcome() {
    assert_eq!(set_flags(0, 0), Ok(()));
    assert_eq!(set_flags(-1, 22), Err(OsError { code: 22 }));
}
