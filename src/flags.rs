use vstd::prelude::*;

use crate::error::{check_ret, OsError};

verus! {

/// What clearing the append mode asks for, given a descriptor's status flags.
#[derive(Debug, Clone, Copy, PartialEq, Eq, Structural)]
pub enum AppendChange {
    /// The append bit is not set: nothing to write, nothing to restore.
    Unchanged,
    /// Write `cleared` as the new status flags; `original` restores them.
    Cleared { original: i32, cleared: i32 },
}

/// Whether `b` is a single bit of a flag word.
pub open spec fn is_flag_bit(b: i32) -> bool {
    b > 0 && b & ((b - 1) as i32) == 0
}

/// The change that clears the bit `append` from the status flags `status`,
/// all other flags left as they are.
pub open spec fn append_change_of(status: i32, append: i32) -> AppendChange {
    if status & append == 0 {
        AppendChange::Unchanged
    } else {
        AppendChange::Cleared { original: status, cleared: status & !append }
    }
}

/// The append bit of the status flags, as libc defines it for the target.
/// The argument selects nothing; it is always 0.
pub uninterp spec fn append_bit_of(unused: int) -> i32;

/// Relies on libc::O_APPEND, the append bit of the status flags: one
/// compile-time constant, a single bit on every platform libc describes.
#[verifier::external_body]
fn append_bit() -> (r: i32)
    ensures
        r == append_bit_of(0),
        is_flag_bit(r),
{
    libc::O_APPEND
}

/// Computes the change that clears the bit `append` from `status`.
pub fn append_change(status: i32, append: i32) -> (r: AppendChange)
    ensures
        r == append_change_of(status, append),
{
    if status & append == 0 {
        AppendChange::Unchanged
    } else {
        AppendChange::Cleared { original: status, cleared: status & !append }
    }
}

/// Decides how to leave append mode from what `fcntl(fd, F_GETFL)` returned
/// (`ret`, and `errno` when `ret` is `-1`). A failed read is an error; an
/// unset append bit asks for nothing; otherwise the flags without the append
/// bit are to be written, and the original flags are kept for a later
/// restore.
pub fn unset_append_flag(ret: i32, errno: i32) -> (r: Result<AppendChange, OsError>)
    ensures
        ret == -1 ==> r == Err::<AppendChange, OsError>(OsError { code: errno }),
        ret != -1 ==> r == Ok::<AppendChange, OsError>(append_change_of(ret, append_bit_of(0))),
{
    match check_ret(ret, errno) {
        Ok(status) => {
            let a = append_bit();
            Ok(append_change(status, a))
        },
        Err(e) => Err(e),
    }
}

/// What leaving append mode returns once the change is carried out: no
/// change gives `None` and writes nothing (`set_ret` is not looked at); a
/// cleared append bit gives the original flags if the write of the cleared
/// flags succeeded (`set_ret` from `fcntl(fd, F_SETFL, ..)`, and `errno` when
/// it is `-1`), and the write's error otherwise.
pub open spec fn append_outcome_of(change: AppendChange, set_ret: i32, errno: i32) -> Result<Option<i32>, OsError> {
    match change {
        AppendChange::Unchanged => Ok(None),
        AppendChange::Cleared { original, .. } => {
            if set_ret == -1 {
                Err(OsError { code: errno })
            } else {
                Ok(Some(original))
            }
        },
    }
}

/// Completes leaving append mode from the outcome of writing the cleared
/// flags.
pub fn finish_unset_append(change: AppendChange, set_ret: i32, errno: i32) -> (r: Result<Option<i32>, OsError>)
    ensures
        r == append_outcome_of(change, set_ret, errno),
{
    match change {
        AppendChange::Unchanged => Ok(None),
        AppendChange::Cleared { original, .. } => {
            match set_flags(set_ret, errno) {
                Ok(()) => Ok(Some(original)),
                Err(e) => Err(e),
            }
        },
    }
}

/// The outcome of writing the status flags from what `fcntl(fd, F_SETFL, ..)`
/// returned (`ret`, and `errno` when `ret` is `-1`).
pub fn set_flags(ret: i32, errno: i32) -> (r: Result<(), OsError>)
    ensures
        ret == -1 ==> r == Err::<(), OsError>(OsError { code: errno }),
        ret != -1 ==> r is Ok,
{
    match check_ret(ret, errno) {
        Ok(_) => Ok(()),
        Err(e) => Err(e),
    }
}

/// Clearing the append mode is idempotent: the cleared flags ask for no
/// change a second time and keep every other flag; a successful write hands
/// back the original flags, so writing them again restores the append bit
/// exactly as it was.
pub proof fn lemma_unset_append_idempotent(status: i32, append: i32, set_ret: i32, errno: i32)
    requires
        set_ret != -1,
    ensures
        append_change_of(status, append) matches AppendChange::Cleared { original, cleared }
            ==> append_change_of(cleared, append) == AppendChange::Unchanged
                && cleared & !append == status & !append
                && append_outcome_of(append_change_of(status, append), set_ret, errno) == Ok::<Option<i32>, OsError>(Some(status)),
        append_change_of(status, append) is Unchanged
            ==> status & append == 0 && append_outcome_of(append_change_of(status, append), set_ret, errno) == Ok::<Option<i32>, OsError>(None),
{
    let cleared = status & !append;
    assert(cleared & append == 0) by (bit_vector)
        requires cleared == status & !append;
    assert(cleared & !append == status & !append) by (bit_vector)
        requires cleared == status & !append;
}

/// Leaving append mode twice in a row: the flags written by the first call
/// are a valid status word, and reading them back asks for no change.
pub proof fn lemma_unset_append_twice(status: i32)
    ensures
        append_change_of(status, append_bit_of(0)) matches AppendChange::Cleared { cleared, .. }
            ==> cleared != -1 && append_change_of(cleared, append_bit_of(0)) == AppendChange::Unchanged,
{
    let a = append_bit_of(0);
    let cleared = status & !a;
    if status & a != 0 {
        assert(cleared & a == 0) by (bit_vector)
            requires cleared == status & !a;
        assert(cleared != -1) by (bit_vector)
            requires cleared == status & !a, status & a != 0;
    }
}

} // verus!
