use vstd::prelude::*;

use crate::error::{check_ret, OsError};

verus! {

/// A raw file descriptor together with the decision whether it must be
/// closed when its holder is done with it.
#[derive(Debug)]
pub struct FileDesc {
    fd: i32,
    close_on_drop: bool,
}

impl FileDesc {
    /// The raw descriptor number.
    pub closed spec fn raw(&self) -> i32 {
        self.fd
    }

    /// Whether the descriptor is closed at the end of this value's lifetime.
    pub closed spec fn owns(&self) -> bool {
        self.close_on_drop
    }

    /// The same descriptor, with no duty to close it left.
    pub closed spec fn disowned(&self) -> FileDesc {
        FileDesc { fd: self.fd, close_on_drop: false }
    }

    /// What the end of this value's lifetime has to close.
    pub open spec fn pending_close(&self) -> Option<i32> {
        if self.owns() {
            Some(self.raw())
        } else {
            None
        }
    }

    /// Wraps `fd`; with `close_on_drop` the descriptor is closed when the
    /// value's lifetime ends.
    pub fn new(fd: i32, close_on_drop: bool) -> (r: FileDesc)
        ensures
            r.raw() == fd,
            r.owns() == close_on_drop,
    {
        FileDesc { fd: fd, close_on_drop: close_on_drop }
    }

    /// The raw descriptor, ownership unchanged.
    pub fn as_raw_fd(&self) -> (r: i32)
        ensures
            r == self.raw(),
    {
        self.fd
    }

    /// Whether this value closes its descriptor when its lifetime ends.
    pub fn close_on_drop(&self) -> (r: bool)
        ensures
            r == self.owns(),
    {
        self.close_on_drop
    }

    /// Gives up ownership and hands out the raw descriptor: the caller is
    /// now responsible for closing it.
    pub fn into_raw_fd(self) -> (r: i32)
        ensures
            r == self.raw(),
    {
        let mut d = self;
        d.release()
    }

    /// Gives up ownership in place and returns the raw descriptor; nothing is
    /// closed for this value afterwards.
    pub fn release(&mut self) -> (r: i32)
        ensures
            r == old(self).raw(),
            *final(self) == old(self).disowned(),
            final(self).raw() == old(self).raw(),
            !final(self).owns(),
    {
        self.close_on_drop = false;
        self.fd
    }

    /// Ends the duty to close: returns the descriptor to close if this value
    /// owned it, and leaves nothing to close behind.
    pub fn take_close(&mut self) -> (r: Option<i32>)
        ensures
            r == old(self).pending_close(),
            *final(self) == old(self).disowned(),
            final(self).raw() == old(self).raw(),
            !final(self).owns(),
    {
        let r = if self.close_on_drop {
            Some(self.fd)
        } else {
            None
        };
        self.close_on_drop = false;
        r
    }

    /// Builds the duplicate of this descriptor from what `dup(2)` returned
    /// (`ret`, and `errno` when `ret` is `-1`). The duplicate keeps the
    /// ownership policy of the original.
    pub fn dup(&self, ret: i32, errno: i32) -> (r: Result<FileDesc, OsError>)
        ensures
            ret == -1 ==> r == Err::<FileDesc, OsError>(OsError { code: errno }),
            ret != -1 ==> r is Ok && r->Ok_0.raw() == ret && r->Ok_0.owns() == self.owns(),
    {
        match check_ret(ret, errno) {
            Ok(n) => Ok(FileDesc { fd: n, close_on_drop: self.close_on_drop }),
            Err(e) => Err(e),
        }
    }
}

/// An owned descriptor is closed exactly once: the end of its lifetime
/// closes it, and once that duty is discharged no later ending closes it
/// again.
pub proof fn lemma_close_exactly_once(d: FileDesc)
    requires
        d.owns(),
    ensures
        d.pending_close() == Some(d.raw()),
        d.disowned().pending_close() is None,
        d.disowned().disowned() == d.disowned(),
{
}

/// Releasing ownership before the end of the lifetime leaves nothing to
/// close, whatever the ownership was before.
pub proof fn lemma_release_prevents_close(d: FileDesc)
    ensures
        d.disowned().raw() == d.raw(),
        d.disowned().pending_close() is None,
{
}

} // verus!
