use vstd::prelude::*;

use crate::desc::FileDesc;
use crate::error::OsError;

verus! {

/// The close-on-exec flag for `pipe2(2)`, from asm-generic/fcntl.h: it is set
/// as the pipe is created, never by a separate call.
pub const O_CLOEXEC: i32 = 0o2000000;

/// The two ends of one pipe, each owned and closed when its holder is done.
#[derive(Debug)]
pub struct Pipe {
    pub reader: FileDesc,
    pub writer: FileDesc,
}

impl Pipe {
    /// The flag word to create a pipe with: close-on-exec, so that neither end
    /// leaks into a program started by `exec`.
    pub fn creation_flags() -> (r: i32)
        ensures
            r == O_CLOEXEC,
    {
        O_CLOEXEC
    }

    /// Builds the pipe from what `pipe2(2)` returned: `ret` (zero on success),
    /// `errno` on failure, and the read and write ends it filled in. Both
    /// ends are owned.
    pub fn new(ret: i32, errno: i32, reader: i32, writer: i32) -> (r: Result<Pipe, OsError>)
        ensures
            ret != 0 ==> r == Err::<Pipe, OsError>(OsError { code: errno }),
            ret == 0 ==> r is Ok,
            ret == 0 ==> r->Ok_0.reader.raw() == reader && r->Ok_0.reader.owns(),
            ret == 0 ==> r->Ok_0.writer.raw() == writer && r->Ok_0.writer.owns(),
    {
        if ret != 0 {
            Err(OsError { code: errno })
        } else {
            Ok(Pipe { reader: FileDesc::new(reader, true), writer: FileDesc::new(writer, true) })
        }
    }
}

} // verus!
