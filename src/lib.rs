//! Owned file descriptors, pipes, append-flag handling and a zero-copy relay
//! loop, each kept as plain verified logic. The system calls themselves are
//! made by the caller, who hands the raw results back.

pub mod desc;
pub mod error;
pub mod flags;
pub mod pipe;
pub mod relay;

pub use desc::FileDesc;
pub use error::OsError;
pub use flags::{finish_unset_append, set_flags, unset_append_flag, AppendChange};
pub use pipe::Pipe;
pub use relay::{RelayAction, RelayEvent, SpliceRelay};
