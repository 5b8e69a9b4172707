//! Verified core of the libunwind bindings: the plain data that crosses the
//! FFI boundary (cursor buffer, word type, register numbers) and the
//! ownership protocol of the remote-unwinding handles.

pub mod bindings;
pub mod remote;

pub use bindings::{
    UnwAccessors, UnwCursor, UnwWord, UNW_INIT_SIGNAL_FRAME, UNW_REG_FP, UNW_REG_IP, UNW_REG_SP,
};
pub use remote::{
    Acquire, Call, PendingRemote, Release, RemoteUnwindResources, UnwAddrSpace, UptInfo,
};
