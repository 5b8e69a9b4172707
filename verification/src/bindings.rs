//! Plain data shared with libunwind (aarch64 layout).

use vstd::prelude::*;

verus! {

/// A machine word as libunwind reports it (`unw_word_t`).
pub type UnwWord = u64;

/// Opaque cursor storage (`unw_cursor_t`): libunwind owns its contents and
/// only needs a buffer of this size to write into.
#[derive(Debug, Copy, Clone)]
pub struct UnwCursor {
    pub opaque: [UnwWord; 250],
}

/// Opaque accessor table (`unw_accessors_t`); it is never constructed on the
/// Rust side, only referred to by address.
pub struct UnwAccessors;

/// libunwind register number of the instruction pointer on aarch64.
pub const UNW_REG_IP: i32 = 30;

/// libunwind register number of the stack pointer on aarch64.
pub const UNW_REG_SP: i32 = 31;

/// libunwind register number of the frame pointer on aarch64.
pub const UNW_REG_FP: i32 = 29;

/// Flag for `unw_init_local2`: the context was captured in a signal frame.
pub const UNW_INIT_SIGNAL_FRAME: i32 = 1;

} // verus!
