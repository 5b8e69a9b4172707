# libdd-libunwind-sys

Bindings to libunwind for local and remote (ptrace) stack unwinding.

- `src/` (verified with Verus): the data shared with libunwind (`UnwCursor`,
  `UnwWord`, aarch64 register numbers) and the ownership protocol of the
  remote-unwinding handles: which handles are owned, the order in which they
  are acquired, and which ones are destroyed, once each and in which order.
- `app/`: the foreign declarations and the owning `UptInfo`,
  `UnwAddrSpace` and `RemoteUnwindResources` types, whose constructors and
  destructors make the libunwind calls that the protocol asks for.
- `tests/`: tests of the protocol and of the shared data.
