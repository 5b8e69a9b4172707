//! Ownership protocol of the handles used for remote (ptrace) unwinding.
//!
//! libunwind hands out two opaque handles for remote unwinding: the ptrace
//! unwind info (`_UPT_create`) and the address space
//! (`unw_create_addr_space` with `_UPT_accessors`). The foreign calls
//! themselves are made by the caller; this module decides, from the
//! addresses those calls return, which handles are owned, in which order
//! they are acquired, and which of them must be destroyed and in which
//! order. A handle is an address; `0` is the null pointer that signals
//! failure.

use vstd::prelude::*;

verus! {

/// A handle to destroy: the value a teardown passes to the matching
/// libunwind destructor.
#[derive(Debug, Copy, Clone, PartialEq, Eq, Structural)]
pub enum Release {
    /// Pass the address to `_UPT_destroy`.
    Upt(usize),
    /// Pass the address to `unw_destroy_addr_space`.
    AddrSpace(usize),
}

/// The address that a release hands to its destructor.
pub open spec fn release_handle(r: Release) -> usize {
    match r {
        Release::Upt(h) => h,
        Release::AddrSpace(h) => h,
    }
}

/// Owning handle for the opaque pointer returned by `_UPT_create`.
///
/// The handle is never null. Giving it up through [`UptInfo::release`]
/// yields the single `_UPT_destroy` call that it owes.
pub struct UptInfo {
    handle: usize,
}

impl View for UptInfo {
    type V = usize;

    closed spec fn view(&self) -> usize {
        self.handle
    }
}

impl UptInfo {
    #[verifier::type_invariant]
    spec fn not_null(self) -> bool {
        self.handle != 0
    }

    /// Takes ownership of what `_UPT_create` returned: `None` when it
    /// returned the null pointer.
    pub fn new(handle: usize) -> (r: Option<UptInfo>)
        ensures
            r is Some <==> handle != 0,
            r matches Some(u) ==> u@ == handle,
    {
        if handle == 0 {
            None
        } else {
            Some(UptInfo { handle })
        }
    }

    /// The owned address, to be passed to libunwind (`arg` of
    /// `unw_init_remote`).
    pub fn as_ptr(&self) -> (r: usize)
        ensures
            r == self@,
            r != 0,
    {
        proof {
            use_type_invariant(self);
        }
        self.handle
    }

    /// Gives up ownership: the one `_UPT_destroy` call this handle owes.
    pub fn release(self) -> (r: Release)
        ensures
            r == Release::Upt(self@),
            self@ != 0,
    {
        proof {
            use_type_invariant(&self);
        }
        Release::Upt(self.handle)
    }
}

/// Owning remote unwind address space, as returned by
/// `unw_create_addr_space(&_UPT_accessors, 0)`.
///
/// The handle is never null. Giving it up through
/// [`UnwAddrSpace::release`] yields the single `unw_destroy_addr_space`
/// call that it owes.
pub struct UnwAddrSpace {
    handle: usize,
}

impl View for UnwAddrSpace {
    type V = usize;

    closed spec fn view(&self) -> usize {
        self.handle
    }
}

impl UnwAddrSpace {
    #[verifier::type_invariant]
    spec fn not_null(self) -> bool {
        self.handle != 0
    }

    /// Takes ownership of what `unw_create_addr_space` returned: `None`
    /// when it returned the null pointer.
    pub fn new(handle: usize) -> (r: Option<UnwAddrSpace>)
        ensures
            r is Some <==> handle != 0,
            r matches Some(a) ==> a@ == handle,
    {
        if handle == 0 {
            None
        } else {
            Some(UnwAddrSpace { handle })
        }
    }

    /// The owned address (`unw_addr_space_t`).
    pub fn as_ptr(&self) -> (r: usize)
        ensures
            r == self@,
            r != 0,
    {
        proof {
            use_type_invariant(self);
        }
        self.handle
    }

    /// Gives up ownership: the one `unw_destroy_addr_space` call this
    /// handle owes.
    pub fn release(self) -> (r: Release)
        ensures
            r == Release::AddrSpace(self@),
            self@ != 0,
    {
        proof {
            use_type_invariant(&self);
        }
        Release::AddrSpace(self.handle)
    }
}


/// The foreign call that acquisition needs next.
#[derive(Debug, Copy, Clone, PartialEq, Eq, Structural)]
pub enum Call {
    /// Call `unw_create_addr_space(&_UPT_accessors, byteorder)`.
    CreateAddrSpace { byteorder: i32 },
    /// Call `_UPT_create` for this process id.
    CreateUpt(i32),
}

/// Model of an acquisition in progress: the target process and the
/// address space obtained so far.
pub struct PendingView {
    pub pid: i32,
    pub addr_space: Option<usize>,
}

/// Model of what one acquisition step leads to.
pub enum AcquireView {
    Pending(PendingView),
    Ready { upt: usize, addr_space: usize },
    Failed(Option<usize>),
}

/// The call an acquisition in state `p` asks for: the address space comes
/// first, with byte order `0` (the target's native order), the ptrace
/// unwind info second.
pub open spec fn call_of(p: PendingView) -> Call {
    match p.addr_space {
        None => Call::CreateAddrSpace { byteorder: 0 },
        Some(_) => Call::CreateUpt(p.pid),
    }
}

/// One acquisition step, given the address that the requested call
/// returned (`0` for null).
pub open spec fn step_view(p: PendingView, handle: usize) -> AcquireView {
    match p.addr_space {
        None => if handle == 0 {
            AcquireView::Failed(None)
        } else {
            AcquireView::Pending(PendingView { pid: p.pid, addr_space: Some(handle) })
        },
        Some(a) => if handle == 0 {
            AcquireView::Failed(Some(a))
        } else {
            AcquireView::Ready { upt: handle, addr_space: a }
        },
    }
}

/// The releases that an acquisition outcome owes, in the order they are
/// made: nothing while pending; on success the ptrace unwind info, then
/// the address space; on failure the address space obtained, if any.
pub open spec fn releases_view(a: AcquireView) -> Seq<Release> {
    match a {
        AcquireView::Pending(_) => Seq::empty(),
        AcquireView::Ready { upt, addr_space } => seq![
            Release::Upt(upt),
            Release::AddrSpace(addr_space),
        ],
        AcquireView::Failed(None) => Seq::empty(),
        AcquireView::Failed(Some(a)) => seq![Release::AddrSpace(a)],
    }
}

/// The outcome of a whole acquisition for process `pid`, where the
/// address-space call returned `as_handle` and the ptrace unwind info call,
/// if it was made, returned `upt_handle`.
pub open spec fn run_view(pid: i32, as_handle: usize, upt_handle: usize) -> AcquireView {
    match step_view(PendingView { pid, addr_space: None }, as_handle) {
        AcquireView::Pending(p) => step_view(p, upt_handle),
        other => other,
    }
}

/// Owns the ptrace unwind info and the address space used with
/// `unw_init_remote`.
///
/// Its teardown ([`RemoteUnwindResources::release_plan`]) destroys the
/// ptrace unwind info first and the address space second, the order of the
/// libunwind ptrace example.
pub struct RemoteUnwindResources {
    upt: UptInfo,
    addr_space: UnwAddrSpace,
}

/// An acquisition of [`RemoteUnwindResources`] in progress.
pub struct PendingRemote {
    pid: i32,
    addr_space: Option<UnwAddrSpace>,
}

/// What feeding a returned address to [`PendingRemote::step`] leads to.
pub enum Acquire {
    /// Another call is needed ([`PendingRemote::next_call`]).
    Pending(PendingRemote),
    /// Both handles are owned.
    Ready(RemoteUnwindResources),
    /// A call returned null; the address space obtained before, if any, is
    /// handed back to be released.
    Failed(Option<UnwAddrSpace>),
}

impl View for PendingRemote {
    type V = PendingView;

    closed spec fn view(&self) -> PendingView {
        PendingView {
            pid: self.pid,
            addr_space: match self.addr_space {
                Some(a) => Some(a@),
                None => None,
            },
        }
    }
}

impl RemoteUnwindResources {
    /// The address of the owned ptrace unwind info.
    pub closed spec fn upt_handle(&self) -> usize {
        self.upt@
    }

    /// The address of the owned address space.
    pub closed spec fn addr_space_handle(&self) -> usize {
        self.addr_space@
    }

    /// Starts acquiring the resources to unwind process `pid`.
    pub fn new(pid: i32) -> (r: PendingRemote)
        ensures
            r@ == (PendingView { pid, addr_space: None }),
    {
        PendingRemote { pid, addr_space: None }
    }

    /// The address space handle (`unw_addr_space_t`).
    pub fn addr_space(&self) -> (r: usize)
        ensures
            r == self.addr_space_handle(),
            r != 0,
    {
        self.addr_space.as_ptr()
    }

    /// The ptrace unwind info handle.
    pub fn upt(&self) -> (r: usize)
        ensures
            r == self.upt_handle(),
            r != 0,
    {
        self.upt.as_ptr()
    }

    /// Gives up ownership: the destructor calls owed, in the order they
    /// must be made.
    pub fn release_plan(self) -> (r: Vec<Release>)
        ensures
            r@ == seq![Release::Upt(self.upt_handle()), Release::AddrSpace(self.addr_space_handle())],
            self.upt_handle() != 0,
            self.addr_space_handle() != 0,
    {
        let RemoteUnwindResources { upt, addr_space } = self;
        let mut r: Vec<Release> = Vec::new();
        r.push(upt.release());
        r.push(addr_space.release());
        r
    }
}

impl View for Acquire {
    type V = AcquireView;

    open spec fn view(&self) -> AcquireView {
        match self {
            Acquire::Pending(p) => AcquireView::Pending(p@),
            Acquire::Ready(r) => AcquireView::Ready {
                upt: r.upt_handle(),
                addr_space: r.addr_space_handle(),
            },
            Acquire::Failed(None) => AcquireView::Failed(None),
            Acquire::Failed(Some(a)) => AcquireView::Failed(Some(a@)),
        }
    }
}

impl PendingRemote {
    /// The process whose stack is to be unwound.
    pub fn pid(&self) -> (r: i32)
        ensures
            r == self@.pid,
    {
        self.pid
    }

    /// The foreign call to make next; its result goes to
    /// [`PendingRemote::step`].
    pub fn next_call(&self) -> (r: Call)
        ensures
            r == call_of(self@),
    {
        match &self.addr_space {
            None => Call::CreateAddrSpace { byteorder: 0 },
            Some(_) => Call::CreateUpt(self.pid),
        }
    }

    /// Advances the acquisition with the address that the call asked for
    /// by [`PendingRemote::next_call`] returned.
    pub fn step(self, handle: usize) -> (r: Acquire)
        ensures
            r@ == step_view(self@, handle),
    {
        let PendingRemote { pid, addr_space } = self;
        match addr_space {
            None => match UnwAddrSpace::new(handle) {
                None => Acquire::Failed(None),
                Some(a) => Acquire::Pending(PendingRemote { pid, addr_space: Some(a) }),
            },
            Some(a) => match UptInfo::new(handle) {
                None => Acquire::Failed(Some(a)),
                Some(u) => Acquire::Ready(RemoteUnwindResources { upt: u, addr_space: a }),
            },
        }
    }
}

/// Acquisition asks for the address space first, and for the ptrace unwind
/// info only once an address space was obtained. Every acquisition ends
/// after these two calls at most: it succeeds exactly when neither call
/// returned null, and then owns the two addresses returned.
pub proof fn lemma_acquire_order(pid: i32, as_handle: usize, upt_handle: usize)
    ensures
        call_of(PendingView { pid, addr_space: None }) == (Call::CreateAddrSpace { byteorder: 0 }),
        as_handle == 0 ==> step_view(PendingView { pid, addr_space: None }, as_handle)
            == AcquireView::Failed(None),
        as_handle != 0 ==> step_view(PendingView { pid, addr_space: None }, as_handle)
            == AcquireView::Pending(PendingView { pid, addr_space: Some(as_handle) }),
        call_of(PendingView { pid, addr_space: Some(as_handle) }) == Call::CreateUpt(pid),
        !(run_view(pid, as_handle, upt_handle) is Pending),
        run_view(pid, as_handle, upt_handle) is Ready <==> (as_handle != 0 && upt_handle != 0),
        as_handle != 0 && upt_handle != 0 ==> run_view(pid, as_handle, upt_handle)
            == (AcquireView::Ready { upt: upt_handle, addr_space: as_handle }),
{
}

/// Whatever the two calls return, the releases owed by the acquisition
/// (after its teardown, when it succeeded) destroy exactly the handles that
/// were obtained: each non-null one once, no null one, the ptrace unwind
/// info before the address space.
pub proof fn lemma_release_exactly_acquired(pid: i32, as_handle: usize, upt_handle: usize)
    ensures
        ({
            let rel = releases_view(run_view(pid, as_handle, upt_handle));
            &&& forall|i: int| 0 <= i < rel.len() ==> release_handle(#[trigger] rel[i]) != 0
            &&& forall|i: int|
                0 <= i < rel.len() ==> #[trigger] rel[i] == Release::AddrSpace(as_handle)
                    || rel[i] == Release::Upt(upt_handle)
            &&& rel.contains(Release::AddrSpace(as_handle)) <==> as_handle != 0
            &&& rel.contains(Release::Upt(upt_handle)) <==> (as_handle != 0 && upt_handle != 0)
            &&& rel.no_duplicates()
            &&& forall|i: int, j: int|
                0 <= i < rel.len() && 0 <= j < rel.len() && #[trigger] rel[i] is Upt
                    && #[trigger] rel[j] is AddrSpace ==> i < j
        }),
{
    let rel = releases_view(run_view(pid, as_handle, upt_handle));
    if as_handle == 0 {
        assert(rel =~= Seq::<Release>::empty());
        assert(!rel.contains(Release::AddrSpace(as_handle)));
        assert(!rel.contains(Release::Upt(upt_handle)));
    } else if upt_handle == 0 {
        assert(rel =~= seq![Release::AddrSpace(as_handle)]);
        assert(rel[0] == Release::AddrSpace(as_handle));
        assert(!rel.contains(Release::Upt(upt_handle)));
    } else {
        assert(rel =~= seq![Release::Upt(upt_handle), Release::AddrSpace(as_handle)]);
        assert(rel[0] == Release::Upt(upt_handle));
        assert(rel[1] == Release::AddrSpace(as_handle));
    }
}

} // verus!
