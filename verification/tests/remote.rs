use libdd_libunwind_sys::{
    Acquire, Call, PendingRemote, Release, RemoteUnwindResources, UnwAddrSpace, UptInfo,
};

fn expect_pending(a: Acquire) -> PendingRemote {
    match a {
        Acquire::Pending(p) => p,
        Acquire::Ready(_) => panic!("expected a pending acquisition, got ready"),
        Acquire::Failed(_) => panic!("expected a pending acquisition, got failed"),
    }
}

fn expect_ready(a: Acquire) -> RemoteUnwindResources {
    match a {
        Acquire::Ready(r) => r,
        Acquire::Pending(_) => panic!("expected ready, got pending"),
        Acquire::Failed(_) => panic!("expected ready, got failed"),
    }
}

/// Runs a whole acquisition, answering the address-space call with
/// `as_handle` and the ptrace unwind info call with `upt_handle`, and
/// returns the calls asked for and the releases owed at the end.
fn run(pid: i32, as_handle: usize, upt_handle: usize) -> (Vec<Call>, Vec<Release>, bool) {
    let mut calls = Vec::new();
    let mut state = RemoteUnwindResources::new(pid);
    loop {
        let call = state.next_call();
        calls.push(call);
        let answer = match call {
            Call::CreateAddrSpace { .. } => as_handle,
            Call::CreateUpt(_) => upt_handle,
        };
        match state.step(answer) {
            Acquire::Pending(p) => state = p,
            Acquire::Ready(r) => return (calls, r.release_plan(), true),
            Acquire::Failed(a) => {
                let releases = match a {
                    Some(a) => vec![a.release()],
                    None => vec![],
                };
                return (calls, releases, false);
            }
        }
    }
}

#[test]
fn upt_info_null_is_refused() {
    assert!(UptInfo::new(0).is_none());
}

#[test]
fn upt_info_keeps_its_handle() {
    let u = UptInfo::new(0x7f00_1000).unwrap();
    assert_eq!(u.as_ptr(), 0x7f00_1000);
    assert_eq!(u.release(), Release::Upt(0x7f00_1000));
}

#[test]
fn addr_space_null_is_refused() {
    assert!(UnwAddrSpace::new(0).is_none());
}

#[test]
fn addr_space_keeps_its_handle() {
    let a = UnwAddrSpace::new(0x5555_0000).unwrap();
    assert_eq!(a.as_ptr(), 0x5555_0000);
    assert_eq!(a.release(), Release::AddrSpace(0x5555_0000));
}

#[test]
fn acquisition_asks_for_the_address_space_first() {
    let p = RemoteUnwindResources::new(1234);
    assert_eq!(p.pid(), 1234);
    assert_eq!(p.next_call(), Call::CreateAddrSpace { byteorder: 0 });
}

#[test]
fn acquisition_asks_for_upt_with_the_pid() {
    let p = expect_pending(RemoteUnwindResources::new(1234).step(0x1000));
    assert_eq!(p.pid(), 1234);
    assert_eq!(p.next_call(), Call::CreateUpt(1234));
}

#[test]
fn acquisition_succeeds_with_both_handles() {
    let p = expect_pending(RemoteUnwindResources::new(42).step(0x1000));
    let r = expect_ready(p.step(0x2000));
    assert_eq!(r.addr_space(), 0x1000);
    assert_eq!(r.upt(), 0x2000);
}

#[test]
fn acquisition_without_address_space_owns_nothing() {
    match RemoteUnwindResources::new(42).step(0) {
        Acquire::Failed(None) => {}
        _ => panic!("expected a failure that owns nothing"),
    }
}

#[test]
fn acquisition_without_upt_hands_back_the_address_space() {
    let p = expect_pending(RemoteUnwindResources::new(42).step(0x1000));
    match p.step(0) {
        Acquire::Failed(Some(a)) => assert_eq!(a.release(), Release::AddrSpace(0x1000)),
        _ => panic!("expected a failure that hands back the address space"),
    }
}

#[test]
fn teardown_releases_upt_before_address_space() {
    let p = expect_pending(RemoteUnwindResources::new(42).step(0x1000));
    let r = expect_ready(p.step(0x2000));
    assert_eq!(
        r.release_plan(),
        vec![Release::Upt(0x2000), Release::AddrSpace(0x1000)]
    );
}

#[test]
fn run_with_null_address_space_never_creates_upt() {
    let (calls, releases, ok) = run(9, 0, 0x2000);
    assert!(!ok);
    assert_eq!(calls, vec![Call::CreateAddrSpace { byteorder: 0 }]);
    assert!(releases.is_empty());
}

#[test]
fn run_with_null_upt_releases_the_address_space_once() {
    let (calls, releases, ok) = run(9, 0x1000, 0);
    assert!(!ok);
    assert_eq!(calls, vec![Call::CreateAddrSpace { byteorder: 0 }, Call::CreateUpt(9)]);
    assert_eq!(releases, vec![Release::AddrSpace(0x1000)]);
}

#[test]
fn run_that_succeeds_releases_each_handle_once() {
    let (calls, releases, ok) = run(9, 0x1000, 0x2000);
    assert!(ok);
    assert_eq!(calls, vec![Call::CreateAddrSpace { byteorder: 0 }, Call::CreateUpt(9)]);
    assert_eq!(releases, vec![Release::Upt(0x2000), Release::AddrSpace(0x1000)]);
}
