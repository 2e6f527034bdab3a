use ndi::cleanup;
use ndi::initialize;
use ndi::internal::HandleKind;
use ndi::internal::NativeCall;
use ndi::internal::OnDrop;
use ndi::internal::Registry;
use ndi::internal::Ticket;
use ndi::NDIError;

#[test]
fn on_drop_simple() {
    let mut num: usize = 2;
    num += 3;

    let on_drop = OnDrop::new(num, HandleKind::Recv);
    assert_eq!(on_drop.value(), 5);
    let destroyed = on_drop.release();
    assert_eq!(destroyed, NativeCall::Destroy { kind: HandleKind::Recv, instance: 5 });
}

#[test]
fn on_drop_keeps_kind_and_value() {
    let h = OnDrop::new(0x7f00_1000, HandleKind::Find);
    assert_eq!(h.value(), 0x7f00_1000);
    assert_eq!(h.kind(), HandleKind::Find);
    assert_eq!(
        h.release(),
        NativeCall::Destroy { kind: HandleKind::Find, instance: 0x7f00_1000 }
    );
}

#[test]
fn registry_starts_empty() {
    let r = Registry::new();
    assert!(r.is_idle());
    assert!(r.has_room());
    assert!(!r.is_live(1));
    assert!(!r.is_held(1));
    assert_eq!(r.kind_of(1), None);
    assert_eq!(r.frames_of(1), 0);
    assert!(!r.is_outstanding(Ticket { owner: 1, serial: 0 }));
}

#[test]
fn registry_refuses_null_and_duplicate_handles() {
    let mut r = Registry::new();
    assert!(!r.adopt(0, HandleKind::Recv));
    assert!(r.is_idle());
    assert!(r.adopt(16, HandleKind::Recv));
    assert!(!r.adopt(16, HandleKind::Send));
    assert_eq!(r.kind_of(16), Some(HandleKind::Recv));
    assert!(r.is_held(16));
    assert!(!r.is_idle());
}

#[test]
fn registry_issues_increasing_serials() {
    let mut r = Registry::new();
    assert!(r.adopt(16, HandleKind::Recv));
    assert!(r.adopt(32, HandleKind::Send));
    assert_eq!(r.issue(16), Some(Ticket { owner: 16, serial: 0 }));
    assert_eq!(r.issue(32), Some(Ticket { owner: 32, serial: 1 }));
    assert_eq!(r.issue(16), Some(Ticket { owner: 16, serial: 2 }));
    assert_eq!(r.issue(48), None);
    assert_eq!(r.frames_of(16), 2);
    assert_eq!(r.frames_of(32), 1);
    assert!(r.is_outstanding(Ticket { owner: 16, serial: 2 }));
    assert!(!r.is_outstanding(Ticket { owner: 32, serial: 2 }));
}

#[test]
fn registry_redeems_each_ticket_once() {
    let mut r = Registry::new();
    assert!(r.adopt(16, HandleKind::Recv));
    let t = r.issue(16).unwrap();
    assert_eq!(r.redeem(t), Ok(None));
    assert!(!r.is_outstanding(t));
    assert_eq!(r.redeem(t), Err(NDIError::AlreadyReleased));
    assert!(r.is_live(16));
    assert_eq!(r.frames_of(16), 0);
}

#[test]
fn registry_refuses_unknown_tickets() {
    let mut r = Registry::new();
    assert_eq!(
        r.redeem(Ticket { owner: 16, serial: 0 }),
        Err(NDIError::AlreadyReleased)
    );
    assert!(r.adopt(16, HandleKind::Recv));
    assert_eq!(
        r.redeem(Ticket { owner: 16, serial: 0 }),
        Err(NDIError::AlreadyReleased)
    );
}

#[test]
fn handle_is_destroyed_with_its_wrapper_when_no_frame_is_out() {
    let mut r = Registry::new();
    assert!(r.adopt(16, HandleKind::Find));
    let last = r.relinquish(16).unwrap();
    assert_eq!(last, Some(OnDrop::new(16, HandleKind::Find)));
    assert!(!r.is_live(16));
    assert!(r.is_idle());
    assert_eq!(r.relinquish(16), Err(NDIError::AlreadyReleased));
}

#[test]
fn handle_outlives_its_wrapper_while_a_frame_is_out() {
    let mut r = Registry::new();
    assert_eq!(r.references(16), 0);
    assert!(r.adopt(16, HandleKind::Recv));
    assert_eq!(r.references(16), 1);
    let a = r.issue(16).unwrap();
    let b = r.issue(16).unwrap();
    assert_eq!(r.references(16), 3);

    assert_eq!(r.relinquish(16), Ok(None));
    assert!(r.is_live(16));
    assert!(!r.is_held(16));
    assert_eq!(r.references(16), 2);
    assert_eq!(r.relinquish(16), Err(NDIError::AlreadyReleased));

    assert_eq!(r.redeem(a), Ok(None));
    assert!(r.is_live(16));
    assert_eq!(r.references(16), 1);

    let last = r.redeem(b).unwrap();
    assert_eq!(last, Some(OnDrop::new(16, HandleKind::Recv)));
    assert!(!r.is_live(16));
    assert_eq!(r.references(16), 0);
    assert!(r.is_idle());
}

#[test]
fn nothing_is_issued_for_a_handle_that_left() {
    let mut r = Registry::new();
    assert!(r.adopt(16, HandleKind::Recv));
    assert!(r.relinquish(16).is_ok());
    assert_eq!(r.issue(16), None);
    assert!(r.adopt(16, HandleKind::Send));
    assert_eq!(r.kind_of(16), Some(HandleKind::Send));
}

#[test]
fn initialize_reports_an_unsupported_machine() {
    assert_eq!(initialize(true), Ok(()));
    assert_eq!(initialize(false), Err(NDIError::NotSupported));
}

#[test]
fn cleanup_waits_for_every_handle() {
    let mut r = Registry::new();
    assert_eq!(cleanup(&r), Some(NativeCall::LibraryDestroy));
    assert!(r.adopt(16, HandleKind::Recv));
    assert_eq!(cleanup(&r), None);
    let t = r.issue(16).unwrap();
    assert!(r.relinquish(16).is_ok());
    assert_eq!(cleanup(&r), None);
    assert!(r.redeem(t).is_ok());
    assert_eq!(cleanup(&r), Some(NativeCall::LibraryDestroy));
}
