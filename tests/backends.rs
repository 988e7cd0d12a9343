use async_pio::dispatch::{after_ring_open, backend_for_existing, Backend, OpenStep};
use async_pio::error::ErrorKind;
use async_pio::options::OpenOptions;
use async_pio::ring::RingSlot;

#[test]
fn ring_open_success_keeps_ring() {
    assert_eq!(after_ring_open(&Ok(())), OpenStep::UseRing);
}

#[test]
fn unsupported_ring_falls_back_to_thread_pool() {
    assert_eq!(after_ring_open(&Err(ErrorKind::Unsupported)), OpenStep::FallBack);
}

#[test]
fn other_ring_errors_are_surfaced() {
    assert_eq!(after_ring_open(&Err(ErrorKind::NotFound)), OpenStep::Surface);
    assert_eq!(after_ring_open(&Err(ErrorKind::PermissionDenied)), OpenStep::Surface);
    assert_eq!(after_ring_open(&Err(ErrorKind::Other)), OpenStep::Surface);
}

#[test]
fn existing_descriptor_backend() {
    assert_eq!(backend_for_existing(&Ok(())), Backend::Uring);
    assert_eq!(backend_for_existing(&Err(ErrorKind::Unsupported)), Backend::Pos);
    assert_eq!(backend_for_existing(&Err(ErrorKind::OutOfMemory)), Backend::Pos);
}

#[test]
fn ring_failure_is_kept() {
    let mut slot = RingSlot::new();
    assert!(slot.needs_creation());
    slot.record(false);
    assert!(!slot.needs_creation());
    assert_eq!(slot, RingSlot::Failed);
    assert_eq!(slot.status(), Err(ErrorKind::Unsupported));
    slot.record(true);
    assert_eq!(slot.status(), Err(ErrorKind::Unsupported));
}

#[test]
fn failed_ring_leads_every_open_to_fall_back() {
    let mut slot = RingSlot::new();
    slot.record(false);
    let r = slot.status();
    assert_eq!(r, Err(ErrorKind::Unsupported));
    assert_eq!(after_ring_open(&r), OpenStep::FallBack);
    assert_eq!(backend_for_existing(&r), Backend::Pos);
}

#[test]
fn ring_success_is_kept() {
    let mut slot = RingSlot::new();
    slot.record(true);
    assert_eq!(slot, RingSlot::Ready);
    assert_eq!(slot.status(), Ok(()));
    slot.record(false);
    assert_eq!(slot.status(), Ok(()));
}

#[test]
fn unsupported_kind() {
    assert!(ErrorKind::Unsupported.is_unsupported());
    assert!(!ErrorKind::Other.is_unsupported());
}

#[test]
fn open_options_builder() {
    let mut o = OpenOptions::new();
    o.read(true).write(true).create(true).mode(0o600).custom_flags(2);
    assert!(o.read && o.write && o.create);
    assert!(!o.append && !o.truncate && !o.create_new);
    assert_eq!(o.mode, Some(0o600));
    assert_eq!(o.custom_flags, Some(2));
    assert_eq!(o.access_mode, None);
    o.access_mode(1).share_mode(3).attributes(4).security_qos_flags(5).append(true).truncate(true).create_new(true);
    assert_eq!((o.access_mode, o.share_mode, o.attributes, o.security_qos_flags), (Some(1), Some(3), Some(4), Some(5)));
    assert!(o.append && o.truncate && o.create_new);
    assert_eq!(OpenOptions::default(), OpenOptions::new());
}
