//! The shared-bus multiplexer: serialization, queuing, completion routing.

use buskit::ErrorCode;
use buskit::mux::BusStatus;
use buskit::mux::Mux;
use buskit::mux::OpKind;

#[test]
fn attach_assigns_slots_and_addresses() {
    let mut mux = Mux::new();
    let a = mux.attach_device(0x19);
    let b = mux.attach_device(0x1e);
    assert_eq!(a.id(), 0);
    assert_eq!(b.id(), 1);
    assert_eq!(a.address(), 0x19);
    assert_eq!(b.address(), 0x1e);
    assert!(mux.is_idle());
    assert_eq!(mux.pending_len(), 0);
}

#[test]
fn request_takes_free_bus() {
    let mut mux = Mux::new();
    let dev = mux.attach_device(0x19);
    assert_eq!(mux.request(&dev, OpKind::Write, vec![0x20, 0x37], 2, 0), Ok(()));
    assert!(!mux.is_idle());
    assert!(mux.is_busy(&dev));
    let txn = mux.current_transaction().unwrap();
    assert_eq!(txn.address, 0x19);
    assert_eq!(txn.data, vec![0x20, 0x37]);
    assert_eq!(txn.read_len, 0);
}

#[test]
fn second_request_from_same_handle_is_busy() {
    let mut mux = Mux::new();
    let dev = mux.attach_device(0x19);
    assert_eq!(mux.request(&dev, OpKind::Write, vec![1, 2], 2, 0), Ok(()));
    // The handle already has its one request outstanding: rejected, and
    // the buffer comes straight back.
    let result = mux.request(&dev, OpKind::Write, vec![3, 4], 2, 0);
    assert_eq!(result, Err((ErrorCode::Busy, vec![3, 4])));
    assert_eq!(mux.pending_len(), 0);
}

#[test]
fn back_to_back_requests_from_two_handles_queue() {
    // Two logical devices share one mux; the second write_read issued
    // before the first completes is queued (this mux is the queued
    // design), not rejected.
    let mut mux = Mux::new();
    let accel = mux.attach_device(0x19);
    let mag = mux.attach_device(0x1e);
    assert_eq!(accel.write_read(&mut mux, vec![0x28, 0, 0, 0, 0, 0, 0], 1, 6), Ok(()));
    assert_eq!(mag.write_read(&mut mux, vec![0x03, 0, 0, 0, 0, 0, 0], 1, 6), Ok(()));
    // Exactly one physical transaction is in flight; the other waits.
    assert_eq!(mux.pending_len(), 1);
    assert_eq!(mux.current_transaction().unwrap().address, 0x19);
    // Completing the first promotes the queued one, FIFO.
    let first = mux.bus_complete(BusStatus::Success, vec![9, 9, 9, 9, 9, 9]).unwrap();
    assert_eq!(first.dev, accel.id());
    assert_eq!(mux.pending_len(), 0);
    assert_eq!(mux.current_transaction().unwrap().address, 0x1e);
    let second = mux.bus_complete(BusStatus::Success, vec![8, 8, 8, 8, 8, 8]).unwrap();
    assert_eq!(second.dev, mag.id());
    assert!(mux.is_idle());
}

#[test]
fn completions_follow_acceptance_order_across_three_handles() {
    let mut mux = Mux::new();
    let first = mux.attach_device(0x10);
    let second = mux.attach_device(0x11);
    let third = mux.attach_device(0x12);
    assert_eq!(first.write(&mut mux, vec![1], 1), Ok(()));
    assert_eq!(second.write(&mut mux, vec![2], 1), Ok(()));
    assert_eq!(third.write(&mut mux, vec![3], 1), Ok(()));
    assert_eq!(mux.pending_len(), 2);
    // One at a time, in exactly the order the requests were accepted.
    let order = [first.id(), second.id(), third.id()];
    for expected in order {
        let completion = mux.bus_complete(BusStatus::Success, vec![]).unwrap();
        assert_eq!(completion.dev, expected);
    }
    assert!(mux.is_idle());
    assert_eq!(mux.pending_len(), 0);
}

#[test]
fn completion_returns_buffer_with_read_data() {
    let mut mux = Mux::new();
    let dev = mux.attach_device(0x19);
    mux.request(&dev, OpKind::WriteRead, vec![0xa8, 0, 0, 0, 0, 0, 0, 0], 1, 6).unwrap();
    let completion = mux.bus_complete(BusStatus::Success, vec![1, 2, 3, 4, 5, 6]).unwrap();
    assert_eq!(completion.status, BusStatus::Success);
    // Six answer bytes spliced in; the untouched tail comes back as lent.
    assert_eq!(completion.buf, vec![1, 2, 3, 4, 5, 6, 0, 0]);
    assert!(!mux.is_busy(&dev));
}

#[test]
fn failed_completion_leaves_buffer_as_lent() {
    let mut mux = Mux::new();
    let dev = mux.attach_device(0x19);
    mux.request(&dev, OpKind::WriteRead, vec![0xa8, 7, 7, 7], 1, 3).unwrap();
    let completion = mux.bus_complete(BusStatus::DataNak, vec![]).unwrap();
    assert_eq!(completion.status, BusStatus::DataNak);
    assert_eq!(completion.buf, vec![0xa8, 7, 7, 7]);
    assert_eq!(completion.dev, dev.id());
}

#[test]
fn handle_write_and_read_forward_with_fixed_address() {
    let mut mux = Mux::new();
    let dev = mux.attach_device(0x42);
    assert_eq!(dev.write(&mut mux, vec![0x20, 0x37], 2), Ok(()));
    assert_eq!(mux.current_transaction().unwrap().address, 0x42);
    mux.bus_complete(BusStatus::Success, vec![]).unwrap();
    assert_eq!(dev.read(&mut mux, vec![0, 0, 0, 0], 4), Ok(()));
    let txn = mux.current_transaction().unwrap();
    assert_eq!(txn.address, 0x42);
    assert_eq!(txn.read_len, 4);
    assert_eq!(txn.data, Vec::<u8>::new());
    let completion = mux.bus_complete(BusStatus::Success, vec![5, 6, 7, 8]).unwrap();
    assert_eq!(completion.buf, vec![5, 6, 7, 8]);
}

#[test]
fn completion_while_idle_is_refused() {
    let mut mux = Mux::new();
    mux.attach_device(0x19);
    let result = mux.bus_complete(BusStatus::Success, vec![]);
    assert!(matches!(result, Err(ErrorCode::Idle)));
}

#[test]
fn completion_carries_last_registered_client() {
    let mut mux = Mux::new();
    let dev = mux.attach_device(0x19);
    // Client registration is last-writer-wins.
    mux.set_client(&dev, 11);
    mux.set_client(&dev, 22);
    mux.request(&dev, OpKind::Write, vec![0x20, 0x37], 2, 0).unwrap();
    let completion = mux.bus_complete(BusStatus::Success, vec![]).unwrap();
    assert_eq!(completion.client, Some(22));
}
