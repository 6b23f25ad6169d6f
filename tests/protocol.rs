use d3xx::{
    extract_notification_data, ignore_io_pending, payload_len, D3xxError, Device, Loopback,
    NotificationBridge, NotificationData, Overlapped, Phase, Pipe, Poll, Request, Transfer,
    TransferKind, NOTIFICATION_PAYLOAD_LEN,
};

#[test]
fn loopback_scenario_write_read_and_forced_failure() {
    let mut dev = Loopback::new();
    assert_eq!(dev.write(Pipe::Out1, &vec![1, 2, 3, 4]), Ok(4));
    assert_eq!(dev.queued(Pipe::In1), 4);
    assert_eq!(dev.read(Pipe::In1, 4), Ok(vec![1, 2, 3, 4]));
    assert_eq!(dev.queued(Pipe::In1), 0);
    assert_eq!(dev.abort_count(Pipe::In1), 0);

    dev.fail_next(Pipe::In1, 4);
    assert_eq!(dev.read(Pipe::In1, 4), Err(D3xxError::IoError));
    assert_eq!(dev.abort_count(Pipe::In1), 1);
    assert_eq!(dev.abort_count(Pipe::Out1), 0);
}

#[test]
fn loopback_round_trip_keeps_order() {
    let mut dev = Loopback::new();
    let data: Vec<u8> = (0..=255u8).rev().collect();
    assert_eq!(dev.write(Pipe::Out3, &data), Ok(256));
    assert_eq!(dev.read(Pipe::In3, 256), Ok(data));
    // Other pipes are untouched.
    assert_eq!(dev.read(Pipe::In0, 8), Ok(vec![]));
}

#[test]
fn loopback_short_read_and_empty_write() {
    let mut dev = Loopback::new();
    assert_eq!(dev.write(Pipe::Out0, &vec![]), Ok(0));
    assert_eq!(dev.write(Pipe::Out0, &vec![9, 8, 7]), Ok(3));
    assert_eq!(dev.read(Pipe::In0, 2), Ok(vec![9, 8]));
    assert_eq!(dev.read(Pipe::In0, 5), Ok(vec![7]));
}

#[test]
fn loopback_failed_write_aborts_once_and_queues_nothing() {
    let mut dev = Loopback::new();
    dev.fail_next(Pipe::Out2, 19);
    assert_eq!(dev.write(Pipe::Out2, &vec![1, 2]), Err(D3xxError::Timeout));
    assert_eq!(dev.abort_count(Pipe::Out2), 1);
    assert_eq!(dev.queued(Pipe::In2), 0);
    // The failure is spent: the next write goes through.
    assert_eq!(dev.write(Pipe::Out2, &vec![1, 2]), Ok(2));
    assert_eq!(dev.abort_count(Pipe::Out2), 1);
}

#[test]
fn failed_transfer_issues_one_abort_then_fails() {
    let device = Device::with_handle(7);
    let pipe = device.pipe(Pipe::Out1);
    let mut t = pipe.write_transfer(4);
    assert_eq!(
        t.start(),
        Request::Transfer { pipe: Pipe::Out1, kind: TransferKind::Write, len: 4, overlapped: false }
    );
    assert_eq!(t.outcome(), None);
    assert_eq!(t.on_status(4, 0), Some(Request::Abort { pipe: Pipe::Out1 }));
    assert_eq!(t.phase(), Phase::Aborting(D3xxError::IoError));
    // The abort's own failure is discarded.
    assert_eq!(t.on_status(20, 0), None);
    assert_eq!(t.outcome(), Some(Err(D3xxError::IoError)));
}

#[test]
fn accepted_transfer_completes_without_abort() {
    let mut t = Transfer::new(Pipe::In2, TransferKind::Read, 16, false);
    assert_eq!(t.phase(), Phase::Ready);
    t.start();
    assert_eq!(t.on_status(0, 12), None);
    assert_eq!(t.outcome(), Some(Ok(12)));
}

#[test]
fn pending_is_an_error_only_for_blocking_transfers() {
    let device = Device::with_handle(7);
    let pipe = device.pipe(Pipe::In0);
    let mut overlapped = pipe.read_async_transfer(64);
    overlapped.start();
    assert_eq!(overlapped.on_status(24, 0), None);
    assert_eq!(overlapped.outcome(), Some(Ok(0)));

    let mut blocking = pipe.read_transfer(64);
    blocking.start();
    assert_eq!(blocking.on_status(24, 0), Some(Request::Abort { pipe: Pipe::In0 }));
    blocking.on_status(0, 0);
    assert_eq!(blocking.outcome(), Some(Err(D3xxError::IoPending)));

    let mut incomplete = pipe.read_async_transfer(64);
    incomplete.start();
    assert_eq!(incomplete.on_status(25, 0), Some(Request::Abort { pipe: Pipe::In0 }));
}

#[test]
fn overlapped_polls_pending_until_completion() {
    let mut o = Overlapped::with_handle(9, 0).unwrap();
    assert_eq!(o.handle(), 9);
    assert!(!o.is_ready());
    assert_eq!(o.poll(24, 0), Poll::Pending);
    assert_eq!(o.poll(25, 0), Poll::Pending);
    assert_eq!(o.poll(24, 0), Poll::Pending);
    assert!(!o.is_ready());
    assert_eq!(o.poll(0, 4), Poll::Ready(Ok(4)));
    assert!(o.is_ready());
    assert_eq!(o.release(), 9);
}

#[test]
fn overlapped_error_is_terminal() {
    let mut o = Overlapped::with_handle(9, 0).unwrap();
    assert_eq!(o.poll(19, 0), Poll::Ready(Err(D3xxError::Timeout)));
    assert!(o.is_ready());
    assert_eq!(Overlapped::with_handle(9, 5).err(), Some(D3xxError::InsufficientResources));
}

#[test]
fn io_pending_is_ignored_when_starting() {
    assert_eq!(ignore_io_pending(Err(D3xxError::IoPending)), Ok(()));
    assert_eq!(ignore_io_pending(Ok(())), Ok(()));
    assert_eq!(ignore_io_pending(Err(D3xxError::IoIncomplete)), Err(D3xxError::IoIncomplete));
}

fn data_payload(len: u32, endpoint: u8) -> Vec<u8> {
    let mut p = len.to_le_bytes().to_vec();
    p.extend_from_slice(&[endpoint, 0, 0, 0]);
    p
}

#[test]
fn notification_payloads_decode() {
    assert_eq!(payload_len(0), Some(NOTIFICATION_PAYLOAD_LEN));
    assert_eq!(payload_len(1), Some(8));
    assert_eq!(payload_len(2), None);
    assert_eq!(
        extract_notification_data(0, &data_payload(0x0001_0010, 0x83)),
        Ok(NotificationData::Data { endpoint: Pipe::In1, size: 0x0001_0010 })
    );
    assert_eq!(
        extract_notification_data(1, &[1, 0, 0, 0, 0, 1, 0, 0]),
        Ok(NotificationData::Gpio { gpio0: 1, gpio1: 256 })
    );
    assert_eq!(
        extract_notification_data(0, &data_payload(4, 0x42)),
        Err(D3xxError::OtherError)
    );
    assert_eq!(extract_notification_data(2, &[0; 8]), Err(D3xxError::OtherError));
    assert_eq!(extract_notification_data(1, &[0; 7]), Err(D3xxError::OtherError));
}

#[test]
fn latest_registration_receives_events() {
    let mut bridge: NotificationBridge<char> = NotificationBridge::new();
    assert!(bridge.current().is_none());
    assert_eq!(bridge.register('A'), None);
    assert_eq!(bridge.register('B'), Some('A'));
    assert_eq!(bridge.current(), Some(&'B'));
    let payload = data_payload(16, 0x82);
    assert_eq!(
        bridge.dispatch(0, &payload),
        Some((&'B', NotificationData::Data { endpoint: Pipe::In0, size: 16 }))
    );
    // Unknown kinds and undecodable payloads reach nobody.
    assert_eq!(bridge.dispatch(2, &payload), None);
    assert_eq!(bridge.dispatch(7, &payload), None);
    assert_eq!(bridge.dispatch(0, &data_payload(16, 0x00)), None);
    assert_eq!(bridge.clear(), Some('B'));
    assert_eq!(bridge.dispatch(0, &payload), None);
}
