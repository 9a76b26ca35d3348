use kvm_factory_test::activity::ActivityFilter;
use kvm_factory_test::queue::{InboundQueue, OutboundQueue};
use kvm_factory_test::transport::{
    ConnectionStatus, LinkFault, ReadEvent, TransportConfig, TransportHandle,
};

fn test_config() -> TransportConfig {
    TransportConfig {
        inbound_capacity: 100,
        outbound_capacity: 100,
        window_size: 10,
        max_open_failures: 20,
    }
}

#[test]
fn activity_density_counts_one_burst() {
    let mut filter = ActivityFilter::new(10);
    let mut density = 0u64;
    for _ in 0..9 {
        density = filter.push(0);
    }
    density = filter.push(5);
    assert_eq!(density, 5);
}

#[test]
fn activity_evicting_an_old_zero_keeps_density() {
    let mut filter = ActivityFilter::new(10);
    for _ in 0..9 {
        filter.push(0);
    }
    filter.push(5);
    let density = filter.push(0);
    assert_eq!(density, 5);
}

#[test]
fn activity_full_window_forgets_history() {
    let mut filter = ActivityFilter::new(4);
    for _ in 0..7 {
        filter.push(1000);
    }
    let mut density = 0u64;
    for sample in [1u32, 2, 3, 4] {
        density = filter.push(sample);
    }
    assert_eq!(density, 10);
}

#[test]
fn activity_window_of_zeroes_reads_zero() {
    let mut filter = ActivityFilter::new(10);
    for _ in 0..3 {
        filter.push(999);
    }
    let mut density = u64::MAX;
    for _ in 0..10 {
        density = filter.push(0);
    }
    assert_eq!(density, 0);
}

#[test]
fn activity_clear_drops_the_signal() {
    let mut filter = ActivityFilter::new(10);
    filter.push(42);
    filter.clear();
    assert_eq!(filter.current_density(), 0);
}

#[test]
fn inbound_queue_keeps_newest_suffix() {
    let mut q = InboundQueue::new(3);
    for label in [b"b1", b"b2", b"b3", b"b4", b"b5"] {
        q.push_evict(label.to_vec());
    }
    assert_eq!(q.len(), 3);
    assert_eq!(q.pop_oldest(), Some(b"b3".to_vec()));
    assert_eq!(q.pop_oldest(), Some(b"b4".to_vec()));
    assert_eq!(q.pop_oldest(), Some(b"b5".to_vec()));
    assert_eq!(q.pop_oldest(), None);
}

#[test]
fn outbound_queue_preserves_order_and_refuses_overflow() {
    let mut q = OutboundQueue::new(2);
    assert!(q.try_push(b"first".to_vec()));
    assert!(q.try_push(b"second".to_vec()));
    assert!(!q.try_push(b"third".to_vec()));
    assert_eq!(q.pop_next(), Some(b"first".to_vec()));
    assert_eq!(q.pop_next(), Some(b"second".to_vec()));
    assert_eq!(q.pop_next(), None);
}

#[test]
fn transport_data_feeds_queue_and_density() {
    let mut t = TransportHandle::new(&test_config());
    t.on_connect_result(true);
    assert!(t.is_usb_tool_connected());
    let density = t.on_read_result(ReadEvent::Data(b"hello".to_vec()));
    assert_eq!(density, 5);
    assert_eq!(t.get_current_data_density(), 5);
    assert_eq!(t.serial_receive(), b"hello".to_vec());
    assert_eq!(t.serial_receive(), Vec::<u8>::new());
}

#[test]
fn transport_silence_drains_density() {
    let mut t = TransportHandle::new(&test_config());
    t.on_connect_result(true);
    t.on_read_result(ReadEvent::Data(b"x".to_vec()));
    for _ in 0..10 {
        t.on_read_result(ReadEvent::TimedOut);
    }
    assert_eq!(t.get_current_data_density(), 0);
}

#[test]
fn transport_fatal_fault_forces_disconnect() {
    let mut t = TransportHandle::new(&test_config());
    t.on_connect_result(true);
    t.on_read_result(ReadEvent::Failed(LinkFault::Other));
    assert!(t.is_link_open());
    t.on_read_result(ReadEvent::Failed(LinkFault::BrokenPipe));
    assert!(!t.is_link_open());
}

#[test]
fn transport_write_fault_classification() {
    let mut t = TransportHandle::new(&test_config());
    t.on_connect_result(true);
    t.on_write_result(None);
    t.on_write_result(Some(LinkFault::Other));
    assert!(t.is_link_open());
    t.on_write_result(Some(LinkFault::PermissionDenied));
    assert!(!t.is_link_open());
}

#[test]
fn transport_open_failures_mark_tool_absent() {
    let mut t = TransportHandle::new(&TransportConfig {
        inbound_capacity: 4,
        outbound_capacity: 4,
        window_size: 4,
        max_open_failures: 3,
    });
    t.on_connect_result(true);
    t.on_read_result(ReadEvent::Failed(LinkFault::BrokenPipe));
    t.on_connect_result(false);
    t.on_connect_result(false);
    assert!(t.is_usb_tool_connected());
    t.on_connect_result(false);
    assert!(!t.is_usb_tool_connected());
}

#[test]
fn transport_status_tristate() {
    let mut t = TransportHandle::new(&test_config());
    assert_eq!(t.connection_status(), ConnectionStatus::ToolAbsent);
    t.on_connect_result(true);
    assert_eq!(t.connection_status(), ConnectionStatus::ToolPresentDeviceUnknown);
    t.on_read_result(ReadEvent::Data(b"boot log".to_vec()));
    assert_eq!(t.connection_status(), ConnectionStatus::ToolPresentDeviceLive);
}

#[test]
fn transport_send_queues_in_order() {
    let mut t = TransportHandle::new(&test_config());
    assert!(t.serial_send(b"first\n".to_vec()));
    assert!(t.serial_send(b"second\n".to_vec()));
    assert_eq!(t.next_outbound(), Some(b"first\n".to_vec()));
    assert_eq!(t.next_outbound(), Some(b"second\n".to_vec()));
    assert_eq!(t.next_outbound(), None);
}

#[test]
fn transport_receive_clean_strips_escapes() {
    let mut t = TransportHandle::new(&test_config());
    t.on_connect_result(true);
    t.on_read_result(ReadEvent::Data(b"\x1b[32mlogin\x1b[m: ".to_vec()));
    assert_eq!(t.serial_receive_clean(), b"login:".to_vec());
}
