use boosterpack::queue::BUF_SIZE;
use boosterpack::relay::{Relay, RelayError};

#[test]
fn new_relay_is_idle() {
    let r = Relay::new();
    assert_eq!(r.bytes_left(), 0);
    assert!(r.transfer_complete());
    assert!(!r.display_armed());
    assert!(!r.link_armed());
    assert_eq!(r.pending_len(), 0);
}

#[test]
fn link_byte_arms_display_and_buffers() {
    let mut r = Relay::new();
    assert_eq!(r.on_link_byte(42), Ok(()));
    assert!(r.display_armed());
    assert_eq!(r.pending_len(), 1);
}

#[test]
fn display_handler_writes_counts_and_disarms() {
    let mut r = Relay::new();
    r.begin_transfer(2);
    r.on_link_byte(1).unwrap();
    r.on_link_byte(2).unwrap();
    assert_eq!(r.on_display_ready(), Some(1));
    assert_eq!(r.bytes_left(), 1);
    assert!(r.display_armed());
    assert_eq!(r.on_display_ready(), Some(2));
    assert_eq!(r.bytes_left(), 0);
    assert!(!r.display_armed());
    assert!(r.transfer_complete());
}

#[test]
fn display_handler_on_empty_buffer_does_nothing() {
    let mut r = Relay::new();
    r.begin_transfer(5);
    assert_eq!(r.on_display_ready(), None);
    assert_eq!(r.bytes_left(), 5);
    assert!(!r.display_armed());
}

#[test]
fn overflow_is_reported_and_byte_dropped() {
    let mut r = Relay::new();
    for i in 0..BUF_SIZE {
        assert_eq!(r.on_link_byte(i as u8), Ok(()));
    }
    assert_eq!(r.on_link_byte(0xEE), Err(RelayError::Overflow));
    assert_eq!(r.pending_len(), BUF_SIZE);
    for i in 0..BUF_SIZE {
        assert_eq!(r.on_display_ready(), Some(i as u8));
    }
    assert_eq!(r.on_display_ready(), None);
}

#[test]
fn counter_stops_at_zero_on_over_delivery() {
    let mut r = Relay::new();
    r.begin_transfer(1);
    r.on_link_byte(1).unwrap();
    r.on_link_byte(2).unwrap();
    assert_eq!(r.on_display_ready(), Some(1));
    assert_eq!(r.on_display_ready(), Some(2));
    assert_eq!(r.bytes_left(), 0);
}

#[test]
fn transfer_completes_after_exactly_b_rounds() {
    let b: u16 = 300;
    let mut r = Relay::new();
    r.begin_transfer(b);
    r.arm_link();
    for i in 0..b {
        assert!(!r.transfer_complete());
        r.on_link_byte(i as u8).unwrap();
        assert_eq!(r.on_display_ready(), Some(i as u8));
    }
    assert_eq!(r.bytes_left(), 0);
    assert!(r.transfer_complete());
    assert!(!r.display_armed());
    r.disarm_link();
    assert!(!r.link_armed());
}

#[test]
fn repeated_arming_enables_display_once() {
    let mut r = Relay::new();
    r.begin_transfer(10);
    for i in 0..10u8 {
        r.on_link_byte(i).unwrap();
        assert!(r.display_armed());
    }
    let mut written = Vec::new();
    while r.display_armed() {
        written.push(r.on_display_ready().unwrap());
    }
    assert_eq!(written, (0..10u8).collect::<Vec<u8>>());
    assert_eq!(r.on_display_ready(), None);
    assert_eq!(r.bytes_left(), 0);
}

#[test]
fn fuzzed_handler_interleaving_never_overflows_or_underflows() {
    let mut seed: u32 = 0x1234_5678;
    let mut r = Relay::new();
    let total: u16 = 5000;
    r.begin_transfer(total);
    let mut sent: u16 = 0;
    let mut written: u16 = 0;
    while written < total {
        seed = seed.wrapping_mul(1_103_515_245).wrapping_add(12345);
        let link_fires = (seed >> 16) % 3 == 0;
        if link_fires && sent < total {
            assert!(r.pending_len() < BUF_SIZE);
            assert_eq!(r.on_link_byte(sent as u8), Ok(()));
            sent += 1;
        } else if r.display_armed() {
            assert_eq!(r.on_display_ready(), Some(written as u8));
            written += 1;
        }
        assert_eq!(r.display_armed(), r.pending_len() > 0);
    }
    assert!(r.transfer_complete());
    assert!(!r.display_armed());
}
