use boosterpack::queue::{QueueBuf, BUF_SIZE};

fn fill_and_drain(k: usize) {
    let mut q = QueueBuf::new();
    let bytes: Vec<u8> = (0..k).map(|i| (i * 7 % 251) as u8).collect();
    for &b in &bytes {
        q.put(b);
    }
    assert_eq!(q.len(), k);
    let mut out = Vec::new();
    for _ in 0..k {
        out.push(q.get());
    }
    assert_eq!(out, bytes);
    assert!(!q.has_data());
}

#[test]
fn fifo_for_counts_up_to_capacity() {
    for k in [0, 1, 2, 100, BUF_SIZE - 1, BUF_SIZE] {
        fill_and_drain(k);
    }
}

#[test]
fn fifo_across_wraparound() {
    let mut q = QueueBuf::new();
    let mut next_in: u32 = 0;
    let mut next_out: u32 = 0;
    for round in 0..20 {
        let burst = 37 + round * 13;
        for _ in 0..burst {
            q.put(next_in as u8);
            next_in += 1;
        }
        for _ in 0..burst - 5 {
            assert_eq!(q.get(), next_out as u8);
            next_out += 1;
        }
    }
    while q.has_data() {
        assert_eq!(q.get(), next_out as u8);
        next_out += 1;
    }
    assert_eq!(next_in, next_out);
}

#[test]
fn full_and_empty() {
    let mut q = QueueBuf::new();
    assert!(!q.has_data());
    assert!(!q.is_full());
    for i in 0..BUF_SIZE {
        q.put(i as u8);
    }
    assert!(q.is_full());
    assert_eq!(q.get(), 0);
    assert!(!q.is_full());
}
