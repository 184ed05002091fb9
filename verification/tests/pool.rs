use edge_nal_embassy::{Pool, TcpBuffers, TcpSlot, TcpSocket, Token};

#[test]
fn capacity_allocations_succeed_with_distinct_tokens() {
    let mut pool: Pool<u8, 4> = Pool::new(1, 0);
    let mut tokens: Vec<Token> = Vec::new();
    for expected in 0..4 {
        let token = pool.allocate_slot().expect("a free slot is left");
        assert_eq!(token.index(), expected);
        tokens.push(token);
    }
    for (i, a) in tokens.iter().enumerate() {
        for b in tokens.iter().skip(i + 1) {
            assert_ne!(a, b);
            assert_ne!(a.index(), b.index());
        }
    }
    assert!(pool.allocate_slot().is_none());
    assert!(pool.allocate_slot().is_none());
}

#[test]
fn pool_without_slots_is_exhausted_at_once() {
    let mut pool: Pool<u8, 0> = Pool::new(1, 0);
    assert_eq!(pool.capacity(), 0);
    assert!(pool.allocate_slot().is_none());
}

#[test]
fn capacity_is_the_number_of_slots() {
    let pool: Pool<u32, 7> = Pool::new(1, 0);
    assert_eq!(pool.capacity(), 7);
}

#[test]
fn allocation_is_first_fit_by_slot_index() {
    let mut pool: Pool<u8, 4> = Pool::new(1, 0);
    let t0 = pool.allocate_slot().unwrap();
    let t1 = pool.allocate_slot().unwrap();
    let t2 = pool.allocate_slot().unwrap();
    let t3 = pool.allocate_slot().unwrap();
    assert_eq!(t3.index(), 3);
    pool.free_slot(t2);
    pool.free_slot(t0);
    // Two slots are free: the lower one goes first.
    assert_eq!(pool.allocate_slot().unwrap().index(), 0);
    assert_eq!(pool.allocate_slot().unwrap().index(), 2);
    assert!(pool.allocate_slot().is_none());
    assert!(pool.holds_slot(&t1));
}

#[test]
fn freed_slot_serves_exactly_one_allocation() {
    let mut pool: Pool<u8, 3> = Pool::new(1, 0);
    let t0 = pool.allocate_slot().unwrap();
    let t1 = pool.allocate_slot().unwrap();
    let t2 = pool.allocate_slot().unwrap();
    assert!(pool.allocate_slot().is_none());
    pool.free_slot(t1);
    let again = pool.allocate_slot().unwrap();
    assert_eq!(again.index(), 1);
    // The new token stands for no slot that is still held.
    assert_ne!(again.index(), t0.index());
    assert_ne!(again.index(), t2.index());
    assert!(pool.allocate_slot().is_none());
}

#[test]
fn holds_slot_tells_live_tokens_from_freed_ones() {
    let mut pool: Pool<u8, 2> = Pool::new(1, 0);
    let t0 = pool.allocate_slot().unwrap();
    let t1 = pool.allocate_slot().unwrap();
    assert!(pool.holds_slot(&t0));
    assert!(pool.holds_slot(&t1));
    let index = t0.index();
    pool.free_slot(t0);
    assert!(pool.holds_slot(&t1));
    let again = pool.allocate_slot().unwrap();
    assert_eq!(again.index(), index);
    assert!(pool.holds_slot(&again));
}

#[test]
fn a_token_belongs_to_the_pool_that_made_it() {
    let mut pool: Pool<u8, 2> = Pool::new(1, 0);
    let mut other: Pool<u8, 2> = Pool::new(2, 0);
    assert_eq!(pool.id(), 1);
    assert_eq!(other.id(), 2);
    let t0 = pool.allocate_slot().unwrap();
    let o0 = other.allocate_slot().unwrap();
    assert_eq!(t0.pool(), 1);
    assert_eq!(o0.pool(), 2);
    // Both tokens name slot 0, and slot 0 is taken in both pools.
    assert_eq!(t0.index(), o0.index());
    assert_ne!(t0, o0);
    assert!(pool.holds_slot(&t0));
    assert!(other.holds_slot(&o0));
    assert!(!pool.holds_slot(&o0));
    assert!(!other.holds_slot(&t0));
    pool.free_slot(t0);
    assert!(other.holds_slot(&o0));
}

#[test]
fn new_pool_holds_the_blank_in_every_slot() {
    let mut pool: Pool<u16, 3> = Pool::new(1, 0xBEEF);
    let t0 = pool.allocate_slot().unwrap();
    let t1 = pool.allocate_slot().unwrap();
    let t2 = pool.allocate_slot().unwrap();
    assert_eq!(*pool.slot(&t0), 0xBEEF);
    assert_eq!(*pool.slot(&t1), 0xBEEF);
    assert_eq!(*pool.slot(&t2), 0xBEEF);
}

#[test]
fn slot_mut_writes_one_slot_only() {
    let mut pool: Pool<u16, 3> = Pool::new(1, 7);
    let t0 = pool.allocate_slot().unwrap();
    let t1 = pool.allocate_slot().unwrap();
    *pool.slot_mut(&t1) = 99;
    assert_eq!(*pool.slot(&t0), 7);
    assert_eq!(*pool.slot(&t1), 99);
}

#[test]
fn storage_survives_free_and_reallocation() {
    let mut pool: Pool<u16, 2> = Pool::new(1, 0);
    let t0 = pool.allocate_slot().unwrap();
    *pool.slot_mut(&t0) = 1234;
    pool.free_slot(t0);
    let again = pool.allocate_slot().unwrap();
    assert_eq!(again.index(), 0);
    assert_eq!(*pool.slot(&again), 1234);
}

#[test]
fn round_trip_keeps_regions_and_lengths() {
    let mut pool: TcpBuffers<2, 64, 32> = Pool::new(1, TcpSlot::new());
    let socket = TcpSocket::new(&mut pool).unwrap();
    assert_eq!(socket.buffer_token().index(), 0);
    {
        let regions = pool.regions(socket.buffer_token());
        assert_eq!(regions.tx_buf.len(), 64);
        assert_eq!(regions.rx_buf.len(), 32);
        assert!(regions.tx_buf.iter().all(|b| *b == 0));
        assert!(regions.rx_buf.iter().all(|b| *b == 0));
        for (i, b) in regions.tx_buf.iter_mut().enumerate() {
            *b = 0xA0 ^ (i as u8);
        }
        for (i, b) in regions.rx_buf.iter_mut().enumerate() {
            *b = 0x50 ^ (i as u8);
        }
    }
    socket.teardown().release(&mut pool);

    let socket = TcpSocket::new(&mut pool).unwrap();
    assert_eq!(socket.buffer_token().index(), 0);
    let regions = pool.regions(socket.buffer_token());
    assert_eq!(regions.tx_buf.len(), 64);
    assert_eq!(regions.rx_buf.len(), 32);
    // Neither the release nor the allocation touched the bytes.
    for (i, b) in regions.tx_buf.iter().enumerate() {
        assert_eq!(*b, 0xA0 ^ (i as u8));
    }
    for (i, b) in regions.rx_buf.iter().enumerate() {
        assert_eq!(*b, 0x50 ^ (i as u8));
    }
}

#[test]
fn regions_of_two_slots_do_not_overlap() {
    let mut pool: TcpBuffers<2, 8, 8> = Pool::new(1, TcpSlot::new());
    let a = TcpSocket::new(&mut pool).unwrap();
    let b = TcpSocket::new(&mut pool).unwrap();
    pool.regions(a.buffer_token()).tx_buf.fill(0x11);
    pool.regions(a.buffer_token()).rx_buf.fill(0x22);
    pool.regions(b.buffer_token()).tx_buf.fill(0x33);
    pool.regions(b.buffer_token()).rx_buf.fill(0x44);
    assert_eq!(pool.slot(a.buffer_token()).tx_buf, [0x11; 8]);
    assert_eq!(pool.slot(a.buffer_token()).rx_buf, [0x22; 8]);
    assert_eq!(pool.slot(b.buffer_token()).tx_buf, [0x33; 8]);
    assert_eq!(pool.slot(b.buffer_token()).rx_buf, [0x44; 8]);
}
