use wasm_boundary::allocation::{GuestMemory, ProtocolViolation};

#[test]
fn round_trip_write_consume() {
    let mut mem = GuestMemory::new();
    let payload = vec![1u8, 2, 3, 4, 5];
    let ptr = mem.write_bytes(payload.clone());
    assert_eq!(mem.live_count(), 1);
    let back = mem.consume_bytes(ptr, 5).unwrap();
    assert_eq!(back, payload);
    assert_eq!(mem.live_count(), 0);
}

#[test]
fn round_trip_empty_buffer() {
    let mut mem = GuestMemory::new();
    let ptr = mem.write_bytes(Vec::new());
    let back = mem.consume_bytes(ptr, 0).unwrap();
    assert!(back.is_empty());
    assert_eq!(mem.live_count(), 0);
}

#[test]
fn allocate_write_free_cycles() {
    let mut mem = GuestMemory::new();
    for round in 0u8..10 {
        let ptr = mem.allocate(4);
        assert_eq!(mem.live_count(), 1);
        mem.host_write(ptr, &vec![round, round, round, round]).unwrap();
        let seen = mem.host_read(ptr, 4).unwrap();
        assert_eq!(seen, vec![round, round, round, round]);
        mem.deallocate(ptr, 4).unwrap();
        assert_eq!(mem.live_count(), 0);
    }
}

#[test]
fn interleaved_allocations_do_not_corrupt() {
    let mut mem = GuestMemory::new();
    let a = mem.allocate(3);
    let b = mem.write_bytes(vec![7u8, 8, 9]);
    assert_ne!(a, b);
    mem.host_write(a, &vec![1u8, 2, 3]).unwrap();
    mem.deallocate(a, 3).unwrap();
    // Freeing one region leaves the other's bytes intact.
    assert_eq!(mem.host_read(b, 3).unwrap(), vec![7u8, 8, 9]);
    assert_eq!(mem.consume_bytes(b, 3).unwrap(), vec![7u8, 8, 9]);
    assert_eq!(mem.live_count(), 0);
}

#[test]
fn unknown_pointer_is_reported() {
    let mut mem = GuestMemory::new();
    let ptr = mem.write_bytes(vec![1u8]);
    assert_eq!(mem.consume_bytes(ptr + 100, 1), Err(ProtocolViolation::UnknownPointer));
    assert_eq!(mem.deallocate(ptr + 100, 1), Err(ProtocolViolation::UnknownPointer));
    assert_eq!(mem.host_write(ptr + 100, &vec![0u8]), Err(ProtocolViolation::UnknownPointer));
    assert_eq!(mem.host_read(ptr + 100, 1), Err(ProtocolViolation::UnknownPointer));
    // The buffer itself is still live and reclaimable.
    assert_eq!(mem.consume_bytes(ptr, 1).unwrap(), vec![1u8]);
}

#[test]
fn length_mismatch_is_reported() {
    let mut mem = GuestMemory::new();
    let ptr = mem.write_bytes(vec![1u8, 2, 3]);
    assert_eq!(mem.consume_bytes(ptr, 2), Err(ProtocolViolation::LengthMismatch));
    assert_eq!(mem.consume_bytes(ptr, 4), Err(ProtocolViolation::LengthMismatch));
    assert_eq!(mem.deallocate(ptr, 0), Err(ProtocolViolation::LengthMismatch));
    assert_eq!(mem.host_write(ptr, &vec![0u8]), Err(ProtocolViolation::LengthMismatch));
    assert_eq!(mem.host_read(ptr, 2), Err(ProtocolViolation::LengthMismatch));
    // The exact capability still works.
    assert_eq!(mem.consume_bytes(ptr, 3).unwrap(), vec![1u8, 2, 3]);
}
