use enhancecpu::config::{
    default_core_count, default_cores, memory_request, memory_request_of_size, reserve_memory,
    worker_count, LoadConfig, MemoryRequest,
};

#[test]
fn workers_are_clamped_to_the_machine() {
    assert_eq!(worker_count(2, 8), 2);
    assert_eq!(worker_count(8, 8), 8);
    assert_eq!(worker_count(16, 8), 8);
    assert_eq!(worker_count(1, 1), 1);
    for c in 1..20usize {
        for n in 1..20usize {
            assert_eq!(worker_count(c, n), c.min(n));
        }
    }
}

#[test]
fn workers_are_at_least_one() {
    assert_eq!(worker_count(0, 8), 1);
    assert_eq!(worker_count(3, 0), 1);
}

#[test]
fn default_is_half_the_machine() {
    assert_eq!(default_cores(8), 4);
    assert_eq!(default_cores(7), 3);
    assert_eq!(default_cores(2), 1);
    assert_eq!(default_cores(1), 1);
    assert_eq!(default_cores(0), 1);
    assert!(default_core_count() >= 1);
}

#[test]
fn memory_absent() {
    assert_eq!(memory_request(None), MemoryRequest::Absent);
}

#[test]
fn memory_suffixes() {
    assert_eq!(memory_request(Some("512M")), MemoryRequest::Bytes(512_000_000));
    assert_eq!(memory_request(Some("512MiB")), MemoryRequest::Bytes(512 * 1024 * 1024));
    assert_eq!(memory_request(Some("512Mi")), MemoryRequest::Bytes(512 * 1024 * 1024));
    assert_eq!(memory_request(Some("1G")), MemoryRequest::Bytes(1_000_000_000));
    assert_eq!(memory_request(Some("1GiB")), MemoryRequest::Bytes(1 << 30));
    assert_eq!(memory_request(Some("100M")), MemoryRequest::Bytes(100_000_000));
    assert_eq!(memory_request(Some("4 KiB")), MemoryRequest::Bytes(4096));
}

#[test]
fn memory_plain_number_is_bytes() {
    assert_eq!(memory_request(Some("1024")), MemoryRequest::Bytes(1024));
    assert_eq!(memory_request(Some("0")), MemoryRequest::Bytes(0));
}

#[test]
fn memory_bogus_is_invalid() {
    assert_eq!(memory_request(Some("bogus")), MemoryRequest::Invalid);
    assert_eq!(memory_request(Some("")), MemoryRequest::Invalid);
    assert_eq!(memory_request(Some("12XB")), MemoryRequest::Invalid);
}

#[test]
fn memory_from_read_size() {
    assert_eq!(memory_request_of_size(None), MemoryRequest::Invalid);
    assert_eq!(memory_request_of_size(Some(77)), MemoryRequest::Bytes(77));
}

#[test]
fn config_new() {
    let c = LoadConfig::new(2, 8, Some("100M"));
    assert_eq!(c.cores, 2);
    assert_eq!(c.memory, MemoryRequest::Bytes(100_000_000));
    assert_eq!(c.reservation(), Some(100_000_000));
    let c = LoadConfig::new(32, 4, Some("bogus"));
    assert_eq!(c.cores, 4);
    assert_eq!(c.memory, MemoryRequest::Invalid);
    assert_eq!(c.reservation(), None);
    let c = LoadConfig::new(0, 4, None);
    assert_eq!(c.cores, 1);
    assert_eq!(c.reservation(), None);
}

#[test]
fn config_for_this_machine() {
    let c = LoadConfig::for_this_machine(1, None);
    assert_eq!(c.cores, 1);
    assert_eq!(c.memory, MemoryRequest::Absent);
    let c = LoadConfig::for_this_machine(usize::MAX, Some("1K"));
    assert!(c.cores >= 1);
    assert_eq!(c.memory, MemoryRequest::Bytes(1000));
}

#[test]
fn reservation_is_zeroed_and_sized() {
    let r = reserve_memory(512 * 1024 * 1024);
    assert_eq!(r.len(), 512 * 1024 * 1024);
    assert_eq!(r[0], 0);
    assert_eq!(r[r.len() - 1], 0);
    assert!(reserve_memory(0).is_empty());
    assert!(reserve_memory(1000).iter().all(|b| *b == 0));
}
