//! The counter-object model: accumulating writes, draining and
//! semaphore reads, and the would-block and invalid-value failures.

use rustix::eventfd::{CounterObject, COUNTER_MAX, EFD_CLOEXEC, EFD_NONBLOCK, EFD_SEMAPHORE};
use rustix::io::{EAGAIN, EINVAL};

#[test]
fn test_eventfd() {
    let mut efd = CounterObject::create(0, EFD_CLOEXEC);

    for u in [1_u64, 3, 6, 11, 5000] {
        let bytes = u.to_le_bytes().to_vec();
        assert_eq!(efd.write_bytes(&bytes).unwrap(), 8);
    }

    let out = efd.read_bytes().unwrap();
    assert_eq!(out.len(), 8);
    let mut word = [0u8; 8];
    word.copy_from_slice(&out);
    let u = u64::from_le_bytes(word);
    assert_eq!(u, 5021);
}

#[test]
fn default_read_drains_the_counter() {
    let mut c = CounterObject::create(7, 0);
    assert_eq!(c.read_value().unwrap(), 7);
    // The counter is now zero, so another read would block.
    assert_eq!(c.read_value().unwrap_err().raw_os_error(), EAGAIN);
}

#[test]
fn semaphore_read_decrements_by_one() {
    let mut c = CounterObject::create(3, EFD_SEMAPHORE);
    assert_eq!(c.read_value().unwrap(), 1);
    assert_eq!(c.read_value().unwrap(), 1);
    assert_eq!(c.read_value().unwrap(), 1);
    assert_eq!(c.read_value().unwrap_err().raw_os_error(), EAGAIN);
}

#[test]
fn overfull_write_would_block() {
    let mut c = CounterObject::create(1, EFD_NONBLOCK);
    assert_eq!(c.write_value(COUNTER_MAX).unwrap_err().raw_os_error(), EAGAIN);
    // The failed write left the counter unchanged.
    assert_eq!(c.read_value().unwrap(), 1);
}

#[test]
fn all_ones_word_is_invalid() {
    let mut c = CounterObject::create(0, 0);
    assert_eq!(c.write_value(u64::MAX).unwrap_err().raw_os_error(), EINVAL);
    let bytes = u64::MAX.to_le_bytes().to_vec();
    assert_eq!(c.write_bytes(&bytes).unwrap_err().raw_os_error(), EINVAL);
}

#[test]
fn short_write_buffer_is_invalid() {
    let mut c = CounterObject::create(0, 0);
    let bytes = vec![1u8, 0, 0, 0];
    assert_eq!(c.write_bytes(&bytes).unwrap_err().raw_os_error(), EINVAL);
}

#[test]
fn empty_counter_read_would_block() {
    let mut c = CounterObject::create(0, 0);
    assert_eq!(c.read_bytes().unwrap_err().raw_os_error(), EAGAIN);
}
