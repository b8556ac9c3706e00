use datagen_pipeline::buffer::BatchBuffer;

#[test]
fn append_then_drain_returns_insertion_order() {
    let mut b: BatchBuffer<u64> = BatchBuffer::new(4);
    b.append(10);
    b.append(20);
    b.append(30);
    let out = b.drain();
    assert_eq!(out, vec![10, 20, 30]);
    assert_eq!(b.len(), 0);
}

#[test]
fn drain_leaves_buffer_reusable() {
    let mut b: BatchBuffer<u64> = BatchBuffer::new(2);
    b.append(1);
    b.append(2);
    let first = b.drain();
    assert_eq!(first, vec![1, 2]);
    assert!(!b.is_full());
    b.append(3);
    let second = b.drain();
    assert_eq!(second, vec![3]);
    assert_eq!(b.len(), 0);
}

#[test]
fn is_full_exactly_at_batch_size_never_before() {
    let mut b: BatchBuffer<u64> = BatchBuffer::new(3);
    assert!(!b.is_full());
    b.append(1);
    assert!(!b.is_full());
    b.append(2);
    assert!(!b.is_full());
    b.append(3);
    assert!(b.is_full());
}

#[test]
fn drain_of_empty_buffer_is_empty() {
    let mut b: BatchBuffer<u64> = BatchBuffer::new(5);
    let out = b.drain();
    assert!(out.is_empty());
    assert_eq!(b.len(), 0);
}
