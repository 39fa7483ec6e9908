use keeper::planner::{plan, ChunkRange};

#[test]
fn plan_splits_exactly() {
    let chunks = plan(250, 1, 100);
    assert_eq!(
        chunks,
        vec![
            ChunkRange { start: 1, end: 100 },
            ChunkRange { start: 101, end: 200 },
            ChunkRange { start: 201, end: 250 },
        ]
    );
}

#[test]
fn plan_empty_iff_zero_total() {
    assert!(plan(0, 1, 100).is_empty());
    assert!(plan(0, 7, 3).is_empty());
    assert!(!plan(1, 1, 1).is_empty());
}

#[test]
fn plan_floors_items_per_chunk() {
    // capacity 7, two auxiliary accounts per item: three items per chunk.
    let chunks = plan(7, 2, 7);
    assert_eq!(
        chunks,
        vec![
            ChunkRange { start: 1, end: 3 },
            ChunkRange { start: 4, end: 6 },
            ChunkRange { start: 7, end: 7 },
        ]
    );
}

#[test]
fn plan_never_goes_below_one_item() {
    // cost exceeds capacity: one item per chunk, never zero.
    let chunks = plan(3, 10, 4);
    assert_eq!(
        chunks,
        vec![
            ChunkRange { start: 1, end: 1 },
            ChunkRange { start: 2, end: 2 },
            ChunkRange { start: 3, end: 3 },
        ]
    );
}

#[test]
fn plan_covers_contiguously() {
    let chunks = plan(1000, 3, 100);
    let size = 100 / 3;
    let mut next = 1u64;
    for c in &chunks {
        assert_eq!(c.start, next);
        assert!(c.end >= c.start);
        assert!(c.end - c.start + 1 <= size);
        next = c.end + 1;
    }
    assert_eq!(next, 1001);
}

#[test]
fn plan_single_chunk_when_capacity_suffices() {
    let chunks = plan(10, 1, 100);
    assert_eq!(chunks, vec![ChunkRange { start: 1, end: 10 }]);
}
