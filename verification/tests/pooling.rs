use bracket_geometry::prelude::Point;
use command_buffer::batch::DrawBatch;
use command_buffer::buffer::clear_command_buffer;
use command_buffer::buffer::CommandBuffer;
use command_buffer::command::DrawCommand;
use command_buffer::pool::BatchPool;

#[test]
fn pool_round_trip_reuses_storage() {
    // Acquire, submit, release, acquire again: the second acquisition is
    // served from the pool, not from a fresh allocation, as the idle
    // count shows.
    let mut pool = BatchPool::new(2, 64);
    let mut buffer = CommandBuffer::new();
    assert_eq!(pool.idle_len(), 2);

    let mut batch = pool.acquire();
    assert_eq!(pool.idle_len(), 1);
    batch.cls();
    batch.submit(0, &mut buffer);
    pool.release(batch);
    assert_eq!(pool.idle_len(), 2);

    let again = pool.acquire();
    assert_eq!(pool.idle_len(), 1);
    assert_eq!(again.len(), 0);
}

#[test]
fn acquired_batch_is_empty_even_after_dirty_release() {
    // A batch released with contents still in it comes back empty from
    // the next acquire.
    let mut pool = BatchPool::new(1, 8);
    let mut dirty = pool.acquire();
    dirty.cls();
    dirty.target(7);
    assert_eq!(dirty.len(), 2);
    pool.release(dirty);
    let clean = pool.acquire();
    assert_eq!(clean.len(), 0);
}

#[test]
fn exhausted_pool_falls_back_to_fresh_allocation() {
    let mut pool = BatchPool::new(1, 8);
    let first = pool.acquire();
    assert_eq!(pool.idle_len(), 0);
    // Pool is empty now; acquiring must still succeed.
    let second = pool.acquire();
    assert_eq!(second.len(), 0);
    assert_eq!(pool.idle_len(), 0);
    pool.release(first);
    pool.release(second);
    // Capacity is 1, so only one of the two batches is parked.
    assert_eq!(pool.idle_len(), 1);
}

#[test]
fn discarding_unsubmitted_batch_leaves_buffer_untouched() {
    let mut pool = BatchPool::new(4, 16);
    let mut buffer = CommandBuffer::new();

    let mut kept = DrawBatch::new();
    kept.print(Point { x: 1, y: 2 }, "kept".to_string());
    kept.submit(9, &mut buffer);

    let mut discarded = pool.acquire();
    discarded.cls();
    discarded.print(Point { x: 0, y: 0 }, "never drawn".to_string());
    pool.release(discarded);

    let entries = buffer.entries();
    assert_eq!(entries.len(), 1);
    assert_eq!(
        entries[0],
        (9, DrawCommand::Print { pos: Point { x: 1, y: 2 }, text: "kept".to_string() })
    );
}

#[test]
fn clear_command_buffer_empties_it() {
    let mut buffer = CommandBuffer::new();
    let mut batch = DrawBatch::new();
    batch.cls();
    batch.cls();
    batch.submit(0, &mut buffer);
    assert_eq!(buffer.len(), 2);
    clear_command_buffer(&mut buffer);
    assert!(buffer.is_empty());
    assert_eq!(buffer.len(), 0);
}
