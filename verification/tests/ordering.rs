use bracket_geometry::prelude::Point;
use command_buffer::batch::DrawBatch;
use command_buffer::buffer::CommandBuffer;
use command_buffer::command::DrawCommand;
use command_buffer::replay::render_draw_buffer;

#[test]
fn replay_orders_by_base_priority() {
    // Batch A at base 1000, batch B at base 0: B's commands replay first
    // even though A was submitted first.
    let mut buffer = CommandBuffer::new();

    let mut a = DrawBatch::new();
    a.cls();
    a.print(Point { x: 0, y: 0 }, "hi".to_string());
    a.submit(1000, &mut buffer);

    let mut b = DrawBatch::new();
    b.set_all_alpha(0.5f32.to_bits(), 1.0f32.to_bits());
    b.submit(0, &mut buffer);

    let order = render_draw_buffer(&mut buffer);
    let cmds: Vec<&DrawCommand> = order.iter().map(|e| &e.1).collect();
    assert_eq!(order.len(), 3);
    assert_eq!(
        *cmds[0],
        DrawCommand::SetAllAlpha { fg: 0.5f32.to_bits(), bg: 1.0f32.to_bits() }
    );
    assert_eq!(*cmds[1], DrawCommand::ClearScreen);
    assert_eq!(*cmds[2], DrawCommand::Print { pos: Point { x: 0, y: 0 }, text: "hi".to_string() });
    assert!(buffer.is_empty());
}

#[test]
fn equal_base_priority_keeps_submission_order() {
    // Two batches with the same base priority 500, one command each: the
    // dispatch order equals the submission order (stability).
    let mut buffer = CommandBuffer::new();

    let mut first = DrawBatch::new();
    first.target(1);
    first.submit(500, &mut buffer);

    let mut second = DrawBatch::new();
    second.target(2);
    second.submit(500, &mut buffer);

    let order = render_draw_buffer(&mut buffer);
    assert_eq!(order.len(), 2);
    assert_eq!(order[0], (500, DrawCommand::SetTarget { console: 1 }));
    assert_eq!(order[1], (500, DrawCommand::SetTarget { console: 2 }));
}

#[test]
fn within_batch_order_is_kept() {
    let mut buffer = CommandBuffer::new();
    let mut batch = DrawBatch::new();
    for console in 0..8usize {
        batch.target(console);
    }
    batch.submit(100, &mut buffer);
    let order = render_draw_buffer(&mut buffer);
    assert_eq!(order.len(), 8);
    for (i, entry) in order.iter().enumerate() {
        assert_eq!(*entry, (100 + i, DrawCommand::SetTarget { console: i }));
    }
}

#[test]
fn submit_stamps_absolute_priorities() {
    let mut buffer = CommandBuffer::new();
    let mut batch = DrawBatch::new();
    batch.cls();
    batch.target(3);
    batch.cls();
    batch.submit(40, &mut buffer);
    let entries = buffer.entries();
    assert_eq!(entries.len(), 3);
    assert_eq!(entries[0], (40, DrawCommand::ClearScreen));
    assert_eq!(entries[1], (41, DrawCommand::SetTarget { console: 3 }));
    assert_eq!(entries[2], (42, DrawCommand::ClearScreen));
    assert_eq!(batch.len(), 0);
}

#[test]
fn interleaved_priorities_sort_stably() {
    // Mixed priorities from three batches; ties broken by submission
    // order, everything else ascending by priority.
    let mut buffer = CommandBuffer::new();

    let mut a = DrawBatch::new();
    a.target(10);
    a.target(11);
    a.submit(5, &mut buffer);

    let mut b = DrawBatch::new();
    b.target(20);
    b.submit(0, &mut buffer);

    let mut c = DrawBatch::new();
    c.target(30);
    c.submit(5, &mut buffer);

    let order = render_draw_buffer(&mut buffer);
    let expect = vec![
        (0usize, DrawCommand::SetTarget { console: 20 }),
        (5, DrawCommand::SetTarget { console: 10 }),
        (5, DrawCommand::SetTarget { console: 30 }),
        (6, DrawCommand::SetTarget { console: 11 }),
    ];
    assert_eq!(order, expect);
}

#[test]
fn replaying_twice_dispatches_nothing_the_second_time() {
    let mut buffer = CommandBuffer::new();
    let mut batch = DrawBatch::new();
    batch.cls();
    batch.submit(0, &mut buffer);

    let first = render_draw_buffer(&mut buffer);
    assert_eq!(first.len(), 1);
    let second = render_draw_buffer(&mut buffer);
    assert_eq!(second.len(), 0);
    assert!(buffer.is_empty());
}

#[test]
fn replay_of_untouched_buffer_is_empty() {
    let mut buffer = CommandBuffer::with_capacity(64);
    let order = render_draw_buffer(&mut buffer);
    assert!(order.is_empty());
}
