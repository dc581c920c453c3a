use bracket_color::prelude::ColorPair;
use bracket_color::prelude::RGBA;
use bracket_geometry::prelude::Point;
use bracket_geometry::prelude::Rect;
use command_buffer::batch::DrawBatch;
use command_buffer::buffer::CommandBuffer;
use command_buffer::command::DrawCommand;
use command_buffer::command::TextAlign;

fn white_on_black() -> ColorPair {
    ColorPair {
        fg: RGBA { r: 1.0, g: 1.0, b: 1.0, a: 1.0 },
        bg: RGBA { r: 0.0, g: 0.0, b: 0.0, a: 1.0 },
    }
}

#[test]
fn every_builder_appends_its_command_in_call_order() {
    let color = white_on_black();
    let red = RGBA { r: 1.0, g: 0.0, b: 0.0, a: 1.0 };
    let pos = Point { x: 3, y: 4 };
    let rect = Rect { x1: 0, x2: 10, y1: 0, y2: 5 };

    let mut batch = DrawBatch::new();
    batch.cls();
    batch.cls_color(red);
    batch.target(2);
    batch.set(pos, color, 64);
    batch.set_bg(pos, red);
    batch.printer(pos, "fmt".to_string(), TextAlign::Center, Some(red));
    batch.print(pos, "plain".to_string());
    batch.print_color(pos, "colored".to_string(), color);
    batch.print_centered(7, "mid".to_string());
    batch.print_color_centered(8, "midc".to_string(), color);
    batch.print_centered_at(pos, "at".to_string());
    batch.print_color_centered_at(pos, "atc".to_string(), color);
    batch.print_right(pos, "right".to_string());
    batch.print_color_right(pos, "rightc".to_string(), color);
    batch.draw_box(rect, color);
    batch.draw_hollow_box(rect, color);
    batch.draw_double_box(rect, color);
    batch.draw_hollow_double_box(rect, color);
    batch.fill_region(rect, color, 35);
    batch.bar_horizontal(pos, 20, 3, 10, color);
    batch.bar_vertical(pos, 12, 5, 9, color);
    batch.set_clipping(Some(rect));
    batch.set_clipping(None);
    batch.set_all_fg_alpha(0.25f32.to_bits());
    batch.set_all_bg_alpha(0.75f32.to_bits());
    batch.set_all_alpha(0.1f32.to_bits(), 0.9f32.to_bits());
    assert_eq!(batch.len(), 26);

    let mut buffer = CommandBuffer::new();
    batch.submit(0, &mut buffer);
    let expect = vec![
        DrawCommand::ClearScreen,
        DrawCommand::ClearToColor { color: red },
        DrawCommand::SetTarget { console: 2 },
        DrawCommand::SetGlyph { pos, color, glyph: 64 },
        DrawCommand::SetBackground { pos, bg: red },
        DrawCommand::Printer {
            pos,
            text: "fmt".to_string(),
            align: TextAlign::Center,
            background: Some(red),
        },
        DrawCommand::Print { pos, text: "plain".to_string() },
        DrawCommand::PrintColor { pos, text: "colored".to_string(), color },
        DrawCommand::PrintCentered { y: 7, text: "mid".to_string() },
        DrawCommand::PrintColorCentered { y: 8, text: "midc".to_string(), color },
        DrawCommand::PrintCenteredAt { pos, text: "at".to_string() },
        DrawCommand::PrintColorCenteredAt { pos, text: "atc".to_string(), color },
        DrawCommand::PrintRight { pos, text: "right".to_string() },
        DrawCommand::PrintColorRight { pos, text: "rightc".to_string(), color },
        DrawCommand::Box { pos: rect, color },
        DrawCommand::HollowBox { pos: rect, color },
        DrawCommand::DoubleBox { pos: rect, color },
        DrawCommand::HollowDoubleBox { pos: rect, color },
        DrawCommand::FillRegion { pos: rect, color, glyph: 35 },
        DrawCommand::BarHorizontal { pos, width: 20, n: 3, max: 10, color },
        DrawCommand::BarVertical { pos, height: 12, n: 5, max: 9, color },
        DrawCommand::SetClipping { clip: Some(rect) },
        DrawCommand::SetClipping { clip: None },
        DrawCommand::SetFgAlpha { alpha: 0.25f32.to_bits() },
        DrawCommand::SetBgAlpha { alpha: 0.75f32.to_bits() },
        DrawCommand::SetAllAlpha { fg: 0.1f32.to_bits(), bg: 0.9f32.to_bits() },
    ];
    let entries = buffer.entries();
    assert_eq!(entries.len(), expect.len());
    for (i, want) in expect.iter().enumerate() {
        assert_eq!(entries[i].0, i);
        assert_eq!(&entries[i].1, want);
    }
}

#[test]
fn clearing_a_batch_discards_its_commands() {
    let mut batch = DrawBatch::with_capacity(32);
    batch.cls();
    batch.target(1);
    assert_eq!(batch.len(), 2);
    batch.clear();
    assert_eq!(batch.len(), 0);

    let mut buffer = CommandBuffer::new();
    batch.submit(0, &mut buffer);
    assert!(buffer.is_empty());
}

#[test]
fn alpha_bits_round_trip_through_the_buffer() {
    let mut buffer = CommandBuffer::new();
    let mut batch = DrawBatch::new();
    batch.set_all_fg_alpha(0.5f32.to_bits());
    batch.submit(0, &mut buffer);
    match &buffer.entries()[0].1 {
        DrawCommand::SetFgAlpha { alpha } => {
            assert_eq!(f32::from_bits(*alpha), 0.5f32);
        }
        other => panic!("unexpected command {:?}", other),
    }
}
