//! Per-caller batches of drawing commands.
//!
//! A `DrawBatch` is exclusively owned by one producer between acquisition
//! and submission, so commands are appended with no synchronisation at
//! all. Each command is tagged with relative priority 0 when appended;
//! `submit` rewrites the tags to `base + index` and moves the whole batch
//! into the shared buffer, leaving the batch empty for reuse.

use vstd::prelude::*;

use crate::buffer::CommandBuffer;
use crate::command::DrawCommand;
use crate::command::TextAlign;
use bracket_color::prelude::ColorPair;
use bracket_color::prelude::RGBA;
use bracket_geometry::prelude::Point;
use bracket_geometry::prelude::Rect;

verus! {

/// The entries a batch of commands `cmds` contributes to the shared
/// buffer when submitted with priority base `base`: the i-th command is
/// stamped with absolute priority `base + i`.
pub open spec fn stamped(cmds: Seq<DrawCommand>, base: usize) -> Seq<(usize, DrawCommand)> {
    Seq::new(cmds.len(), |i: int| (((base + i) as usize, cmds[i])))
}

/// An ordered batch of priority-tagged drawing commands, owned by a
/// single producer. Its view is the sequence of commands in append
/// order; the relative priority tags (all 0 until submission) are a
/// storage detail.
pub struct DrawBatch {
    pub(crate) batch: Vec<(usize, DrawCommand)>,
}

impl View for DrawBatch {
    type V = Seq<DrawCommand>;

    closed spec fn view(&self) -> Seq<DrawCommand> {
        self.batch@.map_values(|e: (usize, DrawCommand)| e.1)
    }
}

impl DrawBatch {
    /// A new, empty batch with freshly allocated storage.
    pub fn new() -> (r: DrawBatch)
        ensures
            r@ == Seq::<DrawCommand>::empty(),
    {
        let r = DrawBatch { batch: Vec::new() };
        proof {
            assert(r@ =~= Seq::<DrawCommand>::empty());
        }
        r
    }

    /// A new, empty batch with room reserved for `capacity` commands (a
    /// tuning hint; it does not affect the contents).
    pub fn with_capacity(capacity: usize) -> (r: DrawBatch)
        ensures
            r@ == Seq::<DrawCommand>::empty(),
    {
        let r = DrawBatch { batch: Vec::with_capacity(capacity) };
        proof {
            assert(r@ =~= Seq::<DrawCommand>::empty());
        }
        r
    }

    /// The number of commands appended so far.
    pub fn len(&self) -> (n: usize)
        ensures
            n == self@.len(),
    {
        self.batch.len()
    }

    /// Discards the batch's contents without submitting them. The shared
    /// buffer is untouched.
    pub fn clear(&mut self)
        ensures
            final(self)@ == Seq::<DrawCommand>::empty(),
    {
        self.batch.clear();
        proof {
            assert(self@ =~= Seq::<DrawCommand>::empty());
        }
    }

    /// Appends one command with relative priority 0.
    fn push_cmd(&mut self, cmd: DrawCommand)
        ensures
            final(self)@ == old(self)@.push(cmd),
    {
        self.batch.push((0, cmd));
        proof {
            assert(self@ =~= old(self)@.push(cmd));
        }
    }

    /// Stamps every command with its absolute priority `z_order + index`
    /// and moves the whole batch, in append order, to the end of the
    /// shared buffer. The batch is left empty, ready for reuse.
    pub fn submit(&mut self, z_order: usize, buffer: &mut CommandBuffer)
        requires
            z_order + old(self)@.len() <= usize::MAX,
        ensures
            final(buffer)@ == old(buffer)@ + stamped(old(self)@, z_order),
            final(self)@ == Seq::<DrawCommand>::empty(),
    {
        let ghost orig_cmds = self@;
        let ghost orig_buf = buffer@;
        let mut idx: usize = 0;
        while self.batch.len() > 0
            invariant
                z_order + orig_cmds.len() <= usize::MAX,
                idx + self.batch@.len() == orig_cmds.len(),
                self@ == orig_cmds.skip(idx as int),
                buffer@ == orig_buf + stamped(orig_cmds.take(idx as int), z_order),
            decreases self.batch@.len(),
        {
            let ghost pre_batch = self.batch@;
            let ghost pre_view = self@;
            let (_tag, cmd) = self.batch.remove(0);
            buffer.push_entry(z_order + idx, cmd);
            proof {
                assert(cmd == pre_view[0]) by {
                    assert(pre_view[0] == pre_batch[0].1);
                }
                assert(cmd == orig_cmds[idx as int]);
                assert forall|k: int| 0 <= k < self.batch@.len() implies #[trigger] self@[k]
                    == orig_cmds[idx + 1 + k] by {
                    assert(self.batch@[k] == pre_batch[k + 1]);
                    assert(self@[k] == self.batch@[k].1);
                    assert(pre_view[k + 1] == pre_batch[k + 1].1);
                    assert(pre_view[k + 1] == orig_cmds[idx + 1 + k]);
                }
                assert(self@ =~= orig_cmds.skip(idx + 1));
                assert(stamped(orig_cmds.take(idx + 1), z_order) =~= stamped(
                    orig_cmds.take(idx as int),
                    z_order,
                ).push((((z_order + idx) as usize), cmd)));
                assert(buffer@ =~= orig_buf + stamped(orig_cmds.take(idx + 1), z_order));
            }
            idx = idx + 1;
        }
        proof {
            assert(self@ =~= Seq::<DrawCommand>::empty());
            assert(orig_cmds.take(idx as int) =~= orig_cmds);
        }
    }

    /// Appends a clear-screen command.
    pub fn cls(&mut self)
        ensures
            final(self)@ == old(self)@.push(DrawCommand::ClearScreen),
    {
        self.push_cmd(DrawCommand::ClearScreen);
    }

    /// Appends a clear-screen-to-color command.
    pub fn cls_color(&mut self, color: RGBA)
        ensures
            final(self)@ == old(self)@.push(DrawCommand::ClearToColor { color }),
    {
        self.push_cmd(DrawCommand::ClearToColor { color });
    }

    /// Appends a command that selects the console subsequent commands
    /// render to.
    pub fn target(&mut self, console: usize)
        ensures
            final(self)@ == old(self)@.push(DrawCommand::SetTarget { console }),
    {
        self.push_cmd(DrawCommand::SetTarget { console });
    }

    /// Appends a command that sets one cell's glyph and colors.
    pub fn set(&mut self, pos: Point, color: ColorPair, glyph: u8)
        ensures
            final(self)@ == old(self)@.push(DrawCommand::SetGlyph { pos, color, glyph }),
    {
        self.push_cmd(DrawCommand::SetGlyph { pos, color, glyph });
    }

    /// Appends a command that sets one cell's background color.
    pub fn set_bg(&mut self, pos: Point, bg: RGBA)
        ensures
            final(self)@ == old(self)@.push(DrawCommand::SetBackground { pos, bg }),
    {
        self.push_cmd(DrawCommand::SetBackground { pos, bg });
    }

    /// Appends a formatted-text print command with alignment and optional
    /// background.
    pub fn printer(&mut self, pos: Point, text: String, align: TextAlign, background: Option<RGBA>)
        ensures
            final(self)@ == old(self)@.push(DrawCommand::Printer { pos, text, align, background }),
    {
        self.push_cmd(DrawCommand::Printer { pos, text, align, background });
    }

    /// Appends a print command in the default colors.
    pub fn print(&mut self, pos: Point, text: String)
        ensures
            final(self)@ == old(self)@.push(DrawCommand::Print { pos, text }),
    {
        self.push_cmd(DrawCommand::Print { pos, text });
    }

    /// Appends a print command with explicit colors.
    pub fn print_color(&mut self, pos: Point, text: String, color: ColorPair)
        ensures
            final(self)@ == old(self)@.push(DrawCommand::PrintColor { pos, text, color }),
    {
        self.push_cmd(DrawCommand::PrintColor { pos, text, color });
    }

    /// Appends a print command centered on the console's width, at
    /// vertical position `y`.
    pub fn print_centered(&mut self, y: i32, text: String)
        ensures
            final(self)@ == old(self)@.push(DrawCommand::PrintCentered { y, text }),
    {
        self.push_cmd(DrawCommand::PrintCentered { y, text });
    }

    /// Appends a centered print command with explicit colors.
    pub fn print_color_centered(&mut self, y: i32, text: String, color: ColorPair)
        ensures
            final(self)@ == old(self)@.push(DrawCommand::PrintColorCentered { y, text, color }),
    {
        self.push_cmd(DrawCommand::PrintColorCentered { y, text, color });
    }

    /// Appends a print command centered on `pos`.
    pub fn print_centered_at(&mut self, pos: Point, text: String)
        ensures
            final(self)@ == old(self)@.push(DrawCommand::PrintCenteredAt { pos, text }),
    {
        self.push_cmd(DrawCommand::PrintCenteredAt { pos, text });
    }

    /// Appends a print command centered on `pos`, with explicit colors.
    pub fn print_color_centered_at(&mut self, pos: Point, text: String, color: ColorPair)
        ensures
            final(self)@ == old(self)@.push(DrawCommand::PrintColorCenteredAt { pos, text, color }),
    {
        self.push_cmd(DrawCommand::PrintColorCenteredAt { pos, text, color });
    }

    /// Appends a right-aligned print command.
    pub fn print_right(&mut self, pos: Point, text: String)
        ensures
            final(self)@ == old(self)@.push(DrawCommand::PrintRight { pos, text }),
    {
        self.push_cmd(DrawCommand::PrintRight { pos, text });
    }

    /// Appends a right-aligned print command with explicit colors.
    pub fn print_color_right(&mut self, pos: Point, text: String, color: ColorPair)
        ensures
            final(self)@ == old(self)@.push(DrawCommand::PrintColorRight { pos, text, color }),
    {
        self.push_cmd(DrawCommand::PrintColorRight { pos, text, color });
    }

    /// Appends a command that draws a box with single line characters.
    pub fn draw_box(&mut self, pos: Rect, color: ColorPair)
        ensures
            final(self)@ == old(self)@.push(DrawCommand::Box { pos, color }),
    {
        self.push_cmd(DrawCommand::Box { pos, color });
    }

    /// Appends a command that draws a hollow box with single line
    /// characters.
    pub fn draw_hollow_box(&mut self, pos: Rect, color: ColorPair)
        ensures
            final(self)@ == old(self)@.push(DrawCommand::HollowBox { pos, color }),
    {
        self.push_cmd(DrawCommand::HollowBox { pos, color });
    }

    /// Appends a command that draws a box with double line characters.
    pub fn draw_double_box(&mut self, pos: Rect, color: ColorPair)
        ensures
            final(self)@ == old(self)@.push(DrawCommand::DoubleBox { pos, color }),
    {
        self.push_cmd(DrawCommand::DoubleBox { pos, color });
    }

    /// Appends a command that draws a hollow box with double line
    /// characters.
    pub fn draw_hollow_double_box(&mut self, pos: Rect, color: ColorPair)
        ensures
            final(self)@ == old(self)@.push(DrawCommand::HollowDoubleBox { pos, color }),
    {
        self.push_cmd(DrawCommand::HollowDoubleBox { pos, color });
    }

    /// Appends a command that fills a rectangle with one glyph and color
    /// pair.
    pub fn fill_region(&mut self, pos: Rect, color: ColorPair, glyph: u8)
        ensures
            final(self)@ == old(self)@.push(DrawCommand::FillRegion { pos, color, glyph }),
    {
        self.push_cmd(DrawCommand::FillRegion { pos, color, glyph });
    }

    /// Appends a command that draws a horizontal progress bar showing `n`
    /// out of `max`.
    pub fn bar_horizontal(&mut self, pos: Point, width: i32, n: i32, max: i32, color: ColorPair)
        ensures
            final(self)@ == old(self)@.push(DrawCommand::BarHorizontal { pos, width, n, max, color }),
    {
        self.push_cmd(DrawCommand::BarHorizontal { pos, width, n, max, color });
    }

    /// Appends a command that draws a vertical progress bar showing `n`
    /// out of `max`.
    pub fn bar_vertical(&mut self, pos: Point, height: i32, n: i32, max: i32, color: ColorPair)
        ensures
            final(self)@ == old(self)@.push(DrawCommand::BarVertical { pos, height, n, max, color }),
    {
        self.push_cmd(DrawCommand::BarVertical { pos, height, n, max, color });
    }

    /// Appends a command that sets (`Some`) or removes (`None`) the
    /// clipping rectangle of the current console.
    pub fn set_clipping(&mut self, clip: Option<Rect>)
        ensures
            final(self)@ == old(self)@.push(DrawCommand::SetClipping { clip }),
    {
        self.push_cmd(DrawCommand::SetClipping { clip });
    }

    /// Appends a command that applies a foreground alpha value (given as
    /// `f32` bits) to every cell of the current console.
    pub fn set_all_fg_alpha(&mut self, alpha: u32)
        ensures
            final(self)@ == old(self)@.push(DrawCommand::SetFgAlpha { alpha }),
    {
        self.push_cmd(DrawCommand::SetFgAlpha { alpha });
    }

    /// Appends a command that applies a background alpha value (given as
    /// `f32` bits) to every cell of the current console.
    pub fn set_all_bg_alpha(&mut self, alpha: u32)
        ensures
            final(self)@ == old(self)@.push(DrawCommand::SetBgAlpha { alpha }),
    {
        self.push_cmd(DrawCommand::SetBgAlpha { alpha });
    }

    /// Appends a command that applies foreground and background alpha
    /// values (given as `f32` bits) to every cell of the current console.
    pub fn set_all_alpha(&mut self, fg: u32, bg: u32)
        ensures
            final(self)@ == old(self)@.push(DrawCommand::SetAllAlpha { fg, bg }),
    {
        self.push_cmd(DrawCommand::SetAllAlpha { fg, bg });
    }
}

} // verus!
