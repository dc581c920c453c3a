//! The shared ordered command buffer.
//!
//! One `CommandBuffer` instance collects the priority-tagged commands of
//! every batch submitted during a frame. It is constructed explicitly and
//! passed by reference to producers and to the replay step, so that
//! initialisation order stays explicit; callers that share it across
//! threads wrap it in their own mutual exclusion.

use vstd::prelude::*;

use crate::command::DrawCommand;

verus! {

/// An ordered sequence of `(priority, command)` pairs. Append-only during
/// a frame; drained to empty exactly once by the replay step.
pub struct CommandBuffer {
    pub(crate) entries: Vec<(usize, DrawCommand)>,
}

impl View for CommandBuffer {
    type V = Seq<(usize, DrawCommand)>;

    closed spec fn view(&self) -> Seq<(usize, DrawCommand)> {
        self.entries@
    }
}

impl CommandBuffer {
    /// A new, empty command buffer.
    pub fn new() -> (r: CommandBuffer)
        ensures
            r@ == Seq::<(usize, DrawCommand)>::empty(),
    {
        CommandBuffer { entries: Vec::new() }
    }

    /// A new, empty command buffer with room reserved for `capacity`
    /// entries (a tuning hint; it does not affect the contents).
    pub fn with_capacity(capacity: usize) -> (r: CommandBuffer)
        ensures
            r@ == Seq::<(usize, DrawCommand)>::empty(),
    {
        CommandBuffer { entries: Vec::with_capacity(capacity) }
    }

    /// Empties the buffer.
    pub fn clear(&mut self)
        ensures
            final(self)@ == Seq::<(usize, DrawCommand)>::empty(),
    {
        self.entries.clear();
    }

    /// The number of buffered commands.
    pub fn len(&self) -> (n: usize)
        ensures
            n == self@.len(),
    {
        self.entries.len()
    }

    /// True when nothing is buffered.
    pub fn is_empty(&self) -> (r: bool)
        ensures
            r == (self@.len() == 0),
    {
        self.entries.is_empty()
    }

    /// Appends one priority-tagged command at the end of the buffer.
    pub(crate) fn push_entry(&mut self, priority: usize, cmd: DrawCommand)
        ensures
            final(self)@ == old(self)@.push((priority, cmd)),
    {
        self.entries.push((priority, cmd));
    }

    /// Moves the buffered entries out, leaving the buffer empty.
    pub(crate) fn take_entries(&mut self) -> (r: Vec<(usize, DrawCommand)>)
        ensures
            r@ == old(self)@,
            final(self)@ == Seq::<(usize, DrawCommand)>::empty(),
    {
        let mut v: Vec<(usize, DrawCommand)> = Vec::new();
        core::mem::swap(&mut v, &mut self.entries);
        v
    }

    /// Read access to the buffered entries, for inspection.
    pub fn entries(&self) -> (r: &Vec<(usize, DrawCommand)>)
        ensures
            r@ == self@,
    {
        &self.entries
    }
}

/// Clears the command buffer. The replay step already clears it once per
/// frame; this is for an explicit reset, e.g. on a scene change.
pub fn clear_command_buffer(buffer: &mut CommandBuffer)
    ensures
        final(buffer)@ == Seq::<(usize, DrawCommand)>::empty(),
{
    buffer.clear();
}

} // verus!
