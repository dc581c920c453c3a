//! Deferred command buffering for a character-grid display.
//!
//! Producers build [`batch::DrawBatch`] values full of drawing commands
//! without touching any shared state, then submit them into a
//! [`buffer::CommandBuffer`]. Submission stamps each command with an
//! absolute priority (the batch's base priority plus the command's index
//! within the batch). Once per frame the buffer is replayed: its entries
//! are stably sorted by priority, handed back to the caller for dispatch
//! against the real display, and the buffer is left empty.
//!
//! Batch storage can be recycled through a bounded pool of reusable
//! batches; an exhausted pool falls back to fresh allocation.

pub mod batch;
pub mod buffer;
pub mod command;
pub mod laws;
pub mod pool;
pub mod replay;
