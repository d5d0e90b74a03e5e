//! A widget adapter that embeds an immediate-mode GUI inside a retained-mode
//! toolkit's GL drawing surface. The adapter's decision logic lives here:
//! translating the toolkit's key and modifier codes into the immediate-mode
//! event model, detecting clipboard commands, pacing frames, and tracking the
//! GL painter's lifetime. The toolkit and GL plumbing around it hands this
//! library plain values and carries out the actions it returns.

pub mod area;
pub mod events;
pub mod geometry;
pub mod keys;
pub mod output;
pub mod pacing;
