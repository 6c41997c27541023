//! What the user sees and presses: the key table and the status line.

pub mod controls;
pub mod status;
