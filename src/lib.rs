pub mod bytes;
pub mod construction;
pub mod diagnostic;
pub mod error;
pub mod program;
pub mod stage;
