//! Terminal sessions for full-screen, cursor-addressable text interfaces.
//!
//! The library decides which terminal mode stack a mode code selects and
//! composes the escape sequences that each drawing operation emits. Writing
//! them to the terminal is left to the caller.

pub mod mode;
pub mod session;
pub mod tokens;

pub use mode::ModeStack;
pub use session::Termioff;
pub use tokens::Rgb;
