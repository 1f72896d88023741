pub mod api;
pub mod board;
pub mod prompt;
pub mod session;
pub mod text;
