pub mod input;
pub mod text;
pub mod view;
pub mod tui;
