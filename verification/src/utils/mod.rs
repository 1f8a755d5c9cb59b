pub mod content;
pub mod text;
