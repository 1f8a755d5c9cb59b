pub mod args;
pub mod markdown;
pub mod output;
pub mod verbose;
