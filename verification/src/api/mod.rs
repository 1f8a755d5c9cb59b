pub mod binary32;
pub mod client;
pub mod errors;
pub mod json;
pub mod models;
pub mod settings;
