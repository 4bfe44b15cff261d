pub mod input;
pub mod laws;
pub mod resize;
pub mod view;
