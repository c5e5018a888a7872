pub mod atlas;
pub mod error;
pub mod skeleton;
pub mod text;
