pub mod cursor;
pub mod input;
pub mod motion;
