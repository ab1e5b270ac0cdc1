pub mod cpu;
mod error;
mod font;
pub mod instruction;
pub mod lemmas;
mod memory;
pub mod screen;

pub use cpu::CPU;
pub use error::Chip8Error;
pub use screen::{SCREEN_HEIGHT, SCREEN_WIDTH};
