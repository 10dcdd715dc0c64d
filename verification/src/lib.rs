pub mod color;
pub mod config;
pub mod decode;
pub mod effect;
pub mod glyphs;
pub mod text;
pub mod trigger;
