//! The computing core of an HDR image viewer.
pub mod glyphs;
pub mod bytes;
pub mod text_overlay;
pub mod tone_map;
pub mod display;
pub mod image_data;
pub mod viewer;
