//! Decisions behind three services of a terminal agent: opening a URL in the browser, the flags of
//! the launch mode, and descriptions of images for models that cannot see them.

pub mod browser_open;
pub mod data_url;
pub mod image_hash;
pub mod json;
pub mod text;
pub mod transform_mode;
pub mod utf16;
pub mod vision_describe;
