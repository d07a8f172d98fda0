pub mod cache;
pub mod diagnostics;
pub mod frame;
pub mod gif;
pub mod grayscale;
pub mod imgparse;
pub mod raster;
pub mod record;
pub mod size;

pub use gif::Gif;
pub use grayscale::grayscale_to_char;
pub use imgparse::{img_to_ascii, img_to_ascii_color};
pub use raster::{Rgba, SourceImage};
pub use size::adjust_size;
