//! Verified core of a side-by-side image comparison viewer: which image
//! goes on which side, when cached edge maps must be rebuilt, how many
//! decodes are in flight, and the text the viewer shows and downloads.

pub mod egui_api;
mod std_api;
pub mod text;
pub mod drawing;
pub mod export;
pub mod load;
pub mod session;
pub mod state;
pub mod types;
