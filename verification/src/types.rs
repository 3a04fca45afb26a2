//! Plain data that flows between the picker, the decoder and the viewer.
use vstd::prelude::*;



verus! {

/// One of the two halves of the comparison view.
#[derive(Clone, Copy, Debug, PartialEq, Eq, Structural)]
pub enum Side {
    Left,
    Right,
}

impl Side {
    /// Both sides, left first.
    pub const ALL: [Side; 2] = [Side::Left, Side::Right];

    /// Position of the side in two-element per-side arrays.
    pub open spec fn spec_index(self) -> int {
        match self {
            Side::Left => 0,
            Side::Right => 1,
        }
    }

    /// Position of the side in two-element per-side arrays: left 0, right 1.
    pub fn index(self) -> (i: usize)
        ensures
            i == self.spec_index(),
    {
        match self {
            Side::Left => 0,
            Side::Right => 1,
        }
    }
}

/// A file picked or pasted, delivered as in-memory bytes.
pub struct LoadedFile {
    /// Target side. `None` means auto-route like a single-file drop: first
    /// empty side, otherwise the right side.
    pub side: Option<Side>,
    pub name: String,
    pub bytes: Vec<u8>,
}

/// An image decoded asynchronously, delivered as raw RGBA8 pixels.
pub struct DecodedImage {
    pub side: Side,
    pub name: String,
    pub file_size: usize,
    pub size: [usize; 2],
    pub rgba: Vec<u8>,
}

/// Result of an asynchronous decode. Always delivered (even on failure) so
/// the loading indicator can be cleared.
pub enum DecodeOutcome {
    Decoded(DecodedImage),
    Failed,
}

/// A cached image plus the texture it was uploaded to.
pub struct LoadedImage {
    pub texture: egui::TextureHandle,
    pub name: String,
    pub size: [usize; 2],
    /// Size of the encoded file in bytes.
    pub file_size: usize,
    /// Raw RGBA8 pixels, kept so edge detection can run later.
    pub rgba: Vec<u8>,
    /// Unique id assigned at load time, used as the edge-cache key.
    pub id: u64,
    /// The texture side limit of the context the image was uploaded to;
    /// textures derived from the image (its edge map) must fit it too.
    pub texture_limit: crate::egui_api::TextureSideLimit,
}

} // verus!
