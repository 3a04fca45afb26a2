//! The parts of `egui` that the library calls, with the contracts it relies on.
use vstd::prelude::*;


verus! {

/// A GPU texture owned by an `egui` context; opaque to the library.
#[verifier::external_type_specification]
#[verifier::external_body]
pub struct ExTextureHandle(egui::TextureHandle);

/// CPU-side RGBA image in `egui`'s own pixel format; opaque to the library.
#[verifier::external_type_specification]
#[verifier::external_body]
pub struct ExColorImage(egui::ColorImage);

/// Handle to the `egui` context that owns textures; opaque to the library.
#[verifier::external_type_specification]
#[verifier::external_body]
pub struct ExContext(egui::Context);

/// The pixels of an `egui` image, row by row from the top, each as the
/// premultiplied `[r, g, b, a]` that `Color32::to_array` gives.
pub uninterp spec fn color_image_pixels(img: egui::ColorImage) -> Seq<[u8; 4]>;

/// `Vec::len` of `ColorImage::pixels`: the number of pixels the image holds.
#[verifier::external_body]
pub(crate) fn color_image_pixel_count(img: &egui::ColorImage) -> (n: usize)
    ensures
        n == color_image_pixels(*img).len(),
{
    img.pixels.len()
}

/// `Color32::to_array` of pixel `i` of `ColorImage::pixels`.
#[verifier::external_body]
pub(crate) fn color_image_pixel(img: &egui::ColorImage, i: usize) -> (px: [u8; 4])
    requires
        i < color_image_pixels(*img).len(),
    ensures
        px == color_image_pixels(*img)[i as int],
{
    img.pixels[i].to_array()
}

/// One colour channel premultiplied by alpha, as `Color32` does it: kept
/// for opaque pixels, zero for fully transparent ones, otherwise
/// `v * a / 255` rounded in fixed point.
pub open spec fn premultiply_channel(v: u8, a: u8) -> u8 {
    if a == 0 {
        0
    } else if a == 255 {
        v
    } else {
        let p = v * a + 128;
        ((p + p / 256) / 256) as u8
    }
}

/// The premultiplied `[r, g, b, a]` that `Color32::from_rgba_unmultiplied`
/// makes of four unmultiplied bytes.
pub open spec fn premultiplied(px: Seq<u8>) -> Seq<u8> {
    seq![
        premultiply_channel(px[0], px[3]),
        premultiply_channel(px[1], px[3]),
        premultiply_channel(px[2], px[3]),
        px[3],
    ]
}

/// `pixels` are the `width * height` pixels of the unmultiplied RGBA8 bytes
/// `rgba`, each premultiplied by its alpha.
pub open spec fn holds_unmultiplied(pixels: Seq<[u8; 4]>, size: [usize; 2], rgba: Seq<u8>) -> bool {
    &&& pixels.len() == size[0] * size[1]
    &&& forall|i: int|
        0 <= i < pixels.len() ==> #[trigger] pixels[i]@ == premultiplied(rgba.subrange(4 * i, 4 * i + 4))
}

/// `egui::ColorImage::from_rgba_unmultiplied`: the `[width, height]` image
/// whose pixels are the given RGBA8 bytes, four per pixel, each premultiplied
/// by its alpha. The function asserts that `width * height * 4` equals the
/// number of bytes, so that is required here.
#[verifier::external_body]
pub(crate) fn color_image_from_rgba(size: [usize; 2], rgba: &[u8]) -> (img: egui::ColorImage)
    requires
        size[0] * size[1] * 4 == rgba@.len(),
    ensures
        holds_unmultiplied(color_image_pixels(img), size, rgba@),
        color_image_size(img) == size,
{
    egui::ColorImage::from_rgba_unmultiplied(size, rgba)
}

/// The `[width, height]` of an `egui` image (its `size` field).
pub uninterp spec fn color_image_size(img: egui::ColorImage) -> [usize; 2];

/// `ColorImage::size`: the image's `[width, height]`.
#[verifier::external_body]
pub(crate) fn color_image_dims(img: &egui::ColorImage) -> (size: [usize; 2])
    ensures
        size == color_image_size(*img),
{
    img.size
}

/// The pixels of the texture behind a handle, in the same form as
/// `color_image_pixels`.
pub uninterp spec fn texture_pixels(t: egui::TextureHandle) -> Seq<[u8; 4]>;

/// The largest texture side the graphics backend of one `egui` context
/// accepts, as read during the current pass. Only `texture_side_limit`
/// makes one, so a limit always comes from a context.
#[derive(Clone, Copy)]
pub struct TextureSideLimit {
    side: usize,
}

impl TextureSideLimit {
    /// The limit in pixels.
    pub closed spec fn spec_side(self) -> usize {
        self.side
    }

    /// The limit in pixels.
    pub fn side(&self) -> (n: usize)
        ensures
            n == self.spec_side(),
    {
        self.side
    }

    /// Reads the texture side limit of `ctx`. The value depends on the
    /// graphics backend and machine, so nothing is known of it in advance.
    pub fn of(ctx: &egui::Context) -> (limit: TextureSideLimit) {
        read_texture_side_limit(ctx)
    }
}

/// `egui::InputState::max_texture_side` of `ctx`, read with
/// `Context::input`: the backend's largest texture side for this pass.
/// It depends on the machine, so nothing is stated of the value.
#[verifier::external_body]
pub(crate) fn read_texture_side_limit(ctx: &egui::Context) -> (limit: TextureSideLimit) {
    TextureSideLimit { side: ctx.input(|i| i.max_texture_side) }
}

/// `egui::Context::load_texture` with linear filtering: uploads `image` as a
/// new texture of `ctx` and returns the handle that keeps it alive; the
/// texture holds exactly the image's pixels. The call debug-asserts that
/// neither side of the image exceeds the context's `max_texture_side`,
/// which `limit` was read from in the same pass, so that is required here.
/// `limit` is only that evidence; the call itself does not take it.
#[verifier::external_body]
pub(crate) fn load_texture(
    ctx: &egui::Context,
    name: &str,
    image: egui::ColorImage,
    limit: &TextureSideLimit,
) -> (t: egui::TextureHandle)
    requires
        color_image_size(image)[0] <= limit.spec_side(),
        color_image_size(image)[1] <= limit.spec_side(),
    ensures
        texture_pixels(t) == color_image_pixels(image),
{
    ctx.load_texture(name, image, egui::TextureOptions::LINEAR)
}

} // verus!
