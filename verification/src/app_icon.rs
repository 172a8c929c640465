//! Application icon (a PNG) as RGBA pixels for window chrome and the system tray.

use vstd::prelude::*;

verus! {

/// Decodes an image file to RGBA (`image::load_from_memory`, then
/// `into_rgba8`): the pixel bytes, width and height, or `None` when it cannot
/// decode them. Which decoder runs, and so the pixels, may change within a
/// process (the crate keeps registrable decoding hooks), so nothing ties the
/// result to the bytes; what holds of every outcome is that the buffer holds
/// four bytes per pixel, which is how the decoder and the RGBA conversion
/// allocate it.
#[verifier::external_body]
fn decode_rgba(file: &[u8]) -> (r: Option<(Vec<u8>, u32, u32)>)
    ensures
        r matches Some(t) ==> t.0@.len() == 4 * (t.1 as int) * (t.2 as int),
{
    match image::load_from_memory(file) {
        Ok(img) => {
            let img = img.into_rgba8();
            let (w, h) = img.dimensions();
            Some((img.into_raw(), w, h))
        },
        Err(_) => None,
    }
}

/// Whether the buffers `image::imageops::resize` allocates to bring an image
/// `width` pixels wide to `size`×`size` stay within what a `Vec` can hold:
/// its working copy (`width`×`size` pixels of four `f32`) and its output
/// (`size`×`size` pixels of four bytes). Past that, allocating panics.
pub open spec fn resize_fits(width: u32, size: u32) -> bool {
    &&& 16 * (width as int) * (size as int) <= isize::MAX as int
    &&& 4 * (size as int) * (size as int) <= isize::MAX as int
}

/// Resizes RGBA pixels (`image::RgbaImage::from_raw`, then
/// `image::imageops::resize` with `FilterType::Lanczos3`). `from_raw` refuses
/// (`None`) exactly a buffer shorter than four bytes per pixel of
/// `width`×`height`; otherwise the result is `size`×`size` with four bytes per
/// pixel, which is what `resize` builds its output with. The pixel values
/// come from floating-point filtering whose precision the platform decides,
/// so nothing more is stated of them.
#[verifier::external_body]
fn resize_rgba(rgba: Vec<u8>, width: u32, height: u32, size: u32) -> (r: Option<(Vec<u8>, u32, u32)>)
    requires
        resize_fits(width, size),
    ensures
        r is None <==> rgba@.len() < 4 * (width as int) * (height as int),
        r matches Some(t) ==> t.1 == size && t.2 == size && t.0@.len() == 4 * (size as int) * (
        size as int),
{
    let img = image::RgbaImage::from_raw(width, height, rgba)?;
    let out = image::imageops::resize(&img, size, size, image::imageops::FilterType::Lanczos3);
    let (w, h) = out.dimensions();
    Some((out.into_raw(), w, h))
}

/// Whether [`resize_fits`] holds, computed.
fn resize_fits_exec(width: u32, size: u32) -> (r: bool)
    ensures
        r == resize_fits(width, size),
{
    let limit = isize::MAX as u128;
    assert((width as u128) * (size as u128) <= 0xffff_ffff_ffff_ffff) by (nonlinear_arith)
        requires
            width <= 0xffff_ffff,
            size <= 0xffff_ffff,
    ;
    assert((size as u128) * (size as u128) <= 0xffff_ffff_ffff_ffff) by (nonlinear_arith)
        requires
            size <= 0xffff_ffff,
    ;
    let fits = 16 * ((width as u128) * (size as u128)) <= limit && 4 * ((size as u128) * (size as u128))
        <= limit;
    assert(16 * (width as int) * (size as int) == 16 * ((width as int) * (size as int))) by (nonlinear_arith);
    assert(4 * (size as int) * (size as int) == 4 * ((size as int) * (size as int))) by (nonlinear_arith);
    fits
}

pub open spec fn rgba_view(r: Option<(Vec<u8>, u32, u32)>) -> Option<(Seq<u8>, u32, u32)> {
    match r {
        Some((v, w, h)) => Some((v@, w, h)),
        None => None,
    }
}

/// Decoded RGBA pixels of `width`×`height` brought to `size`×`size`: kept as
/// they are when already that size; otherwise `None` when the image is too
/// large to resize here (see [`resize_fits`]) or the buffer is shorter than
/// four bytes per pixel, else resized (to `size`×`size`, four bytes per
/// pixel).
pub fn fit_to_size(rgba: Vec<u8>, width: u32, height: u32, size: u32) -> (r: Option<(Vec<u8>, u32, u32)>)
    ensures
        width == size && height == size ==> rgba_view(r) == Some((rgba@, width, height)),
        !(width == size && height == size) ==> (r is None <==> (!resize_fits(width, size) || rgba@.len()
            < 4 * (width as int) * (height as int))),
        !(width == size && height == size) ==> (r matches Some(t) ==> t.1 == size && t.2 == size
            && t.0@.len() == 4 * (size as int) * (size as int)),
{
    if width == size && height == size {
        Some((rgba, width, height))
    } else if resize_fits_exec(width, size) {
        resize_rgba(rgba, width, height, size)
    } else {
        None
    }
}

/// The icon in `file` as RGBA pixels at `size`×`size`: the decoded image
/// brought to that size by [`fit_to_size`]. `None` when the file does not
/// decode or [`fit_to_size`] refuses the decoded image; a result is always
/// `size`×`size` with four bytes per pixel.
pub fn load_rgba(file: &[u8], size: u32) -> (r: Option<(Vec<u8>, u32, u32)>)
    ensures
        r matches Some(t) ==> t.1 == size && t.2 == size && t.0@.len() == 4 * (size as int) * (
            size as int),
{
    match decode_rgba(file) {
        None => None,
        Some((v, w, h)) => fit_to_size(v, w, h, size),
    }
}

/// Window icon pixels (256×256).
pub fn window_rgba(file: &[u8]) -> (r: Option<(Vec<u8>, u32, u32)>)
    ensures
        r matches Some(t) ==> t.1 == 256 && t.2 == 256 && t.0@.len() == 4 * 256 * 256,
{
    load_rgba(file, 256)
}

/// RGBA bytes for the notification area icon (32×32 reads cleanly there).
pub fn tray_rgba(file: &[u8]) -> (r: Option<(Vec<u8>, u32, u32)>)
    ensures
        r matches Some(t) ==> t.1 == 32 && t.2 == 32 && t.0@.len() == 4 * 32 * 32,
{
    load_rgba(file, 32)
}

} // verus!
