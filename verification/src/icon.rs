//! The fallback window icon: a plain sky-blue bitmap.

use vstd::prelude::*;

verus! {

/// The value of byte `i` of the bitmap: red, green, blue and alpha repeat
/// every four bytes.
pub open spec fn rgba_channel(i: int) -> u8 {
    if i % 4 == 0 {
        135
    } else if i % 4 == 1 {
        206
    } else if i % 4 == 2 {
        250
    } else {
        255
    }
}

/// Builds a `width` by `height` bitmap of opaque sky-blue pixels, four bytes
/// per pixel in RGBA order, rows first.
pub fn create_rgba_image(width: u32, height: u32) -> (image: Vec<u8>)
    requires
        width * height * 4 <= u32::MAX,
    ensures
        image@.len() == width * height * 4,
        forall|i: int| 0 <= i < image@.len() ==> image@[i] == rgba_channel(i),
{
    let pixels: u32 = width * height;
    let mut image: Vec<u8> = Vec::new();
    let mut done: u32 = 0;
    while done < pixels
        invariant
            done <= pixels,
            pixels * 4 <= u32::MAX,
            image@.len() == done * 4,
            forall|i: int| 0 <= i < image@.len() ==> image@[i] == rgba_channel(i),
        decreases pixels - done,
    {
        image.push(135);
        image.push(206);
        image.push(250);
        image.push(255);
        done = done + 1;
    }
    image
}

} // verus!
