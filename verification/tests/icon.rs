use fta_client::icon::create_rgba_image;

#[test]
fn one_pixel_is_sky_blue() {
    assert_eq!(create_rgba_image(1, 1), vec![135, 206, 250, 255]);
}

#[test]
fn image_has_four_bytes_for_each_pixel() {
    let image = create_rgba_image(16, 16);
    assert_eq!(image.len(), 16 * 16 * 4);
    for pixel in image.chunks(4) {
        assert_eq!(pixel, [135, 206, 250, 255]);
    }
}

#[test]
fn image_need_not_be_square() {
    let image = create_rgba_image(3, 2);
    assert_eq!(image.len(), 24);
    assert_eq!(&image[20..], [135, 206, 250, 255]);
}

#[test]
fn image_without_area_is_empty() {
    assert!(create_rgba_image(0, 7).is_empty());
    assert!(create_rgba_image(7, 0).is_empty());
    assert!(create_rgba_image(0, 0).is_empty());
}
