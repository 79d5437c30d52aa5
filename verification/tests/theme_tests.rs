use muse::theme::{art_source, fit_art, needs_downscale, prepare_art, ArtSource};

fn png_bytes(width: u32, height: u32) -> Vec<u8> {
    let img = image::RgbImage::from_fn(width, height, |x, y| {
        image::Rgb([(x % 256) as u8, (y % 256) as u8, ((x + y) % 256) as u8])
    });
    let mut out = std::io::Cursor::new(Vec::new());
    image::DynamicImage::ImageRgb8(img).write_to(&mut out, image::ImageFormat::Png).unwrap();
    out.into_inner()
}

#[test]
fn file_urls_name_local_paths() {
    match art_source("file:///tmp/cover.png") {
        ArtSource::File(path) => assert_eq!(path, "/tmp/cover.png"),
        other => panic!("unexpected {:?}", other),
    }
}

#[test]
fn other_urls_are_fetched() {
    match art_source("https://example.org/a.jpg") {
        ArtSource::Remote(url) => assert_eq!(url, "https://example.org/a.jpg"),
        other => panic!("unexpected {:?}", other),
    }
    match art_source("file:/") {
        ArtSource::Remote(url) => assert_eq!(url, "file:/"),
        other => panic!("unexpected {:?}", other),
    }
}

#[test]
fn only_art_larger_both_ways_is_downscaled() {
    assert!(needs_downscale(300, 300));
    assert!(!needs_downscale(300, 256));
    assert!(!needs_downscale(256, 300));
    assert!(!needs_downscale(100, 100));
}

#[test]
fn no_bytes_give_no_art() {
    assert!(prepare_art(&[]).is_none());
}

#[test]
fn undecodable_bytes_give_no_art() {
    assert!(prepare_art(b"not an image at all").is_none());
}

#[test]
fn small_art_keeps_its_pixels_row_by_row() {
    let art = prepare_art(&png_bytes(3, 2)).unwrap();
    assert_eq!((art.width(), art.height()), (3, 2));
    assert_eq!(
        art.pixels(),
        &vec![[0, 0, 0], [1, 0, 1], [2, 0, 2], [0, 1, 1], [1, 1, 2], [2, 1, 3]]
    );
}

#[test]
fn art_larger_one_way_only_is_kept() {
    let art = prepare_art(&png_bytes(300, 200)).unwrap();
    assert_eq!((art.width(), art.height()), (300, 200));
    assert_eq!(art.pixels().len(), 60_000);
    assert_eq!(art.pixels()[299], [43, 0, 43]);
}

#[test]
fn large_art_is_downscaled_keeping_its_shape() {
    let art = prepare_art(&png_bytes(300, 400)).unwrap();
    assert_eq!((art.width(), art.height()), (192, 256));
    assert_eq!(art.pixels().len(), 192 * 256);
}

#[test]
fn fitting_small_art_changes_nothing() {
    let art = prepare_art(&png_bytes(2, 1)).unwrap();
    let fitted = fit_art(art);
    assert_eq!((fitted.width(), fitted.height()), (2, 1));
    assert_eq!(fitted.pixels(), &vec![[0, 0, 0], [1, 0, 1]]);
}

#[test]
fn large_art_is_the_lanczos_resize_of_the_decoded_image() {
    let bytes = png_bytes(300, 400);
    let art = prepare_art(&bytes).unwrap();
    let expected = image::load_from_memory(&bytes)
        .unwrap()
        .resize(256, 256, image::imageops::FilterType::Lanczos3)
        .to_rgb8();
    assert_eq!((art.width(), art.height()), expected.dimensions());
    let pixels: Vec<[u8; 3]> = expected.pixels().map(|p| p.0).collect();
    assert_eq!(art.pixels(), &pixels);
}
