use ponyview::cache::{build_thumbnail, entry_name, CacheConfig, CacheDir, CacheError};
use ponyview::decode::{decode, DecodeError};
use ponyview::paintable::SmartPaintable;
use ponyview::resize::calculate_size;

fn png_bytes(width: u32, height: u32, pixel: [u8; 4]) -> Vec<u8> {
    let img = image::RgbaImage::from_pixel(width, height, image::Rgba(pixel));
    let mut out = std::io::Cursor::new(Vec::new());
    image::DynamicImage::ImageRgba8(img)
        .write_to(&mut out, image::ImageFormat::Png)
        .unwrap();
    out.into_inner()
}

fn gif_bytes(frames: &[(u32, [u8; 4])]) -> Vec<u8> {
    let mut data = Vec::new();
    {
        let mut enc = image::codecs::gif::GifEncoder::new(&mut data);
        for (delay_ms, pixel) in frames {
            let buf = image::RgbaImage::from_pixel(16, 8, image::Rgba(*pixel));
            let frame = image::Frame::from_parts(
                buf,
                0,
                0,
                image::Delay::from_numer_denom_ms(*delay_ms, 1),
            );
            enc.encode_frame(frame).unwrap();
        }
    }
    data
}

fn png_config() -> CacheConfig {
    CacheConfig::new(200, String::from("png"))
}

#[test]
fn entry_name_is_blake3_hex_of_path_plus_extension() {
    let path = "/pictures/sunset.png";
    let name = entry_name(path, "png");
    let expected = format!("{}.png", blake3::hash(path.as_bytes()).to_hex());
    assert_eq!(name, expected);
}

#[test]
fn calculate_size_clamps_longer_side_to_thumbnail_size() {
    // Width is the longer side: 200 x (1080 / 1920) = 112.5, rounded down.
    assert_eq!(calculate_size(1920, 1080, 200), (200, 112));
    // Height is the longer side: the roles swap.
    assert_eq!(calculate_size(1080, 1920, 200), (112, 200));
    // A square maps to the full box.
    assert_eq!(calculate_size(300, 300, 200), (200, 200));
    // An extreme aspect ratio never collapses below one pixel.
    assert_eq!(calculate_size(10000, 1, 200), (200, 1));
    // A tie counts as width-is-longer.
    assert_eq!(calculate_size(5, 5, 7), (7, 7));
}

#[test]
fn build_thumbnail_reports_fitted_dimensions() {
    let src = png_bytes(1920, 1080, [10, 20, 30, 255]);
    let t = build_thumbnail(&src, "png", &png_config()).unwrap();
    assert_eq!((t.width, t.height), (200, 112));
    // The stored bytes decode back to exactly those dimensions.
    let back = image::ImageReader::with_format(
        std::io::Cursor::new(&t.data),
        image::ImageFormat::Png,
    )
    .decode()
    .unwrap();
    assert_eq!((back.width(), back.height()), (200, 112));
}

#[test]
fn build_thumbnail_fails_on_undecodable_source() {
    let src: Vec<u8> = vec![0, 1, 2, 3];
    let err = build_thumbnail(&src, "png", &png_config()).unwrap_err();
    assert_eq!(err, CacheError::Decode(DecodeError::Malformed));
}

#[test]
fn build_thumbnail_fails_on_unknown_output_format() {
    let src = png_bytes(32, 32, [1, 1, 1, 255]);
    let cfg = CacheConfig::new(200, String::from("xyz"));
    let err = build_thumbnail(&src, "png", &cfg).unwrap_err();
    assert_eq!(err, CacheError::Encode);
}

#[test]
fn to_cache_is_idempotent_for_an_unchanged_source() {
    let mut dir = CacheDir::new();
    let cfg = png_config();
    let path = "/pictures/alps.png";
    let src = png_bytes(640, 480, [50, 60, 70, 255]);

    let name1 = dir.to_cache(path, &src, "png", &cfg).unwrap();
    let bytes1 = dir.from_cache(path, &cfg).unwrap();
    let name2 = dir.to_cache(path, &src, "png", &cfg).unwrap();
    let bytes2 = dir.from_cache(path, &cfg).unwrap();

    assert_eq!(name1, name2);
    assert_eq!(bytes1, bytes2);
}

#[test]
fn from_cache_is_absent_before_any_population() {
    let dir = CacheDir::new();
    let cfg = png_config();
    assert!(dir.from_cache("/pictures/never-seen.png", &cfg).is_none());
}

#[test]
fn cached_thumbnail_loads_with_clamped_dimensions() {
    let mut dir = CacheDir::new();
    let cfg = png_config();
    let path = "/pictures/wide.png";
    let src = png_bytes(1920, 1080, [100, 110, 120, 255]);

    assert!(dir.from_cache(path, &cfg).is_none());
    dir.to_cache(path, &src, "png", &cfg).unwrap();
    let bytes = dir.from_cache(path, &cfg).unwrap();

    let mut p = SmartPaintable::new();
    p.load_from_bytes(&bytes, "png").unwrap();
    // Both axes fit the box; the longer source side maps to exactly the
    // thumbnail size.
    assert!(p.intrinsic_width() <= 200 && p.intrinsic_height() <= 200);
    assert_eq!(p.intrinsic_width(), 200);
    assert_eq!(p.intrinsic_height(), 112);
}

#[test]
fn failed_population_leaves_the_cache_unchanged() {
    let mut dir = CacheDir::new();
    let cfg = png_config();
    let path = "/pictures/broken.png";
    let src: Vec<u8> = vec![9, 8, 7];

    let err = dir.to_cache(path, &src, "png", &cfg).unwrap_err();
    assert_eq!(err, CacheError::Decode(DecodeError::Malformed));
    assert!(dir.from_cache(path, &cfg).is_none());
}

#[test]
fn animated_source_is_flattened_to_a_still_preview() {
    let mut dir = CacheDir::new();
    let cfg = png_config();
    let path = "/pictures/loop.gif";
    let src = gif_bytes(&[(100, [255, 0, 0, 255]), (100, [0, 255, 0, 255])]);

    dir.to_cache(path, &src, "gif", &cfg).unwrap();
    let bytes = dir.from_cache(path, &cfg).unwrap();
    let fs = decode(&bytes, "png").unwrap();
    assert_eq!(fs.frames.len(), 1);
    assert_eq!((fs.frames[0].width, fs.frames[0].height), (200, 100));
}

#[test]
fn distinct_paths_get_distinct_entries() {
    let mut dir = CacheDir::new();
    let cfg = png_config();
    let a = png_bytes(8, 8, [255, 0, 0, 255]);
    let b = png_bytes(8, 8, [0, 0, 255, 255]);

    let name_a = dir.to_cache("/pictures/a.png", &a, "png", &cfg).unwrap();
    let name_b = dir.to_cache("/pictures/b.png", &b, "png", &cfg).unwrap();
    assert_ne!(name_a, name_b);
    let bytes_a = dir.from_cache("/pictures/a.png", &cfg).unwrap();
    let bytes_b = dir.from_cache("/pictures/b.png", &cfg).unwrap();
    assert_ne!(bytes_a, bytes_b);
}
