use std::io::Cursor;

use image::{DynamicImage, ImageFormat, RgbImage};
use music2psp::artwork::{
    copy_bytes, cover_request, embedded_art, fit_cover_art, pick_sidecar, plan_cover_art,
    resolve_cover_art, shrunk_cover, sidecar_patterns, starts_as_jpeg, wants_sidecar, ArtPlan,
    MAX_ART_SIDE,
};
use music2psp::converter::AudioConverter;
use music2psp::error::ConvertError;
use music2psp::metadata::{Tag, TagKey};

fn picture(width: u32, height: u32, format: ImageFormat) -> Vec<u8> {
    let mut img = RgbImage::new(width, height);
    for (x, y, pixel) in img.enumerate_pixels_mut() {
        pixel.0 = [(x % 256) as u8, (y % 256) as u8, ((x + y) % 256) as u8];
    }
    let mut out = Cursor::new(Vec::new());
    DynamicImage::ImageRgb8(img).write_to(&mut out, format).unwrap();
    out.into_inner()
}

fn size_of(bytes: &[u8]) -> (u32, u32) {
    let img = image::load_from_memory(bytes).unwrap();
    (img.width(), img.height())
}

#[test]
fn greatest_cover_side_is_500() {
    assert_eq!(MAX_ART_SIDE, 500);
}

#[test]
fn picture_within_bounds_is_kept() {
    assert_eq!(plan_cover_art(Some((500, 500))), ArtPlan::Keep);
    assert_eq!(plan_cover_art(Some((1, 1))), ArtPlan::Keep);
    assert_eq!(plan_cover_art(Some((0, 0))), ArtPlan::Keep);
    assert_eq!(plan_cover_art(Some((500, 1))), ArtPlan::Keep);
}

#[test]
fn picture_beyond_bounds_is_shrunk() {
    assert_eq!(plan_cover_art(Some((501, 500))), ArtPlan::Shrink);
    assert_eq!(plan_cover_art(Some((500, 501))), ArtPlan::Shrink);
    assert_eq!(plan_cover_art(Some((u32::MAX, 1))), ArtPlan::Shrink);
    assert_eq!(plan_cover_art(Some((1, u32::MAX))), ArtPlan::Shrink);
}

#[test]
fn no_picture_is_rejected() {
    assert_eq!(plan_cover_art(None), ArtPlan::Reject);
}

#[test]
fn small_png_passes_through_unchanged() {
    let png = picture(64, 48, ImageFormat::Png);
    assert_eq!(fit_cover_art(png.clone()), Ok(png));
}

#[test]
fn small_jpeg_passes_through_unchanged() {
    let jpeg = picture(300, 300, ImageFormat::Jpeg);
    assert_eq!(fit_cover_art(jpeg.clone()), Ok(jpeg));
}

#[test]
fn picture_of_exactly_500_by_500_passes_through() {
    let png = picture(500, 500, ImageFormat::Png);
    let kept = fit_cover_art(png.clone()).unwrap();
    assert_eq!(kept, png);
    assert_eq!(image::guess_format(&kept).unwrap(), ImageFormat::Png);
}

#[test]
fn fitting_twice_changes_nothing_more() {
    let once = fit_cover_art(picture(800, 600, ImageFormat::Png)).unwrap();
    let twice = fit_cover_art(once.clone()).unwrap();
    assert_eq!(once, twice);
}

#[test]
fn wide_picture_is_scaled_down_and_written_as_jpeg() {
    let png = picture(600, 400, ImageFormat::Png);
    let cover = fit_cover_art(png.clone()).unwrap();
    assert_ne!(cover, png);
    assert_eq!(image::guess_format(&cover).unwrap(), ImageFormat::Jpeg);
    assert_eq!(size_of(&cover), (500, 333));
}

#[test]
fn tall_picture_is_scaled_down_keeping_its_shape() {
    let jpeg = picture(100, 1000, ImageFormat::Jpeg);
    let cover = fit_cover_art(jpeg.clone()).unwrap();
    assert_ne!(cover, jpeg);
    assert_eq!(image::guess_format(&cover).unwrap(), ImageFormat::Jpeg);
    assert_eq!(size_of(&cover), (50, 500));
}

#[test]
fn picture_one_pixel_too_wide_is_scaled_down() {
    let cover = fit_cover_art(picture(501, 20, ImageFormat::Png)).unwrap();
    assert_eq!(image::guess_format(&cover).unwrap(), ImageFormat::Jpeg);
    let (w, h) = size_of(&cover);
    assert!(w <= 500 && h <= 500);
    assert_eq!(w, 500);
}

#[test]
fn bytes_that_are_no_picture_fail() {
    assert_eq!(fit_cover_art(vec![1, 2, 3, 4]), Err(ConvertError::CoverArt));
    assert_eq!(fit_cover_art(Vec::new()), Err(ConvertError::CoverArt));
    assert_eq!(fit_cover_art(b"not an image at all".to_vec()), Err(ConvertError::CoverArt));
}

#[test]
fn damaged_picture_fails() {
    let mut png = picture(64, 48, ImageFormat::Png);
    png.truncate(40);
    assert_eq!(fit_cover_art(png), Err(ConvertError::CoverArt));
}

#[test]
fn covers_are_asked_for_as_gaussian_jpeg_within_500() {
    let request = cover_request();
    assert_eq!(request.max_width, 500);
    assert_eq!(request.max_height, 500);
    assert_eq!(request.filter, image::imageops::FilterType::Gaussian);
    assert_eq!(request.format, ImageFormat::Jpeg);
}

#[test]
fn jpeg_files_are_told_by_their_first_bytes() {
    assert!(starts_as_jpeg(&vec![0xFF, 0xD8, 0xFF]));
    assert!(starts_as_jpeg(&vec![0xFF, 0xD8, 0xFF, 0xE0, 0x00]));
    assert!(starts_as_jpeg(&picture(8, 8, ImageFormat::Jpeg)));
    assert!(!starts_as_jpeg(&picture(8, 8, ImageFormat::Png)));
    assert!(!starts_as_jpeg(&vec![0xFF, 0xD8]));
    assert!(!starts_as_jpeg(&vec![0xFF, 0xD8, 0xFE]));
    assert!(!starts_as_jpeg(&vec![0xFE, 0xD8, 0xFF]));
    assert!(!starts_as_jpeg(&vec![0xFF, 0xD9, 0xFF]));
    assert!(!starts_as_jpeg(&Vec::new()));
}

#[test]
fn shrunk_cover_is_taken_where_it_is_a_jpeg_that_fits() {
    let jpeg = vec![0xFF, 0xD8, 0xFF, 1, 2];
    assert_eq!(shrunk_cover(jpeg.clone(), Some((500, 333))), Ok(jpeg.clone()));
    assert_eq!(shrunk_cover(jpeg.clone(), Some((500, 500))), Ok(jpeg.clone()));
    assert_eq!(shrunk_cover(jpeg, Some((1, 1))), Ok(vec![0xFF, 0xD8, 0xFF, 1, 2]));
}

#[test]
fn shrunk_cover_that_does_not_fit_fails() {
    let jpeg = vec![0xFF, 0xD8, 0xFF, 1, 2];
    assert_eq!(shrunk_cover(jpeg.clone(), Some((501, 333))), Err(ConvertError::CoverArt));
    assert_eq!(shrunk_cover(jpeg.clone(), Some((10, 600))), Err(ConvertError::CoverArt));
    assert_eq!(shrunk_cover(jpeg, None), Err(ConvertError::CoverArt));
}

#[test]
fn shrunk_cover_that_is_no_jpeg_fails() {
    let png = picture(10, 10, ImageFormat::Png);
    assert_eq!(shrunk_cover(png, Some((10, 10))), Err(ConvertError::CoverArt));
    assert_eq!(shrunk_cover(Vec::new(), Some((10, 10))), Err(ConvertError::CoverArt));
}

#[test]
fn every_cover_that_comes_out_fits() {
    for (w, h) in [(1, 1), (500, 500), (501, 500), (500, 501), (640, 480), (30, 2000), (1999, 7)] {
        for format in [ImageFormat::Png, ImageFormat::Jpeg] {
            let cover = fit_cover_art(picture(w, h, format)).unwrap();
            let (cw, ch) = size_of(&cover);
            assert!(cw <= 500 && ch <= 500);
            if w > 500 || h > 500 {
                assert!(starts_as_jpeg(&cover));
                assert!(cw == 500 || ch == 500);
            }
            assert_eq!(fit_cover_art(cover.clone()), Ok(cover));
        }
    }
}

#[test]
fn last_visual_is_the_embedded_art() {
    let visuals = vec![vec![1, 1], vec![2, 2, 2], vec![3]];
    assert_eq!(embedded_art(&visuals), vec![3]);
    assert_eq!(embedded_art(&vec![vec![5, 6]]), vec![5, 6]);
    assert_eq!(embedded_art(&Vec::new()), Vec::<u8>::new());
    assert_eq!(embedded_art(&vec![vec![1], Vec::new()]), Vec::<u8>::new());
}

#[test]
fn sidecar_is_wanted_only_without_embedded_art() {
    assert!(wants_sidecar(&Vec::new()));
    assert!(wants_sidecar(&vec![vec![1], Vec::new()]));
    assert!(!wants_sidecar(&vec![vec![1]]));
    assert!(!wants_sidecar(&vec![Vec::new(), vec![1]]));
}

#[test]
fn embedded_art_comes_before_the_sidecar() {
    let inside = picture(10, 10, ImageFormat::Png);
    let beside = picture(20, 20, ImageFormat::Png);
    let visuals = vec![picture(5, 5, ImageFormat::Png), inside.clone()];
    assert_eq!(resolve_cover_art(&visuals, Some(beside)), Ok(inside));
}

#[test]
fn sidecar_is_used_without_embedded_art() {
    let beside = picture(20, 20, ImageFormat::Jpeg);
    assert_eq!(resolve_cover_art(&Vec::new(), Some(beside.clone())), Ok(beside.clone()));
    assert_eq!(resolve_cover_art(&vec![Vec::new()], Some(beside.clone())), Ok(beside));
}

#[test]
fn large_sidecar_is_scaled_down() {
    let cover = resolve_cover_art(&Vec::new(), Some(picture(1000, 1000, ImageFormat::Png))).unwrap();
    assert_eq!(image::guess_format(&cover).unwrap(), ImageFormat::Jpeg);
    assert_eq!(size_of(&cover), (500, 500));
}

#[test]
fn no_art_anywhere_is_no_failure() {
    assert_eq!(resolve_cover_art(&Vec::new(), None), Ok(Vec::new()));
    assert_eq!(resolve_cover_art(&vec![Vec::new()], None), Ok(Vec::new()));
}

#[test]
fn broken_art_fails_the_job_without_fallback() {
    let beside = picture(20, 20, ImageFormat::Png);
    assert_eq!(
        resolve_cover_art(&vec![vec![0, 1, 2]], Some(beside)),
        Err(ConvertError::CoverArt)
    );
    assert_eq!(resolve_cover_art(&Vec::new(), Some(vec![0, 1, 2])), Err(ConvertError::CoverArt));
    assert_eq!(resolve_cover_art(&Vec::new(), Some(Vec::new())), Err(ConvertError::CoverArt));
}

#[test]
fn patterns_cover_the_parent_directory() {
    let patterns = sidecar_patterns("/music/My Album/01.flac");
    assert_eq!(
        patterns,
        vec![
            String::from("/music/My Album/*.jpg"),
            String::from("/music/My Album/*.jpeg"),
            String::from("/music/My Album/*.png"),
        ]
    );
    assert_eq!(
        sidecar_patterns("/01.flac"),
        vec![String::from("//*.jpg"), String::from("//*.jpeg"), String::from("//*.png")]
    );
    for pattern in patterns {
        assert!(glob::Pattern::new(&pattern).is_ok());
    }
}

#[test]
fn first_match_of_the_first_pattern_that_matched() {
    let matches = vec![
        Vec::new(),
        vec![String::from("/m/b.jpeg"), String::from("/m/a.jpeg")],
        vec![String::from("/m/c.png")],
    ];
    assert_eq!(pick_sidecar(&matches), Some(String::from("/m/b.jpeg")));
    let jpg_first = vec![
        vec![String::from("/m/z.jpg")],
        vec![String::from("/m/a.jpeg")],
        vec![String::from("/m/a.png")],
    ];
    assert_eq!(pick_sidecar(&jpg_first), Some(String::from("/m/z.jpg")));
    let png_only = vec![Vec::new(), Vec::new(), vec![String::from("/m/a.png")]];
    assert_eq!(pick_sidecar(&png_only), Some(String::from("/m/a.png")));
}

#[test]
fn nothing_matched_gives_no_sidecar() {
    assert_eq!(pick_sidecar(&vec![Vec::new(), Vec::new(), Vec::new()]), None);
    assert_eq!(pick_sidecar(&Vec::new()), None);
}

#[test]
fn bytes_are_copied() {
    assert_eq!(copy_bytes(&vec![1, 2, 3]), vec![1, 2, 3]);
    assert_eq!(copy_bytes(&Vec::new()), Vec::<u8>::new());
}

#[test]
fn extraction_joins_tags_and_cover() {
    let art = picture(32, 32, ImageFormat::Png);
    let tags = vec![
        Tag { key: TagKey::TrackTitle, value: String::from("Song") },
        Tag { key: TagKey::Date, value: String::from("2001-01-01") },
    ];
    let track = AudioConverter::extract_metadata(&tags, &vec![art.clone()], None).unwrap();
    assert_eq!(track.title, "Song");
    assert_eq!(track.year, "2001");
    assert_eq!(track.album_art, art);
    assert_eq!(track.sample_rate, 44_100);
}

#[test]
fn extraction_without_art_leaves_the_cover_empty() {
    let tags = vec![Tag { key: TagKey::Album, value: String::from("Album") }];
    let track = AudioConverter::extract_metadata(&tags, &Vec::new(), None).unwrap();
    assert_eq!(track.album, "Album");
    assert!(track.album_art.is_empty());
}

#[test]
fn extraction_takes_the_sidecar_where_nothing_is_embedded() {
    let beside = picture(700, 350, ImageFormat::Png);
    let track = AudioConverter::extract_metadata(&Vec::new(), &Vec::new(), Some(beside)).unwrap();
    assert_eq!(image::guess_format(&track.album_art).unwrap(), ImageFormat::Jpeg);
    assert_eq!(size_of(&track.album_art), (500, 250));
}

#[test]
fn extraction_fails_on_broken_art() {
    let tags = vec![Tag { key: TagKey::TrackTitle, value: String::from("Song") }];
    assert_eq!(
        AudioConverter::extract_metadata(&tags, &vec![vec![1, 2, 3]], None),
        Err(ConvertError::CoverArt)
    );
}
