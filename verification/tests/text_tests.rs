use image_compare::drawing::{format_file_size, truncate_name};
use image_compare::export::{file_stem, sanitize_stem, ExportFormat};
use image_compare::load::{clipboard_filename, is_image_mime, multi_drop_side};
use image_compare::types::Side;

/// The byte-size formatting as the viewer's header did it with floats.
fn float_file_size(bytes: usize) -> String {
    let units = ["B", "KB", "MB", "GB"];
    let mut size = bytes as f64;
    let mut unit = 0;
    while size >= 1024.0 && unit < units.len() - 1 {
        size /= 1024.0;
        unit += 1;
    }
    if unit == 0 {
        format!("{} {}", bytes, units[unit])
    } else {
        format!("{:.1} {}", size, units[unit])
    }
}

#[test]
fn file_size_below_one_kilobyte_is_exact() {
    assert_eq!(format_file_size(0), "0 B");
    assert_eq!(format_file_size(7), "7 B");
    assert_eq!(format_file_size(1023), "1023 B");
}

#[test]
fn file_size_uses_largest_unit() {
    assert_eq!(format_file_size(1024), "1.0 KB");
    assert_eq!(format_file_size(1536), "1.5 KB");
    assert_eq!(format_file_size(1024 * 1024), "1.0 MB");
    assert_eq!(format_file_size(3 * 1024 * 1024 + 300 * 1024), "3.3 MB");
    assert_eq!(format_file_size(5 * 1024 * 1024 * 1024), "5.0 GB");
    assert_eq!(format_file_size(2048 * 1024 * 1024 * 1024), "2048.0 GB");
}

#[test]
fn file_size_rounding_ties_match_float_formatting() {
    // 1280 bytes is exactly 1.25 KB: a tie at the first decimal.
    assert_eq!(format_file_size(1280), float_file_size(1280));
    assert_eq!(format_file_size(1792), float_file_size(1792));
    assert_eq!(format_file_size(1280 * 1024), float_file_size(1280 * 1024));
}

#[test]
fn file_size_matches_float_formatting_on_many_values() {
    let mut samples: Vec<usize> = Vec::new();
    for b in 0..5000usize {
        samples.push(b);
    }
    for k in 0..64u32 {
        let p = 1usize.checked_shl(k).unwrap_or(0);
        for d in [0usize, 1, 2, 3, 51, 52, 1000, 1023, 1024, 1025] {
            samples.push(p.wrapping_add(d));
            samples.push(p.wrapping_sub(d));
        }
    }
    for m in 0..2000usize {
        samples.push(m * 256 / 5 * 5);
        samples.push(m * 1024 * 1024 / 20 * 7 + 3);
        samples.push(m.wrapping_mul(0x9E37_79B9_7F4A_7C15));
    }
    samples.push(usize::MAX);
    samples.push(usize::MAX - 1);
    samples.push((1usize << 53) + 1);
    for b in samples {
        assert_eq!(format_file_size(b), float_file_size(b), "bytes = {b}");
    }
}

#[test]
fn truncate_keeps_short_names() {
    assert_eq!(truncate_name("photo.png", 18), "photo.png");
    assert_eq!(truncate_name("exactly-eighteen.x", 18), "exactly-eighteen.x");
}

#[test]
fn truncate_shortens_long_names_with_ellipsis() {
    let t = truncate_name("a-very-long-file-name-indeed.png", 18);
    assert_eq!(t, "a-very-long-file-\u{2026}");
    assert_eq!(t.chars().count(), 18);
    assert_eq!(truncate_name("\u{e9}t\u{e9}-photo", 3), "\u{e9}t\u{2026}");
}

#[test]
fn truncate_to_zero_gives_empty_name() {
    assert_eq!(truncate_name("abc", 0), "");
    assert_eq!(truncate_name("a", 0), "");
    assert_eq!(truncate_name("", 0), "");
}

#[test]
fn file_stem_strips_directories_and_extension() {
    assert_eq!(file_stem("dir/sub/photo.jpeg"), "photo");
    assert_eq!(file_stem("C:\\Users\\me\\shot.png"), "shot");
    assert_eq!(file_stem("archive.tar.gz"), "archive.tar");
    assert_eq!(file_stem("plain"), "plain");
}

#[test]
fn file_stem_keeps_names_without_a_real_extension() {
    assert_eq!(file_stem(".bashrc"), ".bashrc");
    assert_eq!(file_stem("trailing."), "trailing.");
    assert_eq!(file_stem("name.toolong"), "name.toolong");
    assert_eq!(file_stem("name.12345"), "name");
    // "é" takes two bytes, so this extension is six bytes long.
    assert_eq!(file_stem("x.abcd\u{e9}"), "x.abcd\u{e9}");
    assert_eq!(file_stem("a/b/"), "");
}

#[test]
fn sanitize_replaces_and_collapses() {
    assert_eq!(sanitize_stem("My Photo (1)"), "My-Photo-1");
    assert_eq!(sanitize_stem("a__b--c"), "a__b-c");
    assert_eq!(sanitize_stem("  spaced  out  "), "spaced-out");
    assert_eq!(sanitize_stem("\u{e9}t\u{e9}"), "t");
}

#[test]
fn sanitize_falls_back_to_image() {
    assert_eq!(sanitize_stem(""), "image");
    assert_eq!(sanitize_stem("---"), "image");
    assert_eq!(sanitize_stem("\u{1F600}"), "image");
}

#[test]
fn sanitize_caps_length_at_forty() {
    let long = "x".repeat(55);
    assert_eq!(sanitize_stem(&long), "x".repeat(40));
    let dashed = format!("{}-b", "a".repeat(39));
    let once = sanitize_stem(&dashed);
    assert_eq!(once, format!("{}-", "a".repeat(39)));
    // The cut fell right after a dash, so a second pass trims it.
    assert_eq!(sanitize_stem(&once), "a".repeat(39));
}

#[test]
fn sanitize_is_idempotent_on_clean_output() {
    for s in ["My Photo (1)", "  x  ", "a.b.c", "___", "\u{e9}"] {
        let once = sanitize_stem(s);
        assert_eq!(sanitize_stem(&once), once);
    }
}

#[test]
fn export_format_strings() {
    assert_eq!(ExportFormat::Png.label(), "PNG");
    assert_eq!(ExportFormat::Webp.label(), "WebP");
    assert_eq!(ExportFormat::Jpg.mime(), "image/jpeg");
    assert_eq!(ExportFormat::Avif.mime(), "image/avif");
    assert_eq!(ExportFormat::Jpg.extension(), "jpg");
    assert_eq!(ExportFormat::Webp.extension(), "webp");
    assert!(!ExportFormat::Png.is_lossy());
    assert!(ExportFormat::Jpg.is_lossy());
    assert!(ExportFormat::Webp.is_lossy());
    assert!(ExportFormat::Avif.is_lossy());
    assert_eq!(ExportFormat::ALL.len(), 4);
}

#[test]
fn blob_type_check_accepts_requested_type_in_any_case() {
    assert!(ExportFormat::Png.blob_type_matches("image/png"));
    assert!(ExportFormat::Jpg.blob_type_matches("IMAGE/JPEG"));
    assert!(ExportFormat::Webp.blob_type_matches("Image/WebP"));
    assert!(ExportFormat::Png.blob_type_matches(""));
}

#[test]
fn blob_type_check_refuses_fallback_png() {
    assert!(!ExportFormat::Avif.blob_type_matches("image/png"));
    assert!(!ExportFormat::Jpg.blob_type_matches(""));
    assert!(!ExportFormat::Webp.blob_type_matches("image/webpx"));
    for f in ExportFormat::ALL {
        for g in ExportFormat::ALL {
            assert_eq!(f.blob_type_matches(g.mime()), f == g);
        }
    }
}

#[test]
fn clipboard_names() {
    assert_eq!(clipboard_filename("shot.png", "image/png"), "shot.png");
    assert_eq!(clipboard_filename("", "image/jpeg"), "clipboard.jpg");
    assert_eq!(clipboard_filename("", "image/svg+xml"), "clipboard.svg");
    assert_eq!(clipboard_filename("", "image/png"), "clipboard.png");
    assert_eq!(clipboard_filename("", "weird"), "clipboard.weird");
    assert_eq!(clipboard_filename("", "a/b/webp"), "clipboard.webp");
}

#[test]
fn multi_drop_sides() {
    assert_eq!(multi_drop_side(0), Some(Side::Left));
    assert_eq!(multi_drop_side(1), Some(Side::Right));
    assert_eq!(multi_drop_side(2), None);
    assert_eq!(multi_drop_side(usize::MAX), None);
    assert_eq!(Side::Left.index(), 0);
    assert_eq!(Side::Right.index(), 1);
}

#[test]
fn image_mime_types() {
    assert!(is_image_mime("image/png"));
    assert!(is_image_mime("image/"));
    assert!(!is_image_mime("text/plain"));
    assert!(!is_image_mime("image"));
    assert!(!is_image_mime("Image/png"));
    assert!(!is_image_mime(""));
}

#[test]
fn all_sides_left_first() {
    assert_eq!(Side::ALL, [Side::Left, Side::Right]);
}
