use qr_decoder::formats::{
    eq_ignore_ascii_case, extension_of, file_name_of, is_supported_by, is_supported_format,
    is_supported_path, lowered, supported_formats, to_ascii_lower,
};

#[test]
fn the_formats_that_can_be_read() {
    assert_eq!(supported_formats(), vec!["jpg", "jpeg", "png", "bmp", "tiff", "tif", "webp"]);
}

#[test]
fn extensions_of_paths() {
    assert_eq!(extension_of("test.jpg"), Some("jpg"));
    assert_eq!(extension_of("dir/sub/photo.final.PNG"), Some("PNG"));
    assert_eq!(extension_of("archive.tar.gz"), Some("gz"));
    assert_eq!(extension_of("test"), None);
    assert_eq!(extension_of(""), None);
    assert_eq!(extension_of("dir.d/test"), None);
    assert_eq!(extension_of("dir/"), None);
    assert_eq!(extension_of(".hidden"), None);
    assert_eq!(extension_of("dir/.hidden"), None);
    assert_eq!(extension_of(".hidden.png"), Some("png"));
    assert_eq!(extension_of("trailing."), Some(""));
    assert_eq!(extension_of(".."), None);
    assert_eq!(extension_of("dir/.."), None);
    assert_eq!(extension_of("..."), Some(""));
    assert_eq!(extension_of("a..b"), Some("b"));
    assert_eq!(extension_of("图像.二维码"), Some("二维码"));
}

#[test]
fn extensions_agree_with_the_standard_library() {
    let paths = [
        "test.jpg", "a/b/c.png", "noext", ".hidden", ".hidden.png", "a.b.c", "trailing.", "..",
        "dir/..", "...", "a..b", "", "dir.d/file", "x/.y/z.w", "图像.二维码", "a/.b.c",
    ];
    for path in paths {
        let expected = std::path::Path::new(path).extension().and_then(|e| e.to_str());
        assert_eq!(extension_of(path), expected, "for {:?}", path);
    }
}

#[test]
fn last_components_of_paths() {
    assert_eq!(file_name_of("a/b/c.png"), "c.png");
    assert_eq!(file_name_of("c.png"), "c.png");
    assert_eq!(file_name_of("/c.png"), "c.png");
    assert_eq!(file_name_of("a/b/"), "");
    assert_eq!(file_name_of(""), "");
    assert_eq!(file_name_of("/"), "");
    assert_eq!(file_name_of("目录/图像.png"), "图像.png");
}

#[test]
fn case_of_ascii_letters() {
    assert_eq!(to_ascii_lower('A'), 'a');
    assert_eq!(to_ascii_lower('Z'), 'z');
    assert_eq!(to_ascii_lower('a'), 'a');
    assert_eq!(to_ascii_lower('@'), '@');
    assert_eq!(to_ascii_lower('['), '[');
    assert_eq!(to_ascii_lower('É'), 'É');
    assert_eq!(lowered("JPeG"), "jpeg");
    assert_eq!(lowered("ÀB1"), "Àb1");
    assert_eq!(lowered(""), "");
    assert!(eq_ignore_ascii_case("JPG", "jpg"));
    assert!(eq_ignore_ascii_case("", ""));
    assert!(!eq_ignore_ascii_case("jpg", "jpeg"));
    assert!(!eq_ignore_ascii_case("jpg", "jpx"));
    assert!(!eq_ignore_ascii_case("É", "é"));
    for (a, b) in [("JPG", "jpg"), ("k", "K"), ("tiff", "tif"), ("É", "é"), ("", "a")] {
        assert_eq!(eq_ignore_ascii_case(a, b), a.eq_ignore_ascii_case(b));
    }
}

#[test]
fn formats_by_extension() {
    assert!(is_supported_format(Some("jpg")));
    assert!(is_supported_format(Some("TIF")));
    assert!(is_supported_format(Some("WebP")));
    assert!(!is_supported_format(Some("gif")));
    assert!(!is_supported_format(Some("")));
    assert!(!is_supported_format(Some("jpgx")));
    assert!(!is_supported_format(None));
    let own = vec!["gif".to_string(), "PNG".to_string()];
    assert!(is_supported_by(Some("GIF"), &own));
    assert!(is_supported_by(Some("png"), &own));
    assert!(!is_supported_by(Some("jpg"), &own));
    assert!(!is_supported_by(None, &own));
    assert!(!is_supported_by(Some("gif"), &Vec::new()));
}

#[test]
fn formats_by_path() {
    assert!(is_supported_path("a/b/photo.Jpeg"));
    assert!(is_supported_path("photo.tif"));
    assert!(!is_supported_path("photo.jpeg/readme"));
    assert!(!is_supported_path(".png"));
    assert!(!is_supported_path("photo."));
}
