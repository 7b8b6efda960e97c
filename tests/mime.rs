use ocr_answer::mime::{get_mime_type, mime_for_extension};

#[test]
fn table_extensions_get_their_types() {
    assert_eq!(mime_for_extension("png"), "image/png");
    assert_eq!(mime_for_extension("jpg"), "image/jpeg");
    assert_eq!(mime_for_extension("jpeg"), "image/jpeg");
    assert_eq!(mime_for_extension("gif"), "image/gif");
    assert_eq!(mime_for_extension("tif"), "image/tiff");
    assert_eq!(mime_for_extension("tiff"), "image/tiff");
    assert_eq!(mime_for_extension("pdf"), "application/pdf");
}

#[test]
fn other_extensions_are_generic() {
    assert_eq!(mime_for_extension("bmp"), "application/octet-stream");
    assert_eq!(mime_for_extension(""), "application/octet-stream");
    assert_eq!(mime_for_extension("PNG"), "application/octet-stream");
    assert_eq!(mime_for_extension("pngx"), "application/octet-stream");
}

#[test]
fn paths_are_typed_by_their_extension() {
    assert_eq!(get_mime_type("photo.png"), "image/png");
    assert_eq!(get_mime_type("/tmp/scans/page.1.jpeg"), "image/jpeg");
    assert_eq!(get_mime_type("docs/report.pdf"), "application/pdf");
    assert_eq!(get_mime_type("scan.tif"), "image/tiff");
    assert_eq!(get_mime_type("anim.gif"), "image/gif");
}

#[test]
fn paths_without_extension_are_generic() {
    assert_eq!(get_mime_type("README"), "application/octet-stream");
    assert_eq!(get_mime_type(".png"), "application/octet-stream");
    assert_eq!(get_mime_type("images.png/scan"), "application/octet-stream");
    assert_eq!(get_mime_type(""), "application/octet-stream");
    assert_eq!(get_mime_type("photo.PNG"), "application/octet-stream");
}
