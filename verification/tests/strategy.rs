use cmd_compressor::strategy::{select_strategy, Strategy};

#[test]
fn pdf_is_rewritten() {
    assert_eq!(select_strategy("pdf"), Strategy::Rewrite);
}

#[test]
fn jpeg_extensions_are_reencoded_as_jpeg() {
    assert_eq!(select_strategy("jpg"), Strategy::ReencodeJpeg);
    assert_eq!(select_strategy("jpeg"), Strategy::ReencodeJpeg);
    assert_eq!(select_strategy("img"), Strategy::ReencodeJpeg);
}

#[test]
fn png_is_reencoded_as_png() {
    assert_eq!(select_strategy("png"), Strategy::ReencodePng);
}

#[test]
fn other_extensions_are_unsupported() {
    for extension in ["txt", "", "gif", "pdfx", "pd", "jpe", "jpegs", "pngg", "p.f", "pdf ", "ｐｄｆ"] {
        assert_eq!(select_strategy(extension), Strategy::Unsupported);
    }
}

#[test]
fn the_table_expects_lowercase() {
    assert_eq!(select_strategy("PDF"), Strategy::Unsupported);
    assert_eq!(select_strategy("Jpg"), Strategy::Unsupported);
}
