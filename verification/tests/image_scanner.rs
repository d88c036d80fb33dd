use zbars::config::{ZBarConfig, ZBarSymbolType};
use zbars::format::Format;
use zbars::img::ZBarImage;
use zbars::image_scanner::{ImageScannerBuilder, ZBarImageScanner};
use zbars::symbol::{SymbolData, ZBarSymbol};

#[test]
fn image_scanner_test_qrcode() {
    let mut image = qr_hello_world_image();

    let mut scanner = ImageScannerBuilder::new()
        .with_config(ZBarSymbolType::ZBAR_QRCODE, ZBarConfig::ZBAR_CFG_ENABLE, 1)
        .build()
        .unwrap();
    scanner.scan_image(&mut image).unwrap();

    assert_qrcode(image.first_symbol().unwrap());

    let symbols = image.symbols().unwrap();
    let mut iter = symbols.iter();

    assert_qrcode(iter.next().unwrap());
    assert!(iter.next().is_none());
}

#[test]
fn image_scanner_test_qrcode_disabled() {
    let mut image = qr_hello_world_image();

    let mut scanner = ImageScannerBuilder::new()
        .with_config(ZBarSymbolType::ZBAR_QRCODE, ZBarConfig::ZBAR_CFG_ENABLE, 0)
        .build()
        .unwrap();
    scanner.scan_image(&mut image).unwrap();

    assert!(image.first_symbol().is_none());
}

#[test]
fn image_scanner_test_code128() {
    let mut image = code128_image();

    let mut scanner = ImageScannerBuilder::new()
        .with_config(ZBarSymbolType::ZBAR_CODE128, ZBarConfig::ZBAR_CFG_ENABLE, 1)
        .build()
        .unwrap();
    scanner.scan_image(&mut image).unwrap();

    assert_code128(image.first_symbol().unwrap());

    let symbols = image.symbols().unwrap();
    let mut iter = symbols.iter();

    assert_code128(iter.next().unwrap());
    assert!(iter.next().is_none());
}

#[test]
fn image_scanner_test_code128_disabled() {
    let mut image = code128_image();

    let mut scanner = ImageScannerBuilder::new()
        .with_config(ZBarSymbolType::ZBAR_CODE128, ZBarConfig::ZBAR_CFG_ENABLE, 0)
        .build()
        .unwrap();
    scanner.scan_image(&mut image).unwrap();

    assert!(image.first_symbol().is_none());
}

#[test]
fn image_scanner_test_recycle_image() {
    let mut image = code128_image();

    let mut scanner = ImageScannerBuilder::new()
        .with_config(ZBarSymbolType::ZBAR_CODE128, ZBarConfig::ZBAR_CFG_ENABLE, 1)
        .build()
        .unwrap();
    scanner.scan_image(&mut image).unwrap();

    scanner.recycle_image(&mut image);
    assert!(image.first_symbol().is_none());
}

#[test]
fn test_get_results() {
    let mut scanner = ImageScannerBuilder::new()
        .with_config(ZBarSymbolType::ZBAR_CODE128, ZBarConfig::ZBAR_CFG_ENABLE, 1)
        .build()
        .unwrap();
    {
        let mut image = code128_image();
        scanner.scan_image(&mut image).unwrap();
    }

    assert_code128(scanner.results().unwrap().first_symbol().unwrap());
}

#[test]
fn scanner_disables_everything_at_start() {
    let mut scanner = ZBarImageScanner::new();
    let mut image = qr_hello_world_image();
    let symbols = scanner.scan_image(&mut image).unwrap();
    assert_eq!(symbols.size(), 0);
    assert!(symbols.first_symbol().is_none());
}

#[test]
fn scanner_cache_suppresses_duplicates() {
    let mut scanner = ImageScannerBuilder::new()
        .with_cache(true)
        .with_config(ZBarSymbolType::ZBAR_QRCODE, ZBarConfig::ZBAR_CFG_ENABLE, 1)
        .build()
        .unwrap();
    let mut first = qr_hello_world_image();
    let mut second = qr_hello_world_image();
    assert_eq!(scanner.scan_image(&mut first).unwrap().size(), 1);
    assert_eq!(scanner.scan_image(&mut second).unwrap().size(), 0);
}

#[test]
fn scanner_without_cache_reports_duplicates() {
    let mut scanner = ImageScannerBuilder::new()
        .with_cache(false)
        .with_config(ZBarSymbolType::ZBAR_QRCODE, ZBarConfig::ZBAR_CFG_ENABLE, 1)
        .build()
        .unwrap();
    let mut first = qr_hello_world_image();
    let mut second = qr_hello_world_image();
    assert_eq!(scanner.scan_image(&mut first).unwrap().size(), 1);
    assert_eq!(scanner.scan_image(&mut second).unwrap().size(), 1);
}

#[test]
fn scanner_wildcard_enable_reports_everything() {
    let mut scanner = ZBarImageScanner::new();
    scanner.set_config(ZBarSymbolType::ZBAR_NONE, ZBarConfig::ZBAR_CFG_ENABLE, 1).unwrap();
    let mut image = qr_hello_world_image();
    assert_eq!(scanner.scan_image(&mut image).unwrap().size(), 1);
}

fn assert_qrcode(symbol: ZBarSymbol) {
    assert_eq!(symbol.symbol_type(), ZBarSymbolType::ZBAR_QRCODE);
    assert_eq!(symbol.data(), "Hello World");
    assert_eq!(symbol.next().is_none(), true);
}

fn assert_code128(symbol: ZBarSymbol) {
    assert_eq!(symbol.symbol_type(), ZBarSymbolType::ZBAR_CODE128);
    assert_eq!(symbol.data(), "Screwdriver");
    assert_eq!(symbol.next().is_none(), true);
}

fn qr_hello_world_image() -> ZBarImage {
    let mut image =
        ZBarImage::new(150, 150, Format::from_label("Y800"), vec![0; 150 * 150]).unwrap();
    image.set_encoded_symbols(vec![SymbolData::new(
        ZBarSymbolType::ZBAR_QRCODE,
        "Hello World".to_string(),
        1,
        vec![(6, 6), (6, 142), (142, 142), (142, 6)],
    )]);
    image
}

fn code128_image() -> ZBarImage {
    let mut image =
        ZBarImage::new(222, 80, Format::from_label("Y800"), vec![0; 222 * 80]).unwrap();
    image.set_encoded_symbols(vec![SymbolData::new(
        ZBarSymbolType::ZBAR_CODE128,
        "Screwdriver".to_string(),
        1,
        vec![(4, 4), (4, 76), (218, 76), (218, 4)],
    )]);
    image
}
