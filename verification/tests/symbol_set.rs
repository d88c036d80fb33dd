use zbars::config::{ZBarConfig, ZBarSymbolType};
use zbars::format::Format;
use zbars::img::ZBarImage;
use zbars::image_scanner::ImageScannerBuilder;
use zbars::symbol::SymbolData;
use zbars::symbol_set::ZBarSymbolSet;

#[test]
fn symbol_set_test_size() {
    assert_eq!(create_symbol_set().size(), 2);
}

#[test]
fn symbol_set_test_first_symbol() {
    assert_eq!(create_symbol_set().first_symbol().unwrap().data(), "Hello World");
}

#[test]
fn test_iter() {
    let symbols = create_symbol_set();
    let mut iter = symbols.iter();
    assert_eq!(iter.next().unwrap().data(), "Hello World");
    assert_eq!(iter.next().unwrap().data(), "Hallo Welt");
    assert!(iter.next().is_none());
}

#[test]
fn test_iter_restarts() {
    let symbols = create_symbol_set();
    for _ in 0..3 {
        let mut iter = symbols.iter();
        assert_eq!(iter.next().unwrap().data(), "Hello World");
        assert_eq!(iter.next().unwrap().data(), "Hallo Welt");
        assert!(iter.next().is_none());
        assert!(iter.next().is_none());
    }
}

#[test]
fn test_first_symbol_unfiltered() {
    assert_eq!(create_symbol_set().first_symbol_unfiltered().unwrap().data(), "Hello World");
}

#[test]
fn symbol_set_clone_shares_the_records() {
    let symbols = create_symbol_set();
    {
        let clone = symbols.clone();
        assert_eq!(clone.size(), 2);
        assert_eq!(clone.first_symbol().unwrap().data(), "Hello World");
    }
    assert_eq!(symbols.size(), 2);
    assert_eq!(symbols.first_symbol().unwrap().data(), "Hello World");
}

fn create_symbol_set() -> ZBarSymbolSet {
    let mut image = create_greetings_image();
    let mut scanner = ImageScannerBuilder::new()
        .with_cache(false)
        .with_config(ZBarSymbolType::ZBAR_QRCODE, ZBarConfig::ZBAR_CFG_ENABLE, 1)
        .with_config(ZBarSymbolType::ZBAR_CODE128, ZBarConfig::ZBAR_CFG_ENABLE, 1)
        .build()
        .unwrap();
    scanner.scan_image(&mut image).unwrap();
    image.symbols().unwrap()
}

fn create_greetings_image() -> ZBarImage {
    let mut image =
        ZBarImage::new(300, 150, Format::from_label("Y800"), vec![0; 300 * 150]).unwrap();
    image.set_encoded_symbols(vec![
        SymbolData::new(
            ZBarSymbolType::ZBAR_QRCODE,
            "Hello World".to_string(),
            1,
            vec![(6, 6), (6, 142), (142, 142), (142, 6)],
        ),
        SymbolData::new(
            ZBarSymbolType::ZBAR_QRCODE,
            "Hallo Welt".to_string(),
            1,
            vec![(156, 6), (156, 142), (292, 142), (292, 6)],
        ),
    ]);
    image
}
