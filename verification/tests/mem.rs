use zbars::config::{ZBarConfig, ZBarSymbolType};
use zbars::format::Format;
use zbars::img::ZBarImage;
use zbars::image_scanner::{ImageScannerBuilder, ZBarImageScanner};
use zbars::symbol::SymbolData;
use zbars::symbol_set::ZBarSymbolSet;

const N: usize = 100;

#[test]
fn test_mem_decode_image() {
    assert_eq!(loop_decode().first_symbol().unwrap().data(), "Hello World")
}

#[test]
fn test_symbol_xml() {
    let mut image = qr_hello_world_image();
    let mut scanner = ImageScannerBuilder::new()
        .with_config(ZBarSymbolType::ZBAR_QRCODE, ZBarConfig::ZBAR_CFG_ENABLE, 1)
        .build()
        .unwrap();
    let symbols = scanner.scan_image(&mut image).unwrap();

    for _ in 0..N {
        let xml = symbols.first_symbol().unwrap().xml();
        assert_eq!(
            xml,
            "<symbol type='QR-Code' quality='1'><data><![CDATA[Hello World]]></data></symbol>"
        );
    }
}

fn loop_decode() -> ZBarSymbolSet {
    let mut image = qr_hello_world_image();
    let mut scanner = build_scanner();

    for _ in 0..N {
        let _symbols = scanner.scan_image(&mut image).unwrap();
    }

    scanner.scan_image(&mut image).unwrap()
}

fn build_scanner() -> ZBarImageScanner {
    ImageScannerBuilder::new()
        .with_config(ZBarSymbolType::ZBAR_QRCODE, ZBarConfig::ZBAR_CFG_ENABLE, 1)
        .build()
        .unwrap()
}

fn qr_hello_world_image() -> ZBarImage {
    let mut image =
        ZBarImage::new(150, 150, Format::from_label("Y800"), vec![0; 150 * 150]).unwrap();
    image.set_encoded_symbols(vec![SymbolData::new(
        ZBarSymbolType::ZBAR_QRCODE,
        "Hello World".to_string(),
        1,
        vec![(6, 6), (6, 142), (142, 142), (142, 6)],
    )]);
    image
}
