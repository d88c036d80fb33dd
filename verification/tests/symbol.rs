use zbars::config::{ZBarConfig, ZBarSymbolType};
use zbars::format::Format;
use zbars::img::ZBarImage;
use zbars::image_scanner::ImageScannerBuilder;
use zbars::symbol::{SymbolData, ZBarSymbol};
use zbars::symbol_set::ZBarSymbolSet;

const XML: &str = "<symbol type='QR-Code' quality='1'>\
        <data>\
            <![CDATA[Hello World]]>\
        </data>\
    </symbol>";

#[test]
fn test_from_raw_null() {
    // A symbol handle only comes from scan results; an unscanned image
    // has none to hand out.
    let image = ZBarImage::new(1, 1, Format::from_label("Y8"), vec![0]).unwrap();
    assert!(image.first_symbol().is_none());
}

#[test]
fn symbol_test_data() {
    assert_eq!(create_symbol_en().data(), "Hello World");
}

#[test]
fn test_quality() {
    assert!(create_symbol_en().quality() > 0);
}

#[test]
fn test_count() {
    assert_eq!(create_symbol_en().count(), 0);
}

#[test]
fn test_loc_size() {
    assert_eq!(create_symbol_en().loc_size(), 4);
}

#[test]
fn test_loc_x_y() {
    let symbol = create_symbol_en();
    assert_eq!((symbol.loc_x(0).unwrap(), symbol.loc_y(0).unwrap()), (6, 6));
    assert_eq!((symbol.loc_x(1).unwrap(), symbol.loc_y(1).unwrap()), (6, 142));
    assert_eq!((symbol.loc_x(2).unwrap(), symbol.loc_y(2).unwrap()), (142, 142));
    assert_eq!((symbol.loc_x(3).unwrap(), symbol.loc_y(3).unwrap()), (142, 6));
    assert!(symbol.loc_x(4).is_none());
    assert!(symbol.loc_y(4).is_none());
}

#[test]
fn test_loc() {
    let symbol = create_symbol_en();
    assert_eq!(symbol.loc(0).unwrap(), (6, 6));
    assert_eq!(symbol.loc(1).unwrap(), (6, 142));
    assert_eq!(symbol.loc(2).unwrap(), (142, 142));
    assert_eq!(symbol.loc(3).unwrap(), (142, 6));
    assert!(symbol.loc(4).is_none());
}

#[test]
fn test_symbol_type() {
    assert_eq!(create_symbol_en().symbol_type(), ZBarSymbolType::ZBAR_QRCODE);
}

#[test]
fn test_next() {
    let symbol = create_symbol_multi();
    assert!(symbol.next().is_some());
    assert!(symbol.next().unwrap().next().is_none());
}

#[test]
fn test_components() {
    assert!(create_symbol_multi().components().is_none());
}

#[test]
fn test_first_component() {
    assert!(create_symbol_multi().first_component().is_none());
}

#[test]
fn test_xml() {
    assert_eq!(create_symbol_en().xml(), XML);
}

#[test]
fn test_polygon() {
    let polygon = create_symbol_en().polygon();
    assert_eq!(polygon.point(0).unwrap(), (6, 6));
    assert_eq!(polygon.point(1).unwrap(), (6, 142));
    assert_eq!(polygon.point(2).unwrap(), (142, 142));
    assert_eq!(polygon.point(3).unwrap(), (142, 6));
    assert!(polygon.point(4).is_none());
}

#[test]
fn test_polygon_iter() {
    let polygon = create_symbol_en().polygon();
    let mut iter = polygon.iter();
    assert_eq!(iter.next().unwrap(), (6, 6));
    assert_eq!(iter.next().unwrap(), (6, 142));
    assert_eq!(iter.next().unwrap(), (142, 142));
    assert_eq!(iter.next().unwrap(), (142, 6));
    assert!(iter.next().is_none());
}

#[test]
fn symbol_clone_shares_the_record() {
    let symbol = create_symbol_en();
    {
        let clone = symbol.clone();
        assert_eq!(clone.data(), "Hello World");
    }
    assert_eq!(symbol.data(), "Hello World");
    assert_eq!(symbol.quality(), 1);
}

fn create_symbol_en() -> ZBarSymbol {
    create_symbol_set_from_hello().first_symbol().unwrap()
}

fn create_symbol_multi() -> ZBarSymbol {
    create_symbol_set_from_greetings().first_symbol().unwrap()
}

fn hello_world_image() -> ZBarImage {
    let mut image =
        ZBarImage::new(150, 150, Format::from_label("Y800"), vec![0; 150 * 150]).unwrap();
    image.set_encoded_symbols(vec![SymbolData::new(
        ZBarSymbolType::ZBAR_QRCODE,
        "Hello World".to_string(),
        1,
        vec![(6, 6), (6, 142), (142, 142), (142, 6)],
    )]);
    image
}

fn greetings_image() -> ZBarImage {
    let mut image =
        ZBarImage::new(300, 150, Format::from_label("Y800"), vec![0; 300 * 150]).unwrap();
    image.set_encoded_symbols(vec![
        SymbolData::new(
            ZBarSymbolType::ZBAR_QRCODE,
            "Hello World".to_string(),
            1,
            vec![(6, 6), (6, 142), (142, 142), (142, 6)],
        ),
        SymbolData::new(
            ZBarSymbolType::ZBAR_QRCODE,
            "Hallo Welt".to_string(),
            1,
            vec![(156, 6), (156, 142), (292, 142), (292, 6)],
        ),
    ]);
    image
}

fn scan(mut image: ZBarImage) -> ZBarSymbolSet {
    let mut scanner = ImageScannerBuilder::new()
        .with_cache(false)
        .with_config(ZBarSymbolType::ZBAR_QRCODE, ZBarConfig::ZBAR_CFG_ENABLE, 1)
        .with_config(ZBarSymbolType::ZBAR_CODE128, ZBarConfig::ZBAR_CFG_ENABLE, 1)
        .build()
        .unwrap();
    scanner.scan_image(&mut image).unwrap()
}

fn create_symbol_set_from_hello() -> ZBarSymbolSet {
    scan(hello_world_image())
}

fn create_symbol_set_from_greetings() -> ZBarSymbolSet {
    scan(greetings_image())
}
