use zbars::config::{ZBarConfig, ZBarSymbolType};
use zbars::format::Format;
use zbars::img::ZBarImage;
use zbars::processor::Processor;
use zbars::symbol::SymbolData;

#[test]
fn test_userdata_set_and_get() {
    let userdata = "Hello World".as_bytes().to_owned();

    let mut processor1 = Processor::builder().build().unwrap();
    let mut processor2 = Processor::builder().build().unwrap();
    let mut processor3 = Processor::builder().build().unwrap();

    assert!(processor1.userdata().is_none());

    processor1.set_userdata_borrowed(Some(&userdata));
    processor2.set_userdata_owned(Some(userdata.clone()));
    processor3.set_userdata_borrowed(Some(&userdata));

    assert_eq!(processor1.userdata().unwrap(), processor2.userdata().unwrap());
    assert_eq!(processor1.userdata().unwrap(), processor3.userdata().unwrap());
}

#[test]
fn test_process_image() {
    let mut image = qr_hello_world_image();

    let mut processor = Processor::builder()
        .threaded(true)
        .with_config(ZBarSymbolType::ZBAR_QRCODE, ZBarConfig::ZBAR_CFG_ENABLE, 1)
        .with_config(ZBarSymbolType::ZBAR_CODE128, ZBarConfig::ZBAR_CFG_ENABLE, 1)
        .build()
        .unwrap();

    processor.process_image(&mut image).unwrap();

    let symbol = image.first_symbol().unwrap();

    assert_eq!(symbol.symbol_type(), ZBarSymbolType::ZBAR_QRCODE);
    assert_eq!(symbol.data(), "Hello World");
    assert_eq!(symbol.next().is_none(), true);
}

#[test]
fn processor_control_round_trip() {
    let mut processor = Processor::builder().threaded(true).build().unwrap();
    processor.init("/dev/video0", false).unwrap();
    assert!(processor.set_control("brightness", 100).is_ok());
    assert!(processor.set_control("contrast", 50).is_ok());
    assert_eq!(processor.control("brightness").unwrap(), 100);
    assert_eq!(processor.control("contrast").unwrap(), 50);
    assert!(processor.set_control("brightness", 75).is_ok());
    assert_eq!(processor.control("brightness").unwrap(), 75);
}

#[test]
fn processor_control_needs_init() {
    let mut processor = Processor::builder().build().unwrap();
    assert!(processor.set_control("brightness", 100).is_err());
    assert!(processor.control("brightness").is_err());
}

#[test]
fn processor_control_unknown_name_fails() {
    let mut processor = Processor::builder().build().unwrap();
    processor.init("/dev/video0", false).unwrap();
    assert!(processor.control("brightness").is_err());
}

#[test]
fn processor_process_one_finds_the_first_decodable_frame() {
    let mut processor = Processor::builder()
        .with_config(ZBarSymbolType::ZBAR_QRCODE, ZBarConfig::ZBAR_CFG_ENABLE, 1)
        .build()
        .unwrap();
    processor.init("virtual", false).unwrap();

    processor.queue_frame(blank_image());
    processor.queue_frame(qr_hello_world_image());
    processor.queue_frame(blank_image());

    let symbols = processor.process_one(1000).unwrap().unwrap();
    assert_eq!(symbols.size(), 1);
    assert_eq!(symbols.first_symbol().unwrap().data(), "Hello World");

    assert!(processor.process_one(0).unwrap().is_none());
}

#[test]
fn processor_process_one_times_out_on_a_drained_source() {
    let mut processor = Processor::builder()
        .with_config(ZBarSymbolType::ZBAR_QRCODE, ZBarConfig::ZBAR_CFG_ENABLE, 1)
        .build()
        .unwrap();
    processor.init("virtual", false).unwrap();
    processor.queue_frame(blank_image());
    assert!(processor.process_one(100).unwrap().is_none());
}

#[test]
fn processor_user_wait_times_out() {
    let processor = Processor::builder().build().unwrap();
    assert_eq!(processor.user_wait(250).unwrap(), 250);
}

#[test]
fn processor_visibility_and_activity() {
    let mut processor = Processor::builder().build().unwrap();
    assert_eq!(processor.is_visible().unwrap(), false);
    assert_eq!(processor.set_visible(true).unwrap(), true);
    assert_eq!(processor.is_visible().unwrap(), true);
    assert_eq!(processor.set_active(true).unwrap(), true);
    assert_eq!(processor.set_active(false).unwrap(), false);
}

#[test]
fn processor_negotiation_requests_succeed() {
    let mut processor = Processor::builder().build().unwrap();
    assert!(processor.request_size(640, 480).is_ok());
    assert!(processor.request_interface(2).is_ok());
    assert!(processor.request_iomode(1).is_ok());
    assert!(
        processor
            .force_format(Format::from_label("Y800"), Format::from_label("Y800"))
            .is_ok()
    );
}

#[test]
fn processor_get_results_keeps_the_latest_decode() {
    let mut processor = Processor::builder()
        .with_config(ZBarSymbolType::ZBAR_QRCODE, ZBarConfig::ZBAR_CFG_ENABLE, 1)
        .build()
        .unwrap();
    assert!(processor.get_results().is_none());
    let mut image = qr_hello_world_image();
    processor.process_image(&mut image).unwrap();
    let results = processor.get_results().unwrap();
    assert_eq!(results.first_symbol().unwrap().data(), "Hello World");
}

fn qr_hello_world_image() -> ZBarImage {
    let mut image =
        ZBarImage::new(150, 150, Format::from_label("Y800"), vec![0; 150 * 150]).unwrap();
    image.set_encoded_symbols(vec![SymbolData::new(
        ZBarSymbolType::ZBAR_QRCODE,
        "Hello World".to_string(),
        1,
        vec![(6, 6), (6, 142), (142, 142), (142, 6)],
    )]);
    image
}

fn blank_image() -> ZBarImage {
    ZBarImage::new(8, 8, Format::from_label("Y800"), vec![0; 64]).unwrap()
}
