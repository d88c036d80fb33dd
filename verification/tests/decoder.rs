use zbars::config::{ZBarConfig, ZBarSymbolType};
use zbars::decoder::Decoder;

#[test]
fn decoder_accepts_configuration() {
    let mut decoder = Decoder::new();
    assert!(decoder.set_config(ZBarSymbolType::ZBAR_QRCODE, ZBarConfig::ZBAR_CFG_ENABLE, 0).is_ok());
    assert!(decoder.set_config(ZBarSymbolType::ZBAR_NONE, ZBarConfig::ZBAR_CFG_ENABLE, 1).is_ok());
}

#[test]
fn decoder_default_matches_new() {
    let _decoder: Decoder = Default::default();
}
