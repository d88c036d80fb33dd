use zbars::config::{ZBarConfig, ZBarSymbolType};
use zbars::{parse_config, symbol_name, version, ZBarError, ZBarErrorType};

#[test]
fn test_version() {
    let (major, minor, _) = version();
    assert_ne!(major + minor, 0);
}

#[test]
fn test_symbol_name() {
    assert_eq!(symbol_name(ZBarSymbolType::ZBAR_QRCODE), "QR-Code");
    assert_eq!(symbol_name(ZBarSymbolType::ZBAR_CODE128), "CODE-128");
}

#[test]
fn test_parse_config() {
    assert_eq!(
        parse_config("qrcode.enable=1").unwrap(),
        (ZBarSymbolType::ZBAR_QRCODE, ZBarConfig::ZBAR_CFG_ENABLE, 1)
    );
}

#[test]
fn test_parse_config_err() {
    assert!(parse_config("Not valid").is_err());
}

#[test]
fn parse_config_more_options() {
    assert_eq!(
        parse_config("code128.min-len=4").unwrap(),
        (ZBarSymbolType::ZBAR_CODE128, ZBarConfig::ZBAR_CFG_MIN_LEN, 4)
    );
    assert_eq!(
        parse_config("ean13.x-density=2").unwrap(),
        (ZBarSymbolType::ZBAR_EAN13, ZBarConfig::ZBAR_CFG_X_DENSITY, 2)
    );
}

#[test]
fn parse_config_rejects_malformed_requests() {
    assert!(parse_config("").is_err());
    assert!(parse_config("qrcode.enable").is_err());
    assert!(parse_config("qrcode=1").is_err());
    assert!(parse_config("nonsense.enable=1").is_err());
    assert!(parse_config("qrcode.nonsense=1").is_err());
    assert!(parse_config("qrcode.enable=x").is_err());
    assert!(parse_config("qrcode.enable=99999999999").is_err());
}

#[test]
fn error_codes_decode_to_kinds() {
    assert_eq!(
        ZBarErrorType::from_code(1),
        ZBarErrorType::Complex(ZBarError::ZBAR_ERR_NOMEM)
    );
    assert_eq!(
        ZBarErrorType::from_code(4),
        ZBarErrorType::Complex(ZBarError::ZBAR_ERR_INVALID)
    );
    assert_eq!(ZBarErrorType::from_code(-1), ZBarErrorType::Simple(-1));
    assert_eq!(ZBarErrorType::from_code(99), ZBarErrorType::Simple(99));
}

#[test]
fn error_descriptions() {
    assert_eq!(
        ZBarErrorType::Complex(ZBarError::ZBAR_ERR_NOMEM).description(),
        "out of memory"
    );
    assert_eq!(ZBarErrorType::Simple(-1).description(), "simple engine error");
}
