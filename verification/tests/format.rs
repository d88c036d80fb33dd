use zbars::format::Format;

#[test]
fn test_from_value() {
    assert_eq!(Format::from_value(0x564E5559).as_label(), "YUNV");
    assert_eq!(Format::from_value(0x564E5559).value(), 0x564E5559);
    assert_eq!(Format::from_value(0x20203859).as_label(), "Y8");
    assert_eq!(Format::from_value(0x20203859).value(), 0x20203859);
}

#[test]
fn test_from_label() {
    assert_eq!(Format::from_label("YUNV").value(), 0x564E5559);
    assert_eq!(Format::from_label("Y8").value(), 0x20203859);
}

#[test]
fn test_label() {
    assert_eq!(Format::from_label("YUNV").as_label(), "YUNV");
}

#[test]
fn test_value() {
    assert_eq!(Format::from_value(0x564E5559).value(), 0x564E5559);
}

#[test]
fn test_eq() {
    assert_eq!(Format::from_label("YUNV"), Format::from_label("YUNV"));
    assert_eq!(Format::from_label("YUNV"), Format::from_value(0x564E5559));
}

#[test]
fn format_round_trip_short_label() {
    assert_eq!(Format::from_label("Y800").as_label(), "Y800");
    assert_eq!(Format::from_label("A").as_label(), "A");
    assert_eq!(Format::from_label("").as_label(), "");
}

#[test]
fn format_truncates_long_label() {
    assert_eq!(Format::from_label("GREYS"), Format::from_label("GREY"));
}

#[test]
fn format_label_of_all_spaces_is_empty() {
    assert_eq!(Format::from_value(0x20202020).as_label(), "");
}
